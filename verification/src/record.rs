//! The durable per-repository sync record and the message announced for it.

use vstd::prelude::*;

verus! {

/// Where a repository stands with respect to its mirror.
#[derive(Clone, Copy, Debug, PartialEq, Eq, Structural)]
pub enum SyncStatus {
    /// No sync attempt has been recorded yet.
    Pending,
    /// The mirror holds the repository. Terminal: later scans skip it.
    Succeeded,
    /// The last attempt failed. A later scan tries again.
    Failed,
}

/// A point in time, as seconds and nanoseconds since the Unix epoch (UTC).
#[derive(Clone, Copy, Debug, PartialEq, Eq, Structural)]
pub struct Timestamp {
    pub seconds: i64,
    pub nanos: u32,
}

/// The mathematical content of a [`SyncRecord`], and of the [`RepoMessage`]
/// projected from it.
pub ghost struct RecordView {
    pub name: Seq<char>,
    pub upstream_url: Option<Seq<char>>,
    pub mirror_url: Seq<char>,
    pub status: SyncStatus,
    pub error_message: Option<Seq<char>>,
    pub updated_at: Timestamp,
}

impl RecordView {
    /// The record of a repository that has just been seen for the first time.
    pub open spec fn pending(name: Seq<char>) -> RecordView {
        RecordView {
            name,
            upstream_url: None,
            mirror_url: Seq::empty(),
            status: SyncStatus::Pending,
            error_message: None,
            updated_at: Timestamp { seconds: 0, nanos: 0 },
        }
    }

    /// An error message is kept only by a failed record.
    pub open spec fn well_formed(self) -> bool {
        self.error_message is Some ==> self.status == SyncStatus::Failed
    }

    /// The record after both addresses of the repository have been resolved.
    /// A succeeded record keeps its addresses.
    pub open spec fn with_urls(self, upstream_url: Seq<char>, mirror_url: Seq<char>) -> RecordView {
        if self.status == SyncStatus::Succeeded {
            self
        } else {
            RecordView { upstream_url: Some(upstream_url), mirror_url, ..self }
        }
    }

    /// The record after a successful push at time `now`. A succeeded record
    /// stays as it is.
    pub open spec fn succeeded(self, now: Timestamp) -> RecordView {
        if self.status == SyncStatus::Succeeded {
            self
        } else {
            RecordView {
                status: SyncStatus::Succeeded,
                error_message: None,
                updated_at: now,
                ..self
            }
        }
    }

    /// The record after an attempt that failed with `message` at time `now`.
    /// A succeeded record stays as it is.
    pub open spec fn failed(self, message: Seq<char>, now: Timestamp) -> RecordView {
        if self.status == SyncStatus::Succeeded {
            self
        } else {
            RecordView {
                status: SyncStatus::Failed,
                error_message: Some(message),
                updated_at: now,
                ..self
            }
        }
    }
}

/// One repository's entry in the record store, keyed by `name`.
#[derive(Debug, PartialEq, Eq)]
pub struct SyncRecord {
    /// Repository name, the key of the record.
    pub name: String,
    /// The upstream address as discovered, kept for audit.
    pub upstream_url: Option<String>,
    /// The address on the mirror gateway that is pushed to.
    pub mirror_url: String,
    pub status: SyncStatus,
    /// What went wrong; present only while `status` is `Failed`.
    pub error_message: Option<String>,
    /// Time of the last status transition.
    pub updated_at: Timestamp,
}

/// The wire message announced on the bus after a successful sync: the record
/// as it stands after the update.
#[derive(Debug, PartialEq, Eq)]
pub struct RepoMessage {
    pub name: String,
    pub upstream_url: Option<String>,
    pub mirror_url: String,
    pub status: SyncStatus,
    pub error_message: Option<String>,
    pub updated_at: Timestamp,
}

/// The characters of an optional string.
pub open spec fn text_of(value: Option<String>) -> Option<Seq<char>> {
    match value {
        Some(s) => Some(s@),
        None => None,
    }
}

/// A copy of an optional string.
pub fn copy_text(value: &Option<String>) -> (copy: Option<String>)
    ensures
        text_of(copy) == text_of(*value),
{
    match value {
        Some(s) => Some(s.clone()),
        None => None,
    }
}

impl View for SyncRecord {
    type V = RecordView;

    open spec fn view(&self) -> RecordView {
        RecordView {
            name: self.name@,
            upstream_url: text_of(self.upstream_url),
            mirror_url: self.mirror_url@,
            status: self.status,
            error_message: text_of(self.error_message),
            updated_at: self.updated_at,
        }
    }
}

impl View for RepoMessage {
    type V = RecordView;

    open spec fn view(&self) -> RecordView {
        RecordView {
            name: self.name@,
            upstream_url: text_of(self.upstream_url),
            mirror_url: self.mirror_url@,
            status: self.status,
            error_message: text_of(self.error_message),
            updated_at: self.updated_at,
        }
    }
}

impl Clone for SyncRecord {
    fn clone(&self) -> (copy: Self)
        ensures
            copy@ == self@,
    {
        SyncRecord {
            name: self.name.clone(),
            upstream_url: copy_text(&self.upstream_url),
            mirror_url: self.mirror_url.clone(),
            status: self.status,
            error_message: copy_text(&self.error_message),
            updated_at: self.updated_at,
        }
    }
}

impl Clone for RepoMessage {
    fn clone(&self) -> (copy: Self)
        ensures
            copy@ == self@,
    {
        RepoMessage {
            name: self.name.clone(),
            upstream_url: copy_text(&self.upstream_url),
            mirror_url: self.mirror_url.clone(),
            status: self.status,
            error_message: copy_text(&self.error_message),
            updated_at: self.updated_at,
        }
    }
}

impl SyncRecord {
    /// The record created the first time a repository name is seen.
    pub fn pending(name: String) -> (record: SyncRecord)
        ensures
            record@ == RecordView::pending(name@),
            record@.well_formed(),
    {
        SyncRecord {
            name,
            upstream_url: None,
            mirror_url: String::new(),
            status: SyncStatus::Pending,
            error_message: None,
            updated_at: Timestamp { seconds: 0, nanos: 0 },
        }
    }

    /// Whether the repository is already mirrored, so that a scan skips it.
    pub fn is_synced(&self) -> (synced: bool)
        ensures
            synced == (self@.status == SyncStatus::Succeeded),
    {
        match self.status {
            SyncStatus::Succeeded => true,
            _ => false,
        }
    }

    /// Records the upstream address and the mirror address.
    pub fn with_urls(self, upstream_url: String, mirror_url: String) -> (record: SyncRecord)
        ensures
            record@ == self@.with_urls(upstream_url@, mirror_url@),
    {
        if self.is_synced() {
            self
        } else {
            SyncRecord { upstream_url: Some(upstream_url), mirror_url, ..self }
        }
    }

    /// Records a successful push: the status becomes `Succeeded` and the error
    /// message is cleared.
    pub fn succeeded(self, now: Timestamp) -> (record: SyncRecord)
        ensures
            record@ == self@.succeeded(now),
    {
        if self.is_synced() {
            self
        } else {
            SyncRecord {
                status: SyncStatus::Succeeded,
                error_message: None,
                updated_at: now,
                ..self
            }
        }
    }

    /// Records a failed attempt with the captured error text.
    pub fn failed(self, message: String, now: Timestamp) -> (record: SyncRecord)
        ensures
            record@ == self@.failed(message@, now),
    {
        if self.is_synced() {
            self
        } else {
            SyncRecord {
                status: SyncStatus::Failed,
                error_message: Some(message),
                updated_at: now,
                ..self
            }
        }
    }

    /// The wire message for this record.
    pub fn message(&self) -> (message: RepoMessage)
        ensures
            message@ == self@,
    {
        RepoMessage {
            name: self.name.clone(),
            upstream_url: copy_text(&self.upstream_url),
            mirror_url: self.mirror_url.clone(),
            status: self.status,
            error_message: copy_text(&self.error_message),
            updated_at: self.updated_at,
        }
    }
}

/// A record that is worked on is well formed after every transition: a
/// success leaves no error message, a failure leaves one, and both stamp the
/// record with the time of the transition.
pub proof fn law_transitions_leave_record_well_formed(
    record: RecordView,
    message: Seq<char>,
    now: Timestamp,
)
    requires
        record.status != SyncStatus::Succeeded,
    ensures
        record.succeeded(now).well_formed(),
        record.succeeded(now).status == SyncStatus::Succeeded,
        record.succeeded(now).error_message is None,
        record.succeeded(now).updated_at == now,
        record.failed(message, now).well_formed(),
        record.failed(message, now).status == SyncStatus::Failed,
        record.failed(message, now).error_message == Some(message),
        record.failed(message, now).updated_at == now,
        RecordView::pending(record.name).well_formed(),
{
}

/// `Succeeded` is terminal: no transition changes a record that says so.
pub proof fn law_succeeded_record_is_kept(
    record: RecordView,
    upstream_url: Seq<char>,
    mirror_url: Seq<char>,
    message: Seq<char>,
    now: Timestamp,
)
    requires
        record.status == SyncStatus::Succeeded,
    ensures
        record.succeeded(now) == record,
        record.failed(message, now) == record,
        record.with_urls(upstream_url, mirror_url) == record,
{
}

/// A transition touches nothing but what it records: the name and the
/// addresses survive success and failure, and the status and the error
/// message survive the recording of the addresses.
pub proof fn law_transitions_keep_the_rest(
    record: RecordView,
    upstream_url: Seq<char>,
    mirror_url: Seq<char>,
    message: Seq<char>,
    now: Timestamp,
)
    ensures
        record.succeeded(now).name == record.name,
        record.succeeded(now).upstream_url == record.upstream_url,
        record.succeeded(now).mirror_url == record.mirror_url,
        record.failed(message, now).name == record.name,
        record.failed(message, now).upstream_url == record.upstream_url,
        record.failed(message, now).mirror_url == record.mirror_url,
        record.with_urls(upstream_url, mirror_url).name == record.name,
        record.with_urls(upstream_url, mirror_url).status == record.status,
        record.with_urls(upstream_url, mirror_url).error_message == record.error_message,
        record.with_urls(upstream_url, mirror_url).updated_at == record.updated_at,
{
}

} // verus!
