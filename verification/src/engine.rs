//! The sync of one repository, as a state machine.
//!
//! The machine never acts by itself. It names the next [`Action`]; the driver
//! performs it and reports what happened as an [`Event`]. The stages follow
//! one another strictly: load the record, list the remotes and resolve the
//! addresses, configure the mirror remote, push, announce and persist.

use crate::command::{CommandOutput, OutputView};
use crate::push::{judge_push, verdict_of, PushVerdict, VerdictView};
use crate::record::{RecordView, RepoMessage, SyncRecord, SyncStatus, Timestamp};
use crate::remote::{removal_cleared, removal_left_name_free, MIRROR_REMOTE};
use crate::resolver::{survey, survey_of, Survey, SurveyView};
use vstd::prelude::*;

verus! {

/// What is recorded as the error message of a command that timed out.
pub const TIMEOUT_NOTICE: &'static str = "command timed out";

/// What the machine is waiting for.
#[derive(Clone, Copy, Debug, PartialEq, Eq, Structural)]
pub enum Phase {
    /// The record has been asked for.
    AwaitingRecord,
    /// The listing of the remotes has been asked for.
    ListingRemotes,
    /// The removal of the mirror remote has been asked for.
    RemovingRemote,
    /// The addition of the mirror remote has been asked for.
    AddingRemote,
    /// The push of all branches has been asked for.
    PushingBranches,
    /// The push of all tags has been asked for.
    PushingTags,
    /// The announcement on the message bus has been asked for.
    Publishing,
    /// The write of the record has been asked for.
    Persisting,
    /// Nothing is left to do for this repository.
    Done,
}

/// How the processing of one repository ended.
#[derive(Clone, Copy, Debug, PartialEq, Eq, Structural)]
pub enum Outcome {
    /// The record said `Succeeded`; the repository was skipped.
    AlreadySynced,
    /// No recognizable upstream was found; the record keeps its status.
    NoUpstream,
    /// Pushed, announced and recorded.
    Synced,
    /// Pushed and recorded, but the announcement was not delivered.
    SyncedUnannounced,
    /// The attempt failed and the failure was recorded.
    Failed,
    /// The record store could not be read or written.
    StoreUnavailable,
}

/// What the driver reports back to the machine.
#[derive(Debug, PartialEq, Eq)]
pub enum Event {
    /// The store answered: the record kept under the repository's name, or
    /// none.
    RecordLoaded { record: Option<SyncRecord> },
    /// The store could not be read or written.
    StoreFailed,
    /// The version-control command that was asked for has finished.
    CommandFinished { output: CommandOutput },
    /// The version-control command that was asked for did not finish in the
    /// time the driver allows, and the driver has given it up.
    CommandTimedOut,
    /// The message bus took the announcement.
    Published,
    /// The message bus did not take the announcement.
    PublishFailed,
    /// The store took the record.
    Persisted,
}

/// What the machine asks the driver to do next.
#[derive(Debug, PartialEq, Eq)]
pub enum Action {
    /// Read the record kept under `name`.
    LoadRecord { name: String },
    /// List the working copy's remotes with their URLs.
    ListRemotes,
    /// Remove the remote called `name`.
    RemoveRemote { name: String },
    /// Add a remote called `name` that points at `url`.
    AddRemote { name: String, url: String },
    /// Push all branches to `remote`.
    PushBranches { remote: String },
    /// Push all tags to `remote`.
    PushTags { remote: String },
    /// Announce `message` on the message bus.
    Publish { message: RepoMessage },
    /// Write `record` to the store.
    Persist { record: SyncRecord },
    /// This repository is finished.
    Finish { outcome: Outcome },
    /// The event was not the awaited one and has been ignored.
    Nothing,
}

/// The mathematical content of an [`Event`].
pub ghost enum EventView {
    RecordLoaded { record: Option<RecordView> },
    StoreFailed,
    CommandFinished { output: OutputView },
    CommandTimedOut,
    Published,
    PublishFailed,
    Persisted,
}

/// The mathematical content of an [`Action`].
pub ghost enum ActionView {
    LoadRecord { name: Seq<char> },
    ListRemotes,
    RemoveRemote { name: Seq<char> },
    AddRemote { name: Seq<char>, url: Seq<char> },
    PushBranches { remote: Seq<char> },
    PushTags { remote: Seq<char> },
    Publish { message: RecordView },
    Persist { record: RecordView },
    Finish { outcome: Outcome },
    Nothing,
}

impl View for Event {
    type V = EventView;

    open spec fn view(&self) -> EventView {
        match self {
            Event::RecordLoaded { record } => EventView::RecordLoaded {
                record: match record {
                    Some(r) => Some(r@),
                    None => None,
                },
            },
            Event::StoreFailed => EventView::StoreFailed,
            Event::CommandFinished { output } => EventView::CommandFinished { output: output@ },
            Event::CommandTimedOut => EventView::CommandTimedOut,
            Event::Published => EventView::Published,
            Event::PublishFailed => EventView::PublishFailed,
            Event::Persisted => EventView::Persisted,
        }
    }
}

impl View for Action {
    type V = ActionView;

    open spec fn view(&self) -> ActionView {
        match self {
            Action::LoadRecord { name } => ActionView::LoadRecord { name: name@ },
            Action::ListRemotes => ActionView::ListRemotes,
            Action::RemoveRemote { name } => ActionView::RemoveRemote { name: name@ },
            Action::AddRemote { name, url } => ActionView::AddRemote { name: name@, url: url@ },
            Action::PushBranches { remote } => ActionView::PushBranches { remote: remote@ },
            Action::PushTags { remote } => ActionView::PushTags { remote: remote@ },
            Action::Publish { message } => ActionView::Publish { message: message@ },
            Action::Persist { record } => ActionView::Persist { record: record@ },
            Action::Finish { outcome } => ActionView::Finish { outcome: *outcome },
            Action::Nothing => ActionView::Nothing,
        }
    }
}

/// The sync of one repository in progress.
#[derive(Debug)]
pub struct RepoSync {
    name: String,
    phase: Phase,
    record: SyncRecord,
    fresh: bool,
    branches: CommandOutput,
    announced: bool,
}

/// The mathematical content of a [`RepoSync`].
pub ghost struct SyncView {
    /// The repository's name.
    pub name: Seq<char>,
    /// What the machine is waiting for.
    pub phase: Phase,
    /// The record as it stands.
    pub record: RecordView,
    /// Whether the store had no record, so that this run created it.
    pub fresh: bool,
    /// How the branch push ended, once it has.
    pub branches: OutputView,
    /// Whether the message bus took the announcement.
    pub announced: bool,
}

impl View for RepoSync {
    type V = SyncView;

    closed spec fn view(&self) -> SyncView {
        SyncView {
            name: self.name@,
            phase: self.phase,
            record: self.record@,
            fresh: self.fresh,
            branches: self.branches@,
            announced: self.announced,
        }
    }
}

/// The output of a command that has not run.
pub open spec fn no_output() -> OutputView {
    OutputView { success: false, stdout: Seq::empty(), stderr: Seq::empty() }
}

/// What stands for the output of a command that timed out: a failure whose
/// error text is [`TIMEOUT_NOTICE`].
pub open spec fn timed_out() -> OutputView {
    OutputView { success: false, stdout: Seq::empty(), stderr: TIMEOUT_NOTICE@ }
}

impl SyncView {
    /// The machine for the repository `name`, and its first request.
    pub open spec fn begin(name: Seq<char>) -> (SyncView, ActionView) {
        (
            SyncView {
                name,
                phase: Phase::AwaitingRecord,
                record: RecordView::pending(name),
                fresh: false,
                branches: no_output(),
                announced: false,
            },
            ActionView::LoadRecord { name },
        )
    }

    /// What holds in every state that the machine reaches: while the
    /// repository is worked on its record is not `Succeeded`, and an
    /// announcement is asked for only with a `Succeeded` record.
    pub open spec fn well_formed(self) -> bool {
        match self.phase {
            Phase::ListingRemotes
            | Phase::RemovingRemote
            | Phase::AddingRemote
            | Phase::PushingBranches
            | Phase::PushingTags => self.record.status != SyncStatus::Succeeded,
            Phase::Publishing => self.record.status == SyncStatus::Succeeded,
            _ => true,
        }
    }

    /// The outcome reported once the record has been written.
    pub open spec fn recorded_outcome(self) -> Outcome {
        match self.record.status {
            SyncStatus::Succeeded => if self.announced {
                Outcome::Synced
            } else {
                Outcome::SyncedUnannounced
            },
            SyncStatus::Failed => Outcome::Failed,
            SyncStatus::Pending => Outcome::NoUpstream,
        }
    }

    /// The attempt fails with `message`: the failure is recorded and the
    /// record is written.
    pub open spec fn fail(self, message: Seq<char>, now: Timestamp) -> (SyncView, ActionView) {
        let record = self.record.failed(message, now);
        (SyncView { record, phase: Phase::Persisting, ..self }, ActionView::Persist { record })
    }

    /// The store has answered the read.
    pub open spec fn loaded(self, record: Option<RecordView>) -> (SyncView, ActionView) {
        match record {
            Some(found) => if found.status == SyncStatus::Succeeded {
                (
                    SyncView { record: found, phase: Phase::Done, ..self },
                    ActionView::Finish { outcome: Outcome::AlreadySynced },
                )
            } else {
                (
                    SyncView { record: found, phase: Phase::ListingRemotes, ..self },
                    ActionView::ListRemotes,
                )
            },
            None => (
                SyncView {
                    record: RecordView::pending(self.name),
                    fresh: true,
                    phase: Phase::ListingRemotes,
                    ..self
                },
                ActionView::ListRemotes,
            ),
        }
    }

    /// The remotes have been listed and the listing has been read.
    pub open spec fn surveyed(self, findings: SurveyView, now: Timestamp) -> (SyncView, ActionView) {
        match findings {
            SurveyView::ListingFailed { message } => self.fail(message, now),
            SurveyView::Unresolvable { error } => self.fail(error.message_text(), now),
            SurveyView::NoUpstream => if self.fresh {
                (
                    SyncView { phase: Phase::Persisting, ..self },
                    ActionView::Persist { record: self.record },
                )
            } else {
                (
                    SyncView { phase: Phase::Done, ..self },
                    ActionView::Finish { outcome: Outcome::NoUpstream },
                )
            },
            SurveyView::Resolved { resolution } => (
                SyncView {
                    record: self.record.with_urls(resolution.upstream_url, resolution.mirror_url),
                    phase: Phase::RemovingRemote,
                    ..self
                },
                ActionView::RemoveRemote { name: MIRROR_REMOTE@ },
            ),
        }
    }

    /// The removal of the mirror remote has finished.
    pub open spec fn removed(self, output: OutputView, now: Timestamp) -> (SyncView, ActionView) {
        if removal_cleared(output) {
            (
                SyncView { phase: Phase::AddingRemote, ..self },
                ActionView::AddRemote { name: MIRROR_REMOTE@, url: self.record.mirror_url },
            )
        } else {
            self.fail(output.stderr, now)
        }
    }

    /// The addition of the mirror remote has finished.
    pub open spec fn added(self, output: OutputView, now: Timestamp) -> (SyncView, ActionView) {
        if output.success {
            (
                SyncView { phase: Phase::PushingBranches, ..self },
                ActionView::PushBranches { remote: MIRROR_REMOTE@ },
            )
        } else {
            self.fail(output.stderr, now)
        }
    }

    /// The branch push has finished. Whatever its outcome, the tags are
    /// pushed too.
    pub open spec fn branches_pushed(self, output: OutputView) -> (SyncView, ActionView) {
        (
            SyncView { branches: output, phase: Phase::PushingTags, ..self },
            ActionView::PushTags { remote: MIRROR_REMOTE@ },
        )
    }

    /// The tag push has finished: the verdict on the push is recorded.
    pub open spec fn tags_pushed(self, output: OutputView, now: Timestamp) -> (SyncView, ActionView) {
        match verdict_of(self.branches, output) {
            VerdictView::Mirrored { .. } => {
                let record = self.record.succeeded(now);
                (
                    SyncView { record, phase: Phase::Publishing, ..self },
                    ActionView::Publish { message: record },
                )
            },
            VerdictView::Failed { message } => self.fail(message, now),
        }
    }

    /// The message bus has answered.
    pub open spec fn published(self, delivered: bool) -> (SyncView, ActionView) {
        (
            SyncView { announced: delivered, phase: Phase::Persisting, ..self },
            ActionView::Persist { record: self.record },
        )
    }

    /// The machine is done with `outcome`.
    pub open spec fn finish(self, outcome: Outcome) -> (SyncView, ActionView) {
        (SyncView { phase: Phase::Done, ..self }, ActionView::Finish { outcome })
    }

    /// The next state and the next action after `event` at time `now`, where
    /// a listing of the remotes has been read as `findings`. A command that
    /// timed out counts as one that failed with [`TIMEOUT_NOTICE`]. An event
    /// that is not awaited changes nothing.
    pub open spec fn step_with(self, event: EventView, findings: SurveyView, now: Timestamp) -> (
        SyncView,
        ActionView,
    ) {
        match (self.phase, event) {
            (Phase::AwaitingRecord, EventView::RecordLoaded { record }) => self.loaded(record),
            (Phase::AwaitingRecord, EventView::StoreFailed) => self.finish(
                Outcome::StoreUnavailable,
            ),
            (Phase::ListingRemotes, EventView::CommandFinished { .. }) => self.surveyed(
                findings,
                now,
            ),
            (Phase::RemovingRemote, EventView::CommandFinished { output }) => self.removed(
                output,
                now,
            ),
            (Phase::AddingRemote, EventView::CommandFinished { output }) => self.added(output, now),
            (Phase::PushingBranches, EventView::CommandFinished { output }) => self.branches_pushed(
                output,
            ),
            (Phase::PushingTags, EventView::CommandFinished { output }) => self.tags_pushed(
                output,
                now,
            ),
            (Phase::ListingRemotes, EventView::CommandTimedOut) => self.fail(TIMEOUT_NOTICE@, now),
            (Phase::RemovingRemote, EventView::CommandTimedOut) => self.fail(TIMEOUT_NOTICE@, now),
            (Phase::AddingRemote, EventView::CommandTimedOut) => self.fail(TIMEOUT_NOTICE@, now),
            (Phase::PushingBranches, EventView::CommandTimedOut) => self.branches_pushed(
                timed_out(),
            ),
            (Phase::PushingTags, EventView::CommandTimedOut) => self.tags_pushed(timed_out(), now),
            (Phase::Publishing, EventView::Published) => self.published(true),
            (Phase::Publishing, EventView::PublishFailed) => self.published(false),
            (Phase::Persisting, EventView::Persisted) => self.finish(self.recorded_outcome()),
            (Phase::Persisting, EventView::StoreFailed) => self.finish(Outcome::StoreUnavailable),
            _ => (self, ActionView::Nothing),
        }
    }

    /// What a finished command's output says about the upstream, where the
    /// event is a finished command.
    pub open spec fn findings_of(event: EventView) -> SurveyView {
        match event {
            EventView::CommandFinished { output } => survey_of(output),
            _ => SurveyView::NoUpstream,
        }
    }

    /// The next state and the next action after `event` at time `now`.
    pub open spec fn step(self, event: EventView, now: Timestamp) -> (SyncView, ActionView) {
        self.step_with(event, Self::findings_of(event), now)
    }
}

impl RepoSync {
    /// Every machine is in a state that [`RepoSync::begin`] and
    /// [`RepoSync::step`] can lead to.
    #[verifier::type_invariant]
    spec fn inv(&self) -> bool {
        self@.well_formed()
    }

    /// Starts the sync of the repository `name`: the first request is the
    /// read of its record.
    pub fn begin(name: String) -> (started: (RepoSync, Action))
        ensures
            (started.0@, started.1@) == SyncView::begin(name@),
            started.0@.well_formed(),
    {
        let request = Action::LoadRecord { name: name.clone() };
        let record = SyncRecord::pending(name.clone());
        let machine = RepoSync {
            name,
            phase: Phase::AwaitingRecord,
            record,
            fresh: false,
            branches: CommandOutput { success: false, stdout: String::new(), stderr: String::new() },
            announced: false,
        };
        (machine, request)
    }

    /// The repository's name.
    pub fn name(&self) -> (name: &String)
        ensures
            name@ == self@.name,
    {
        &self.name
    }

    /// What the machine is waiting for.
    pub fn phase(&self) -> (phase: Phase)
        ensures
            phase == self@.phase,
    {
        self.phase
    }

    /// The record as it stands.
    pub fn record(&self) -> (record: &SyncRecord)
        ensures
            record@ == self@.record,
    {
        &self.record
    }

    /// Whether nothing is left to do for this repository.
    pub fn is_done(&self) -> (done: bool)
        ensures
            done == (self@.phase == Phase::Done),
    {
        match self.phase {
            Phase::Done => true,
            _ => false,
        }
    }

    fn fail(self, message: String, now: Timestamp) -> (next: (RepoSync, Action))
        ensures
            (next.0@, next.1@) == self@.fail(message@, now),
    {
        let RepoSync { name, phase: _, record, fresh, branches, announced } = self;
        let record = record.failed(message, now);
        let request = Action::Persist { record: record.clone() };
        (RepoSync { name, phase: Phase::Persisting, record, fresh, branches, announced }, request)
    }

    fn finish(self, outcome: Outcome) -> (next: (RepoSync, Action))
        ensures
            (next.0@, next.1@) == self@.finish(outcome),
    {
        let RepoSync { name, phase: _, record, fresh, branches, announced } = self;
        (
            RepoSync { name, phase: Phase::Done, record, fresh, branches, announced },
            Action::Finish { outcome },
        )
    }

    fn recorded_outcome(&self) -> (outcome: Outcome)
        ensures
            outcome == self@.recorded_outcome(),
    {
        match self.record.status {
            SyncStatus::Succeeded => if self.announced {
                Outcome::Synced
            } else {
                Outcome::SyncedUnannounced
            },
            SyncStatus::Failed => Outcome::Failed,
            SyncStatus::Pending => Outcome::NoUpstream,
        }
    }

    fn loaded(self, found: Option<SyncRecord>) -> (next: (RepoSync, Action))
        ensures
            (next.0@, next.1@) == self@.loaded(
                match found {
                    Some(r) => Some(r@),
                    None => None,
                },
            ),
    {
        let RepoSync { name, phase: _, record: _, fresh, branches, announced } = self;
        match found {
            Some(record) => {
                if record.is_synced() {
                    (
                        RepoSync { name, phase: Phase::Done, record, fresh, branches, announced },
                        Action::Finish { outcome: Outcome::AlreadySynced },
                    )
                } else {
                    (
                        RepoSync {
                            name,
                            phase: Phase::ListingRemotes,
                            record,
                            fresh,
                            branches,
                            announced,
                        },
                        Action::ListRemotes,
                    )
                }
            },
            None => {
                let record = SyncRecord::pending(name.clone());
                (
                    RepoSync {
                        name,
                        phase: Phase::ListingRemotes,
                        record,
                        fresh: true,
                        branches,
                        announced,
                    },
                    Action::ListRemotes,
                )
            },
        }
    }

    /// Takes the step that follows the listing of the remotes, for a listing
    /// that has been read as `findings`. In any other phase the findings are
    /// ignored.
    pub fn step_surveyed(self, findings: Survey, now: Timestamp) -> (next: (RepoSync, Action))
        ensures
            self@.phase == Phase::ListingRemotes ==> (next.0@, next.1@) == self@.surveyed(
                findings@,
                now,
            ),
            self@.phase != Phase::ListingRemotes ==> (next.0@, next.1@) == (
                self@,
                ActionView::Nothing,
            ),
            self@.well_formed(),
            next.0@.well_formed(),
    {
        proof {
            use_type_invariant(&self);
        }
        match self.phase {
            Phase::ListingRemotes => {},
            _ => {
                return (self, Action::Nothing);
            },
        }
        match findings {
            Survey::ListingFailed { message } => self.fail(message, now),
            Survey::Unresolvable { error } => self.fail(error.message(), now),
            Survey::NoUpstream => {
                if self.fresh {
                    let request = Action::Persist { record: self.record.clone() };
                    let RepoSync { name, phase: _, record, fresh, branches, announced } = self;
                    (
                        RepoSync { name, phase: Phase::Persisting, record, fresh, branches, announced },
                        request,
                    )
                } else {
                    self.finish(Outcome::NoUpstream)
                }
            },
            Survey::Resolved { resolution } => {
                let RepoSync { name, phase: _, record, fresh, branches, announced } = self;
                let record = record.with_urls(resolution.upstream_url, resolution.mirror_url);
                (
                    RepoSync {
                        name,
                        phase: Phase::RemovingRemote,
                        record,
                        fresh,
                        branches,
                        announced,
                    },
                    Action::RemoveRemote { name: MIRROR_REMOTE.to_owned() },
                )
            },
        }
    }

    fn command_finished(self, output: CommandOutput, now: Timestamp) -> (next: (RepoSync, Action))
        requires
            self@.phase != Phase::ListingRemotes,
        ensures
            (next.0@, next.1@) == self@.step_with(
                EventView::CommandFinished { output: output@ },
                SurveyView::NoUpstream,
                now,
            ),
    {
        proof {
            use_type_invariant(&self);
        }
        match self.phase {
            Phase::RemovingRemote => {
                if removal_left_name_free(&output) {
                    let request = Action::AddRemote {
                        name: MIRROR_REMOTE.to_owned(),
                        url: self.record.mirror_url.clone(),
                    };
                    let RepoSync { name, phase: _, record, fresh, branches, announced } = self;
                    (
                        RepoSync { name, phase: Phase::AddingRemote, record, fresh, branches, announced },
                        request,
                    )
                } else {
                    self.fail(output.stderr, now)
                }
            },
            Phase::AddingRemote => {
                if output.success {
                    let RepoSync { name, phase: _, record, fresh, branches, announced } = self;
                    (
                        RepoSync {
                            name,
                            phase: Phase::PushingBranches,
                            record,
                            fresh,
                            branches,
                            announced,
                        },
                        Action::PushBranches { remote: MIRROR_REMOTE.to_owned() },
                    )
                } else {
                    self.fail(output.stderr, now)
                }
            },
            Phase::PushingBranches => {
                let RepoSync { name, phase: _, record, fresh, branches: _, announced } = self;
                (
                    RepoSync {
                        name,
                        phase: Phase::PushingTags,
                        record,
                        fresh,
                        branches: output,
                        announced,
                    },
                    Action::PushTags { remote: MIRROR_REMOTE.to_owned() },
                )
            },
            Phase::PushingTags => {
                let RepoSync { name, phase, record, fresh, branches, announced } = self;
                let kept = branches.clone();
                match judge_push(branches, &output) {
                    PushVerdict::Mirrored { tags_pushed: _ } => {
                        let record = record.succeeded(now);
                        let request = Action::Publish { message: record.message() };
                        (
                            RepoSync {
                                name,
                                phase: Phase::Publishing,
                                record,
                                fresh,
                                branches: kept,
                                announced,
                            },
                            request,
                        )
                    },
                    PushVerdict::Failed { message } => {
                        let machine = RepoSync { name, phase, record, fresh, branches: kept, announced };
                        machine.fail(message, now)
                    },
                }
            },
            _ => (self, Action::Nothing),
        }
    }

    fn published(self, delivered: bool) -> (next: (RepoSync, Action))
        ensures
            (next.0@, next.1@) == self@.published(delivered),
    {
        let request = Action::Persist { record: self.record.clone() };
        let RepoSync { name, phase: _, record, fresh, branches, announced: _ } = self;
        (
            RepoSync { name, phase: Phase::Persisting, record, fresh, branches, announced: delivered },
            request,
        )
    }

    /// Takes one step: consumes `event`, which happened at time `now`, and
    /// names the next action.
    pub fn step(self, event: Event, now: Timestamp) -> (next: (RepoSync, Action))
        ensures
            (next.0@, next.1@) == self@.step(event@, now),
            self@.well_formed(),
            next.0@.well_formed(),
    {
        proof {
            use_type_invariant(&self);
        }
        match event {
            Event::RecordLoaded { record } => match self.phase {
                Phase::AwaitingRecord => self.loaded(record),
                _ => (self, Action::Nothing),
            },
            Event::StoreFailed => match self.phase {
                Phase::AwaitingRecord => self.finish(Outcome::StoreUnavailable),
                Phase::Persisting => self.finish(Outcome::StoreUnavailable),
                _ => (self, Action::Nothing),
            },
            Event::CommandFinished { output } => match self.phase {
                Phase::ListingRemotes => {
                    let findings = survey(output);
                    self.step_surveyed(findings, now)
                },
                _ => self.command_finished(output, now),
            },
            Event::CommandTimedOut => match self.phase {
                Phase::ListingRemotes | Phase::RemovingRemote | Phase::AddingRemote => self.fail(
                    TIMEOUT_NOTICE.to_owned(),
                    now,
                ),
                Phase::PushingBranches | Phase::PushingTags => {
                    let output = CommandOutput {
                        success: false,
                        stdout: String::new(),
                        stderr: TIMEOUT_NOTICE.to_owned(),
                    };
                    self.command_finished(output, now)
                },
                _ => (self, Action::Nothing),
            },
            Event::Published => match self.phase {
                Phase::Publishing => self.published(true),
                _ => (self, Action::Nothing),
            },
            Event::PublishFailed => match self.phase {
                Phase::Publishing => self.published(false),
                _ => (self, Action::Nothing),
            },
            Event::Persisted => match self.phase {
                Phase::Persisting => {
                    let outcome = self.recorded_outcome();
                    self.finish(outcome)
                },
                _ => (self, Action::Nothing),
            },
        }
    }
}

} // verus!
