//! What holds of every step and of every run of the engine.
//!
//! The laws speak of [`SyncView::step_with`] for every reading of a listing,
//! and so of [`SyncView::step`], which is the step that
//! [`crate::engine::RepoSync::step`] takes.

use crate::engine::{ActionView, EventView, Outcome, Phase, SyncView, TIMEOUT_NOTICE};
use crate::record::{RecordView, SyncStatus, Timestamp};
use crate::remote::{
    after_addition, after_removal, lemma_removal_takes_only_the_named, named, removal_cleared,
    RemoteView, MIRROR_REMOTE,
};
use crate::resolver::SurveyView;
use crate::scan::{DirectiveView, ScanView};
use vstd::prelude::*;

verus! {

/// One thing that happened during the sync of a repository: the event, how a
/// listing in it was read, and when.
pub ghost struct Occurrence {
    pub event: EventView,
    pub findings: SurveyView,
    pub at: Timestamp,
}

/// The state that `start` is in after everything in `history` has happened,
/// in order.
pub open spec fn state_after(start: SyncView, history: Seq<Occurrence>) -> SyncView
    decreases history.len(),
{
    if history.len() == 0 {
        start
    } else {
        let last = history.last();
        state_after(start, history.drop_last()).step_with(last.event, last.findings, last.at).0
    }
}

/// The actions that the machine names, one per occurrence, when `history`
/// happens to `start`.
pub open spec fn actions_of(start: SyncView, history: Seq<Occurrence>) -> Seq<ActionView>
    decreases history.len(),
{
    if history.len() == 0 {
        Seq::empty()
    } else {
        let last = history.last();
        actions_of(start, history.drop_last()).push(
            state_after(start, history.drop_last()).step_with(last.event, last.findings, last.at).1,
        )
    }
}

/// How many of `actions` ask for an announcement on the message bus.
pub open spec fn announcements(actions: Seq<ActionView>) -> nat
    decreases actions.len(),
{
    if actions.len() == 0 {
        0
    } else if actions.last() is Publish {
        announcements(actions.drop_last()) + 1
    } else {
        announcements(actions.drop_last())
    }
}

/// Whether `action` touches the working copy, the mirror, the message bus or
/// the store.
pub open spec fn has_effect(action: ActionView) -> bool {
    !(action is Finish || action is Nothing)
}

/// The place of a phase in the order of the stages.
pub open spec fn stage(phase: Phase) -> nat {
    match phase {
        Phase::AwaitingRecord => 0,
        Phase::ListingRemotes => 1,
        Phase::RemovingRemote => 2,
        Phase::AddingRemote => 3,
        Phase::PushingBranches => 4,
        Phase::PushingTags => 5,
        Phase::Publishing => 6,
        Phase::Persisting => 7,
        Phase::Done => 8,
    }
}

/// Every step leads from a well-formed state to a well-formed state, and the
/// machine keeps the name of its repository.
pub proof fn law_step_keeps_well_formed(
    state: SyncView,
    event: EventView,
    findings: SurveyView,
    now: Timestamp,
)
    requires
        state.well_formed(),
    ensures
        state.step_with(event, findings, now).0.well_formed(),
        state.step_with(event, findings, now).0.name == state.name,
{
}

/// The stages are strictly sequential: a step that is not ignored moves the
/// machine to a later stage, and an ignored event changes nothing.
pub proof fn law_stages_only_advance(
    state: SyncView,
    event: EventView,
    findings: SurveyView,
    now: Timestamp,
)
    ensures
        ({
            let (next, action) = state.step_with(event, findings, now);
            if action is Nothing {
                next == state
            } else {
                stage(next.phase) > stage(state.phase)
            }
        }),
{
}

/// A repository whose record says `Succeeded` is skipped: the answer to its
/// loaded record is `Finish` with `AlreadySynced`, the record is kept as it
/// was loaded, and the machine is done.
pub proof fn law_synced_repository_is_skipped(
    name: Seq<char>,
    record: RecordView,
    findings: SurveyView,
    now: Timestamp,
)
    requires
        record.status == SyncStatus::Succeeded,
    ensures
        ({
            let (next, action) = SyncView::begin(name).0.step_with(
                EventView::RecordLoaded { record: Some(record) },
                findings,
                now,
            );
            &&& action == ActionView::Finish { outcome: Outcome::AlreadySynced }
            &&& next.record == record
            &&& next.phase == Phase::Done
        }),
{
}

/// A machine that is done ignores every event.
pub proof fn law_done_is_final(
    state: SyncView,
    event: EventView,
    findings: SurveyView,
    now: Timestamp,
)
    requires
        state.phase == Phase::Done,
    ensures
        state.step_with(event, findings, now) == (state, ActionView::Nothing),
{
}

/// Whatever happens to a machine that is done, it stays as it is and names no
/// action but `Nothing`.
pub proof fn law_nothing_happens_after_done(state: SyncView, history: Seq<Occurrence>)
    requires
        state.phase == Phase::Done,
    ensures
        state_after(state, history) == state,
        actions_of(state, history).len() == history.len(),
        forall|i: int|
            0 <= i < history.len() ==> #[trigger] actions_of(state, history)[i]
                == ActionView::Nothing,
    decreases history.len(),
{
    if history.len() > 0 {
        law_nothing_happens_after_done(state, history.drop_last());
    }
}

/// Idempotence. When the store answers with a record that says `Succeeded`,
/// then whatever else is reported afterwards, the record stays as it was
/// loaded, the remotes of the working copy stay as they were, and no action
/// with an effect is ever named: no command on the working copy, no push, no
/// announcement, no write.
pub proof fn law_synced_run_has_no_effect(
    name: Seq<char>,
    record: RecordView,
    history: Seq<Occurrence>,
    remotes: Seq<RemoteView>,
)
    requires
        record.status == SyncStatus::Succeeded,
        history.len() > 0,
        history[0].event == (EventView::RecordLoaded { record: Some(record) }),
    ensures
        state_after(SyncView::begin(name).0, history).phase == Phase::Done,
        state_after(SyncView::begin(name).0, history).record == record,
        remotes_after(SyncView::begin(name).0, history, remotes) == remotes,
        actions_of(SyncView::begin(name).0, history).len() == history.len(),
        forall|i: int|
            0 <= i < history.len() ==> !has_effect(
                #[trigger] actions_of(SyncView::begin(name).0, history)[i],
            ),
        announcements(actions_of(SyncView::begin(name).0, history)) == 0,
    decreases history.len(),
{
    let start = SyncView::begin(name).0;
    let earlier = history.drop_last();
    let last = history.last();
    let actions = actions_of(start, history);
    assert(actions.drop_last() =~= actions_of(start, earlier));
    if history.len() == 1 {
        assert(earlier =~= Seq::<Occurrence>::empty());
        assert(state_after(start, earlier) == start);
        assert(remotes_after(start, earlier, remotes) == remotes);
        assert(actions_of(start, earlier) =~= Seq::<ActionView>::empty());
        assert(announcements(actions_of(start, earlier)) == 0);
        law_synced_repository_is_skipped(name, record, last.findings, last.at);
    } else {
        law_synced_run_has_no_effect(name, record, earlier, remotes);
        law_done_is_final(state_after(start, earlier), last.event, last.findings, last.at);
        assert forall|i: int| 0 <= i < history.len() implies !has_effect(#[trigger] actions[i]) by {
            if i < earlier.len() {
                assert(actions[i] == actions_of(start, earlier)[i]);
            }
        }
    }
}

/// `Succeeded` is terminal: once the record of a repository that is worked on
/// says `Succeeded`, no step changes the record.
pub proof fn law_succeeded_is_never_left(
    state: SyncView,
    event: EventView,
    findings: SurveyView,
    now: Timestamp,
)
    requires
        state.phase != Phase::AwaitingRecord,
        state.record.status == SyncStatus::Succeeded,
    ensures
        state.step_with(event, findings, now).0.record == state.record,
{
}

/// The status moves only to `Succeeded` or to `Failed`, and the record keeps
/// its name.
pub proof fn law_status_moves_to_an_outcome(
    state: SyncView,
    event: EventView,
    findings: SurveyView,
    now: Timestamp,
)
    requires
        state.phase != Phase::AwaitingRecord,
    ensures
        ({
            let next = state.step_with(event, findings, now).0;
            &&& next.record.name == state.record.name
            &&& next.record.status != state.record.status ==> {
                ||| next.record.status == SyncStatus::Succeeded
                ||| next.record.status == SyncStatus::Failed
            }
        }),
{
}

/// A step that records an outcome stamps the record with the time of the
/// step. Success clears the error message; failure sets one.
pub proof fn law_outcome_is_recorded_in_full(
    state: SyncView,
    event: EventView,
    findings: SurveyView,
    now: Timestamp,
)
    requires
        state.well_formed(),
        state.phase != Phase::AwaitingRecord,
    ensures
        ({
            let (next, action) = state.step_with(event, findings, now);
            &&& action is Publish ==> next.record == state.record.succeeded(now)
                && next.record.error_message is None && next.record.updated_at == now
            &&& (action is Persist && stage(state.phase) <= stage(Phase::PushingTags)
                && next.record != state.record) ==> next.record.status == SyncStatus::Failed
                && next.record.error_message is Some && next.record.updated_at == now
        }),
{
}

/// Announcement only on success. A step asks for an announcement if and only
/// if it turns the record's status into `Succeeded`, and what it announces is
/// the record as it stands after the step.
pub proof fn law_announcement_iff_success(
    state: SyncView,
    event: EventView,
    findings: SurveyView,
    now: Timestamp,
)
    requires
        state.well_formed(),
    ensures
        ({
            let (next, action) = state.step_with(event, findings, now);
            &&& action is Publish <==> {
                &&& state.phase != Phase::AwaitingRecord
                &&& state.record.status != SyncStatus::Succeeded
                &&& next.record.status == SyncStatus::Succeeded
            }
            &&& action matches ActionView::Publish { message } ==> message == next.record
        }),
{
}

/// At most one announcement per run: whatever happens to a machine, it asks
/// for an announcement at most once.
pub proof fn law_at_most_one_announcement(state: SyncView, history: Seq<Occurrence>)
    ensures
        announcements(actions_of(state, history)) <= 1,
        stage(state_after(state, history).phase) < stage(Phase::Publishing) ==> announcements(
            actions_of(state, history),
        ) == 0,
    decreases history.len(),
{
    if history.len() > 0 {
        let earlier = history.drop_last();
        let last = history.last();
        law_at_most_one_announcement(state, earlier);
        let before = state_after(state, earlier);
        law_stages_only_advance(before, last.event, last.findings, last.at);
        assert(actions_of(state, history).drop_last() =~= actions_of(state, earlier));
    }
}

/// Whether the step that `occurrence` causes in `state` turns the record's
/// status into `Succeeded`.
pub open spec fn turns_succeeded(state: SyncView, occurrence: Occurrence) -> bool {
    let next = state.step_with(occurrence.event, occurrence.findings, occurrence.at).0;
    &&& state.phase != Phase::AwaitingRecord
    &&& state.record.status != SyncStatus::Succeeded
    &&& next.record.status == SyncStatus::Succeeded
}

/// Whether some step of the run of `history` on `start` turns the record's
/// status into `Succeeded`.
pub open spec fn succeeds_during(start: SyncView, history: Seq<Occurrence>) -> bool
    decreases history.len(),
{
    if history.len() == 0 {
        false
    } else {
        succeeds_during(start, history.drop_last()) || turns_succeeded(
            state_after(start, history.drop_last()),
            history.last(),
        )
    }
}

/// Whatever happens to a well-formed machine, it stays well formed.
pub proof fn law_run_keeps_well_formed(start: SyncView, history: Seq<Occurrence>)
    requires
        start.well_formed(),
    ensures
        state_after(start, history).well_formed(),
        state_after(start, history).name == start.name,
    decreases history.len(),
{
    if history.len() > 0 {
        let last = history.last();
        law_run_keeps_well_formed(start, history.drop_last());
        law_step_keeps_well_formed(
            state_after(start, history.drop_last()),
            last.event,
            last.findings,
            last.at,
        );
    }
}

/// Announcement only on success, for a whole run. The message bus is asked
/// for exactly one announcement in a run in which the record's status turns
/// into `Succeeded`, and for none in any other run.
pub proof fn law_run_announces_iff_it_succeeds(start: SyncView, history: Seq<Occurrence>)
    requires
        start.well_formed(),
    ensures
        announcements(actions_of(start, history)) == if succeeds_during(start, history) {
            1nat
        } else {
            0nat
        },
    decreases history.len(),
{
    if history.len() > 0 {
        let earlier = history.drop_last();
        let last = history.last();
        let before = state_after(start, earlier);
        law_run_announces_iff_it_succeeds(start, earlier);
        law_run_keeps_well_formed(start, earlier);
        law_announcement_iff_success(before, last.event, last.findings, last.at);
        law_at_most_one_announcement(start, history);
        assert(actions_of(start, history).drop_last() =~= actions_of(start, earlier));
    }
}

/// The record is written whenever it has been worked on: a step that enters
/// the persisting stage asks for the write of the record as it then stands,
/// the record does not change while the write is awaited, and an outcome other
/// than a skip or a store failure is reported only after the store took it.
pub proof fn law_record_is_persisted(
    state: SyncView,
    event: EventView,
    findings: SurveyView,
    now: Timestamp,
)
    ensures
        ({
            let (next, action) = state.step_with(event, findings, now);
            &&& (next.phase == Phase::Persisting && state.phase != Phase::Persisting) ==> action
                == ActionView::Persist { record: next.record }
            &&& state.phase == Phase::Persisting ==> next.record == state.record
            &&& state.phase == Phase::Publishing ==> next.record == state.record
            &&& action matches ActionView::Finish { outcome } ==> {
                ||| outcome == Outcome::AlreadySynced && state.phase == Phase::AwaitingRecord
                ||| outcome == Outcome::StoreUnavailable && event == EventView::StoreFailed
                ||| outcome == Outcome::NoUpstream && state.phase == Phase::ListingRemotes
                    && !state.fresh && next.record == state.record
                ||| state.phase == Phase::Persisting && event == EventView::Persisted
            }
        }),
{
}

/// A command that timed out fails the attempt with [`TIMEOUT_NOTICE`] as its
/// cause. Only a tag push may time out without failing it: as with any other
/// failure of the tag push, the branch push decides.
pub proof fn law_timeout_fails_the_attempt(
    state: SyncView,
    findings: SurveyView,
    tags: EventView,
    now: Timestamp,
    later: Timestamp,
)
    requires
        state.well_formed(),
        tags is CommandFinished || tags is CommandTimedOut,
    ensures
        ({
            let (next, action) = state.step_with(EventView::CommandTimedOut, findings, now);
            &&& (state.phase == Phase::ListingRemotes || state.phase == Phase::RemovingRemote
                || state.phase == Phase::AddingRemote) ==> {
                &&& next.record == state.record.failed(TIMEOUT_NOTICE@, now)
                &&& next.record.status == SyncStatus::Failed
                &&& action == ActionView::Persist { record: next.record }
            }
            &&& state.phase == Phase::PushingBranches ==> {
                let (last, write) = next.step_with(tags, findings, later);
                &&& action is PushTags
                &&& last.record == state.record.failed(TIMEOUT_NOTICE@, later)
                &&& last.record.status == SyncStatus::Failed
                &&& write == ActionView::Persist { record: last.record }
            }
            &&& (state.phase == Phase::PushingTags && state.branches.success) ==> {
                &&& next.record.status == SyncStatus::Succeeded
                &&& action is Publish
            }
        }),
{
}

/// The mirror remote is configured by a removal followed by an addition. A
/// step asks for the removal only of the reserved name, and for an addition
/// only after the removal of that name has left the name free; the remote
/// then added points at the mirror address of the record.
pub proof fn law_remote_is_removed_before_added(
    state: SyncView,
    event: EventView,
    findings: SurveyView,
    now: Timestamp,
)
    ensures
        ({
            let (next, action) = state.step_with(event, findings, now);
            &&& action matches ActionView::RemoveRemote { name } ==> {
                &&& name == MIRROR_REMOTE@
                &&& state.phase == Phase::ListingRemotes
                &&& next.phase == Phase::RemovingRemote
            }
            &&& action matches ActionView::AddRemote { name, url } ==> {
                &&& name == MIRROR_REMOTE@
                &&& url == next.record.mirror_url
                &&& state.phase == Phase::RemovingRemote
                &&& event matches EventView::CommandFinished { output }
                &&& removal_cleared(output)
            }
            &&& (action is PushBranches || action is PushTags) ==> stage(state.phase) >= stage(
                Phase::AddingRemote,
            )
        }),
{
}

/// A failed push leaves the mirror remote configured: from the addition of
/// the remote on, no step asks for a change of the remotes.
pub proof fn law_remote_stays_after_push(
    state: SyncView,
    event: EventView,
    findings: SurveyView,
    now: Timestamp,
)
    requires
        stage(state.phase) >= stage(Phase::AddingRemote),
    ensures
        ({
            let action = state.step_with(event, findings, now).1;
            !(action is RemoveRemote) && !(action is AddRemote)
        }),
{
}

/// What a reported event means for the remotes of the working copy: a
/// removal that left the name free has removed the mirror remote, an addition
/// that succeeded has added it with the mirror address of the record, and
/// nothing else touches the remotes.
pub open spec fn remotes_after_step(
    state: SyncView,
    event: EventView,
    remotes: Seq<RemoteView>,
) -> Seq<RemoteView> {
    match (state.phase, event) {
        (Phase::RemovingRemote, EventView::CommandFinished { output }) => if removal_cleared(
            output,
        ) {
            after_removal(remotes, MIRROR_REMOTE@)
        } else {
            remotes
        },
        (Phase::AddingRemote, EventView::CommandFinished { output }) => if output.success {
            after_addition(remotes, MIRROR_REMOTE@, state.record.mirror_url)
        } else {
            remotes
        },
        _ => remotes,
    }
}

/// The remotes of a working copy that had `remotes` when the machine was in
/// the state `start`, after everything in `history` has happened.
pub open spec fn remotes_after(
    start: SyncView,
    history: Seq<Occurrence>,
    remotes: Seq<RemoteView>,
) -> Seq<RemoteView>
    decreases history.len(),
{
    if history.len() == 0 {
        remotes
    } else {
        remotes_after_step(
            state_after(start, history.drop_last()),
            history.last().event,
            remotes_after(start, history.drop_last(), remotes),
        )
    }
}

/// Whether the step that `occurrence` causes in `state` is the completion of
/// a successful addition of the mirror remote.
pub open spec fn adds_remote(state: SyncView, occurrence: Occurrence) -> bool {
    &&& state.phase == Phase::AddingRemote
    &&& occurrence.event matches EventView::CommandFinished { output }
    &&& output.success
}

/// Whether the mirror remote is added successfully at some point of the run
/// of `history` on `start`.
pub open spec fn configures_remote(start: SyncView, history: Seq<Occurrence>) -> bool
    decreases history.len(),
{
    if history.len() == 0 {
        false
    } else {
        configures_remote(start, history.drop_last()) || adds_remote(
            state_after(start, history.drop_last()),
            history.last(),
        )
    }
}

/// The one remote that a configured working copy has under the reserved
/// name: it points at the mirror address of the record.
pub open spec fn mirror_remote_of(state: SyncView) -> Seq<RemoteView> {
    seq![RemoteView { name: MIRROR_REMOTE@, url: state.record.mirror_url }]
}

/// What a run has made of the mirror remote. Once the remote has been added
/// it is the only one of its name and points at the mirror address of the
/// record, for the rest of the run. Before that, the remotes are untouched
/// up to the removal and hold no mirror remote between the removal and the
/// addition; a run that ends without an addition leaves no more mirror
/// remotes than there were.
pub open spec fn mirror_remote_in_order(
    state: SyncView,
    configured: bool,
    before: Seq<RemoteView>,
    remotes: Seq<RemoteView>,
) -> bool {
    let mirror = named(remotes, MIRROR_REMOTE@);
    if configured {
        &&& stage(state.phase) >= stage(Phase::PushingBranches)
        &&& mirror == mirror_remote_of(state)
    } else {
        match state.phase {
            Phase::AwaitingRecord | Phase::ListingRemotes | Phase::RemovingRemote => remotes
                == before,
            Phase::AddingRemote => mirror.len() == 0,
            Phase::Persisting | Phase::Done => mirror.len() <= named(before, MIRROR_REMOTE@).len(),
            Phase::PushingBranches | Phase::PushingTags | Phase::Publishing => false,
        }
    }
}

/// Exactly one mirror remote, for a whole run. Start a machine on a working
/// copy with any remotes and let anything happen.
///
/// If the mirror remote was added at some point of the run, the working copy
/// holds exactly one remote of the reserved name from then on, to the end of
/// the run, and it points at the mirror address of the record. A push is
/// asked for only in such a run. If the remote was not added, the working
/// copy holds no more remotes of that name than it did before. Remotes of
/// other names are never touched.
pub proof fn law_run_leaves_one_mirror_remote(
    name: Seq<char>,
    history: Seq<Occurrence>,
    before: Seq<RemoteView>,
    other: Seq<char>,
)
    requires
        other != MIRROR_REMOTE@,
    ensures
        ({
            let start = SyncView::begin(name).0;
            let end = state_after(start, history);
            let remotes = remotes_after(start, history, before);
            let mirror = named(remotes, MIRROR_REMOTE@);
            &&& mirror_remote_in_order(end, configures_remote(start, history), before, remotes)
            &&& configures_remote(start, history) ==> mirror == mirror_remote_of(end)
            &&& (end.phase == Phase::PushingBranches || end.phase == Phase::PushingTags
                || end.phase == Phase::Publishing) ==> configures_remote(start, history)
            &&& !configures_remote(start, history) ==> mirror.len() <= named(
                before,
                MIRROR_REMOTE@,
            ).len()
            &&& named(before, MIRROR_REMOTE@).len() <= 1 ==> mirror.len() <= 1
            &&& named(remotes, other) == named(before, other)
        }),
    decreases history.len(),
{
    let start = SyncView::begin(name).0;
    if history.len() > 0 {
        let earlier = history.drop_last();
        let last = history.last();
        let state = state_after(start, earlier);
        let remotes = remotes_after(start, earlier, before);
        law_run_leaves_one_mirror_remote(name, earlier, before, other);
        law_run_keeps_well_formed(start, earlier);
        lemma_removal_takes_only_the_named(remotes, MIRROR_REMOTE@, MIRROR_REMOTE@);
        lemma_removal_takes_only_the_named(remotes, MIRROR_REMOTE@, other);
        let added = RemoteView { name: MIRROR_REMOTE@, url: state.record.mirror_url };
        remotes.lemma_filter_push(added, |remote: RemoteView| remote.name == MIRROR_REMOTE@);
        remotes.lemma_filter_push(added, |remote: RemoteView| remote.name == other);
        let next = state.step_with(last.event, last.findings, last.at).0;
        let after = remotes_after_step(state, last.event, remotes);
        if adds_remote(state, last) {
            assert(named(after, MIRROR_REMOTE@) =~= seq![added]);
        }
        assert(mirror_remote_in_order(
            next,
            configures_remote(start, history),
            before,
            after,
        ));
    } else {
        assert(mirror_remote_of(start).len() == 1);
    }
}

/// Every step of a scan leads from a well-formed state to a well-formed
/// state, keeps the repositories, and keeps the outcomes noted so far.
pub proof fn law_scan_keeps_well_formed(
    scan: ScanView,
    event: EventView,
    findings: SurveyView,
    now: Timestamp,
)
    requires
        scan.well_formed(),
    ensures
        ({
            let next = scan.step_with(event, findings, now).0;
            &&& next.well_formed()
            &&& next.repositories == scan.repositories
            &&& scan.outcomes.is_prefix_of(next.outcomes)
            &&& next.outcomes.len() <= scan.outcomes.len() + 1
        }),
{
    if let Some(sync) = scan.current {
        law_step_keeps_well_formed(sync, event, findings, now);
    }
}

/// Failure isolation. When the repository worked on finishes, whatever its
/// outcome, the outcome is noted and the scan turns to the next repository
/// with a machine that knows nothing of the earlier ones; after the last
/// repository the scan is complete.
pub proof fn law_scan_goes_on_after_any_outcome(
    scan: ScanView,
    event: EventView,
    findings: SurveyView,
    now: Timestamp,
    outcome: Outcome,
)
    requires
        scan.well_formed(),
        scan.current matches Some(sync) && sync.step_with(event, findings, now).1
            == (ActionView::Finish { outcome }),
    ensures
        ({
            let (next, directive) = scan.step_with(event, findings, now);
            let position = (scan.outcomes.len() + 1) as int;
            &&& next.outcomes == scan.outcomes.push(outcome)
            &&& position < scan.repositories.len() ==> {
                let name = scan.repositories[position].name;
                &&& next.current == Some(SyncView::begin(name).0)
                &&& directive == DirectiveView::Perform {
                    repository: position as nat,
                    action: ActionView::LoadRecord { name },
                }
            }
            &&& position == scan.repositories.len() ==> {
                &&& next.current is None
                &&& directive == DirectiveView::Complete
            }
        }),
{
}

/// The state that the scan `start` is in after everything in `history` has
/// happened, in order.
pub open spec fn scan_after(start: ScanView, history: Seq<Occurrence>) -> ScanView
    decreases history.len(),
{
    if history.len() == 0 {
        start
    } else {
        let last = history.last();
        scan_after(start, history.drop_last()).step_with(last.event, last.findings, last.at).0
    }
}

/// The directives that the scan names, one per occurrence, when `history`
/// happens to `start`.
pub open spec fn directives_of(start: ScanView, history: Seq<Occurrence>) -> Seq<DirectiveView>
    decreases history.len(),
{
    if history.len() == 0 {
        Seq::empty()
    } else {
        let last = history.last();
        directives_of(start, history.drop_last()).push(
            scan_after(start, history.drop_last()).step_with(last.event, last.findings, last.at).1,
        )
    }
}

/// Whether the run of `history` on the machine `sync` names no `Finish`: the
/// repository is still being worked on at the end of it.
pub open spec fn unfinished(sync: SyncView, history: Seq<Occurrence>) -> bool {
    forall|i: int| 0 <= i < history.len() ==> !(#[trigger] actions_of(sync, history)[i] is Finish)
}

/// A run names one action per occurrence.
pub proof fn lemma_one_action_per_occurrence(start: SyncView, history: Seq<Occurrence>)
    ensures
        actions_of(start, history).len() == history.len(),
    decreases history.len(),
{
    if history.len() > 0 {
        lemma_one_action_per_occurrence(start, history.drop_last());
    }
}

/// Failure isolation, step by step. Two scans that work on the same
/// repository in the same state answer every event alike, whatever
/// repositories and outcomes each of them has behind it: the same action, the
/// same next state of the repository's sync, and the same outcome noted when
/// the repository finishes.
pub proof fn law_repository_is_treated_alike(
    first: ScanView,
    second: ScanView,
    event: EventView,
    findings: SurveyView,
    now: Timestamp,
)
    requires
        first.well_formed(),
        second.well_formed(),
        first.current is Some,
        first.current == second.current,
    ensures
        ({
            let (next, action) = first.current->0.step_with(event, findings, now);
            let (one, asked_one) = first.step_with(event, findings, now);
            let (two, asked_two) = second.step_with(event, findings, now);
            &&& action matches ActionView::Finish { outcome } ==> {
                &&& one.outcomes == first.outcomes.push(outcome)
                &&& two.outcomes == second.outcomes.push(outcome)
            }
            &&& !(action is Finish) ==> {
                &&& one.current == Some(next)
                &&& two.current == Some(next)
                &&& one.outcomes == first.outcomes
                &&& two.outcomes == second.outcomes
                &&& asked_one == DirectiveView::Perform {
                    repository: first.outcomes.len(),
                    action,
                }
                &&& asked_two == DirectiveView::Perform {
                    repository: second.outcomes.len(),
                    action,
                }
            }
        }),
{
}

/// Failure isolation, for a whole run. While a scan works on a repository,
/// what it asks of the driver and what becomes of the repository's sync are
/// exactly what the repository's own machine says, event for event. Nothing
/// of it depends on the other repositories of the scan or on how they ended,
/// so a repository that follows a failed one is treated as in a scan of its
/// own.
pub proof fn law_scan_runs_repository_as_its_machine_does(
    scan: ScanView,
    history: Seq<Occurrence>,
)
    requires
        scan.well_formed(),
        scan.current is Some,
        unfinished(scan.current->0, history),
    ensures
        scan_after(scan, history) == (ScanView {
            current: Some(state_after(scan.current->0, history)),
            ..scan
        }),
        directives_of(scan, history).len() == history.len(),
        actions_of(scan.current->0, history).len() == history.len(),
        forall|i: int|
            0 <= i < history.len() ==> #[trigger] directives_of(scan, history)[i]
                == (DirectiveView::Perform {
                repository: scan.outcomes.len(),
                action: actions_of(scan.current->0, history)[i],
            }),
    decreases history.len(),
{
    let sync = scan.current->0;
    if history.len() > 0 {
        let earlier = history.drop_last();
        let last = history.last();
        let actions = actions_of(sync, history);
        lemma_one_action_per_occurrence(sync, history);
        lemma_one_action_per_occurrence(sync, earlier);
        assert(actions.drop_last() =~= actions_of(sync, earlier));
        assert forall|i: int| 0 <= i < earlier.len() implies !(#[trigger] actions_of(
            sync,
            earlier,
        )[i] is Finish) by {
            assert(actions[i] == actions_of(sync, earlier)[i]);
        }
        law_scan_runs_repository_as_its_machine_does(scan, earlier);
        assert(!(actions[history.len() - 1] is Finish));
        let directives = directives_of(scan, history);
        assert forall|i: int| 0 <= i < history.len() implies #[trigger] directives[i]
            == (DirectiveView::Perform { repository: scan.outcomes.len(), action: actions[i] }) by {
            if i < earlier.len() {
                assert(directives[i] == directives_of(scan, earlier)[i]);
                assert(actions[i] == actions_of(sync, earlier)[i]);
            }
        }
    } else {
        assert(scan == (ScanView { current: Some(sync), ..scan }));
    }
}

/// A scan that is complete has noted one outcome for every repository.
pub proof fn law_complete_scan_covers_every_repository(scan: ScanView)
    requires
        scan.well_formed(),
        scan.current is None,
    ensures
        scan.outcomes.len() == scan.repositories.len(),
{
}

/// A scan asks for work only on the repository that follows those with an
/// outcome: the repositories are processed one at a time, in order.
pub proof fn law_scan_works_in_order(
    scan: ScanView,
    event: EventView,
    findings: SurveyView,
    now: Timestamp,
)
    requires
        scan.well_formed(),
    ensures
        ({
            let (next, directive) = scan.step_with(event, findings, now);
            directive matches DirectiveView::Perform { repository, .. } ==> {
                &&& repository == next.outcomes.len()
                &&& repository < next.repositories.len()
            }
        }),
{
}

} // verus!
