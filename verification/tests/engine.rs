use mirror_sync::command::CommandOutput;
use mirror_sync::engine::{Action, Event, Outcome, Phase, RepoSync, TIMEOUT_NOTICE};
use mirror_sync::record::{SyncRecord, SyncStatus, Timestamp};
use mirror_sync::resolver::{resolve, ResolveError, Survey};

const FOO_LISTING: &str =
    "origin\thttps://github.com/acme/foo (fetch)\norigin\thttps://github.com/acme/foo (push)\n";
const FOO_UPSTREAM: &str = "https://github.com/acme/foo";
const FOO_MIRROR: &str = "http://localhost:8000/third-part/acme/foo";

fn at(seconds: i64) -> Timestamp {
    Timestamp { seconds, nanos: 0 }
}

fn ok(stdout: &str) -> Event {
    Event::CommandFinished {
        output: CommandOutput { success: true, stdout: stdout.to_string(), stderr: String::new() },
    }
}

fn failed(stderr: &str) -> Event {
    Event::CommandFinished {
        output: CommandOutput { success: false, stdout: String::new(), stderr: stderr.to_string() },
    }
}

fn loaded(record: Option<SyncRecord>) -> Event {
    Event::RecordLoaded { record }
}

fn nju() -> String {
    "nju".to_string()
}

/// Feeds `events` to a fresh machine for `name` and returns the machine and
/// every action it named, the first request included.
fn run(name: &str, events: Vec<Event>) -> (RepoSync, Vec<Action>) {
    let (mut machine, first) = RepoSync::begin(name.to_string());
    let mut actions = vec![first];
    let mut tick = 100;
    for event in events {
        tick += 1;
        let (next, action) = machine.step(event, at(tick));
        machine = next;
        actions.push(action);
    }
    (machine, actions)
}

fn pushes(actions: &[Action]) -> usize {
    actions
        .iter()
        .filter(|a| matches!(a, Action::PushBranches { .. } | Action::PushTags { .. }))
        .count()
}

fn publishes(actions: &[Action]) -> usize {
    actions.iter().filter(|a| matches!(a, Action::Publish { .. })).count()
}

#[test]
fn begin_asks_for_the_record() {
    let (machine, action) = RepoSync::begin("foo".to_string());
    assert_eq!(action, Action::LoadRecord { name: "foo".to_string() });
    assert_eq!(machine.phase(), Phase::AwaitingRecord);
    assert_eq!(machine.name(), "foo");
    assert!(!machine.is_done());
}

#[test]
fn first_sync_of_foo_succeeds() {
    let (machine, actions) = run(
        "foo",
        vec![
            loaded(None),
            ok(FOO_LISTING),
            failed("error: No such remote: 'nju'\n"),
            ok(""),
            ok("pushed"),
            ok(""),
            Event::Published,
            Event::Persisted,
        ],
    );
    let expected_record = SyncRecord {
        name: "foo".to_string(),
        upstream_url: Some(FOO_UPSTREAM.to_string()),
        mirror_url: FOO_MIRROR.to_string(),
        status: SyncStatus::Succeeded,
        error_message: None,
        updated_at: at(106),
    };
    assert_eq!(
        actions,
        vec![
            Action::LoadRecord { name: "foo".to_string() },
            Action::ListRemotes,
            Action::RemoveRemote { name: nju() },
            Action::AddRemote { name: nju(), url: FOO_MIRROR.to_string() },
            Action::PushBranches { remote: nju() },
            Action::PushTags { remote: nju() },
            Action::Publish { message: expected_record.message() },
            Action::Persist { record: expected_record.clone() },
            Action::Finish { outcome: Outcome::Synced },
        ]
    );
    assert_eq!(machine.record(), &expected_record);
    assert!(machine.is_done());
}

#[test]
fn second_scan_of_foo_pushes_nothing() {
    let (first, _) = run(
        "foo",
        vec![
            loaded(None),
            ok(FOO_LISTING),
            ok(""),
            ok(""),
            ok(""),
            ok(""),
            Event::Published,
            Event::Persisted,
        ],
    );
    let stored = first.record().clone();
    assert_eq!(stored.status, SyncStatus::Succeeded);
    let (second, actions) = run("foo", vec![loaded(Some(stored.clone()))]);
    assert_eq!(
        actions,
        vec![
            Action::LoadRecord { name: "foo".to_string() },
            Action::Finish { outcome: Outcome::AlreadySynced },
        ]
    );
    assert_eq!(pushes(&actions), 0);
    assert_eq!(publishes(&actions), 0);
    assert_eq!(second.record(), &stored);
    assert!(second.is_done());
}

#[test]
fn synced_repository_ignores_everything_after_the_skip() {
    let stored = SyncRecord::pending("foo".to_string()).succeeded(at(1));
    let (machine, actions) = run(
        "foo",
        vec![
            loaded(Some(stored.clone())),
            ok(FOO_LISTING),
            ok(""),
            Event::Published,
            Event::Persisted,
            Event::StoreFailed,
            loaded(None),
        ],
    );
    assert_eq!(actions[1], Action::Finish { outcome: Outcome::AlreadySynced });
    for action in &actions[2..] {
        assert_eq!(action, &Action::Nothing);
    }
    assert_eq!(machine.record(), &stored);
}

#[test]
fn push_failure_of_bar_is_recorded_and_not_announced() {
    let (machine, actions) = run(
        "bar",
        vec![
            loaded(None),
            ok("origin\thttps://github.com/acme/bar (fetch)\n"),
            ok(""),
            ok(""),
            failed("authentication failed"),
            ok(""),
            Event::Persisted,
        ],
    );
    let record = machine.record();
    assert_eq!(record.status, SyncStatus::Failed);
    assert_eq!(record.error_message, Some("authentication failed".to_string()));
    assert_eq!(record.upstream_url, Some("https://github.com/acme/bar".to_string()));
    assert_eq!(record.mirror_url, "http://localhost:8000/third-part/acme/bar");
    assert_eq!(record.updated_at, at(106));
    assert_eq!(publishes(&actions), 0);
    assert_eq!(actions[5], Action::PushTags { remote: nju() });
    assert_eq!(actions[6], Action::Persist { record: record.clone() });
    assert_eq!(actions[7], Action::Finish { outcome: Outcome::Failed });
}

#[test]
fn baz_without_upstream_stays_pending() {
    let stored = SyncRecord::pending("baz".to_string());
    let (machine, actions) = run(
        "baz",
        vec![loaded(Some(stored.clone())), ok("origin\tgit@example.org:acme/baz.git (fetch)\n")],
    );
    assert_eq!(
        actions,
        vec![
            Action::LoadRecord { name: "baz".to_string() },
            Action::ListRemotes,
            Action::Finish { outcome: Outcome::NoUpstream },
        ]
    );
    assert_eq!(machine.record(), &stored);
    assert_eq!(machine.record().status, SyncStatus::Pending);
    assert!(machine.is_done());
}

#[test]
fn new_repository_without_upstream_leaves_a_pending_record() {
    let (machine, actions) = run("baz", vec![loaded(None), ok(""), Event::Persisted]);
    let pending = SyncRecord::pending("baz".to_string());
    assert_eq!(
        actions,
        vec![
            Action::LoadRecord { name: "baz".to_string() },
            Action::ListRemotes,
            Action::Persist { record: pending.clone() },
            Action::Finish { outcome: Outcome::NoUpstream },
        ]
    );
    assert_eq!(machine.record(), &pending);
}

#[test]
fn failed_record_without_upstream_keeps_its_failure() {
    let stored = SyncRecord::pending("baz".to_string()).failed("old".to_string(), at(3));
    let (machine, actions) = run("baz", vec![loaded(Some(stored.clone())), ok("nothing here")]);
    assert_eq!(actions[2], Action::Finish { outcome: Outcome::NoUpstream });
    assert_eq!(machine.record(), &stored);
}

#[test]
fn failed_record_is_retried_and_error_cleared() {
    let stored = SyncRecord::pending("foo".to_string()).failed("authentication failed".to_string(), at(3));
    let (machine, actions) = run(
        "foo",
        vec![
            loaded(Some(stored)),
            ok(FOO_LISTING),
            ok(""),
            ok(""),
            ok(""),
            ok(""),
            Event::Published,
            Event::Persisted,
        ],
    );
    assert_eq!(machine.record().status, SyncStatus::Succeeded);
    assert_eq!(machine.record().error_message, None);
    assert_eq!(publishes(&actions), 1);
    assert_eq!(actions[8], Action::Finish { outcome: Outcome::Synced });
}

#[test]
fn tag_push_failure_does_not_fail_the_sync() {
    let (machine, actions) = run(
        "foo",
        vec![
            loaded(None),
            ok(FOO_LISTING),
            ok(""),
            ok(""),
            ok(""),
            failed("tags refused"),
            Event::Published,
            Event::Persisted,
        ],
    );
    assert_eq!(machine.record().status, SyncStatus::Succeeded);
    assert_eq!(machine.record().error_message, None);
    assert_eq!(publishes(&actions), 1);
    assert_eq!(actions[8], Action::Finish { outcome: Outcome::Synced });
}

#[test]
fn tags_are_pushed_even_when_branches_fail() {
    let (_, actions) = run(
        "foo",
        vec![loaded(None), ok(FOO_LISTING), ok(""), ok(""), failed("denied")],
    );
    assert_eq!(actions[5], Action::PushTags { remote: nju() });
    assert_eq!(pushes(&actions), 2);
}

#[test]
fn listing_failure_is_recorded() {
    let (machine, actions) = run(
        "foo",
        vec![loaded(None), failed("fatal: not a git repository"), Event::Persisted],
    );
    assert_eq!(machine.record().status, SyncStatus::Failed);
    assert_eq!(machine.record().error_message, Some("fatal: not a git repository".to_string()));
    assert_eq!(machine.record().updated_at, at(102));
    assert_eq!(actions[2], Action::Persist { record: machine.record().clone() });
    assert_eq!(actions[3], Action::Finish { outcome: Outcome::Failed });
}

#[test]
fn removal_failure_other_than_missing_is_recorded() {
    let (machine, actions) = run(
        "foo",
        vec![loaded(None), ok(FOO_LISTING), failed("fatal: could not lock config file")],
    );
    assert_eq!(machine.record().status, SyncStatus::Failed);
    assert_eq!(
        machine.record().error_message,
        Some("fatal: could not lock config file".to_string())
    );
    assert_eq!(machine.record().mirror_url, FOO_MIRROR);
    assert_eq!(actions[3], Action::Persist { record: machine.record().clone() });
    assert_eq!(machine.phase(), Phase::Persisting);
}

#[test]
fn addition_failure_is_recorded() {
    let (machine, actions) = run(
        "foo",
        vec![loaded(None), ok(FOO_LISTING), ok(""), failed("error: remote nju already exists.")],
    );
    assert_eq!(machine.record().status, SyncStatus::Failed);
    assert_eq!(
        machine.record().error_message,
        Some("error: remote nju already exists.".to_string())
    );
    assert_eq!(actions[4], Action::Persist { record: machine.record().clone() });
    assert_eq!(pushes(&actions), 0);
}

#[test]
fn publish_failure_does_not_roll_back_success() {
    let (machine, actions) = run(
        "foo",
        vec![
            loaded(None),
            ok(FOO_LISTING),
            ok(""),
            ok(""),
            ok(""),
            ok(""),
            Event::PublishFailed,
            Event::Persisted,
        ],
    );
    assert_eq!(machine.record().status, SyncStatus::Succeeded);
    assert_eq!(actions[7], Action::Persist { record: machine.record().clone() });
    assert_eq!(actions[8], Action::Finish { outcome: Outcome::SyncedUnannounced });
}

#[test]
fn store_failure_on_read_ends_the_repository() {
    let (machine, actions) = run("foo", vec![Event::StoreFailed]);
    assert_eq!(actions[1], Action::Finish { outcome: Outcome::StoreUnavailable });
    assert!(machine.is_done());
}

#[test]
fn store_failure_on_write_ends_the_repository() {
    let (machine, actions) = run(
        "foo",
        vec![loaded(None), failed("boom"), Event::StoreFailed],
    );
    assert_eq!(actions[3], Action::Finish { outcome: Outcome::StoreUnavailable });
    assert_eq!(machine.record().status, SyncStatus::Failed);
    assert!(machine.is_done());
}

#[test]
fn unexpected_events_change_nothing() {
    let (machine, request) = RepoSync::begin("foo".to_string());
    let (machine, action) = machine.step(ok(FOO_LISTING), at(1));
    assert_eq!(action, Action::Nothing);
    assert_eq!(machine.phase(), Phase::AwaitingRecord);
    let (machine, action) = machine.step(Event::Published, at(2));
    assert_eq!(action, Action::Nothing);
    let (machine, action) = machine.step(Event::Persisted, at(3));
    assert_eq!(action, Action::Nothing);
    let (machine, action) = machine.step(loaded(None), at(4));
    assert_eq!(action, Action::ListRemotes);
    let (machine, action) = machine.step(loaded(None), at(5));
    assert_eq!(action, Action::Nothing);
    let (machine, action) = machine.step(Event::StoreFailed, at(6));
    assert_eq!(action, Action::Nothing);
    assert_eq!(machine.phase(), Phase::ListingRemotes);
    assert_eq!(request, Action::LoadRecord { name: "foo".to_string() });
}

#[test]
fn survey_findings_drive_the_step_after_listing() {
    let listing = |m: RepoSync| m.step(loaded(None), at(1)).0;

    let (m, _) = RepoSync::begin("foo".to_string());
    let (m, action) = listing(m).step_surveyed(
        Survey::Unresolvable { error: ResolveError::PatternRejected },
        at(2),
    );
    assert_eq!(m.record().status, SyncStatus::Failed);
    assert_eq!(m.record().error_message, Some(ResolveError::PatternRejected.message()));
    assert_eq!(action, Action::Persist { record: m.record().clone() });

    let (m, _) = RepoSync::begin("foo".to_string());
    let (m, action) = listing(m).step_surveyed(
        Survey::Unresolvable { error: ResolveError::Unparsable },
        at(2),
    );
    assert_eq!(m.record().error_message, Some(ResolveError::Unparsable.message()));
    assert_eq!(action, Action::Persist { record: m.record().clone() });

    let (m, _) = RepoSync::begin("foo".to_string());
    let (m, action) = listing(m).step_surveyed(
        Survey::ListingFailed { message: "nope".to_string() },
        at(2),
    );
    assert_eq!(m.record().error_message, Some("nope".to_string()));
    assert_eq!(action, Action::Persist { record: m.record().clone() });

    let (m, _) = RepoSync::begin("foo".to_string());
    let resolution = resolve(FOO_UPSTREAM).unwrap();
    let (m, action) = listing(m).step_surveyed(Survey::Resolved { resolution }, at(2));
    assert_eq!(action, Action::RemoveRemote { name: nju() });
    assert_eq!(m.record().upstream_url, Some(FOO_UPSTREAM.to_string()));
    assert_eq!(m.record().mirror_url, FOO_MIRROR);
    assert_eq!(m.record().status, SyncStatus::Pending);
    assert_eq!(m.phase(), Phase::RemovingRemote);
}

#[test]
fn survey_findings_are_ignored_outside_the_listing_phase() {
    let (m, _) = RepoSync::begin("foo".to_string());
    let (m, action) = m.step_surveyed(Survey::NoUpstream, at(1));
    assert_eq!(action, Action::Nothing);
    assert_eq!(m.phase(), Phase::AwaitingRecord);
}

#[test]
fn at_most_one_announcement_per_run() {
    let (_, actions) = run(
        "foo",
        vec![
            loaded(None),
            ok(FOO_LISTING),
            ok(""),
            ok(""),
            ok(""),
            ok(""),
            ok(""),
            Event::Published,
            Event::Published,
            Event::Persisted,
            ok(""),
        ],
    );
    assert_eq!(publishes(&actions), 1);
}

#[test]
fn timed_out_listing_fails_the_attempt() {
    let (machine, actions) = run("foo", vec![loaded(None), Event::CommandTimedOut, Event::Persisted]);
    assert_eq!(machine.record().status, SyncStatus::Failed);
    assert_eq!(machine.record().error_message, Some("command timed out".to_string()));
    assert_eq!(machine.record().updated_at, at(102));
    assert_eq!(actions[2], Action::Persist { record: machine.record().clone() });
    assert_eq!(actions[3], Action::Finish { outcome: Outcome::Failed });
}

#[test]
fn timed_out_remote_commands_fail_the_attempt() {
    let (machine, actions) =
        run("foo", vec![loaded(None), ok(FOO_LISTING), Event::CommandTimedOut]);
    assert_eq!(machine.record().error_message, Some(TIMEOUT_NOTICE.to_string()));
    assert_eq!(actions[3], Action::Persist { record: machine.record().clone() });

    let (machine, actions) =
        run("foo", vec![loaded(None), ok(FOO_LISTING), ok(""), Event::CommandTimedOut]);
    assert_eq!(machine.record().status, SyncStatus::Failed);
    assert_eq!(machine.record().error_message, Some(TIMEOUT_NOTICE.to_string()));
    assert_eq!(actions[4], Action::Persist { record: machine.record().clone() });
}

#[test]
fn timed_out_branch_push_fails_after_the_tags_are_tried() {
    let (machine, actions) = run(
        "foo",
        vec![loaded(None), ok(FOO_LISTING), ok(""), ok(""), Event::CommandTimedOut, ok("")],
    );
    assert_eq!(actions[5], Action::PushTags { remote: nju() });
    assert_eq!(machine.record().status, SyncStatus::Failed);
    assert_eq!(machine.record().error_message, Some(TIMEOUT_NOTICE.to_string()));
    assert_eq!(publishes(&actions), 0);
}

#[test]
fn timed_out_tag_push_does_not_fail_the_sync() {
    let (machine, actions) = run(
        "foo",
        vec![loaded(None), ok(FOO_LISTING), ok(""), ok(""), ok(""), Event::CommandTimedOut],
    );
    assert_eq!(machine.record().status, SyncStatus::Succeeded);
    assert_eq!(publishes(&actions), 1);
}

#[test]
fn timeout_outside_a_command_is_ignored() {
    let (machine, actions) = run("foo", vec![Event::CommandTimedOut]);
    assert_eq!(actions[1], Action::Nothing);
    assert_eq!(machine.phase(), Phase::AwaitingRecord);
}
