use update_coordinator::coordinator::{Action, Coordinator, Event, Outcome, Phase};
use update_coordinator::startup::{startup_check_delay, STARTUP_CHECK_DELAY_SECS};

const MIB: u64 = 1024 * 1024;

fn drive(events: &[Event]) -> (Coordinator, Vec<Action>) {
    let mut c = Coordinator::new();
    let mut actions = Vec::new();
    for e in events {
        actions.push(c.step(*e));
    }
    (c, actions)
}

fn downloads(actions: &[Action]) -> usize {
    actions.iter().filter(|a| **a == Action::DownloadAndInstall).count()
}

#[test]
fn fresh_flow_is_idle() {
    let c = Coordinator::new();
    assert_eq!(c.phase, Phase::Idle);
    assert_eq!(c.downloaded, 0);
    assert_eq!(c.total, None);
    assert_eq!(c.outcome(), None);
}

#[test]
fn same_version_downloads_nothing() {
    let (c, actions) = drive(&[Event::Start, Event::ClientReady, Event::NoUpdate]);
    assert_eq!(
        actions,
        vec![Action::BuildClient, Action::QuerySource, Action::Nothing]
    );
    assert_eq!(downloads(&actions), 0);
    assert_eq!(c.outcome(), Some(Outcome::NothingToDo));
}

#[test]
fn ten_chunks_of_one_mib() {
    let mut events = vec![
        Event::Start,
        Event::ClientReady,
        Event::UpdateFound { content_length: Some(10 * MIB) },
    ];
    for _ in 0..10 {
        events.push(Event::Chunk { len: MIB });
    }
    events.push(Event::DownloadFinished);
    events.push(Event::Completed { ok: true });
    let (c, actions) = drive(&events);

    let progress: Vec<u64> = actions
        .iter()
        .filter_map(|a| match a {
            Action::ReportProgress { downloaded, total } => {
                assert_eq!(*total, Some(10 * MIB));
                Some(*downloaded / MIB)
            }
            _ => None,
        })
        .collect();
    assert_eq!(progress, vec![1, 2, 3, 4, 5, 6, 7, 8, 9, 10]);
    let finished = actions
        .iter()
        .filter(|a| **a == Action::ReportDownloadFinished)
        .count();
    assert_eq!(finished, 1);
    assert_eq!(downloads(&actions), 1);
    assert_eq!(c.downloaded, 10 * MIB);
    assert_eq!(c.outcome(), Some(Outcome::Installed));
}

#[test]
fn unreachable_source_downloads_nothing() {
    let (c, actions) = drive(&[
        Event::Start,
        Event::ClientReady,
        Event::CheckFailed,
        Event::UpdateFound { content_length: Some(5) },
        Event::Chunk { len: 5 },
    ]);
    assert_eq!(downloads(&actions), 0);
    assert_eq!(actions[2..], [Action::Nothing, Action::Nothing, Action::Nothing]);
    assert_eq!(c.downloaded, 0);
    assert_eq!(c.outcome(), Some(Outcome::NothingToDo));
}

#[test]
fn client_failure_is_reported_once_and_ends_the_flow() {
    let (c, actions) = drive(&[
        Event::Start,
        Event::ClientFailed,
        Event::ClientReady,
        Event::UpdateFound { content_length: None },
    ]);
    assert_eq!(
        actions,
        vec![
            Action::BuildClient,
            Action::ReportClientFailure,
            Action::Nothing,
            Action::Nothing
        ]
    );
    assert_eq!(c.outcome(), Some(Outcome::ClientUnavailable));
}

#[test]
fn progress_without_known_size() {
    let (c, actions) = drive(&[
        Event::Start,
        Event::ClientReady,
        Event::UpdateFound { content_length: None },
        Event::Chunk { len: 300 },
        Event::Chunk { len: 0 },
        Event::Chunk { len: 700 },
    ]);
    assert_eq!(
        actions[3..],
        [
            Action::ReportProgress { downloaded: 300, total: None },
            Action::ReportProgress { downloaded: 300, total: None },
            Action::ReportProgress { downloaded: 1000, total: None },
        ]
    );
    assert_eq!(c.phase, Phase::Downloading);
    assert_eq!(c.outcome(), None);
}

#[test]
fn counter_holds_at_the_largest_value() {
    let (c, actions) = drive(&[
        Event::Start,
        Event::ClientReady,
        Event::UpdateFound { content_length: None },
        Event::Chunk { len: u64::MAX - 1 },
        Event::Chunk { len: 5 },
        Event::Chunk { len: 5 },
    ]);
    assert_eq!(
        actions[3..],
        [
            Action::ReportProgress { downloaded: u64::MAX - 1, total: None },
            Action::ReportProgress { downloaded: u64::MAX, total: None },
            Action::ReportProgress { downloaded: u64::MAX, total: None },
        ]
    );
    assert_eq!(c.downloaded, u64::MAX);
}

#[test]
fn download_failure_ends_quietly() {
    let (c, actions) = drive(&[
        Event::Start,
        Event::ClientReady,
        Event::UpdateFound { content_length: Some(10) },
        Event::Chunk { len: 4 },
        Event::Completed { ok: false },
        Event::Chunk { len: 6 },
    ]);
    assert_eq!(actions[4..], [Action::Nothing, Action::Nothing]);
    assert_eq!(c.downloaded, 4);
    assert_eq!(c.outcome(), Some(Outcome::Failed));
}

#[test]
fn install_failure_ends_quietly() {
    let (c, _) = drive(&[
        Event::Start,
        Event::ClientReady,
        Event::UpdateFound { content_length: Some(3) },
        Event::Chunk { len: 3 },
        Event::DownloadFinished,
        Event::Completed { ok: false },
    ]);
    assert_eq!(c.outcome(), Some(Outcome::Failed));
}

#[test]
fn success_before_download_finished_counts_as_failure() {
    let (c, _) = drive(&[
        Event::Start,
        Event::ClientReady,
        Event::UpdateFound { content_length: Some(3) },
        Event::Completed { ok: true },
    ]);
    assert_eq!(c.outcome(), Some(Outcome::Failed));
}

#[test]
fn events_out_of_order_are_ignored() {
    let mut c = Coordinator::new();
    assert_eq!(c.step(Event::ClientReady), Action::Nothing);
    assert_eq!(c.step(Event::Chunk { len: 9 }), Action::Nothing);
    assert_eq!(c.phase, Phase::Idle);
    assert_eq!(c.step(Event::Start), Action::BuildClient);
    assert_eq!(c.step(Event::Start), Action::Nothing);
    assert_eq!(c.step(Event::NoUpdate), Action::Nothing);
    assert_eq!(c.phase, Phase::BuildingClient);
    assert_eq!(c.downloaded, 0);
}

#[test]
fn release_build_checks_after_five_seconds() {
    assert_eq!(STARTUP_CHECK_DELAY_SECS, 5);
    assert_eq!(startup_check_delay(true), Some(5));
}

#[test]
fn debug_build_never_checks_on_its_own() {
    assert_eq!(startup_check_delay(false), None);
}
