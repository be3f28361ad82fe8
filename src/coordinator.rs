//! The update flow as a state machine.
//!
//! A flow starts `Idle`, builds an updater client, asks the update source
//! once, and, only when a newer release is offered, downloads and installs
//! it. The host reports what happened as an `Event`; `Coordinator::step`
//! moves to the next phase and says which `Action` the host performs next.
//! Finished flows ignore every further event.
use vstd::prelude::*;

verus! {

/// How a finished update flow ended. None of these is passed on to the host
/// as an error: a failed flow only leaves the application as it was.
#[derive(Clone, Copy, Debug, PartialEq, Eq, Structural)]
pub enum Outcome {
    /// The updater client could not be built (for instance, the update
    /// source is not configured).
    ClientUnavailable,
    /// The source offered no newer release, or could not be asked.
    NothingToDo,
    /// The offered release was downloaded and installed.
    Installed,
    /// The download or the installation failed.
    Failed,
}

/// Where a flow stands.
#[derive(Clone, Copy, Debug, PartialEq, Eq, Structural)]
pub enum Phase {
    Idle,
    BuildingClient,
    Checking,
    Downloading,
    Installing,
    Finished(Outcome),
}

/// What the host reports back to the flow.
#[derive(Clone, Copy, Debug, PartialEq, Eq, Structural)]
pub enum Event {
    /// The flow is started.
    Start,
    /// The updater client was built.
    ClientReady,
    /// The updater client could not be built.
    ClientFailed,
    /// The query to the update source failed.
    CheckFailed,
    /// The update source offers nothing newer than the running version.
    NoUpdate,
    /// The update source offers a newer release, of the given size if known.
    UpdateFound { content_length: Option<u64> },
    /// A chunk of `len` bytes of the release arrived.
    Chunk { len: u64 },
    /// The whole release was downloaded; installation begins.
    DownloadFinished,
    /// The download-and-install operation returned, successfully or not.
    Completed { ok: bool },
}

/// What the host does next.
#[derive(Clone, Copy, Debug, PartialEq, Eq, Structural)]
pub enum Action {
    /// Nothing; wait for the next event, or stop if the flow is finished.
    Nothing,
    /// Build an updater client for the running application.
    BuildClient,
    /// Ask the update source for a newer release.
    QuerySource,
    /// Log, at error level, that the updater client could not be built.
    ReportClientFailure,
    /// Download the offered release and install it.
    DownloadAndInstall,
    /// Log the bytes downloaded so far, out of the total if known.
    ReportProgress { downloaded: u64, total: Option<u64> },
    /// Log that the download is complete.
    ReportDownloadFinished,
}

/// One run of the update flow.
#[derive(Clone, Copy, Debug, PartialEq, Eq, Structural)]
pub struct Coordinator {
    pub phase: Phase,
    /// Bytes of the release received so far.
    pub downloaded: u64,
    /// Size of the release, as the update source gave it.
    pub total: Option<u64>,
}

/// `a + b`, held at `u64::MAX`.
pub open spec fn saturating_sum(a: u64, b: u64) -> u64 {
    if a + b > u64::MAX {
        u64::MAX
    } else {
        (a + b) as u64
    }
}

/// A flow that has not started.
pub open spec fn initial() -> Coordinator {
    Coordinator { phase: Phase::Idle, downloaded: 0, total: None }
}

/// The phase a flow enters, and the action it asks for, on each event.
/// An event that does not fit the phase changes nothing.
pub open spec fn next(s: Coordinator, e: Event) -> (Coordinator, Action) {
    match (s.phase, e) {
        (Phase::Idle, Event::Start) => (
            Coordinator { phase: Phase::BuildingClient, ..s },
            Action::BuildClient,
        ),
        (Phase::BuildingClient, Event::ClientReady) => (
            Coordinator { phase: Phase::Checking, ..s },
            Action::QuerySource,
        ),
        (Phase::BuildingClient, Event::ClientFailed) => (
            Coordinator { phase: Phase::Finished(Outcome::ClientUnavailable), ..s },
            Action::ReportClientFailure,
        ),
        (Phase::Checking, Event::CheckFailed) => (
            Coordinator { phase: Phase::Finished(Outcome::NothingToDo), ..s },
            Action::Nothing,
        ),
        (Phase::Checking, Event::NoUpdate) => (
            Coordinator { phase: Phase::Finished(Outcome::NothingToDo), ..s },
            Action::Nothing,
        ),
        (Phase::Checking, Event::UpdateFound { content_length }) => (
            Coordinator { phase: Phase::Downloading, total: content_length, ..s },
            Action::DownloadAndInstall,
        ),
        (Phase::Downloading, Event::Chunk { len }) => {
            let d = saturating_sum(s.downloaded, len);
            (
                Coordinator { downloaded: d, ..s },
                Action::ReportProgress { downloaded: d, total: s.total },
            )
        },
        (Phase::Downloading, Event::DownloadFinished) => (
            Coordinator { phase: Phase::Installing, ..s },
            Action::ReportDownloadFinished,
        ),
        (Phase::Downloading, Event::Completed { .. }) => (
            Coordinator { phase: Phase::Finished(Outcome::Failed), ..s },
            Action::Nothing,
        ),
        (Phase::Installing, Event::Completed { ok }) => (
            Coordinator {
                phase: Phase::Finished(if ok { Outcome::Installed } else { Outcome::Failed }),
                ..s
            },
            Action::Nothing,
        ),
        _ => (s, Action::Nothing),
    }
}

impl Coordinator {
    /// A flow that has not started.
    pub fn new() -> (r: Coordinator)
        ensures
            r == initial(),
    {
        Coordinator { phase: Phase::Idle, downloaded: 0, total: None }
    }

    /// Takes the host's report of `e` and returns what the host does next.
    pub fn step(&mut self, e: Event) -> (a: Action)
        ensures
            (*final(self), a) == next(*old(self), e),
    {
        match (self.phase, e) {
            (Phase::Idle, Event::Start) => {
                self.phase = Phase::BuildingClient;
                Action::BuildClient
            },
            (Phase::BuildingClient, Event::ClientReady) => {
                self.phase = Phase::Checking;
                Action::QuerySource
            },
            (Phase::BuildingClient, Event::ClientFailed) => {
                self.phase = Phase::Finished(Outcome::ClientUnavailable);
                Action::ReportClientFailure
            },
            (Phase::Checking, Event::CheckFailed) | (Phase::Checking, Event::NoUpdate) => {
                self.phase = Phase::Finished(Outcome::NothingToDo);
                Action::Nothing
            },
            (Phase::Checking, Event::UpdateFound { content_length }) => {
                self.phase = Phase::Downloading;
                self.total = content_length;
                Action::DownloadAndInstall
            },
            (Phase::Downloading, Event::Chunk { len }) => {
                let d: u64 = if len > u64::MAX - self.downloaded {
                    u64::MAX
                } else {
                    self.downloaded + len
                };
                self.downloaded = d;
                Action::ReportProgress { downloaded: d, total: self.total }
            },
            (Phase::Downloading, Event::DownloadFinished) => {
                self.phase = Phase::Installing;
                Action::ReportDownloadFinished
            },
            (Phase::Downloading, Event::Completed { ok: _ }) => {
                self.phase = Phase::Finished(Outcome::Failed);
                Action::Nothing
            },
            (Phase::Installing, Event::Completed { ok }) => {
                self.phase = Phase::Finished(if ok { Outcome::Installed } else { Outcome::Failed });
                Action::Nothing
            },
            _ => Action::Nothing,
        }
    }

    /// How the flow ended, or `None` while it is still running.
    pub fn outcome(&self) -> (r: Option<Outcome>)
        ensures
            r == (match self.phase {
                Phase::Finished(o) => Some(o),
                _ => None::<Outcome>,
            }),
    {
        match self.phase {
            Phase::Finished(o) => Some(o),
            _ => None,
        }
    }
}

} // verus!
