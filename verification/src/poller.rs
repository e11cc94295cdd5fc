//! The update poller as a state machine.
//!
//! The poller lives as long as the application.  It asks the update source
//! whether a newer version exists, and if one does, has it downloaded and
//! installed and then announces it; after that, and after every check that
//! found nothing or failed, it waits for a fixed time and starts again.  No
//! failure ends it.  It ends only when it is asked to.
//!
//! The caller does what the poller tells it, an action, and reports what
//! came of it, an event; every event is answered by the next action.  While
//! a download runs the caller also passes on how far it has come.

use vstd::prelude::*;

verus! {

/// The time between the end of one cycle and the next check, in seconds.
pub const POLL_INTERVAL_SECS: u64 = 600;

/// The name of the notification that announces an installed update.
pub const UPDATE_READY_EVENT: &'static str = "update-ready";

/// Where the poller stands.
#[derive(Clone, Copy, PartialEq, Eq, Debug, Structural)]
pub enum PollerPhase {
    /// Waiting for the next check.
    Idle,
    /// The update source has been asked.
    Checking,
    /// A newer version is being downloaded.
    Downloading,
    /// The download is complete and is being installed.
    Installing,
    /// The update is installed and is being announced.
    Ready,
    /// The poller was asked to stop and has stopped.
    Stopped,
}

/// What the caller reports to the poller.
#[derive(Debug, PartialEq, Eq)]
pub enum PollerEvent {
    /// The poller was started, or the wait is over.
    Woke,
    /// The update source has nothing newer.
    NoUpdate,
    /// The update source has this version, which is newer.
    UpdateAvailable { version: String },
    /// The update is downloaded and installed.
    Installed,
    /// The check, the download or the installation failed.
    Failed,
    /// The announcement was handed over.
    Notified,
    /// The poller is asked to stop.
    CancelRequested,
}

/// How far a download has come.
#[derive(Clone, Copy, PartialEq, Eq, Debug, Structural)]
pub enum DownloadProgress {
    /// A part of the download arrived: its length and, if known, the
    /// length of the whole.
    Chunk { length: u64, total: Option<u64> },
    /// The download is complete.
    Finished,
}

/// What the poller tells the caller to do.
#[derive(Debug, PartialEq, Eq)]
pub enum PollerAction {
    /// Ask the update source whether a newer version exists.
    Check,
    /// Download the version that was found and install it.
    DownloadAndInstall,
    /// Announce that this version is installed.
    Notify { version: String },
    /// Wait this many seconds, or until the poller is asked to stop.
    Sleep { seconds: u64 },
    /// End the polling.
    Stop,
}

/// The mathematical content of an action.
pub enum ActionModel {
    Check,
    DownloadAndInstall,
    Notify { version: Seq<char> },
    Sleep { seconds: u64 },
    Stop,
}

impl View for PollerAction {
    type V = ActionModel;

    open spec fn view(&self) -> ActionModel {
        match *self {
            PollerAction::Check => ActionModel::Check,
            PollerAction::DownloadAndInstall => ActionModel::DownloadAndInstall,
            PollerAction::Notify { version } => ActionModel::Notify { version: version@ },
            PollerAction::Sleep { seconds } => ActionModel::Sleep { seconds },
            PollerAction::Stop => ActionModel::Stop,
        }
    }
}

/// What reaches the poller: an event, or the progress of a download.
pub enum PollerInput {
    Report(PollerEvent),
    Progress(DownloadProgress),
}

/// The mathematical content of the poller.
pub struct PollerModel {
    pub phase: PollerPhase,
    /// The version of the update in flight.
    pub version: Seq<char>,
    /// The number of bytes of it that have arrived.
    pub downloaded: u64,
    /// The number of bytes it has in all, if the download has said so.
    pub total: Option<u64>,
}

/// The poller as it is created: waiting, with nothing in flight.
pub open spec fn initial() -> PollerModel {
    PollerModel { phase: PollerPhase::Idle, version: Seq::empty(), downloaded: 0, total: None }
}

/// The sum of two byte counts, or the largest count if the sum is larger.
pub open spec fn saturating_sum(a: u64, b: u64) -> u64 {
    if a + b > u64::MAX {
        u64::MAX
    } else {
        (a + b) as u64
    }
}

/// The end of a cycle: the poller waits the fixed time for the next one.
pub open spec fn cycle_end(state: PollerModel) -> (PollerModel, ActionModel) {
    (
        PollerModel { phase: PollerPhase::Idle, ..state },
        ActionModel::Sleep { seconds: POLL_INTERVAL_SECS },
    )
}

/// The poller after an event, and what the caller is to do next.
///
/// A request to stop ends the poller, and nothing else does.  A waiting
/// poller that wakes checks; a version found by a check is downloaded and
/// installed, and once installed it is announced.  Everything else ends the
/// cycle: a check without a find, the announcement handed over, a failure,
/// and any event that the phase was not waiting for.
pub open spec fn poll_step(state: PollerModel, event: PollerEvent) -> (PollerModel, ActionModel) {
    if state.phase is Stopped {
        (state, ActionModel::Stop)
    } else {
        match event {
            PollerEvent::CancelRequested => (
                PollerModel { phase: PollerPhase::Stopped, ..state },
                ActionModel::Stop,
            ),
            PollerEvent::Woke => if state.phase is Idle {
                (PollerModel { phase: PollerPhase::Checking, ..state }, ActionModel::Check)
            } else {
                cycle_end(state)
            },
            PollerEvent::UpdateAvailable { version } => if state.phase is Checking {
                (
                    PollerModel {
                        phase: PollerPhase::Downloading,
                        version: version@,
                        downloaded: 0,
                        total: None,
                    },
                    ActionModel::DownloadAndInstall,
                )
            } else {
                cycle_end(state)
            },
            PollerEvent::Installed => if state.phase is Downloading || state.phase is Installing {
                (
                    PollerModel { phase: PollerPhase::Ready, ..state },
                    ActionModel::Notify { version: state.version },
                )
            } else {
                cycle_end(state)
            },
            PollerEvent::NoUpdate | PollerEvent::Failed | PollerEvent::Notified => cycle_end(
                state,
            ),
        }
    }
}

/// The poller after word of a download's progress.  The bytes that arrive
/// are added up while the download runs, and its end begins the
/// installation; in any other phase the word changes nothing.
pub open spec fn progress_step(state: PollerModel, progress: DownloadProgress) -> PollerModel {
    if state.phase is Downloading {
        match progress {
            DownloadProgress::Chunk { length, total } => PollerModel {
                downloaded: saturating_sum(state.downloaded, length),
                total,
                ..state
            },
            DownloadProgress::Finished => PollerModel { phase: PollerPhase::Installing, ..state },
        }
    } else {
        state
    }
}

/// The poller after one input.
pub open spec fn input_step(state: PollerModel, input: PollerInput) -> PollerModel {
    match input {
        PollerInput::Report(event) => poll_step(state, event).0,
        PollerInput::Progress(progress) => progress_step(state, progress),
    }
}

/// The poller after a sequence of inputs.
pub open spec fn poll_run(state: PollerModel, inputs: Seq<PollerInput>) -> PollerModel
    decreases inputs.len(),
{
    if inputs.len() == 0 {
        state
    } else {
        input_step(poll_run(state, inputs.drop_last()), inputs.last())
    }
}

/// The actions that the poller answers a sequence of inputs with, one for
/// each event among them.
pub open spec fn poll_actions(state: PollerModel, inputs: Seq<PollerInput>) -> Seq<ActionModel>
    decreases inputs.len(),
{
    if inputs.len() == 0 {
        Seq::empty()
    } else {
        let before = poll_actions(state, inputs.drop_last());
        match inputs.last() {
            PollerInput::Report(event) => before.push(
                poll_step(poll_run(state, inputs.drop_last()), event).1,
            ),
            PollerInput::Progress(_) => before,
        }
    }
}

/// The update poller.
pub struct UpdatePoller {
    phase: PollerPhase,
    version: String,
    downloaded: u64,
    total: Option<u64>,
}

impl View for UpdatePoller {
    type V = PollerModel;

    closed spec fn view(&self) -> PollerModel {
        PollerModel {
            phase: self.phase,
            version: self.version@,
            downloaded: self.downloaded,
            total: self.total,
        }
    }
}

impl UpdatePoller {
    /// Creates a poller.  It waits until it is told that it `Woke`.
    pub fn new() -> (poller: UpdatePoller)
        ensures
            poller@ == initial(),
    {
        UpdatePoller { phase: PollerPhase::Idle, version: String::new(), downloaded: 0, total: None }
    }

    /// Where the poller stands.
    pub fn phase(&self) -> (phase: PollerPhase)
        ensures
            phase == self@.phase,
    {
        self.phase
    }

    /// The version of the update in flight, or of the last one that was.
    pub fn version(&self) -> (version: &str)
        ensures
            version@ == self@.version,
    {
        self.version.as_str()
    }

    /// The number of bytes of the update that have arrived.
    pub fn downloaded(&self) -> (bytes: u64)
        ensures
            bytes == self@.downloaded,
    {
        self.downloaded
    }

    /// The number of bytes the update has in all, if the download has said
    /// so.
    pub fn total(&self) -> (bytes: Option<u64>)
        ensures
            bytes == self@.total,
    {
        self.total
    }

    /// Ends a cycle.
    fn end_cycle(&mut self) -> (action: PollerAction)
        ensures
            (final(self)@, action@) == cycle_end(old(self)@),
    {
        self.phase = PollerPhase::Idle;
        PollerAction::Sleep { seconds: POLL_INTERVAL_SECS }
    }

    /// Takes an event and says what to do next.
    pub fn step(&mut self, event: PollerEvent) -> (action: PollerAction)
        ensures
            (final(self)@, action@) == poll_step(old(self)@, event),
    {
        match self.phase {
            PollerPhase::Stopped => {
                return PollerAction::Stop;
            },
            _ => {},
        }
        match event {
            PollerEvent::CancelRequested => {
                self.phase = PollerPhase::Stopped;
                PollerAction::Stop
            },
            PollerEvent::Woke => match self.phase {
                PollerPhase::Idle => {
                    self.phase = PollerPhase::Checking;
                    PollerAction::Check
                },
                _ => self.end_cycle(),
            },
            PollerEvent::UpdateAvailable { version } => match self.phase {
                PollerPhase::Checking => {
                    self.version = version;
                    self.downloaded = 0;
                    self.total = None;
                    self.phase = PollerPhase::Downloading;
                    PollerAction::DownloadAndInstall
                },
                _ => self.end_cycle(),
            },
            PollerEvent::Installed => match self.phase {
                PollerPhase::Downloading | PollerPhase::Installing => {
                    self.phase = PollerPhase::Ready;
                    PollerAction::Notify { version: self.version.clone() }
                },
                _ => self.end_cycle(),
            },
            PollerEvent::NoUpdate | PollerEvent::Failed | PollerEvent::Notified => self.end_cycle(),
        }
    }

    /// Takes word of a download's progress.
    pub fn progress(&mut self, progress: DownloadProgress)
        ensures
            final(self)@ == progress_step(old(self)@, progress),
    {
        match self.phase {
            PollerPhase::Downloading => match progress {
                DownloadProgress::Chunk { length, total } => {
                    self.downloaded = if length > u64::MAX - self.downloaded {
                        u64::MAX
                    } else {
                        self.downloaded + length
                    };
                    self.total = total;
                },
                DownloadProgress::Finished => {
                    self.phase = PollerPhase::Installing;
                },
            },
            _ => {},
        }
    }
}

} // verus!
