//! The supervisor of the backend process as a state machine.
//!
//! The caller owns the process and the event loop. It tells the supervisor
//! what happened, one [`Input`] at a time, and carries out the [`Action`] it
//! gets back. The supervisor decides; it never blocks and never fails.

use vstd::prelude::*;
use crate::event::BackendEvent;
use crate::event::EventView;
use crate::profile::BuildProfile;
use crate::relay::faithfully_decoded;
use crate::relay::relay;
use crate::relay::relayed;
use crate::relay::EntryView;
use crate::relay::LogEntry;
use crate::relay::Severity;

verus! {

/// The name under which the backend executable is bundled. It is launched
/// without arguments.
pub const BACKEND_PROGRAM: &'static str = "tremorsmusic";

/// How far the supervisor has come.
#[derive(Clone, Copy, Debug, PartialEq, Eq, Structural)]
pub enum Stage {
    /// Nothing has happened yet.
    NotStarted,
    /// The launch of the backend was asked for and is not answered yet.
    Launching,
    /// The backend was spawned and its events are being relayed.
    Draining,
    /// The event stream has closed.
    Closed,
    /// Start-up was aborted.
    Failed,
}

/// Why start-up was aborted.
#[derive(Clone, Copy, Debug, PartialEq, Eq, Structural)]
pub enum StartupError {
    /// The backend executable could not be located in the bundle.
    BackendNotFound,
    /// The backend executable was located but no process came of it.
    SpawnFailed,
    /// The logging sink could not be installed.
    SinkRejected,
}

impl StartupError {
    /// The wording of the diagnostic for this error.
    pub open spec fn diagnostic_text(self) -> Seq<char> {
        match self {
            StartupError::BackendNotFound => "Failed to create sidecar command"@,
            StartupError::SpawnFailed => "Failed to spawn backend sidecar"@,
            StartupError::SinkRejected => "error while running tauri application"@,
        }
    }

    /// The diagnostic with which start-up is aborted on this error.
    pub fn diagnostic(&self) -> (message: String)
        ensures
            message@ == self.diagnostic_text(),
    {
        match self {
            StartupError::BackendNotFound => String::from_str("Failed to create sidecar command"),
            StartupError::SpawnFailed => String::from_str("Failed to spawn backend sidecar"),
            StartupError::SinkRejected => String::from_str(
                "error while running tauri application",
            ),
        }
    }
}

/// What the caller reports to the supervisor.
#[derive(Debug, PartialEq, Eq)]
pub enum Input {
    /// The start-up hook of the application runs.
    Start,
    /// The backend executable is not in the bundle.
    BackendMissing,
    /// The backend executable could not be spawned.
    SpawnFailed,
    /// The backend runs and its event stream is open.
    Spawned,
    /// Installing the logging sink failed.
    SinkRejected,
    /// The event stream delivered an event.
    Event(BackendEvent),
    /// The event stream has closed.
    StreamClosed,
}

/// The mathematical content of an [`Input`].
pub enum InputView {
    Start,
    BackendMissing,
    SpawnFailed,
    Spawned,
    SinkRejected,
    Event(EventView),
    StreamClosed,
}

impl View for Input {
    type V = InputView;

    open spec fn view(&self) -> InputView {
        match self {
            Input::Start => InputView::Start,
            Input::BackendMissing => InputView::BackendMissing,
            Input::SpawnFailed => InputView::SpawnFailed,
            Input::Spawned => InputView::Spawned,
            Input::SinkRejected => InputView::SinkRejected,
            Input::Event(event) => InputView::Event(event@),
            Input::StreamClosed => InputView::StreamClosed,
        }
    }
}

/// What the supervisor asks of the caller.
#[derive(Debug, PartialEq, Eq)]
pub enum Action {
    /// Locate [`BACKEND_PROGRAM`] in the bundle and spawn it, without
    /// arguments and without interactive input, then report the outcome.
    Launch,
    /// Start the background task that drains the event stream, without
    /// waiting for it, and install a logging sink filtered at `sink` where
    /// there is one.
    Drain { sink: Option<Severity> },
    /// Write this entry to the log.
    Log(LogEntry),
    /// Abort start-up with the diagnostic of this error.
    Abort(StartupError),
    /// Nothing to do.
    Idle,
}

/// The mathematical content of an [`Action`].
pub enum ActionView {
    Launch,
    Drain { sink: Option<Severity> },
    Log(EntryView),
    Abort(StartupError),
    Idle,
}

impl View for Action {
    type V = ActionView;

    open spec fn view(&self) -> ActionView {
        match self {
            Action::Launch => ActionView::Launch,
            Action::Drain { sink } => ActionView::Drain { sink: *sink },
            Action::Log(entry) => ActionView::Log(entry@),
            Action::Abort(error) => ActionView::Abort(*error),
            Action::Idle => ActionView::Idle,
        }
    }
}

/// The state of a supervisor: its stage and the profile it was made for.
pub struct State {
    pub stage: Stage,
    pub profile: BuildProfile,
}

/// The state in which every supervisor begins.
pub open spec fn initial(profile: BuildProfile) -> State {
    State { stage: Stage::NotStarted, profile }
}

/// What the log is owed for an event while draining.
pub open spec fn log_action(event: EventView) -> ActionView {
    match relayed(event) {
        Some(entry) => ActionView::Log(entry),
        None => ActionView::Idle,
    }
}

/// The stage that follows `state` on `input`.
///
/// The launch is asked for once, on the first start. Its answer decides
/// between draining and failure. While draining, events keep the stage and
/// the end of the stream closes it. A rejected sink is fatal once a sink
/// was asked for. Every other input leaves the stage as it is.
pub open spec fn next_stage(state: State, input: InputView) -> Stage {
    match (state.stage, input) {
        (Stage::NotStarted, InputView::Start) => Stage::Launching,
        (Stage::Launching, InputView::BackendMissing) => Stage::Failed,
        (Stage::Launching, InputView::SpawnFailed) => Stage::Failed,
        (Stage::Launching, InputView::Spawned) => Stage::Draining,
        (Stage::Draining, InputView::StreamClosed) => Stage::Closed,
        (Stage::Draining, InputView::SinkRejected) => if state.profile.sink() is Some {
            Stage::Failed
        } else {
            Stage::Draining
        },
        (Stage::Closed, InputView::SinkRejected) => if state.profile.sink() is Some {
            Stage::Failed
        } else {
            Stage::Closed
        },
        (stage, _) => stage,
    }
}

/// The state that follows `state` on `input`. The profile never changes.
pub open spec fn next_state(state: State, input: InputView) -> State {
    State { stage: next_stage(state, input), profile: state.profile }
}

/// What the supervisor asks of the caller when `input` arrives in `state`.
pub open spec fn reaction(state: State, input: InputView) -> ActionView {
    match (state.stage, input) {
        (Stage::NotStarted, InputView::Start) => ActionView::Launch,
        (Stage::Launching, InputView::BackendMissing) => ActionView::Abort(
            StartupError::BackendNotFound,
        ),
        (Stage::Launching, InputView::SpawnFailed) => ActionView::Abort(StartupError::SpawnFailed),
        (Stage::Launching, InputView::Spawned) => ActionView::Drain { sink: state.profile.sink() },
        (Stage::Draining, InputView::Event(event)) => log_action(event),
        (Stage::Draining, InputView::SinkRejected) => if state.profile.sink() is Some {
            ActionView::Abort(StartupError::SinkRejected)
        } else {
            ActionView::Idle
        },
        (Stage::Closed, InputView::SinkRejected) => if state.profile.sink() is Some {
            ActionView::Abort(StartupError::SinkRejected)
        } else {
            ActionView::Idle
        },
        _ => ActionView::Idle,
    }
}

/// The supervisor of one backend process for one run of the application.
#[derive(Debug)]
pub struct Supervisor {
    stage: Stage,
    profile: BuildProfile,
}

impl View for Supervisor {
    type V = State;

    closed spec fn view(&self) -> State {
        State { stage: self.stage, profile: self.profile }
    }
}

impl Supervisor {
    /// A supervisor that has not started yet.
    pub fn new(profile: BuildProfile) -> (supervisor: Supervisor)
        ensures
            supervisor@ == initial(profile),
    {
        Supervisor { stage: Stage::NotStarted, profile }
    }

    /// The stage the supervisor is in.
    pub fn stage(&self) -> (stage: Stage)
        ensures
            stage == self@.stage,
    {
        self.stage
    }

    /// The profile the supervisor was made for.
    pub fn profile(&self) -> (profile: BuildProfile)
        ensures
            profile == self@.profile,
    {
        self.profile
    }

    /// Takes one input and says what to do about it.
    ///
    /// Total: every input is accepted in every stage. An event that arrives
    /// while draining is answered in this same step with its log entry, and
    /// the supervisor goes on draining whatever the event held.
    pub fn step(&mut self, input: Input) -> (action: Action)
        ensures
            final(self)@ == next_state(old(self)@, input@),
            action@ == reaction(old(self)@, input@),
            old(self)@.stage is Draining ==> (input@ matches InputView::Event(event)
                ==> faithfully_decoded(event)),
    {
        match input {
            Input::Start => match self.stage {
                Stage::NotStarted => {
                    self.stage = Stage::Launching;
                    Action::Launch
                },
                _ => Action::Idle,
            },
            Input::BackendMissing => match self.stage {
                Stage::Launching => {
                    self.stage = Stage::Failed;
                    Action::Abort(StartupError::BackendNotFound)
                },
                _ => Action::Idle,
            },
            Input::SpawnFailed => match self.stage {
                Stage::Launching => {
                    self.stage = Stage::Failed;
                    Action::Abort(StartupError::SpawnFailed)
                },
                _ => Action::Idle,
            },
            Input::Spawned => match self.stage {
                Stage::Launching => {
                    self.stage = Stage::Draining;
                    Action::Drain { sink: self.profile.sink_level() }
                },
                _ => Action::Idle,
            },
            Input::SinkRejected => match self.stage {
                Stage::Draining | Stage::Closed => {
                    if self.profile.sink_level().is_some() {
                        self.stage = Stage::Failed;
                        Action::Abort(StartupError::SinkRejected)
                    } else {
                        Action::Idle
                    }
                },
                _ => Action::Idle,
            },
            Input::Event(event) => match self.stage {
                Stage::Draining => match relay(&event) {
                    Some(entry) => Action::Log(entry),
                    None => Action::Idle,
                },
                _ => Action::Idle,
            },
            Input::StreamClosed => match self.stage {
                Stage::Draining => {
                    self.stage = Stage::Closed;
                    Action::Idle
                },
                _ => Action::Idle,
            },
        }
    }
}

} // verus!
