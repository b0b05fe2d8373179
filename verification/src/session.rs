//! The session state machine: what the program does next, decided from each
//! outside input.
//!
//! The driver owns the outside work. It parses the argument list, reads the
//! file, prints, sleeps and polls the shutdown flag; after each piece of work
//! it hands the outcome back as an [`Event`] and performs the [`Action`] the
//! step returns. Every decision of the run — which interval to keep, whether
//! to read a file, when to print, when to stop, when to fail — is made here.

use vstd::prelude::*;
use vstd::string::StringExecFns;
use crate::config::{opt_str_view, spec_config, Config, ConfigError, ConfigModel};

verus! {

/// The one line said on a clean shutdown, printed exactly once.
pub fn farewell_line() -> (r: String)
    ensures
        r@ == "Got it! Exiting..."@,
{
    String::from_str("Got it! Exiting...")
}

/// Why the file contents could not be loaded.
#[derive(Clone, Copy, Debug, PartialEq, Eq, Structural)]
pub enum LoadError {
    /// The file does not exist.
    NotFound,
    /// The file may not be read.
    PermissionDenied,
    /// The bytes are not valid text.
    InvalidData,
    /// Any other input/output failure.
    Other,
}

/// Why startup failed, so the loop never ran.
#[derive(Clone, Copy, Debug, PartialEq, Eq, Structural)]
pub enum StartupError {
    /// The option values do not make a configuration.
    BadConfig(ConfigError),
    /// The configured file could not be loaded.
    LoadFailed(LoadError),
}

/// One outside input handed to the session by its driver.
#[derive(Debug)]
pub enum Event {
    /// The two command-line option values, read from the argument list.
    Options { time: Option<String>, file: Option<String> },
    /// The outcome of reading the configured file.
    Loaded { outcome: Result<String, LoadError> },
    /// The value of the shutdown flag, polled at the top of an iteration.
    Poll { runnable: bool },
}

/// What the driver must do after a step.
#[derive(Clone, Copy, Debug, PartialEq, Eq, Structural)]
pub enum Action {
    /// Nothing to perform; hand the session its next event.
    Continue,
    /// Read the configured file and hand back a `Loaded` event.
    ReadFile,
    /// Print the content line, then sleep for the configured interval.
    PrintContent,
    /// Print the farewell line; the loop is over.
    PrintFarewell,
    /// Startup failed: report the error and exit with a nonzero status.
    Abort,
}

/// The session, from waiting for the option values to a terminal state.
#[derive(Debug)]
pub enum SessionState {
    /// Waiting for the command-line option values.
    AwaitOptions,
    /// Waiting for the contents of the configured file.
    AwaitContent { config: Config },
    /// The print loop runs; the content is printed once per iteration.
    Running { config: Config, content: String },
    /// The shutdown request was honored and the farewell said.
    Stopped,
    /// Startup failed before the loop ran.
    Failed { error: StartupError },
}

/// Mathematical image of an [`Event`].
pub enum EventModel {
    Options { time: Option<Seq<char>>, file: Option<Seq<char>> },
    Loaded { outcome: Result<Seq<char>, LoadError> },
    Poll { runnable: bool },
}

/// Mathematical image of a [`SessionState`].
pub enum StateModel {
    AwaitOptions,
    AwaitContent { config: ConfigModel },
    Running { config: ConfigModel, content: Seq<char> },
    Stopped,
    Failed { error: StartupError },
}

impl View for Event {
    type V = EventModel;

    open spec fn view(&self) -> EventModel {
        match self {
            Event::Options { time, file } => EventModel::Options {
                time: opt_str_view(*time),
                file: opt_str_view(*file),
            },
            Event::Loaded { outcome } => EventModel::Loaded {
                outcome: match outcome {
                    Result::Ok(s) => Result::Ok(s@),
                    Result::Err(e) => Result::Err(*e),
                },
            },
            Event::Poll { runnable } => EventModel::Poll { runnable: *runnable },
        }
    }
}

impl View for SessionState {
    type V = StateModel;

    open spec fn view(&self) -> StateModel {
        match self {
            SessionState::AwaitOptions => StateModel::AwaitOptions,
            SessionState::AwaitContent { config } => StateModel::AwaitContent { config: config@ },
            SessionState::Running { config, content } => StateModel::Running {
                config: config@,
                content: content@,
            },
            SessionState::Stopped => StateModel::Stopped,
            SessionState::Failed { error } => StateModel::Failed { error: *error },
        }
    }
}

/// The transition function of the session.
///
/// Option values make a configuration, or fail startup; a load outcome
/// starts the loop, or fails startup; a poll prints while the flag is up and
/// says farewell the first time it is down. An event a state does not expect
/// changes nothing, so the two terminal states absorb every further event.
pub open spec fn spec_step(s: StateModel, e: EventModel) -> (StateModel, Action) {
    match (s, e) {
        (StateModel::AwaitOptions, EventModel::Options { time, file }) => match spec_config(
            time,
            file,
        ) {
            Result::Ok(config) => {
                if config.file_path is Some {
                    (StateModel::AwaitContent { config }, Action::ReadFile)
                } else {
                    (
                        StateModel::Running { config, content: Seq::empty() },
                        Action::Continue,
                    )
                }
            },
            Result::Err(e) => (
                StateModel::Failed { error: StartupError::BadConfig(e) },
                Action::Abort,
            ),
        },
        (StateModel::AwaitContent { config }, EventModel::Loaded { outcome }) => match outcome {
            Result::Ok(content) => (StateModel::Running { config, content }, Action::Continue),
            Result::Err(e) => (
                StateModel::Failed { error: StartupError::LoadFailed(e) },
                Action::Abort,
            ),
        },
        (StateModel::Running { config, content }, EventModel::Poll { runnable }) => {
            if runnable {
                (StateModel::Running { config, content }, Action::PrintContent)
            } else {
                (StateModel::Stopped, Action::PrintFarewell)
            }
        },
        (other, _) => (other, Action::Continue),
    }
}

impl SessionState {
    /// Feeds one event to the session; returns the next state and the action
    /// the driver must perform.
    pub fn step(self, event: Event) -> (r: (SessionState, Action))
        ensures
            r.0@ == spec_step(self@, event@).0,
            r.1 == spec_step(self@, event@).1,
    {
        match (self, event) {
            (SessionState::AwaitOptions, Event::Options { time, file }) => {
                match Config::from_options(time, file) {
                    Result::Ok(config) => {
                        if config.file_path.is_some() {
                            (SessionState::AwaitContent { config }, Action::ReadFile)
                        } else {
                            (
                                SessionState::Running { config, content: String::new() },
                                Action::Continue,
                            )
                        }
                    },
                    Result::Err(e) => (
                        SessionState::Failed { error: StartupError::BadConfig(e) },
                        Action::Abort,
                    ),
                }
            },
            (SessionState::AwaitContent { config }, Event::Loaded { outcome }) => match outcome {
                Result::Ok(content) => (
                    SessionState::Running { config, content },
                    Action::Continue,
                ),
                Result::Err(e) => (
                    SessionState::Failed { error: StartupError::LoadFailed(e) },
                    Action::Abort,
                ),
            },
            (SessionState::Running { config, content }, Event::Poll { runnable }) => {
                if runnable {
                    (SessionState::Running { config, content }, Action::PrintContent)
                } else {
                    (SessionState::Stopped, Action::PrintFarewell)
                }
            },
            (other, _) => (other, Action::Continue),
        }
    }

    /// Process exit status once the session is over: zero for a clean
    /// shutdown, one for a startup failure.
    pub fn exit_code(&self) -> (r: i32)
        requires
            self@ is Stopped || self@ is Failed,
        ensures
            self@ is Stopped ==> r == 0,
            self@ is Failed ==> r == 1,
    {
        match self {
            SessionState::Failed { .. } => 1,
            _ => 0,
        }
    }
}

} // verus!
