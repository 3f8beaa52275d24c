//! Why an operation on a run failed.
use vstd::prelude::*;
use vstd::string::*;

verus! {

/// Why a run could not be started.
#[derive(Clone, Debug, PartialEq, Eq)]
pub enum SpawnError {
    /// A run with this identifier is live already.
    DuplicateRun(String),
    /// The child process could not be started; the reason is the launcher's.
    Launch(String),
}

/// Why input could not be sent to a run.
#[derive(Clone, Debug, PartialEq, Eq)]
pub enum SendError {
    /// No live run has this identifier.
    NotFound(String),
    /// Writing to the child's standard input failed.
    Io(String),
}

/// Why a run could not be killed.
#[derive(Clone, Debug, PartialEq, Eq)]
pub enum KillError {
    /// Terminating the child process failed.
    Terminate(String),
}

/// The text that reports a spawn failure.
pub open spec fn spawn_error_text(error: SpawnError) -> Seq<char> {
    match error {
        SpawnError::DuplicateRun(id) => "runner '"@ + id@ + "' is already running"@,
        SpawnError::Launch(reason) => reason@,
    }
}

/// The text that reports a send failure.
pub open spec fn send_error_text(error: SendError) -> Seq<char> {
    match error {
        SendError::NotFound(id) => "no runner with id '"@ + id@ + "'"@,
        SendError::Io(reason) => reason@,
    }
}

/// The text that reports a kill failure.
pub open spec fn kill_error_text(error: KillError) -> Seq<char> {
    match error {
        KillError::Terminate(reason) => reason@,
    }
}

impl SpawnError {
    /// The error as a message for the caller.
    pub fn message(&self) -> (text: String)
        ensures
            text@ == spawn_error_text(*self),
    {
        match self {
            SpawnError::DuplicateRun(id) => {
                let mut text = String::from_str("runner '");
                text.append(id.as_str());
                text.append("' is already running");
                text
            },
            SpawnError::Launch(reason) => reason.clone(),
        }
    }
}

impl SendError {
    /// The error as a message for the caller.
    pub fn message(&self) -> (text: String)
        ensures
            text@ == send_error_text(*self),
    {
        match self {
            SendError::NotFound(id) => {
                let mut text = String::from_str("no runner with id '");
                text.append(id.as_str());
                text.append("'");
                text
            },
            SendError::Io(reason) => reason.clone(),
        }
    }
}

impl KillError {
    /// The error as a message for the caller.
    pub fn message(&self) -> (text: String)
        ensures
            text@ == kill_error_text(*self),
    {
        match self {
            KillError::Terminate(reason) => reason.clone(),
        }
    }
}

} // verus!
