//! Inter-process communication protocol types.

use vstd::prelude::*;
use crate::action::Action;

verus! {

/// The named pipe path used for IPC between CLI and daemon.
pub const PIPE_NAME: &'static str = r"\\.\pipe\mosaico";

/// A command sent from the CLI to the daemon.
#[derive(Debug, Clone, Copy, PartialEq, Eq, Structural)]
pub enum Command {
    /// Request the daemon to stop.
    Stop,
    /// Request the daemon's current status.
    Status,
    /// Execute a tiling action (focus, swap, retile, etc.).
    Action { action: Action },
}

/// Status of a daemon response.
#[derive(Debug, Clone, Copy, PartialEq, Eq, Structural)]
pub enum ResponseStatus {
    /// The command succeeded (serialized as `ok`).
    Success,
    /// The command failed (serialized as `error`).
    Error,
}

/// A response sent from the daemon back to the CLI.
#[derive(Debug, Clone)]
pub struct Response {
    /// Whether the command succeeded.
    pub status: ResponseStatus,
    /// Optional human-readable message.
    pub message: Option<String>,
}

impl Response {
    /// Creates a successful response with no message.
    pub fn ok() -> (r: Self)
        ensures
            r.status == ResponseStatus::Success,
            r.message is None,
    {
        Response { status: ResponseStatus::Success, message: None }
    }

    /// Creates a successful response with a message.
    pub fn ok_with_message(message: String) -> (r: Self)
        ensures
            r.status == ResponseStatus::Success,
            r.message == Some(message),
    {
        Response { status: ResponseStatus::Success, message: Some(message) }
    }
}

} // verus!
