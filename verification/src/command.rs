//! The client/server command protocol: inbound commands, outbound responses
//! and the typed errors a command can produce.

use crate::server::ServerData;
use crate::text::{dec_digits, dec_int, format_i32, format_usize};
use vstd::prelude::*;
use vstd::string::StringExecFns;

verus! {

/// A command sent by a connected client.
#[derive(Debug, Clone, Copy, PartialEq, Eq, Structural)]
pub enum Command {
    GetServers,
    StartServer(usize),
    StopServer(usize),
}

/// A typed failure of one command. Every failure path of the dispatcher maps
/// to exactly one of these; none of them terminates the daemon or the
/// connection.
#[derive(Debug, Clone, Copy, PartialEq, Eq, Structural)]
pub enum CommandError {
    /// Exclusive access to the registry could not be acquired.
    MutexLockFail,
    /// The command named a slot id outside the configured range.
    NonExistentServer(usize),
    /// The operating system refused a spawn or terminate, with its native
    /// error code.
    SystemError(i32),
    /// The operating system refused a spawn or terminate without a native
    /// error code.
    UnknownSystemError,
    /// The registry was asked for a slot id outside the configured range.
    InvalidId(usize),
    /// Start was requested on a slot that is not startable.
    AlreadyRunning,
    /// Stop was requested on a slot that is not running.
    NotRunning,
}

impl CommandError {
    /// The display text of this error.
    pub open spec fn message_spec(&self) -> Seq<char> {
        match self {
            CommandError::MutexLockFail => "failed to lock mutex"@,
            CommandError::NonExistentServer(id) => "server id "@ + dec_digits(*id as nat)
                + " doesn't exist"@,
            CommandError::SystemError(c) => "system error: "@ + dec_int(*c as int),
            CommandError::UnknownSystemError => "unknown system error"@,
            CommandError::InvalidId(id) => "invalid server id "@ + dec_digits(*id as nat),
            CommandError::AlreadyRunning => "server is already running"@,
            CommandError::NotRunning => "server is not running"@,
        }
    }

    /// Renders the display text of this error.
    pub fn message(&self) -> (s: String)
        ensures
            s@ == self.message_spec(),
    {
        match self {
            CommandError::MutexLockFail => "failed to lock mutex".to_owned(),
            CommandError::NonExistentServer(id) => {
                let mut s = "server id ".to_owned();
                s.append(format_usize(*id).as_str());
                s.append(" doesn't exist");
                s
            },
            CommandError::SystemError(c) => {
                let mut s = "system error: ".to_owned();
                s.append(format_i32(*c).as_str());
                s
            },
            CommandError::UnknownSystemError => "unknown system error".to_owned(),
            CommandError::InvalidId(id) => {
                let mut s = "invalid server id ".to_owned();
                s.append(format_usize(*id).as_str());
                s
            },
            CommandError::AlreadyRunning => "server is already running".to_owned(),
            CommandError::NotRunning => "server is not running".to_owned(),
        }
    }
}

/// A response sent back to clients: either a full snapshot, one updated slot
/// view, or a typed error.
#[derive(Debug, PartialEq)]
pub enum CommandResponse {
    UpdateServers(Vec<ServerData>),
    UpdateServer(usize, ServerData),
    Error(CommandError),
}

} // verus!
