//! The client's commands, and the requests they send.

use vstd::prelude::*;
use vstd::string::StringExecFns;

verus! {

/// The client's command line: the command to run.
#[derive(Clone, Debug, PartialEq, Eq)]
pub struct Cli {
    /// The command to execute.
    pub command: ClientCommand,
}

/// Available client commands.
#[derive(Clone, Debug, PartialEq, Eq)]
pub enum ClientCommand {
    /// Get a value by key.
    Get { key: String },
    /// Set a key-value pair.
    SetValue { key: String, value: String },
    /// Delete a key.
    Delete { key: String },
    /// Ping the server.
    Ping,
    /// Get server statistics.
    Stats,
}

/// The request line that a command sends: its word and arguments, each
/// after a single space.
pub open spec fn request_of(c: ClientCommand) -> Seq<char> {
    match c {
        ClientCommand::Get { key } => "get "@ + key@,
        ClientCommand::SetValue { key, value } => "set "@ + key@ + " "@ + value@,
        ClientCommand::Delete { key } => "delete "@ + key@,
        ClientCommand::Ping => "ping"@,
        ClientCommand::Stats => "stats"@,
    }
}

impl ClientCommand {
    /// The request line to send to the server for this command.
    pub fn request(&self) -> (r: String)
        ensures
            r@ == request_of(*self),
    {
        match self {
            ClientCommand::Get { key } => {
                let mut s = "get ".to_owned();
                s.append(key.as_str());
                s
            },
            ClientCommand::SetValue { key, value } => {
                let mut s = "set ".to_owned();
                s.append(key.as_str());
                s.append(" ");
                s.append(value.as_str());
                s
            },
            ClientCommand::Delete { key } => {
                let mut s = "delete ".to_owned();
                s.append(key.as_str());
                s
            },
            ClientCommand::Ping => "ping".to_owned(),
            ClientCommand::Stats => "stats".to_owned(),
        }
    }
}

} // verus!
