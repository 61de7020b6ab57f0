//! The commands of the cache protocol.

use crate::error::{CacheError, CacheResult};
use vstd::prelude::*;

verus! {

/// Types of commands supported by the cache server.
#[derive(Clone, Copy, Debug, PartialEq, Eq, Structural)]
pub enum Command {
    /// Get a value by key.
    Get,
    /// Set a key-value pair.
    SetValue,
    /// Delete a key.
    Delete,
    /// Ping the server.
    Ping,
    /// Get server statistics.
    Stats,
    /// Invalid or unknown command.
    Invalid,
}

/// The lower-case form of a string.
pub uninterp spec fn lowercase_of(s: Seq<char>) -> Seq<char>;

/// Relies on `str::to_lowercase`: the result depends on the characters alone.
#[verifier::external_body]
fn lowercase(s: &str) -> (r: String)
    ensures
        r@ == lowercase_of(s@),
{
    s.to_lowercase()
}

/// The command that a lower-case command word names.
pub open spec fn command_of(t: Seq<char>) -> Command {
    if t == "set"@ {
        Command::SetValue
    } else if t == "get"@ {
        Command::Get
    } else if t == "delete"@ || t == "del"@ {
        Command::Delete
    } else if t == "ping"@ {
        Command::Ping
    } else if t == "stats"@ || t == "info"@ {
        Command::Stats
    } else {
        Command::Invalid
    }
}

/// The name of a command.
pub open spec fn name_of(c: Command) -> Seq<char> {
    match c {
        Command::Get => "get"@,
        Command::SetValue => "set"@,
        Command::Delete => "delete"@,
        Command::Ping => "ping"@,
        Command::Stats => "stats"@,
        Command::Invalid => "invalid"@,
    }
}

/// Whether `t` holds exactly the characters of `lit`.
fn holds(t: &String, lit: &str) -> (r: bool)
    ensures
        r == (t@ == lit@),
{
    *t == lit.to_owned()
}

impl Command {
    /// Parses a command word, ignoring case; unknown words give `Invalid`.
    pub fn get(s: &str) -> (r: Command)
        ensures
            r == command_of(lowercase_of(s@)),
    {
        Command::from_lowercase(&lowercase(s))
    }

    /// Parses a command word that is already in lower case.
    pub fn from_lowercase(t: &String) -> (r: Command)
        ensures
            r == command_of(t@),
    {
        if holds(t, "set") {
            Command::SetValue
        } else if holds(t, "get") {
            Command::Get
        } else if holds(t, "delete") || holds(t, "del") {
            Command::Delete
        } else if holds(t, "ping") {
            Command::Ping
        } else if holds(t, "stats") || holds(t, "info") {
            Command::Stats
        } else {
            Command::Invalid
        }
    }

    /// Parses a command word, ignoring case; unknown words are an error.
    pub fn parse(s: &str) -> (r: CacheResult<Command>)
        ensures
            r.is_ok() <==> command_of(lowercase_of(s@)) != Command::Invalid,
            r matches Ok(c) ==> c == command_of(lowercase_of(s@)),
            r matches Err(e) ==> (e matches CacheError::InvalidCommand(w) && w@ == s@),
    {
        let cmd = Command::get(s);
        if cmd == Command::Invalid {
            Err(CacheError::InvalidCommand(s.to_owned()))
        } else {
            Ok(cmd)
        }
    }

    /// The name of this command.
    pub fn as_str(&self) -> (r: &'static str)
        ensures
            r@ == name_of(*self),
    {
        proof {
            reveal_strlit("get");
            reveal_strlit("set");
            reveal_strlit("delete");
            reveal_strlit("ping");
            reveal_strlit("stats");
            reveal_strlit("invalid");
        }
        match self {
            Command::Get => "get",
            Command::SetValue => "set",
            Command::Delete => "delete",
            Command::Ping => "ping",
            Command::Stats => "stats",
            Command::Invalid => "invalid",
        }
    }
}

} // verus!
