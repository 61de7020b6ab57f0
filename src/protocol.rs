//! The decisions of the request protocol: what a request of words asks of
//! the cache, and what the answer is. Turning an answer into text and
//! moving bytes over the network is left to the caller.

use crate::cache::Cache;
use crate::command::{command_of, lowercase_of, Command};
use crate::stats::StatsSnapshot;
use bytes::Bytes;
use vstd::prelude::*;

verus! {

/// The answer to one request.
#[derive(Debug)]
pub enum Reply {
    /// The request held no word.
    EmptyCommand,
    /// `get` found this value.
    Value(Bytes),
    /// `get` or `delete` found no such key.
    NotFound,
    /// `set` stored a new key.
    Stored,
    /// `set` replaced the value of a present key.
    Replaced,
    /// `delete` removed the key.
    Deleted,
    /// The answer to `ping`.
    Pong,
    /// The counters, for `stats`.
    Stats(StatsSnapshot),
    /// `get` or `delete` came without a key.
    MissingKey,
    /// `set` came without a key or a value.
    MissingKeyOrValue,
    /// The command word is unknown; this is the word.
    Unknown(String),
}

/// Carries out `command`, whose arguments follow the command word in
/// `attrs`.
pub fn process_command(command: Command, attrs: &[String], cache: &Cache) -> (r: Reply)
    ensures
        command == Command::Get ==> if attrs@.len() < 2 {
            r is MissingKey
        } else {
            r is Value || r is NotFound
        },
        command == Command::SetValue ==> if attrs@.len() < 3 {
            r is MissingKeyOrValue
        } else {
            r is Stored || r is Replaced
        },
        command == Command::Delete ==> if attrs@.len() < 2 {
            r is MissingKey
        } else {
            r is Deleted || r is NotFound
        },
        command == Command::Ping ==> r is Pong,
        command == Command::Stats ==> r is Stats,
        command == Command::Invalid ==> (r matches Reply::Unknown(w) && w@ == (if attrs@.len()
            > 0 {
            attrs@[0]@
        } else {
            Seq::<char>::empty()
        })),
{
    match command {
        Command::Get => {
            if attrs.len() < 2 {
                return Reply::MissingKey;
            }
            match cache.get(attrs[1].as_str()) {
                Some(v) => Reply::Value(v),
                None => Reply::NotFound,
            }
        },
        Command::SetValue => {
            if attrs.len() < 3 {
                return Reply::MissingKeyOrValue;
            }
            let key = &attrs[1];
            let value = &attrs[2];
            let existed = cache.contains(key.as_str());
            cache.set(key.clone(), value.clone());
            if existed {
                Reply::Replaced
            } else {
                Reply::Stored
            }
        },
        Command::Delete => {
            if attrs.len() < 2 {
                return Reply::MissingKey;
            }
            if cache.delete(attrs[1].as_str()) {
                Reply::Deleted
            } else {
                Reply::NotFound
            }
        },
        Command::Ping => Reply::Pong,
        Command::Stats => Reply::Stats(cache.stats()),
        Command::Invalid => {
            if attrs.len() > 0 {
                Reply::Unknown(attrs[0].clone())
            } else {
                Reply::Unknown(String::new())
            }
        },
    }
}

/// Answers a request given as its words: the first word names the command,
/// in any case.
pub fn respond(attrs: &[String], cache: &Cache) -> (r: Reply)
    ensures
        attrs@.len() == 0 <==> r is EmptyCommand,
        attrs@.len() > 0 && command_of(lowercase_of(attrs@[0]@)) == Command::Ping ==> r is Pong,
        attrs@.len() > 0 && command_of(lowercase_of(attrs@[0]@)) == Command::Invalid ==> (r matches Reply::Unknown(w) && w@ == attrs@[0]@),
{
    if attrs.len() == 0 {
        return Reply::EmptyCommand;
    }
    let command = Command::get(attrs[0].as_str());
    process_command(command, attrs, cache)
}

} // verus!
