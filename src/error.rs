//! The errors of the cache library.

use std::io;
use crate::utils::push_char;
use vstd::prelude::*;
use vstd::string::StringExecFns;

verus! {

/// `std::io::Error`, carried whole inside `CacheError::IoError`.
#[verifier::external_type_specification]
#[verifier::external_body]
pub struct ExIoError(io::Error);

/// The main error type for cache operations.
#[derive(Debug)]
pub enum CacheError {
    /// The requested key was not found in the cache.
    KeyNotFound(String),
    /// The command received was invalid or malformed.
    InvalidCommand(String),
    /// Failed to parse the input buffer or protocol message.
    ParseError(String),
    /// An I/O error occurred.
    IoError(io::Error),
    /// The cache has reached its maximum capacity.
    CapacityExceeded { current: usize, max: usize },
    /// The provided key is invalid.
    InvalidKey(String),
    /// The provided value is invalid.
    InvalidValue(String),
    /// A lock could not be acquired.
    LockError(String),
}

/// A result whose error is a `CacheError`.
pub type CacheResult<T> = Result<T, CacheError>;

impl From<io::Error> for CacheError {
    fn from(err: io::Error) -> (r: CacheError)
        ensures
            r == CacheError::IoError(err),
    {
        CacheError::IoError(err)
    }
}

impl vstd::std_specs::convert::FromSpecImpl<io::Error> for CacheError {
    open spec fn obeys_from_spec() -> bool {
        true
    }

    open spec fn from_spec(v: io::Error) -> CacheError {
        CacheError::IoError(v)
    }
}

/// The character of decimal digit `d`.
pub open spec fn digit_char(d: nat) -> char {
    seq!['0', '1', '2', '3', '4', '5', '6', '7', '8', '9'][d as int]
}

/// The decimal digits of `n`, most significant first, without leading zeros.
pub open spec fn decimal_of(n: nat) -> Seq<char>
    decreases n,
{
    if n < 10 {
        seq![digit_char(n)]
    } else {
        decimal_of(n / 10).push(digit_char(n % 10))
    }
}

/// The text of an error, except for what an I/O error says of itself.
pub open spec fn message_of(e: CacheError) -> Seq<char> {
    match e {
        CacheError::KeyNotFound(k) => "key not found: '"@ + k@ + "'"@,
        CacheError::InvalidCommand(c) => "invalid command: '"@ + c@ + "'"@,
        CacheError::ParseError(m) => "parse error: "@ + m@,
        CacheError::IoError(_) => "I/O error: "@,
        CacheError::CapacityExceeded { current, max } => "capacity exceeded: "@ + decimal_of(
            current as nat,
        ) + " items (max: "@ + decimal_of(max as nat) + ")"@,
        CacheError::InvalidKey(m) => "invalid key: "@ + m@,
        CacheError::InvalidValue(m) => "invalid value: "@ + m@,
        CacheError::LockError(m) => "lock error: "@ + m@,
    }
}

fn digit(d: usize) -> (r: char)
    requires
        d < 10,
    ensures
        r == digit_char(d as nat),
{
    if d == 0 {
        '0'
    } else if d == 1 {
        '1'
    } else if d == 2 {
        '2'
    } else if d == 3 {
        '3'
    } else if d == 4 {
        '4'
    } else if d == 5 {
        '5'
    } else if d == 6 {
        '6'
    } else if d == 7 {
        '7'
    } else if d == 8 {
        '8'
    } else {
        '9'
    }
}

/// The decimal digits of `n`.
pub fn decimal(n: usize) -> (r: String)
    ensures
        r@ == decimal_of(n as nat),
    decreases n,
{
    if n < 10 {
        let mut s = String::new();
        push_char(&mut s, digit(n));
        s
    } else {
        let mut s = decimal(n / 10);
        push_char(&mut s, digit(n % 10));
        s
    }
}

impl CacheError {
    /// The text of this error. An I/O error's own text follows its prefix.
    pub fn message(&self) -> (r: String)
        ensures
            !(self is IoError) ==> r@ == message_of(*self),
            self is IoError ==> r@.subrange(0, 11) == message_of(*self),
    {
        match self {
            CacheError::KeyNotFound(k) => {
                let mut s = "key not found: '".to_owned();
                s.append(k.as_str());
                s.append("'");
                s
            },
            CacheError::InvalidCommand(c) => {
                let mut s = "invalid command: '".to_owned();
                s.append(c.as_str());
                s.append("'");
                s
            },
            CacheError::ParseError(m) => "parse error: ".to_owned().concat(m.as_str()),
            CacheError::IoError(e) => {
                proof {
                    reveal_strlit("I/O error: ");
                }
                let s = "I/O error: ".to_owned().concat(e.to_string().as_str());
                assert(s@.subrange(0, 11) =~= "I/O error: "@);
                s
            },
            CacheError::CapacityExceeded { current, max } => {
                let mut s = "capacity exceeded: ".to_owned();
                s.append(decimal(*current).as_str());
                s.append(" items (max: ");
                s.append(decimal(*max).as_str());
                s.append(")");
                s
            },
            CacheError::InvalidKey(m) => "invalid key: ".to_owned().concat(m.as_str()),
            CacheError::InvalidValue(m) => "invalid value: ".to_owned().concat(m.as_str()),
            CacheError::LockError(m) => "lock error: ".to_owned().concat(m.as_str()),
        }
    }
}

} // verus!
