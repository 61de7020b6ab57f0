//! A stored record: the value bytes, an optional expiry instant and the
//! instant of the last access.
//!
//! Instants are nanoseconds counted from the origin of the engine's clock
//! (see `clock::Clock`).

use crate::clock::Clock;
use bytes::Bytes;
use vstd::prelude::*;

verus! {

/// `bytes::Bytes`, carried whole: Verus sees a value of it only through
/// `bytes_content`.
#[verifier::external_type_specification]
#[verifier::external_body]
pub struct ExBytes(Bytes);

/// The bytes that a `Bytes` handle refers to.
pub uninterp spec fn bytes_content(b: Bytes) -> Seq<u8>;

/// Relies on `<Bytes as Clone>::clone`: the new handle refers to the same
/// bytes as the old one.
pub assume_specification[ <Bytes as Clone>::clone ](b: &Bytes) -> (r: Bytes)
    ensures
        bytes_content(r) == bytes_content(*b),
;

/// What an entry holds, as plain values.
pub struct EntryView {
    pub value: Seq<u8>,
    pub expires_at: Option<u64>,
    pub last_accessed: u64,
}

impl EntryView {
    /// An entry without an expiry never expires; one with an expiry is
    /// expired from that instant on.
    pub open spec fn expired_at(self, now: u64) -> bool {
        match self.expires_at {
            Some(t) => now >= t,
            None => false,
        }
    }

    pub open spec fn touched(self, now: u64) -> EntryView {
        EntryView { last_accessed: now, ..self }
    }
}

/// A single cache entry containing the value and metadata.
#[derive(Clone, Debug)]
pub struct Entry {
    value: Bytes,
    expires_at: Option<u64>,
    last_accessed: u64,
}

impl View for Entry {
    type V = EntryView;

    closed spec fn view(&self) -> EntryView {
        EntryView {
            value: bytes_content(self.value),
            expires_at: self.expires_at,
            last_accessed: self.last_accessed,
        }
    }
}

impl Entry {
    /// A new entry with no expiration, last accessed at `now`.
    pub fn new(value: Bytes, now: u64) -> (r: Entry)
        ensures
            r@ == (EntryView { value: bytes_content(value), expires_at: None, last_accessed: now }),
    {
        Entry { value, expires_at: None, last_accessed: now }
    }

    /// A new entry that expires at `expires_at`, last accessed at `now`.
    pub fn with_expiration(value: Bytes, expires_at: u64, now: u64) -> (r: Entry)
        ensures
            r@ == (EntryView {
                value: bytes_content(value),
                expires_at: Some(expires_at),
                last_accessed: now,
            }),
    {
        Entry { value, expires_at: Some(expires_at), last_accessed: now }
    }

    /// Whether this entry has expired at the instant `now`.
    pub fn is_expired_at(&self, now: u64) -> (r: bool)
        ensures
            r == self@.expired_at(now),
    {
        match self.expires_at {
            Some(t) => now >= t,
            None => false,
        }
    }

    /// Whether this entry has expired at the clock's current instant; never
    /// for an entry without expiry.
    pub fn is_expired(&self, clock: &Clock) -> (r: bool)
        ensures
            self@.expires_at.is_none() ==> !r,
    {
        self.is_expired_at(clock.now())
    }

    /// Records an access at the clock's current instant.
    pub fn touch(&mut self, clock: &Clock)
        ensures
            final(self)@.value == old(self)@.value,
            final(self)@.expires_at == old(self)@.expires_at,
    {
        self.touch_at(clock.now())
    }

    /// Records an access at the instant `now`.
    pub fn touch_at(&mut self, now: u64)
        ensures
            final(self)@ == old(self)@.touched(now),
    {
        self.last_accessed = now;
    }

    /// The stored value.
    pub fn value(&self) -> (r: &Bytes)
        ensures
            bytes_content(*r) == self@.value,
    {
        &self.value
    }

    /// The expiry instant, if any.
    pub fn expires_at(&self) -> (r: Option<u64>)
        ensures
            r == self@.expires_at,
    {
        self.expires_at
    }

    /// The instant of the last access.
    pub fn last_accessed(&self) -> (r: u64)
        ensures
            r == self@.last_accessed,
    {
        self.last_accessed
    }
}

} // verus!
