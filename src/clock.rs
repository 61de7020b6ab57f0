//! Time as plain values: nanoseconds counted from a clock's origin.

use std::time::{Duration, Instant};
use vstd::prelude::*;

verus! {

/// `std::time::Instant`, carried whole as a clock's origin.
#[verifier::external_type_specification]
#[verifier::external_body]
pub struct ExInstant(Instant);

/// The whole nanoseconds that a duration spans.
pub uninterp spec fn duration_nanos(d: Duration) -> nat;

/// Relies on `Duration::as_nanos`: the total number of whole nanoseconds.
pub assume_specification[ Duration::as_nanos ](d: &Duration) -> (r: u128)
    ensures
        r == duration_nanos(*d),
;

/// Relies on `Duration::from_secs`: a duration of `secs` whole seconds.
pub assume_specification[ Duration::from_secs ](secs: u64) -> (r: Duration)
    ensures
        duration_nanos(r) == secs * 1_000_000_000,
;

/// Relies on `Instant::now`: the current instant of the monotonic clock.
pub assume_specification[ Instant::now ]() -> Instant;

/// Relies on `Instant::elapsed`: the time passed since an instant.
pub assume_specification[ Instant::elapsed ](i: &Instant) -> Duration;

/// The sum of `a` and `b`, or the largest `u64` where the sum exceeds it.
pub open spec fn saturating_sum(a: nat, b: nat) -> u64 {
    if a + b > u64::MAX {
        u64::MAX
    } else {
        (a + b) as u64
    }
}

/// A monotonic clock that reads instants as nanoseconds since it was made.
#[derive(Debug)]
pub struct Clock {
    origin: Instant,
}

impl Clock {
    /// A clock whose origin is now.
    pub fn new() -> Clock {
        Clock { origin: Instant::now() }
    }

    /// The nanoseconds passed since the origin, saturating at the largest
    /// `u64` (after some five centuries).
    pub fn now(&self) -> u64 {
        let n = self.origin.elapsed().as_nanos();
        if n > u64::MAX as u128 {
            u64::MAX
        } else {
            n as u64
        }
    }
}

/// The instant `ttl` after `now`, saturating at the largest `u64`.
pub fn expiry_after(now: u64, ttl: &Duration) -> (r: u64)
    ensures
        r == saturating_sum(now as nat, duration_nanos(*ttl)),
{
    let n = ttl.as_nanos();
    if n > (u64::MAX - now) as u128 {
        u64::MAX
    } else {
        now + n as u64
    }
}

} // verus!
