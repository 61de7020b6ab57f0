//! The parameters of a cache, fixed when its engine is made.

use crate::clock::duration_nanos;
use std::time::Duration;
use vstd::prelude::*;

verus! {

/// Configuration for creating a new cache instance.
#[derive(Clone, Copy, Debug)]
pub struct CacheConfig {
    /// Maximum number of entries; `None` means unbounded.
    pub max_capacity: Option<usize>,
    /// TTL given to entries set without one; `None` means no expiry.
    pub default_ttl: Option<Duration>,
    /// Interval of the background cleanup; `None` disables it.
    pub cleanup_interval: Option<Duration>,
    /// Whether the background cleanup task runs.
    pub background_cleanup: bool,
}

/// `None` for a zero duration, else the duration.
pub open spec fn nonzero(d: Duration) -> Option<Duration> {
    if duration_nanos(d) == 0 {
        None
    } else {
        Some(d)
    }
}

impl Default for CacheConfig {
    /// Unbounded, no default TTL, a cleanup interval of sixty seconds and
    /// the background cleanup off.
    fn default() -> (r: CacheConfig)
        ensures
            r.max_capacity.is_none(),
            r.default_ttl.is_none(),
            r.cleanup_interval.is_some(),
            duration_nanos(r.cleanup_interval.unwrap()) == 60_000_000_000,
            !r.background_cleanup,
    {
        CacheConfig {
            max_capacity: None,
            default_ttl: None,
            cleanup_interval: Some(Duration::from_secs(60)),
            background_cleanup: false,
        }
    }
}

impl CacheConfig {
    /// The default configuration, to refine with the builder methods.
    pub fn new() -> (r: CacheConfig)
        ensures
            r.max_capacity.is_none(),
            r.default_ttl.is_none(),
            r.cleanup_interval.is_some(),
            duration_nanos(r.cleanup_interval.unwrap()) == 60_000_000_000,
            !r.background_cleanup,
    {
        CacheConfig::default()
    }

    /// Sets the maximum capacity; zero means unbounded.
    pub fn max_capacity(self, capacity: usize) -> (r: CacheConfig)
        ensures
            r == (CacheConfig {
                max_capacity: if capacity == 0 { None } else { Some(capacity) },
                ..self
            }),
    {
        CacheConfig {
            max_capacity: if capacity == 0 { None } else { Some(capacity) },
            ..self
        }
    }

    /// Sets the default TTL; a zero duration means none.
    pub fn default_ttl(self, ttl: Duration) -> (r: CacheConfig)
        ensures
            r == (CacheConfig { default_ttl: nonzero(ttl), ..self }),
    {
        CacheConfig {
            default_ttl: if ttl.as_nanos() == 0 { None } else { Some(ttl) },
            ..self
        }
    }

    /// Sets the background cleanup interval; a zero duration means none.
    pub fn cleanup_interval(self, interval: Duration) -> (r: CacheConfig)
        ensures
            r == (CacheConfig { cleanup_interval: nonzero(interval), ..self }),
    {
        CacheConfig {
            cleanup_interval: if interval.as_nanos() == 0 { None } else { Some(interval) },
            ..self
        }
    }

    /// Turns the background cleanup on or off.
    pub fn background_cleanup(self, enabled: bool) -> (r: CacheConfig)
        ensures
            r == (CacheConfig { background_cleanup: enabled, ..self }),
    {
        CacheConfig { background_cleanup: enabled, ..self }
    }

    /// The finished configuration.
    pub fn build(self) -> (r: CacheConfig)
        ensures
            r == self,
    {
        self
    }

    /// The maximum capacity, if bounded.
    pub fn get_max_capacity(&self) -> (r: Option<usize>)
        ensures
            r == self.max_capacity,
    {
        self.max_capacity
    }

    /// The default TTL, if any.
    pub fn get_default_ttl(&self) -> (r: Option<Duration>)
        ensures
            r == self.default_ttl,
    {
        self.default_ttl
    }
}

} // verus!
