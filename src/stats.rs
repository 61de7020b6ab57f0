//! Counters of cache operations, shared between threads.
//!
//! Each counter is an atomic integer updated with relaxed ordering. Other
//! threads may change any counter at any moment, so the functions here
//! promise no value: the counters serve observation only, and no decision
//! of the engine rests on them.

use std::sync::atomic::{AtomicU64, Ordering};
use vstd::prelude::*;

verus! {

/// Statistics for cache operations.
#[derive(Debug)]
pub struct CacheStats {
    hits: AtomicU64,
    misses: AtomicU64,
    evictions: AtomicU64,
    expirations: AtomicU64,
    size: AtomicU64,
    sets: AtomicU64,
    deletes: AtomicU64,
}

/// A point-in-time copy of the seven counters.
#[derive(Clone, Copy, Debug, PartialEq, Eq, Structural)]
pub struct StatsSnapshot {
    pub hits: u64,
    pub misses: u64,
    pub evictions: u64,
    pub expirations: u64,
    pub size: u64,
    pub sets: u64,
    pub deletes: u64,
}

impl CacheStats {
    /// A new set of counters, all at zero.
    pub fn new() -> CacheStats {
        CacheStats {
            hits: AtomicU64::new(0),
            misses: AtomicU64::new(0),
            evictions: AtomicU64::new(0),
            expirations: AtomicU64::new(0),
            size: AtomicU64::new(0),
            sets: AtomicU64::new(0),
            deletes: AtomicU64::new(0),
        }
    }

    /// Records a read that found a live entry.
    pub fn record_hit(&self) {
        self.hits.fetch_add(1, Ordering::Relaxed);
    }

    /// Records a read that found nothing live.
    pub fn record_miss(&self) {
        self.misses.fetch_add(1, Ordering::Relaxed);
    }

    /// Records an eviction for capacity.
    pub fn record_eviction(&self) {
        self.evictions.fetch_add(1, Ordering::Relaxed);
    }

    /// Records a removal for expiry.
    pub fn record_expiration(&self) {
        self.expirations.fetch_add(1, Ordering::Relaxed);
    }

    /// Records a set.
    pub fn record_set(&self) {
        self.sets.fetch_add(1, Ordering::Relaxed);
    }

    /// Records a delete that removed an entry.
    pub fn record_delete(&self) {
        self.deletes.fetch_add(1, Ordering::Relaxed);
    }

    /// Adds one to the size counter.
    pub fn increment_size(&self) {
        self.size.fetch_add(1, Ordering::Relaxed);
    }

    /// Takes one from the size counter.
    pub fn decrement_size(&self) {
        self.size.fetch_sub(1, Ordering::Relaxed);
    }

    /// Sets the size counter.
    pub fn set_size(&self, size: u64) {
        self.size.store(size, Ordering::Relaxed);
    }

    /// The number of hits.
    pub fn hits(&self) -> u64 {
        self.hits.load(Ordering::Relaxed)
    }

    /// The number of misses.
    pub fn misses(&self) -> u64 {
        self.misses.load(Ordering::Relaxed)
    }

    /// The number of evictions.
    pub fn evictions(&self) -> u64 {
        self.evictions.load(Ordering::Relaxed)
    }

    /// The number of expirations.
    pub fn expirations(&self) -> u64 {
        self.expirations.load(Ordering::Relaxed)
    }

    /// The size counter.
    pub fn size(&self) -> u64 {
        self.size.load(Ordering::Relaxed)
    }

    /// The number of sets.
    pub fn sets(&self) -> u64 {
        self.sets.load(Ordering::Relaxed)
    }

    /// The number of deletes.
    pub fn deletes(&self) -> u64 {
        self.deletes.load(Ordering::Relaxed)
    }

    /// Each counter, read one after the other.
    pub fn snapshot(&self) -> StatsSnapshot {
        StatsSnapshot {
            hits: self.hits(),
            misses: self.misses(),
            evictions: self.evictions(),
            expirations: self.expirations(),
            size: self.size(),
            sets: self.sets(),
            deletes: self.deletes(),
        }
    }
}

} // verus!
