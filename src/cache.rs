//! The cache handle: a cheap, clonable reference to one storage engine.
//! Clones share the engine; they do not copy its data.

use crate::config::CacheConfig;
use crate::stats::{CacheStats, StatsSnapshot};
use crate::storage::Db;
use bytes::Bytes;
use std::sync::Arc;
use std::time::Duration;
use vstd::prelude::*;

verus! {

/// A thread-safe, in-memory cache with optional TTL and LRU eviction.
#[derive(Clone, Debug)]
pub struct Cache {
    db: Arc<Db>,
}

impl Cache {
    /// A new cache with the given configuration.
    pub fn new(config: CacheConfig) -> Cache {
        Cache { db: Arc::new(Db::new(config)) }
    }

    /// The value of `key`, if present and live; it becomes the most
    /// recently used.
    pub fn get(&self, key: &str) -> Option<Bytes> {
        self.db.get(key)
    }

    /// Sets `key` to `value`, with the default TTL if one is configured.
    pub fn set(&self, key: impl Into<String>, value: impl Into<Bytes>) {
        self.db.set(key, value)
    }

    /// Sets `key` to `value`, expiring `ttl` from now.
    pub fn set_with_ttl(&self, key: impl Into<String>, value: impl Into<Bytes>, ttl: Duration) {
        self.db.set_with_ttl(key, value, ttl)
    }

    /// Removes `key`; says whether it was present.
    pub fn delete(&self, key: &str) -> bool {
        self.db.delete(key)
    }

    /// Whether `key` is present and live, without changing recency.
    pub fn contains(&self, key: &str) -> bool {
        self.db.contains(key)
    }

    /// The number of entries, including expired ones not yet removed.
    pub fn len(&self) -> usize {
        self.db.len()
    }

    /// Whether there is no entry.
    pub fn is_empty(&self) -> bool {
        self.db.is_empty()
    }

    /// Removes every entry.
    pub fn clear(&self) {
        self.db.clear()
    }

    /// A copy of the counters.
    pub fn stats(&self) -> StatsSnapshot {
        self.db.stats().snapshot()
    }

    /// Removes every expired entry now; returns how many.
    pub fn cleanup_expired(&self) -> usize {
        self.db.cleanup_expired()
    }

    /// The shared counters themselves.
    pub fn stats_ref(&self) -> Arc<CacheStats> {
        self.db.stats()
    }
}

impl Default for Cache {
    fn default() -> Cache {
        Cache::new(CacheConfig::default())
    }
}

} // verus!
