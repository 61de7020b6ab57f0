//! The storage engine shared between threads: a store behind one
//! reader-writer lock, with atomic statistics beside it.
//!
//! Every operation takes the lock for itself, so what one call observes may
//! be changed by another thread before the next call. What is proved of the
//! contents is therefore proved of `Store`, whose operations each run here
//! under the lock; these functions promise what holds whatever other
//! threads do. Where a thread panicked while holding the lock, the lock is
//! poisoned: reads then act as on an empty store and writes do nothing.

use crate::clock::{expiry_after, Clock};
use crate::config::CacheConfig;
use crate::entry::Entry;
use crate::error::{CacheError, CacheResult};
use crate::stats::CacheStats;
use crate::store::{Lookup, Store};
use bytes::Bytes;
use std::ops::{Deref, DerefMut};
use std::sync::{Arc, RwLock, RwLockReadGuard, RwLockWriteGuard};
use std::time::Duration;
use vstd::prelude::*;

verus! {

/// `std::sync::RwLock`, holding a store; its guards below give access.
#[verifier::external_type_specification]
#[verifier::external_body]
#[verifier::reject_recursive_types(T)]
pub struct ExRwLock<T: ?Sized>(RwLock<T>);

#[verifier::external_type_specification]
#[verifier::external_body]
#[verifier::reject_recursive_types(T)]
pub struct ExRwLockReadGuard<'a, T: ?Sized>(RwLockReadGuard<'a, T>);

#[verifier::external_type_specification]
#[verifier::external_body]
#[verifier::reject_recursive_types(T)]
pub struct ExRwLockWriteGuard<'a, T: ?Sized + 'a>(RwLockWriteGuard<'a, T>);

/// Relies on `RwLock::new`: a new, unlocked lock around the value.
pub assume_specification<T>[ RwLock::<T>::new ](t: T) -> RwLock<T>;

/// Relies on the read guard's `Deref`: the protected value.
pub assume_specification<'a, 'b, T: ?Sized>[ <RwLockReadGuard<'a, T> as Deref>::deref ](
    g: &'b RwLockReadGuard<'a, T>,
) -> &'b T;

/// Relies on the write guard's `DerefMut`: the protected value, to change.
pub assume_specification<'a, 'b, T: ?Sized>[ <RwLockWriteGuard<'a, T> as DerefMut>::deref_mut ](
    g: &'b mut RwLockWriteGuard<'a, T>,
) -> &'b mut T;

/// Thread-safe storage engine.
#[derive(Debug)]
pub struct Db {
    entries: RwLock<Store>,
    config: CacheConfig,
    stats: Arc<CacheStats>,
    clock: Clock,
}

impl Db {
    /// A new, empty engine with the given configuration and fresh counters.
    pub fn new(config: CacheConfig) -> Db {
        Db {
            entries: RwLock::new(Store::new(config.max_capacity)),
            config,
            stats: Arc::new(CacheStats::new()),
            clock: Clock::new(),
        }
    }

    /// A new engine with the default configuration.
    pub fn with_defaults() -> Db {
        Db::new(CacheConfig::default())
    }

    /// Relies on `RwLock::read`: shared access to the store, or `None` where
    /// the lock is poisoned. No operation calls it while its own thread holds
    /// the lock (each guard is released before the lock is taken again).
    #[verifier::external_body]
    fn read_lock(&self) -> Option<RwLockReadGuard<'_, Store>> {
        self.entries.read().ok()
    }

    /// Relies on `RwLock::write`: exclusive access to the store, or `None`
    /// where the lock is poisoned. No operation calls it while its own thread
    /// holds the lock.
    #[verifier::external_body]
    fn write_lock(&self) -> Option<RwLockWriteGuard<'_, Store>> {
        self.entries.write().ok()
    }

    /// The value of `key`, if it is present and live. A live entry becomes
    /// the most recently used; an expired one is removed.
    pub fn get(&self, key: &str) -> Option<Bytes> {
        let now = self.clock.now();
        let found = match self.read_lock() {
            Some(guard) => guard.deref().lookup(key, now),
            None => return None,
        };
        match found {
            Lookup::Missing => {
                self.stats.record_miss();
                None
            },
            Lookup::Expired => {
                self.remove_expired(key);
                self.stats.record_miss();
                self.stats.record_expiration();
                None
            },
            Lookup::Live(value) => {
                self.stats.record_hit();
                // The key may have gone since the read; touching is then a no-op.
                if let Some(mut guard) = self.write_lock() {
                    let now = self.clock.now();
                    guard.deref_mut().touch(key, now);
                }
                Some(value)
            },
        }
    }

    /// Sets `key` to `value`, with the configured default TTL if any.
    pub fn set(&self, key: impl Into<String>, value: impl Into<Bytes>) {
        let ttl = self.config.default_ttl;
        self.set_internal(key.into(), value.into(), ttl);
    }

    /// Sets `key` to `value`, expiring `ttl` from now.
    pub fn set_with_ttl(&self, key: impl Into<String>, value: impl Into<Bytes>, ttl: Duration) {
        self.set_internal(key.into(), value.into(), Some(ttl));
    }

    fn set_internal(&self, key: String, value: Bytes, ttl: Option<Duration>) {
        let now = self.clock.now();
        let entry = match ttl {
            Some(d) => Entry::with_expiration(value, expiry_after(now, &d), now),
            None => Entry::new(value, now),
        };
        let outcome = match self.write_lock() {
            Some(mut guard) => guard.deref_mut().insert(key, entry),
            None => return,
        };
        let mut i: usize = 0;
        while i < outcome.evicted
            invariant
                i <= outcome.evicted,
            decreases outcome.evicted - i,
        {
            self.stats.record_eviction();
            self.stats.decrement_size();
            i = i + 1;
        }
        if !outcome.replaced {
            self.stats.increment_size();
        }
        self.stats.record_set();
    }

    /// Removes `key`; says whether it was present.
    pub fn delete(&self, key: &str) -> bool {
        let existed = match self.write_lock() {
            Some(mut guard) => guard.deref_mut().remove(key),
            None => return false,
        };
        if existed {
            self.stats.decrement_size();
            self.stats.record_delete();
        }
        existed
    }

    /// Whether `key` is present and live; an expired entry is removed.
    /// Does not change recency.
    pub fn contains(&self, key: &str) -> bool {
        let now = self.clock.now();
        let found = match self.read_lock() {
            Some(guard) => guard.deref().lookup(key, now),
            None => return false,
        };
        match found {
            Lookup::Missing => false,
            Lookup::Expired => {
                self.remove_expired(key);
                false
            },
            Lookup::Live(_) => true,
        }
    }

    /// The number of entries, including expired ones not yet removed.
    pub fn len(&self) -> usize {
        match self.read_lock() {
            Some(guard) => guard.deref().len(),
            None => 0,
        }
    }

    /// Whether there is no entry.
    pub fn is_empty(&self) -> bool {
        self.len() == 0
    }

    /// Removes every entry and sets the size counter to zero; the other
    /// counters keep their values.
    pub fn clear(&self) {
        if let Some(mut guard) = self.write_lock() {
            guard.deref_mut().clear();
            self.stats.set_size(0);
        }
    }

    /// The shared counters.
    pub fn stats(&self) -> Arc<CacheStats> {
        Arc::clone(&self.stats)
    }

    /// Removes every entry expired now; returns how many.
    pub fn cleanup_expired(&self) -> usize {
        let removed = match self.write_lock() {
            Some(mut guard) => {
                let now = self.clock.now();
                guard.deref_mut().cleanup_expired(now)
            },
            None => return 0,
        };
        let mut i: usize = 0;
        while i < removed
            invariant
                i <= removed,
            decreases removed - i,
        {
            self.stats.record_expiration();
            self.stats.decrement_size();
            i = i + 1;
        }
        removed
    }

    /// Removes `key` if its entry has expired by now.
    fn remove_expired(&self, key: &str) {
        if let Some(mut guard) = self.write_lock() {
            let now = self.clock.now();
            if guard.deref_mut().remove_expired(key, now) {
                self.stats.decrement_size();
            }
        }
    }
}

impl Db {
    /// Sets the key and value that follow a command word: `[cmd, key,
    /// value]`. Answers `Ok` for a new key and `r Ok` for a replaced one.
    pub fn write(&self, arr: &[String]) -> (r: CacheResult<&'static str>)
        ensures
            arr@.len() < 3 <==> r.is_err(),
            r matches Err(e) ==> e is ParseError,
            r matches Ok(s) ==> (s@ == "Ok"@ || s@ == "r Ok"@),
    {
        if arr.len() < 3 {
            return Err(
                CacheError::ParseError(
                    "write requires at least 3 arguments: command key value".to_owned(),
                ),
            );
        }
        let key = &arr[1];
        let value = &arr[2];
        let existed = self.contains(key.as_str());
        self.set(key.clone(), value.clone());
        proof {
            reveal_strlit("Ok");
            reveal_strlit("r Ok");
        }
        if existed {
            Ok("r Ok")
        } else {
            Ok("Ok")
        }
    }

    /// Reads the key that follows a command word: `[cmd, key]`.
    pub fn read(&self, arr: &[String]) -> (r: CacheResult<Bytes>)
        ensures
            arr@.len() < 2 ==> (r matches Err(e) && e is ParseError),
            arr@.len() >= 2 ==> (r.is_ok() || (r matches Err(CacheError::KeyNotFound(k))
                && k@ == arr@[1]@)),
    {
        if arr.len() < 2 {
            return Err(
                CacheError::ParseError("read requires at least 2 arguments: command key".to_owned()),
            );
        }
        let key = &arr[1];
        match self.get(key.as_str()) {
            Some(v) => Ok(v),
            None => Err(CacheError::KeyNotFound(key.clone())),
        }
    }
}

impl Default for Db {
    fn default() -> Db {
        Db::with_defaults()
    }
}

impl Clone for Db {
    /// A deep copy: the same entries, the same configuration, fresh counters.
    fn clone(&self) -> Db {
        let store = match self.read_lock() {
            Some(guard) => guard.deref().duplicate(),
            None => Store::new(self.config.max_capacity),
        };
        Db {
            entries: RwLock::new(store),
            config: self.config,
            stats: Arc::new(CacheStats::new()),
            clock: Clock::new(),
        }
    }
}

} // verus!
