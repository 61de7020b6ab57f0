//! A concurrent in-process key-value store with LRU eviction and optional
//! per-entry time-to-live.
//!
//! The sequential engine (`store::Store`) carries the proofs: every
//! operation on it states exactly how the recency-ordered contents change.
//! `storage::Db` puts that engine behind a reader-writer lock and keeps
//! atomic statistics beside it; `cache::Cache` is a cheap shared handle.

pub mod cache;
pub mod cli;
pub mod clock;
pub mod command;
pub mod config;
pub mod entry;
pub mod error;
pub mod laws;
pub mod ordered_map;
pub mod protocol;
pub mod stats;
pub mod storage;
pub mod store;
pub mod utils;

pub use cache::Cache;
pub use cli::{Cli, ClientCommand};
pub use clock::Clock;
pub use command::Command;
pub use config::CacheConfig;
pub use entry::Entry;
pub use error::{CacheError, CacheResult};
pub use protocol::{process_command, respond, Reply};
pub use stats::{CacheStats, StatsSnapshot};
pub use storage::Db;
pub use utils::{buffer_to_array, parse_command};
