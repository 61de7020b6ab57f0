use bytes::Bytes;
use in_memory_cache::{CacheConfig, Db};
use std::time::{Duration, Instant};

fn pause(ms: u64) {
    let start = Instant::now();
    while start.elapsed() < Duration::from_millis(ms) {}
}


#[test]
fn test_basic_set_get() {
    let db = Db::with_defaults();

    db.set("key1", "value1");
    let result = db.get("key1");

    assert_eq!(result, Some(Bytes::from("value1")));
}

#[test]
fn test_get_nonexistent() {
    let db = Db::with_defaults();

    let result = db.get("nonexistent");
    assert!(result.is_none());
}

#[test]
fn test_delete() {
    let db = Db::with_defaults();

    db.set("key1", "value1");
    assert!(db.contains("key1"));

    let deleted = db.delete("key1");
    assert!(deleted);
    assert!(!db.contains("key1"));
}

#[test]
fn test_delete_nonexistent() {
    let db = Db::with_defaults();

    let deleted = db.delete("nonexistent");
    assert!(!deleted);
}

#[test]
fn test_overwrite() {
    let db = Db::with_defaults();

    db.set("key1", "value1");
    db.set("key1", "value2");

    assert_eq!(db.get("key1"), Some(Bytes::from("value2")));
    assert_eq!(db.len(), 1);
}

#[test]
fn test_clear() {
    let db = Db::with_defaults();

    db.set("key1", "value1");
    db.set("key2", "value2");
    assert_eq!(db.len(), 2);

    db.clear();
    assert!(db.is_empty());
}

#[test]
fn test_capacity_eviction() {
    let config = CacheConfig::new().max_capacity(3).build();
    let db = Db::new(config);

    db.set("key1", "value1");
    db.set("key2", "value2");
    db.set("key3", "value3");
    assert_eq!(db.len(), 3);

    db.set("key4", "value4");
    assert_eq!(db.len(), 3);
    assert!(!db.contains("key1"));
    assert!(db.contains("key4"));
}

#[test]
fn test_lru_eviction_order() {
    let config = CacheConfig::new().max_capacity(3).build();
    let db = Db::new(config);

    db.set("key1", "value1");
    db.set("key2", "value2");
    db.set("key3", "value3");

    let _ = db.get("key1");

    db.set("key4", "value4");

    assert!(db.contains("key1"));
    assert!(!db.contains("key2"));
    assert!(db.contains("key3"));
    assert!(db.contains("key4"));
}

#[test]
fn storage_test_ttl_expiration() {
    let db = Db::with_defaults();

    db.set_with_ttl("key1", "value1", Duration::from_millis(1));

    assert!(db.contains("key1"));

    pause(10);

    assert!(db.get("key1").is_none());
}

#[test]
fn test_stats_tracking() {
    let db = Db::with_defaults();

    db.set("key1", "value1");
    let _ = db.get("key1");
    let _ = db.get("nonexistent");

    let stats = db.stats();
    assert_eq!(stats.hits(), 1);
    assert_eq!(stats.misses(), 1);
    assert_eq!(stats.sets(), 1);
}

#[test]
fn test_legacy_write_read() {
    let db = Db::with_defaults();

    let arr = vec!["set".to_string(), "key1".to_string(), "value1".to_string()];
    let result = db.write(&arr);
    assert!(result.is_ok());

    let arr = vec!["get".to_string(), "key1".to_string()];
    let result = db.read(&arr);
    assert_eq!(result.unwrap(), Bytes::from("value1"));
}

#[test]
fn test_legacy_read_missing_args() {
    let db = Db::with_defaults();

    let arr = vec!["get".to_string()];
    let result = db.read(&arr);
    assert!(result.is_err());
}

#[test]
fn legacy_write_answers_replaced_and_checks_arity() {
    let db = Db::with_defaults();
    let arr = vec!["set".to_string(), "k".to_string(), "v1".to_string()];
    assert_eq!(db.write(&arr).unwrap(), "Ok");
    let arr = vec!["set".to_string(), "k".to_string(), "v2".to_string()];
    assert_eq!(db.write(&arr).unwrap(), "r Ok");
    let arr = vec!["set".to_string(), "k".to_string()];
    assert!(matches!(db.write(&arr), Err(in_memory_cache::CacheError::ParseError(_))));
    let arr = vec!["get".to_string(), "missing".to_string()];
    match db.read(&arr) {
        Err(in_memory_cache::CacheError::KeyNotFound(k)) => assert_eq!(k, "missing"),
        _ => panic!("expected key not found"),
    }
}

#[test]
fn expired_read_counts_a_miss_and_an_expiration() {
    let db = Db::with_defaults();
    db.set_with_ttl("k", "v", Duration::from_millis(1));
    pause(10);
    assert!(db.get("k").is_none());
    let stats = db.stats();
    assert_eq!(stats.misses(), 1);
    assert_eq!(stats.expirations(), 1);
    assert_eq!(stats.size(), 0);
    assert_eq!(db.len(), 0);
}

#[test]
fn cleanup_removes_only_expired_entries() {
    let db = Db::with_defaults();
    db.set_with_ttl("a", "1", Duration::from_millis(1));
    db.set_with_ttl("b", "2", Duration::from_millis(1));
    db.set("c", "3");
    pause(10);
    assert_eq!(db.len(), 3);
    assert_eq!(db.cleanup_expired(), 2);
    assert_eq!(db.len(), 1);
    assert!(db.contains("c"));
    let stats = db.stats();
    assert_eq!(stats.expirations(), 2);
    assert_eq!(stats.size(), 1);
}

#[test]
fn clear_resets_size_and_keeps_other_counters() {
    let db = Db::with_defaults();
    db.set("a", "1");
    db.set("b", "2");
    let _ = db.get("a");
    let _ = db.get("zz");
    db.clear();
    let stats = db.stats();
    assert_eq!(stats.size(), 0);
    assert_eq!(stats.hits(), 1);
    assert_eq!(stats.misses(), 1);
    assert_eq!(stats.sets(), 2);
    assert!(db.is_empty());
}

#[test]
fn delete_twice_reports_then_not() {
    let db = Db::with_defaults();
    db.set("k", "v");
    assert!(db.delete("k"));
    assert!(!db.delete("k"));
    assert_eq!(db.stats().deletes(), 1);
}

#[test]
fn overwrite_at_capacity_evicts_nothing() {
    let db = Db::new(CacheConfig::new().max_capacity(2).build());
    db.set("a", "1");
    db.set("b", "2");
    db.set("a", "3");
    assert_eq!(db.len(), 2);
    assert_eq!(db.stats().evictions(), 0);
    assert_eq!(db.get("b"), Some(Bytes::from("2")));
    assert_eq!(db.get("a"), Some(Bytes::from("3")));
}

#[test]
fn default_ttl_applies_to_plain_set() {
    let db = Db::new(CacheConfig::new().default_ttl(Duration::from_millis(1)).build());
    db.set("k", "v");
    pause(10);
    assert!(!db.contains("k"));
    assert_eq!(db.len(), 0);
}

#[test]
fn deep_clone_copies_entries_with_fresh_counters() {
    let db = Db::with_defaults();
    db.set("k", "v");
    let _ = db.get("k");
    let copy = db.clone();
    assert_eq!(copy.stats().hits(), 0);
    copy.set("only_in_copy", "x");
    assert!(!db.contains("only_in_copy"));
    assert_eq!(copy.get("k"), Some(Bytes::from("v")));
}
