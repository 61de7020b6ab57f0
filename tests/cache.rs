use bytes::Bytes;
use in_memory_cache::Cache;

#[test]
fn test_cache_basic_operations() {
    let cache = Cache::default();

    cache.set("key", "value");
    assert_eq!(cache.get("key"), Some(Bytes::from("value")));
    assert!(cache.contains("key"));

    cache.delete("key");
    assert!(!cache.contains("key"));
}

#[test]
fn test_cache_is_clone() {
    let cache1 = Cache::default();
    cache1.set("key", "value");

    let cache2 = cache1.clone();

    assert_eq!(cache2.get("key"), Some(Bytes::from("value")));

    cache2.set("key2", "value2");
    assert_eq!(cache1.get("key2"), Some(Bytes::from("value2")));
}

#[test]
fn test_cache_stats() {
    let cache = Cache::default();

    cache.set("key", "value");
    let _ = cache.get("key");
    let _ = cache.get("missing");

    let stats = cache.stats();
    assert_eq!(stats.hits, 1);
    assert_eq!(stats.misses, 1);
}

#[test]
fn stats_ref_shares_the_counters() {
    let cache = Cache::default();
    let counters = cache.stats_ref();
    cache.set("k", "v");
    assert_eq!(counters.sets(), 1);
    assert_eq!(cache.cleanup_expired(), 0);
}
