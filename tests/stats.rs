use in_memory_cache::CacheStats;

#[test]
fn test_initial_stats() {
    let stats = CacheStats::new();
    assert_eq!(stats.hits(), 0);
    assert_eq!(stats.misses(), 0);
    assert_eq!(stats.size(), 0);
}

#[test]
fn test_record_operations() {
    let stats = CacheStats::new();

    stats.record_hit();
    stats.record_hit();
    stats.record_miss();

    assert_eq!(stats.hits(), 2);
    assert_eq!(stats.misses(), 1);
}

#[test]
fn test_size_tracking() {
    let stats = CacheStats::new();

    stats.increment_size();
    stats.increment_size();
    assert_eq!(stats.size(), 2);

    stats.decrement_size();
    assert_eq!(stats.size(), 1);
}

#[test]
fn test_snapshot() {
    let stats = CacheStats::new();
    stats.record_hit();
    stats.record_set();
    stats.increment_size();

    let snapshot = stats.snapshot();
    assert_eq!(snapshot.hits, 1);
    assert_eq!(snapshot.sets, 1);
    assert_eq!(snapshot.size, 1);
}

#[test]
fn every_counter_records_independently() {
    let stats = CacheStats::new();
    stats.record_eviction();
    stats.record_expiration();
    stats.record_expiration();
    stats.record_delete();
    stats.set_size(7);
    let s = stats.snapshot();
    assert_eq!(s.evictions, 1);
    assert_eq!(s.expirations, 2);
    assert_eq!(s.deletes, 1);
    assert_eq!(s.size, 7);
    assert_eq!(s.hits, 0);
    assert_eq!(s.misses, 0);
    assert_eq!(s.sets, 0);
}
