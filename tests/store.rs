use bytes::Bytes;
use in_memory_cache::store::{Lookup, Store};
use in_memory_cache::Entry;

fn value_of(l: Lookup) -> Option<Bytes> {
    match l {
        Lookup::Live(v) => Some(v),
        _ => None,
    }
}

fn live(s: &str) -> Entry {
    Entry::new(Bytes::from(s.to_string()), 0)
}

fn keys(store: &Store, candidates: &[&str]) -> Vec<String> {
    candidates
        .iter()
        .filter(|k| !matches!(store.lookup(k, 0), Lookup::Missing))
        .map(|k| k.to_string())
        .collect()
}

#[test]
fn set_then_get_returns_the_value() {
    let mut store = Store::new(None);
    store.insert("k".to_string(), live("v"));
    assert_eq!(value_of(store.get("k", 5)), Some(Bytes::from("v")));
    let bin: Vec<u8> = vec![0, 255, 7];
    store.insert("b".to_string(), Entry::new(Bytes::from(bin.clone()), 0));
    assert_eq!(value_of(store.get("b", 5)).unwrap().to_vec(), bin);
}

#[test]
fn ttl_lives_until_its_instant() {
    let mut store = Store::new(None);
    store.insert("k".to_string(), Entry::with_expiration(Bytes::from("v"), 100, 0));
    assert_eq!(value_of(store.get("k", 99)), Some(Bytes::from("v")));
    assert!(matches!(store.get("k", 100), Lookup::Expired));
    assert!(matches!(store.get("k", 100), Lookup::Missing));
    assert_eq!(store.len(), 0);
}

#[test]
fn capacity_keeps_the_latest_keys() {
    let mut store = Store::new(Some(3));
    let mut evicted = 0;
    for k in ["a", "b", "c", "d", "e"] {
        let out = store.insert(k.to_string(), live(k));
        assert!(!out.replaced);
        evicted += out.evicted;
        assert!(store.len() <= 3);
    }
    assert_eq!(evicted, 2);
    assert_eq!(keys(&store, &["a", "b", "c", "d", "e"]), vec!["c", "d", "e"]);
}

#[test]
fn recency_scenario_with_capacity_three() {
    let mut store = Store::new(Some(3));
    store.insert("a".to_string(), live("1"));
    store.insert("b".to_string(), live("2"));
    store.insert("c".to_string(), live("3"));
    assert_eq!(value_of(store.get("a", 1)), Some(Bytes::from("1")));
    let out = store.insert("d".to_string(), live("4"));
    assert_eq!(out.evicted, 1);
    assert!(!matches!(store.lookup("a", 1), Lookup::Missing));
    assert!(matches!(store.lookup("b", 1), Lookup::Missing));
    assert!(!matches!(store.lookup("c", 1), Lookup::Missing));
    assert!(!matches!(store.lookup("d", 1), Lookup::Missing));
    assert_eq!(store.len(), 3);
}

#[test]
fn overwrite_keeps_length_and_evicts_nothing() {
    let mut store = Store::new(Some(2));
    store.insert("a".to_string(), live("1"));
    store.insert("b".to_string(), live("2"));
    let out = store.insert("a".to_string(), live("3"));
    assert!(out.replaced);
    assert_eq!(out.evicted, 0);
    assert_eq!(store.len(), 2);
    // "a" kept its place: it is still the least recently used.
    store.insert("c".to_string(), live("4"));
    assert!(matches!(store.lookup("a", 0), Lookup::Missing));
}

#[test]
fn clear_empties_the_store() {
    let mut store = Store::new(Some(4));
    store.insert("a".to_string(), live("1"));
    store.insert("b".to_string(), live("2"));
    store.clear();
    assert!(store.is_empty());
    assert_eq!(store.max_capacity(), Some(4));
}

#[test]
fn delete_twice() {
    let mut store = Store::new(None);
    store.insert("k".to_string(), live("v"));
    assert!(store.remove("k"));
    assert!(!store.remove("k"));
}

#[test]
fn zero_capacity_means_unbounded() {
    let mut store = Store::new(Some(0));
    assert_eq!(store.max_capacity(), None);
    for k in ["a", "b", "c"] {
        store.insert(k.to_string(), live(k));
    }
    assert_eq!(store.len(), 3);
}

#[test]
fn touch_and_remove_expired() {
    let mut store = Store::new(Some(2));
    store.insert("a".to_string(), Entry::with_expiration(Bytes::from("1"), 50, 0));
    store.insert("b".to_string(), live("2"));
    assert!(store.touch("a", 10));
    assert!(!store.touch("zz", 10));
    assert!(!store.remove_expired("a", 49));
    assert!(store.remove_expired("a", 50));
    assert!(!store.remove_expired("b", 1000));
    assert_eq!(store.len(), 1);
}

#[test]
fn cleanup_counts_removed_entries() {
    let mut store = Store::new(None);
    store.insert("a".to_string(), Entry::with_expiration(Bytes::from("1"), 5, 0));
    store.insert("b".to_string(), live("2"));
    store.insert("c".to_string(), Entry::with_expiration(Bytes::from("3"), 9, 0));
    assert_eq!(store.cleanup_expired(6), 1);
    assert_eq!(store.cleanup_expired(9), 1);
    assert_eq!(store.len(), 1);
    let copy = store.duplicate();
    assert_eq!(value_of(copy.lookup("b", 9)), Some(Bytes::from("2")));
}
