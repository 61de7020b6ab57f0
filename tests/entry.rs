use bytes::Bytes;
use in_memory_cache::{Clock, Entry};
use std::time::{Duration, Instant};

fn pause(ms: u64) {
    let start = Instant::now();
    while start.elapsed() < Duration::from_millis(ms) {}
}


#[test]
fn test_new_entry_not_expired() {
    let clock = Clock::new();
    let entry = Entry::new(Bytes::from("test"), clock.now());
    assert!(!entry.is_expired(&clock));
    assert!(entry.expires_at().is_none());
}

#[test]
fn test_entry_with_future_expiration() {
    let clock = Clock::new();
    let now = clock.now();
    let future = now + Duration::from_secs(60).as_nanos() as u64;
    let entry = Entry::with_expiration(Bytes::from("test"), future, now);
    assert!(!entry.is_expired(&clock));
}

#[test]
fn test_entry_with_past_expiration() {
    let clock = Clock::new();
    pause(2);
    // The clock's origin has passed: an entry that expired then is expired now.
    let past = 0;
    let entry = Entry::with_expiration(Bytes::from("test"), past, clock.now());
    assert!(entry.is_expired(&clock));
}

#[test]
fn test_touch_updates_access_time() {
    let clock = Clock::new();
    let mut entry = Entry::new(Bytes::from("test"), clock.now());
    let initial = entry.last_accessed();

    pause(1);
    entry.touch(&clock);

    assert!(entry.last_accessed() > initial);
}

#[test]
fn expiry_is_inclusive_of_its_instant() {
    let entry = Entry::with_expiration(Bytes::from("v"), 100, 10);
    assert!(!entry.is_expired_at(99));
    assert!(entry.is_expired_at(100));
    assert!(entry.is_expired_at(101));
    let forever = Entry::new(Bytes::from("v"), 10);
    assert!(!forever.is_expired_at(u64::MAX));
}

#[test]
fn touch_at_changes_only_the_access_time() {
    let mut entry = Entry::with_expiration(Bytes::from("v"), 100, 10);
    entry.touch_at(42);
    assert_eq!(entry.last_accessed(), 42);
    assert_eq!(entry.expires_at(), Some(100));
    assert_eq!(entry.value(), &Bytes::from("v"));
}
