use bytes::Bytes;
use in_memory_cache::{respond, Cache, Reply};

fn words(ws: &[&str]) -> Vec<String> {
    ws.iter().map(|w| w.to_string()).collect()
}

#[test]
fn set_get_delete_round() {
    let cache = Cache::default();
    assert!(matches!(respond(&words(&["set", "k", "v"]), &cache), Reply::Stored));
    assert!(matches!(respond(&words(&["SET", "k", "w"]), &cache), Reply::Replaced));
    match respond(&words(&["get", "k"]), &cache) {
        Reply::Value(v) => assert_eq!(v, Bytes::from("w")),
        _ => panic!("expected a value"),
    }
    assert!(matches!(respond(&words(&["del", "k"]), &cache), Reply::Deleted));
    assert!(matches!(respond(&words(&["delete", "k"]), &cache), Reply::NotFound));
    assert!(matches!(respond(&words(&["get", "k"]), &cache), Reply::NotFound));
}

#[test]
fn missing_arguments_and_unknown_words() {
    let cache = Cache::default();
    assert!(matches!(respond(&[], &cache), Reply::EmptyCommand));
    assert!(matches!(respond(&words(&["get"]), &cache), Reply::MissingKey));
    assert!(matches!(respond(&words(&["delete"]), &cache), Reply::MissingKey));
    assert!(matches!(respond(&words(&["set", "k"]), &cache), Reply::MissingKeyOrValue));
    assert!(matches!(respond(&words(&["ping"]), &cache), Reply::Pong));
    match respond(&words(&["frob", "x"]), &cache) {
        Reply::Unknown(w) => assert_eq!(w, "frob"),
        _ => panic!("expected an unknown command"),
    }
}

#[test]
fn stats_reply_counts_reads() {
    let cache = Cache::default();
    respond(&words(&["set", "k", "v"]), &cache);
    respond(&words(&["get", "k"]), &cache);
    respond(&words(&["get", "x"]), &cache);
    match respond(&words(&["info"]), &cache) {
        Reply::Stats(s) => {
            assert_eq!(s.hits, 1);
            assert_eq!(s.misses, 1);
            assert_eq!(s.size, 1);
        }
        _ => panic!("expected stats"),
    }
}
