use bytes::BytesMut;
use in_memory_cache::{buffer_to_array, parse_command};

#[test]
fn test_buffer_to_array_basic() {
    let mut buf = BytesMut::from("set key value");
    let result = buffer_to_array(&mut buf);
    assert_eq!(result, vec!["set", "key", "value"]);
}

#[test]
fn test_buffer_to_array_empty() {
    let mut buf = BytesMut::new();
    let result = buffer_to_array(&mut buf);
    assert!(result.is_empty());
}

#[test]
fn test_buffer_to_array_single_word() {
    let mut buf = BytesMut::from("ping");
    let result = buffer_to_array(&mut buf);
    assert_eq!(result, vec!["ping"]);
}

#[test]
fn test_buffer_to_array_multiple_spaces() {
    let mut buf = BytesMut::from("set  key   value");
    let result = buffer_to_array(&mut buf);
    assert_eq!(result, vec!["set", "key", "value"]);
}

#[test]
fn test_parse_command_empty() {
    let mut buf = BytesMut::new();
    let result = parse_command(&mut buf);
    assert!(result.is_err());
}

#[test]
fn test_parse_command_valid() {
    let mut buf = BytesMut::from("get mykey");
    let result = parse_command(&mut buf);
    assert!(result.is_ok());
    assert_eq!(result.unwrap(), vec!["get", "mykey"]);
}

#[test]
fn buffer_is_consumed_and_edges_are_trimmed() {
    let mut buf = BytesMut::from("  get   k  ");
    let result = buffer_to_array(&mut buf);
    assert_eq!(result, vec!["get", "k"]);
    assert!(buf.is_empty());
}

#[test]
fn only_spaces_is_an_empty_command() {
    let mut buf = BytesMut::from("    ");
    assert!(parse_command(&mut buf).is_err());
}

#[test]
fn high_bytes_become_latin1_characters() {
    let mut buf = BytesMut::from(&[b'a', 0xe9, b' ', b'b'][..]);
    let result = buffer_to_array(&mut buf);
    assert_eq!(result, vec!["a\u{e9}".to_string(), "b".to_string()]);
}
