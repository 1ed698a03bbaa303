use iterm2_client::validate::{
    identifier, json_check, json_value, text_len, vec_len, MAX_ID_LEN, MAX_TEXT_LEN, MAX_VEC_LEN,
};
use iterm2_client::Error;

fn api_message(err: Error) -> String {
    match err {
        Error::Api(m) => m,
        other => panic!("expected an API error, got {:?}", other),
    }
}

#[test]
fn valid_identifier() {
    identifier("session-abc-123", "session").unwrap();
    identifier("active", "session").unwrap();
    identifier("all", "session").unwrap();
}

#[test]
fn identifier_with_null_byte() {
    let err = identifier("session\0id", "session").unwrap_err();
    assert!(err.to_string().contains("null byte"));
}

#[test]
fn identifier_too_long() {
    let long_id = "x".repeat(MAX_ID_LEN + 1);
    let err = identifier(&long_id, "session").unwrap_err();
    assert!(err.to_string().contains("too long"));
}

#[test]
fn vec_within_bounds() {
    vec_len(&vec![1, 2, 3], "ids").unwrap();
}

#[test]
fn vec_exceeds_bounds() {
    let big: Vec<i32> = vec![0; MAX_VEC_LEN + 1];
    let err = vec_len(&big, "ids").unwrap_err();
    assert!(err.to_string().contains("too many"));
}

#[test]
fn text_within_bounds() {
    text_len("hello world").unwrap();
}

#[test]
fn text_exceeds_bounds() {
    let big = "x".repeat(MAX_TEXT_LEN + 1);
    let err = text_len(&big).unwrap_err();
    assert!(err.to_string().contains("too long"));
}

#[test]
fn valid_json_values() {
    json_value(r#""hello""#).unwrap();
    json_value("42").unwrap();
    json_value("true").unwrap();
    json_value("null").unwrap();
    json_value(r#"{"key": "value"}"#).unwrap();
    json_value(r#"[1, 2, 3]"#).unwrap();
}

#[test]
fn invalid_json_value() {
    let err = json_value("not valid json").unwrap_err();
    assert!(err.to_string().contains("Invalid JSON"));
}

#[test]
fn empty_string_is_invalid_json() {
    let err = json_value("").unwrap_err();
    assert!(err.to_string().contains("Invalid JSON"));
}

#[test]
fn identifier_too_long_message_is_exact() {
    let long_id = "x".repeat(MAX_ID_LEN + 1);
    let err = identifier(&long_id, "session").unwrap_err();
    assert_eq!(api_message(err), "session ID too long (257 bytes, max 256)");
}

#[test]
fn identifier_length_is_counted_in_bytes() {
    // 128 two-byte characters: 256 bytes, accepted.
    let id = "é".repeat(128);
    identifier(&id, "tab").unwrap();
    // 129 of them: 258 bytes, refused, though only 129 characters.
    let id = "é".repeat(129);
    let err = identifier(&id, "tab").unwrap_err();
    assert_eq!(api_message(err), "tab ID too long (258 bytes, max 256)");
}

#[test]
fn identifier_at_the_limit_is_accepted() {
    identifier(&"x".repeat(MAX_ID_LEN), "window").unwrap();
}

#[test]
fn identifier_length_is_checked_before_null_byte() {
    let id = format!("{}\0", "x".repeat(MAX_ID_LEN));
    let err = identifier(&id, "session").unwrap_err();
    assert_eq!(api_message(err), "session ID too long (257 bytes, max 256)");
}

#[test]
fn identifier_null_byte_message_is_exact() {
    let err = identifier("\0", "window").unwrap_err();
    assert_eq!(api_message(err), "window ID contains null byte");
    assert_eq!(
        identifier("a\0b", "tab").unwrap_err().to_string(),
        "API error from server: tab ID contains null byte"
    );
}

#[test]
fn empty_identifier_is_accepted() {
    identifier("", "session").unwrap();
}

#[test]
fn vec_at_the_limit_is_accepted_and_message_is_exact() {
    let v: Vec<u8> = vec![0; MAX_VEC_LEN];
    vec_len(&v, "ids").unwrap();
    let v: Vec<u8> = vec![0; MAX_VEC_LEN + 1];
    let err = vec_len(&v, "session_ids").unwrap_err();
    assert_eq!(api_message(err), "session_ids too many elements (10001, max 10000)");
    vec_len::<u8>(&[], "ids").unwrap();
}

#[test]
fn text_at_the_limit_is_accepted_and_message_is_exact() {
    text_len(&"y".repeat(MAX_TEXT_LEN)).unwrap();
    let err = text_len(&"y".repeat(MAX_TEXT_LEN + 1)).unwrap_err();
    assert_eq!(api_message(err), "Text too long (10485761 bytes, max 10485760)");
    text_len("").unwrap();
}

#[test]
fn invalid_json_message_carries_the_parser_message() {
    let err = json_value("{").unwrap_err();
    let msg = api_message(err);
    assert!(msg.starts_with("Invalid JSON value: "));
    assert!(msg.len() > "Invalid JSON value: ".len());
    let err = json_value("[1, 2").unwrap_err();
    assert!(api_message(err).contains("EOF"));
    let err = json_value("1 2").unwrap_err();
    assert!(api_message(err).contains("trailing characters"));
}

#[test]
fn json_with_surrounding_whitespace_is_valid() {
    json_value("  {\"a\": [true, null, 1.5]}\n").unwrap();
}

#[test]
fn parser_answer_decides_json_validation() {
    json_check(None).unwrap();
    let err = json_check(Some("expected value at line 1 column 1".to_string())).unwrap_err();
    assert_eq!(api_message(err), "Invalid JSON value: expected value at line 1 column 1");
}

#[test]
fn invalid_json_message_carries_parser_text() {
    let err = json_value("not valid json").unwrap_err();
    assert_eq!(api_message(err), "Invalid JSON value: expected ident at line 1 column 2");
}
