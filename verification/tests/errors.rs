use iterm2_client::error::{api_error, timeout_message, MAX_SERVER_ERROR_LEN};
use iterm2_client::Error;
use std::time::Duration;

#[test]
fn display_texts_of_every_variant() {
    assert_eq!(Error::WebSocket("reset".to_string()).to_string(), "WebSocket error: reset");
    assert_eq!(Error::Io("broken pipe".to_string()).to_string(), "I/O error: broken pipe");
    assert_eq!(Error::Decode("bad tag".to_string()).to_string(), "Protobuf decode error: bad tag");
    assert_eq!(Error::Api("nope".to_string()).to_string(), "API error from server: nope");
    assert_eq!(Error::Status("x".to_string()).to_string(), "Non-OK status: x");
    assert_eq!(Error::Auth("denied".to_string()).to_string(), "Authentication failed: denied");
    assert_eq!(Error::ConnectionClosed.to_string(), "Connection closed");
    assert_eq!(
        Error::Timeout(Duration::from_secs(10)).to_string(),
        "Request timed out after 10s"
    );
    assert_eq!(
        Error::Timeout(Duration::from_millis(1500)).to_string(),
        "Request timed out after 1.5s"
    );
    assert_eq!(
        Error::UnexpectedResponse { expected: "SendTextResponse" }.to_string(),
        "Unexpected response: expected SendTextResponse, got different submessage"
    );
}

fn api_text(e: Error) -> String {
    match e {
        Error::Api(m) => m,
        other => panic!("expected an API error, got {:?}", other),
    }
}

#[test]
fn short_server_message_is_kept() {
    assert_eq!(api_text(api_error("session not found")), "session not found");
    assert_eq!(api_text(api_error("")), "");
    let exact = "a".repeat(MAX_SERVER_ERROR_LEN);
    assert_eq!(api_text(api_error(&exact)), exact);
}

#[test]
fn long_server_message_is_truncated() {
    let long = "b".repeat(MAX_SERVER_ERROR_LEN + 1);
    let text = api_text(api_error(&long));
    assert_eq!(text, format!("{}... [truncated]", "b".repeat(512)));
    assert_eq!(text.chars().count(), 512 + 15);
}

#[test]
fn truncation_limit_counts_characters() {
    // 300 characters of two bytes each: 600 bytes, but under 512 characters,
    // so the message is kept whole.
    let msg = "é".repeat(300);
    assert_eq!(api_text(api_error(&msg)), msg);
    // Exactly 512 characters of two bytes each: kept whole.
    let msg = "é".repeat(512);
    assert_eq!(api_text(api_error(&msg)), msg);
    // 600 characters of two bytes: the first 512 are kept.
    let msg = "ü".repeat(600);
    assert_eq!(api_text(api_error(&msg)), format!("{}... [truncated]", "ü".repeat(512)));
}

#[test]
fn timeout_message_names_the_duration() {
    assert_eq!(timeout_message("250ms"), "Request timed out after 250ms");
    assert_eq!(timeout_message(""), "Request timed out after ");
}
