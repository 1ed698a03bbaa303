//! Errors of iTerm2 client operations, and the messages they read as.

use crate::text::push_char;
use std::time::Duration;
use vstd::prelude::*;
use vstd::string::StrSliceExecFns;
use vstd::string::StringExecFns;

verus! {

broadcast use vstd::string::group_string_axioms;

/// Longest server message, in characters, that an [`Error::Api`] built by
/// [`api_error`] keeps.
pub const MAX_SERVER_ERROR_LEN: usize = 512;

/// Errors that can occur when communicating with iTerm2.
///
/// Failures of the transport and of the protobuf decoder are carried as the
/// text that the failing component reported.
#[derive(Debug)]
pub enum Error {
    /// WebSocket protocol error.
    WebSocket(String),
    /// I/O error (socket, file system, etc.).
    Io(String),
    /// Failed to decode a protobuf message from the server.
    Decode(String),
    /// The server returned an error string in the response.
    Api(String),
    /// An API operation returned a non-OK status code.
    Status(String),
    /// Authentication failed (bad credentials, osascript failure, etc.).
    Auth(String),
    /// The WebSocket connection was closed unexpectedly.
    ConnectionClosed,
    /// A request did not receive a response within the timeout period.
    Timeout(Duration),
    /// The server returned a response type that doesn't match the request.
    UnexpectedResponse {
        /// The response type that was expected.
        expected: &'static str,
    },
}

/// A specialized `Result` type for iTerm2 client operations.
pub type Result<T> = core::result::Result<T, Error>;

/// The debug rendering of a duration (such as `10s` or `1.5ms`), as
/// `format!("{:?}", d)` writes it.
pub uninterp spec fn duration_debug_text(d: Duration) -> Seq<char>;

/// `<Duration as Debug>::fmt`, through `format!("{:?}", d)`: the result is
/// the text that std's `Debug` implementation writes for `d`, which depends on
/// `d` alone.
#[verifier::external_body]
fn duration_debug(d: &Duration) -> (s: String)
    ensures
        s@ == duration_debug_text(*d),
{
    format!("{:?}", d)
}

/// The message of an error, as its `Display` reads.
pub open spec fn error_text(e: Error) -> Seq<char> {
    match e {
        Error::WebSocket(m) => "WebSocket error: "@ + m@,
        Error::Io(m) => "I/O error: "@ + m@,
        Error::Decode(m) => "Protobuf decode error: "@ + m@,
        Error::Api(m) => "API error from server: "@ + m@,
        Error::Status(m) => "Non-OK status: "@ + m@,
        Error::Auth(m) => "Authentication failed: "@ + m@,
        Error::ConnectionClosed => "Connection closed"@,
        Error::Timeout(d) => timeout_text(duration_debug_text(d)),
        Error::UnexpectedResponse { expected } => "Unexpected response: expected "@ + expected@
            + ", got different submessage"@,
    }
}

/// The first `n` characters of `s`, or all of `s` when it is shorter.
pub open spec fn first_chars(s: Seq<char>, n: nat) -> Seq<char> {
    if s.len() <= n {
        s
    } else {
        s.take(n as int)
    }
}

/// What an [`Error::Api`] built from a server message says: the message itself
/// when it has at most 512 characters, else its first 512 characters followed
/// by `... [truncated]`.
pub open spec fn server_message_text(msg: Seq<char>) -> Seq<char> {
    if msg.len() <= MAX_SERVER_ERROR_LEN {
        msg
    } else {
        msg.take(MAX_SERVER_ERROR_LEN as int) + "... [truncated]"@
    }
}

/// The message of a timed-out request, given the debug rendering of its
/// timeout.
pub open spec fn timeout_text(duration_text: Seq<char>) -> Seq<char> {
    "Request timed out after "@ + duration_text
}

/// The message of a timed-out request, from the debug rendering of its
/// timeout.
pub fn timeout_message(duration_text: &str) -> (s: String)
    ensures
        s@ == timeout_text(duration_text@),
{
    String::from_str("Request timed out after ").concat(duration_text)
}

impl Error {
    /// The message of this error.
    pub fn to_string(&self) -> (s: String)
        ensures
            s@ == error_text(*self),
            *self matches Error::WebSocket(m) ==> s@ == "WebSocket error: "@ + m@,
            *self matches Error::Io(m) ==> s@ == "I/O error: "@ + m@,
            *self matches Error::Decode(m) ==> s@ == "Protobuf decode error: "@ + m@,
            *self matches Error::Api(m) ==> s@ == "API error from server: "@ + m@,
            *self matches Error::Status(m) ==> s@ == "Non-OK status: "@ + m@,
            *self matches Error::Auth(m) ==> s@ == "Authentication failed: "@ + m@,
            *self is ConnectionClosed ==> s@ == "Connection closed"@,
            *self matches Error::Timeout(d) ==> s@ == "Request timed out after "@ + duration_debug_text(d),
            *self matches Error::UnexpectedResponse { expected } ==> s@ == "Unexpected response: expected "@
                + expected@ + ", got different submessage"@,
    {
        match self {
            Error::WebSocket(m) => String::from_str("WebSocket error: ").concat(m.as_str()),
            Error::Io(m) => String::from_str("I/O error: ").concat(m.as_str()),
            Error::Decode(m) => String::from_str("Protobuf decode error: ").concat(m.as_str()),
            Error::Api(m) => String::from_str("API error from server: ").concat(m.as_str()),
            Error::Status(m) => String::from_str("Non-OK status: ").concat(m.as_str()),
            Error::Auth(m) => String::from_str("Authentication failed: ").concat(m.as_str()),
            Error::ConnectionClosed => String::from_str("Connection closed"),
            Error::Timeout(d) => timeout_message(duration_debug(d).as_str()),
            Error::UnexpectedResponse { expected } => String::from_str(
                "Unexpected response: expected ",
            ).concat(expected).concat(", got different submessage"),
        }
    }
}

/// The first `n` characters of `s` (all of `s` when it is shorter).
pub fn take_chars(s: &str, n: usize) -> (out: String)
    ensures
        out@ == first_chars(s@, n as nat),
{
    let mut out = String::new();
    let mut count: usize = 0;
    for c in it: s.chars()
        invariant
            it.seq() == s@,
            count <= n,
            count as int == (if it.index() <= n { it.index() } else { n as int }),
            out@ == s@.take(count as int),
    {
        if count < n {
            push_char(&mut out, c);
            count = count + 1;
        }
    }
    assert(s@.len() <= n ==> s@.take(count as int) =~= s@);
    out
}

/// Create an [`Error::Api`], truncating the server message to prevent
/// unbounded or malicious strings from propagating through error chains.
pub fn api_error(server_msg: &str) -> (e: Error)
    ensures
        e matches Error::Api(m) && m@ == server_message_text(server_msg@),
        server_msg@.len() <= MAX_SERVER_ERROR_LEN ==> (e matches Error::Api(m) && m@ == server_msg@),
        server_msg@.len() > MAX_SERVER_ERROR_LEN ==> (e matches Error::Api(m) && m@ == server_msg@.take(
            MAX_SERVER_ERROR_LEN as int,
        ) + "... [truncated]"@),
{
    if server_msg.unicode_len() <= MAX_SERVER_ERROR_LEN {
        Error::Api(String::from_str(server_msg))
    } else {
        let truncated = take_chars(server_msg, MAX_SERVER_ERROR_LEN);
        Error::Api(truncated.concat("... [truncated]"))
    }
}

/// Server error messages are truncated to 512 characters: the message of an
/// [`Error::Api`] built by [`api_error`] is the server's text when it has at
/// most 512 characters, and otherwise its first 512 characters followed by
/// the 15 characters of the `... [truncated]` marker.
pub proof fn lemma_server_message_bounded(msg: Seq<char>)
    ensures
        server_message_text(msg).len() <= MAX_SERVER_ERROR_LEN + 15,
        msg.len() <= MAX_SERVER_ERROR_LEN ==> server_message_text(msg) == msg,
        msg.len() > MAX_SERVER_ERROR_LEN ==> server_message_text(msg).len() == MAX_SERVER_ERROR_LEN + 15
            && server_message_text(msg).take(MAX_SERVER_ERROR_LEN as int) == msg.take(MAX_SERVER_ERROR_LEN as int),
{
    reveal_strlit("... [truncated]");
    if msg.len() > MAX_SERVER_ERROR_LEN {
        let kept = msg.take(MAX_SERVER_ERROR_LEN as int);
        assert((kept + "... [truncated]"@).take(MAX_SERVER_ERROR_LEN as int) =~= kept);
    }
}

} // verus!
