//! High-level handle to an iTerm2 session (terminal pane), and how the
//! replies to its requests are read.

use crate::error::Error;
use crate::response::Response;
use crate::text::{push_signed_decimal, signed_decimal, utf8_len};
use crate::validate::{self, identifier_problem, MAX_ID_LEN};
use vstd::prelude::*;
use vstd::string::StringExecFns;

verus! {

broadcast use vstd::string::group_string_axioms;

/// The status value that reports success.
pub const STATUS_OK: i32 = 0;

/// Whether a reply status reports success: absent, or zero.
pub open spec fn status_ok(status: Option<i32>) -> bool {
    match status {
        None => true,
        Some(code) => code == STATUS_OK,
    }
}

/// The message of a failed status for operation `op`.
pub open spec fn status_message(op: Seq<char>, code: i32) -> Seq<char> {
    op + " returned status "@ + signed_decimal(code as int)
}

/// The message of the error that a status reports for operation `op`, or
/// `None` when it reports success.
pub open spec fn status_error(status: Option<i32>, op: Seq<char>) -> Option<Seq<char>> {
    match status {
        Some(code) => if code == STATUS_OK {
            None
        } else {
            Some(status_message(op, code))
        },
        None => None,
    }
}

/// Whether `r` is an [`Error::Status`] with message `m`.
pub open spec fn fails_with_status<T>(r: Result<T, Error>, m: Seq<char>) -> bool {
    r matches Err(Error::Status(x)) && x@ == m
}

/// How the check of a status for operation `op` ends: `Ok` on success, else
/// an [`Error::Status`] that names the operation and the code.
pub open spec fn status_checked(r: Result<(), Error>, status: Option<i32>, op: Seq<char>) -> bool {
    match status_error(status, op) {
        Some(m) => fails_with_status(r, m),
        None => r is Ok,
    }
}

/// The outcome of reading a reply that carries `status` for operation `op`
/// and, on success, the value `value`.
pub open spec fn checked_value<T>(r: Result<T, Error>, status: Option<i32>, op: Seq<char>, value: T) -> bool {
    match status_error(status, op) {
        Some(m) => fails_with_status(r, m),
        None => r == Ok::<T, Error>(value),
    }
}

/// Whether `r` is the error for a reply of another kind than `expected`.
pub open spec fn unexpected<T>(r: Result<T, Error>, expected: Seq<char>) -> bool {
    r matches Err(Error::UnexpectedResponse { expected: e }) && e@ == expected
}

/// A status check succeeds exactly when the status is absent or zero, and
/// its failure names the operation and the code.
pub proof fn lemma_status_check_succeeds_iff_ok(r: Result<(), Error>, status: Option<i32>, op: Seq<char>)
    requires
        status_checked(r, status, op),
    ensures
        r is Ok <==> status_ok(status),
        !status_ok(status) ==> fails_with_status(r, status_message(op, status->0)),
        r is Ok <==> (status is None || status == Some(STATUS_OK)),
        (status is Some && status->0 != STATUS_OK) ==> fails_with_status(
            r,
            op + " returned status "@ + signed_decimal(status->0 as int),
        ),
{
}

/// A reply that carries a value gives that very value when its status is
/// absent or zero, and fails with the status error otherwise.
pub proof fn law_checked_value_gives_the_value<T>(r: Result<T, Error>, status: Option<i32>, op: Seq<char>, value: T)
    requires
        checked_value(r, status, op, value),
    ensures
        (status is None || status == Some(STATUS_OK)) ==> r == Ok::<T, Error>(value),
        (status is Some && status->0 != STATUS_OK) ==> fails_with_status(
            r,
            op + " returned status "@ + signed_decimal(status->0 as int),
        ),
{
}

/// Check a status field of a reply to operation `op`.
pub fn check_status_i32(status: Option<i32>, op: &str) -> (r: Result<(), Error>)
    ensures
        status_checked(r, status, op@),
        r is Ok <==> (status is None || status == Some(STATUS_OK)),
        (status is Some && status->0 != STATUS_OK) ==> fails_with_status(
            r,
            op@ + " returned status "@ + signed_decimal(status->0 as int),
        ),
{
    match status {
        None => Ok(()),
        Some(code) => {
            if code == STATUS_OK {
                Ok(())
            } else {
                let mut msg = String::from_str(op);
                msg.append(" returned status ");
                push_signed_decimal(&mut msg, code as i64);
                Err(Error::Status(msg))
            }
        },
    }
}

/// Check the status of a get-buffer reply.
pub fn check_buffer_status(status: Option<i32>) -> (r: Result<(), Error>)
    ensures
        status_checked(r, status, "GetBuffer"@),
{
    check_status_i32(status, "GetBuffer")
}

/// Check the status of a split-pane reply.
pub fn check_split_status(status: Option<i32>) -> (r: Result<(), Error>)
    ensures
        status_checked(r, status, "SplitPane"@),
{
    check_status_i32(status, "SplitPane")
}

/// Check the status of a variable reply.
pub fn check_variable_status(status: Option<i32>) -> (r: Result<(), Error>)
    ensures
        status_checked(r, status, "Variable"@),
{
    check_status_i32(status, "Variable")
}

/// A handle to an iTerm2 session (a single terminal pane), reached through
/// the connection `C`.
pub struct Session<C> {
    /// The unique session identifier.
    pub id: String,
    /// The session's title, if available.
    pub title: Option<String>,
    /// The connection this handle sends its requests through.
    pub conn: C,
}

impl<C> Session<C> {
    /// Create a session handle. Validates the session ID.
    pub fn new(id: String, title: Option<String>, conn: C) -> (r: Result<Self, Error>)
        ensures
            match r {
                Ok(s) => identifier_problem(id@, "session"@) is None && s.id == id && s.title == title
                    && s.conn == conn,
                Err(e) => identifier_problem(id@, "session"@) matches Some(p) && e matches Error::Api(m)
                    && m@ == p,
            },
            r is Ok <==> utf8_len(id@) <= MAX_ID_LEN && !id@.contains('\0'),
    {
        match validate::identifier(id.as_str(), "session") {
            Ok(()) => Ok(Self { id, title, conn }),
            Err(e) => Err(e),
        }
    }

    /// Create without validation, for identifiers that come from the server.
    pub fn new_unchecked(id: String, title: Option<String>, conn: C) -> (s: Self)
        ensures
            s.id == id && s.title == title && s.conn == conn,
    {
        Self { id, title, conn }
    }

    /// Get a reference to the underlying connection.
    pub fn connection(&self) -> (c: &C)
        ensures
            *c == self.conn,
    {
        &self.conn
    }
}

/// The text of a buffer line: its text, or the empty string when it has none.
pub open spec fn line_text(line: Option<String>) -> Seq<char> {
    match line {
        Some(t) => t@,
        None => Seq::empty(),
    }
}

/// The first of the values of a variable reply, if any.
pub open spec fn first_value(values: Seq<String>) -> Option<String> {
    if values.len() == 0 {
        None
    } else {
        Some(values[0])
    }
}

/// A buffer line reads as its text exactly as the server sent it, and as the
/// empty string when it has none.
pub proof fn law_line_text_is_the_text(line: Option<String>)
    ensures
        line matches Some(t) ==> line_text(line) == t@,
        line is None ==> line_text(line).len() == 0,
{
}

/// The value of a variable reply is its first value when it has any, and
/// absent only when it has none.
pub proof fn law_first_value_is_the_first(values: Seq<String>)
    ensures
        values.len() > 0 ==> first_value(values) == Some(values[0]),
        first_value(values) is None <==> values.len() == 0,
{
}

/// The error for a reply of another kind than `expected`.
fn unexpected_response<T>(expected: &'static str) -> (r: Result<T, Error>)
    ensures
        unexpected(r, expected@),
{
    Err(Error::UnexpectedResponse { expected })
}

/// Read the reply to a send-text request.
pub fn send_text_reply<P, Q>(resp: Response<P, Q>) -> (r: Result<(), Error>)
    ensures
        match resp {
            Response::SendText { status } => status_checked(r, status, "SendText"@),
            _ => unexpected(r, "SendTextResponse"@),
        },
{
    match resp {
        Response::SendText { status } => check_status_i32(status, "SendText"),
        _ => unexpected_response("SendTextResponse"),
    }
}

/// Read the reply to a get-buffer request (screen contents or trailing
/// lines): the text of each line, the empty string for a line without text.
pub fn buffer_lines_reply<P, Q>(resp: Response<P, Q>) -> (r: Result<Vec<String>, Error>)
    ensures
        match resp {
            Response::GetBuffer { status, lines } => match status_error(status, "GetBuffer"@) {
                Some(m) => fails_with_status(r, m),
                None => r matches Ok(v) && v@.len() == lines@.len() && (forall|i: int|
                    0 <= i < lines@.len() ==> #[trigger] v@[i]@ == line_text(lines@[i])) && (forall|i: int|
                    0 <= i < lines@.len() && (#[trigger] lines@[i]) is Some ==> v@[i]@ == lines@[i]->0@) && (
                forall|i: int|
                    0 <= i < lines@.len() && (#[trigger] lines@[i]) is None ==> v@[i]@.len() == 0),
            },
            _ => unexpected(r, "GetBufferResponse"@),
        },
{
    match resp {
        Response::GetBuffer { status, lines } => {
            match check_buffer_status(status) {
                Err(e) => return Err(e),
                Ok(()) => {},
            }
            let mut out: Vec<String> = Vec::new();
            let mut i: usize = 0;
            while i < lines.len()
                invariant
                    i <= lines@.len(),
                    out@.len() == i,
                    forall|k: int| 0 <= k < i ==> #[trigger] out@[k]@ == line_text(lines@[k]),
                decreases lines@.len() - i,
            {
                let text = match &lines[i] {
                    Some(t) => t.clone(),
                    None => String::new(),
                };
                out.push(text);
                i = i + 1;
            }
            Ok(out)
        },
        _ => unexpected_response("GetBufferResponse"),
    }
}

/// Read the reply to a split-pane request: the new session identifiers.
pub fn split_reply<P, Q>(resp: Response<P, Q>) -> (r: Result<Vec<String>, Error>)
    ensures
        match resp {
            Response::SplitPane { status, session_ids } => checked_value(r, status, "SplitPane"@, session_ids),
            _ => unexpected(r, "SplitPaneResponse"@),
        },
{
    match resp {
        Response::SplitPane { status, session_ids } => match check_split_status(status) {
            Err(e) => Err(e),
            Ok(()) => Ok(session_ids),
        },
        _ => unexpected_response("SplitPaneResponse"),
    }
}

/// Read the reply to a get-variable request: the first value, if any
/// (a JSON-encoded string).
pub fn get_variable_reply<P, Q>(resp: Response<P, Q>) -> (r: Result<Option<String>, Error>)
    ensures
        match resp {
            Response::Variable { status, values } => checked_value(r, status, "Variable"@, first_value(values@))
                && ((status is None || status == Some(STATUS_OK)) ==> (if values@.len() > 0 {
                r == Ok::<Option<String>, Error>(Some(values@[0]))
            } else {
                r == Ok::<Option<String>, Error>(None)
            })),
            _ => unexpected(r, "VariableResponse"@),
        },
{
    match resp {
        Response::Variable { status, values } => match check_variable_status(status) {
            Err(e) => Err(e),
            Ok(()) => {
                let mut values = values;
                if values.len() == 0 {
                    Ok(None)
                } else {
                    Ok(Some(values.remove(0)))
                }
            },
        },
        _ => unexpected_response("VariableResponse"),
    }
}

/// Read the reply to a set-variable request.
pub fn set_variable_reply<P, Q>(resp: Response<P, Q>) -> (r: Result<(), Error>)
    ensures
        match resp {
            Response::Variable { status, .. } => status_checked(r, status, "Variable"@),
            _ => unexpected(r, "VariableResponse"@),
        },
{
    match resp {
        Response::Variable { status, .. } => check_variable_status(status),
        _ => unexpected_response("VariableResponse"),
    }
}

/// Read the reply to a get-profile-property request: the properties.
pub fn get_profile_property_reply<P, Q>(resp: Response<P, Q>) -> (r: Result<Vec<P>, Error>)
    ensures
        match resp {
            Response::GetProfileProperty { status, properties } => checked_value(
                r,
                status,
                "GetProfileProperty"@,
                properties,
            ),
            _ => unexpected(r, "GetProfilePropertyResponse"@),
        },
{
    match resp {
        Response::GetProfileProperty { status, properties } => match check_status_i32(
            status,
            "GetProfileProperty",
        ) {
            Err(e) => Err(e),
            Ok(()) => Ok(properties),
        },
        _ => unexpected_response("GetProfilePropertyResponse"),
    }
}

/// Read the reply to a set-profile-property request.
pub fn set_profile_property_reply<P, Q>(resp: Response<P, Q>) -> (r: Result<(), Error>)
    ensures
        match resp {
            Response::SetProfileProperty { status } => status_checked(r, status, "SetProfileProperty"@),
            _ => unexpected(r, "SetProfilePropertyResponse"@),
        },
{
    match resp {
        Response::SetProfileProperty { status } => check_status_i32(status, "SetProfileProperty"),
        _ => unexpected_response("SetProfilePropertyResponse"),
    }
}

/// How the reply to an inject request is read: `Ok` when every status is
/// OK, else the error for the first status that is not.
pub open spec fn inject_outcome(r: Result<(), Error>, statuses: Seq<i32>) -> bool {
    match r {
        Ok(()) => forall|j: int| 0 <= j < statuses.len() ==> #[trigger] statuses[j] == STATUS_OK,
        Err(_) => exists|k: int|
            0 <= k < statuses.len() && #[trigger] statuses[k] != STATUS_OK && (forall|j: int|
                0 <= j < k ==> statuses[j] == STATUS_OK) && fails_with_status(
                r,
                "Inject failed with status: "@ + signed_decimal(statuses[k] as int),
            ),
    }
}

/// An inject reply succeeds exactly when every status in it is OK: a status
/// that is not OK, at any position, makes the reply an error, and that error
/// names the first such status.
pub proof fn law_inject_fails_on_any_bad_status(r: Result<(), Error>, statuses: Seq<i32>, k: int)
    requires
        inject_outcome(r, statuses),
        0 <= k < statuses.len(),
        statuses[k] != STATUS_OK,
    ensures
        r is Err,
        exists|f: int|
            0 <= f <= k && statuses[f] != STATUS_OK && (forall|j: int| 0 <= j < f ==> statuses[j] == STATUS_OK)
                && fails_with_status(r, "Inject failed with status: "@ + signed_decimal(statuses[f] as int)),
{
    if r is Ok {
        assert(statuses[k] == STATUS_OK);
    }
    let f = choose|f: int|
        0 <= f < statuses.len() && #[trigger] statuses[f] != STATUS_OK && (forall|j: int|
            0 <= j < f ==> statuses[j] == STATUS_OK) && fails_with_status(
            r,
            "Inject failed with status: "@ + signed_decimal(statuses[f] as int),
        );
    if f > k {
        assert(statuses[k] == STATUS_OK);
    }
}

/// An inject reply whose statuses are all OK succeeds.
pub proof fn law_inject_succeeds_when_all_ok(r: Result<(), Error>, statuses: Seq<i32>)
    requires
        inject_outcome(r, statuses),
        forall|j: int| 0 <= j < statuses.len() ==> statuses[j] == STATUS_OK,
    ensures
        r is Ok,
{
    if r is Err {
        let f = choose|f: int|
            0 <= f < statuses.len() && #[trigger] statuses[f] != STATUS_OK && (forall|j: int|
                0 <= j < f ==> statuses[j] == STATUS_OK) && fails_with_status(
                r,
                "Inject failed with status: "@ + signed_decimal(statuses[f] as int),
            );
        assert(statuses[f] == STATUS_OK);
    }
}

/// The position of the first status that is not OK, if any.
fn first_failure(statuses: &Vec<i32>) -> (k: Option<usize>)
    ensures
        match k {
            None => forall|j: int| 0 <= j < statuses@.len() ==> #[trigger] statuses@[j] == STATUS_OK,
            Some(k) => k < statuses@.len() && statuses@[k as int] != STATUS_OK && forall|j: int|
                0 <= j < k ==> #[trigger] statuses@[j] == STATUS_OK,
        },
{
    let mut i: usize = 0;
    while i < statuses.len()
        invariant
            i <= statuses@.len(),
            forall|j: int| 0 <= j < i ==> #[trigger] statuses@[j] == STATUS_OK,
        decreases statuses@.len() - i,
    {
        if statuses[i] != STATUS_OK {
            return Some(i);
        }
        i = i + 1;
    }
    None
}

/// Read the reply to an inject request.
pub fn inject_reply<P, Q>(resp: Response<P, Q>) -> (r: Result<(), Error>)
    ensures
        match resp {
            Response::Inject { statuses } => inject_outcome(r, statuses@) && (r is Ok <==> forall|j: int|
                0 <= j < statuses@.len() ==> #[trigger] statuses@[j] == STATUS_OK),
            _ => unexpected(r, "InjectResponse"@),
        },
{
    match resp {
        Response::Inject { statuses } => match first_failure(&statuses) {
            None => Ok(()),
            Some(k) => {
                let status = statuses[k];
                let mut msg = String::from_str("Inject failed with status: ");
                push_signed_decimal(&mut msg, status as i64);
                let r = Err(Error::Status(msg));
                assert(fails_with_status(
                    r,
                    "Inject failed with status: "@ + signed_decimal(statuses@[k as int] as int),
                ));
                r
            },
        },
        _ => unexpected_response("InjectResponse"),
    }
}

/// Read the reply to a restart-session request.
pub fn restart_reply<P, Q>(resp: Response<P, Q>) -> (r: Result<(), Error>)
    ensures
        match resp {
            Response::RestartSession { status } => status_checked(r, status, "RestartSession"@),
            _ => unexpected(r, "RestartSessionResponse"@),
        },
{
    match resp {
        Response::RestartSession { status } => check_status_i32(status, "RestartSession"),
        _ => unexpected_response("RestartSessionResponse"),
    }
}

/// Read the reply to a close request.
pub fn close_reply<P, Q>(resp: Response<P, Q>) -> (r: Result<(), Error>)
    ensures
        match resp {
            Response::Close => r is Ok,
            _ => unexpected(r, "CloseResponse"@),
        },
{
    match resp {
        Response::Close => Ok(()),
        _ => unexpected_response("CloseResponse"),
    }
}

/// Read the reply to an activate request.
pub fn activate_reply<P, Q>(resp: Response<P, Q>) -> (r: Result<(), Error>)
    ensures
        match resp {
            Response::Activate { status } => status_checked(r, status, "Activate"@),
            _ => unexpected(r, "ActivateResponse"@),
        },
{
    match resp {
        Response::Activate { status } => check_status_i32(status, "Activate"),
        _ => unexpected_response("ActivateResponse"),
    }
}

/// Read the reply to a get-prompt request: the prompt description.
pub fn get_prompt_reply<P, Q>(resp: Response<P, Q>) -> (r: Result<Q, Error>)
    ensures
        match resp {
            Response::GetPrompt(q) => r == Ok::<Q, Error>(q),
            _ => unexpected(r, "GetPromptResponse"@),
        },
{
    match resp {
        Response::GetPrompt(q) => Ok(q),
        _ => unexpected_response("GetPromptResponse"),
    }
}

} // verus!
