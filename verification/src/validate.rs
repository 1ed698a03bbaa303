//! Input validation helpers.

use crate::error::Error;
use crate::text::{byte_len, decimal, push_decimal, utf8_len};
use vstd::prelude::*;
use vstd::string::StringExecFns;

verus! {

broadcast use vstd::string::group_string_axioms;

/// Longest object identifier accepted, in bytes.
pub const MAX_ID_LEN: usize = 256;
/// Most elements accepted in a vector parameter.
pub const MAX_VEC_LEN: usize = 10_000;
/// Longest text accepted for a send operation, in bytes (10 MiB).
pub const MAX_TEXT_LEN: usize = 10485760;

/// Why an identifier is refused, or `None` when it is accepted: too long
/// (measured in UTF-8 bytes) first, then containing a null character.
pub open spec fn identifier_problem(id: Seq<char>, kind: Seq<char>) -> Option<Seq<char>> {
    if utf8_len(id) > MAX_ID_LEN {
        Some(kind + " ID too long ("@ + decimal(utf8_len(id)) + " bytes, max "@ + decimal(MAX_ID_LEN as nat) + ")"@)
    } else if id.contains('\0') {
        Some(kind + " ID contains null byte"@)
    } else {
        None
    }
}

/// Why a vector parameter is refused, or `None` when it is accepted.
pub open spec fn vec_len_problem(len: nat, param: Seq<char>) -> Option<Seq<char>> {
    if len > MAX_VEC_LEN {
        Some(param + " too many elements ("@ + decimal(len) + ", max "@ + decimal(MAX_VEC_LEN as nat) + ")"@)
    } else {
        None
    }
}

/// Why a text is refused for sending, or `None` when it is accepted.
pub open spec fn text_len_problem(text: Seq<char>) -> Option<Seq<char>> {
    if utf8_len(text) > MAX_TEXT_LEN {
        Some("Text too long ("@ + decimal(utf8_len(text)) + " bytes, max "@ + decimal(MAX_TEXT_LEN as nat) + ")"@)
    } else {
        None
    }
}

/// An identifier is refused exactly when its UTF-8 encoding is longer than
/// [`MAX_ID_LEN`] bytes or it holds a null character.
pub proof fn law_identifier_refusals(id: Seq<char>, kind: Seq<char>)
    ensures
        identifier_problem(id, kind) is None <==> utf8_len(id) <= MAX_ID_LEN && !id.contains('\0'),
{
}

/// A vector parameter is refused exactly when it has more than
/// [`MAX_VEC_LEN`] elements.
pub proof fn law_vec_len_refusals(len: nat, param: Seq<char>)
    ensures
        vec_len_problem(len, param) is None <==> len <= MAX_VEC_LEN,
{
}

/// A text is refused for sending exactly when its UTF-8 encoding is longer
/// than [`MAX_TEXT_LEN`] bytes: every text within the limit is accepted,
/// whatever characters it holds.
pub proof fn law_text_len_refusals(text: Seq<char>)
    ensures
        text_len_problem(text) is None <==> utf8_len(text) <= MAX_TEXT_LEN,
{
}

/// How a validation result matches the problem found: `Ok` when there is
/// none, else an [`Error::Api`] that carries its description.
pub open spec fn reports(r: Result<(), Error>, problem: Option<Seq<char>>) -> bool {
    match problem {
        None => r is Ok,
        Some(p) => r matches Err(Error::Api(m)) && m@ == p,
    }
}

/// Whether `s` holds a null character.
fn has_null(s: &str) -> (found: bool)
    ensures
        found == s@.contains('\0'),
{
    let mut found = false;
    for c in it: s.chars()
        invariant
            it.seq() == s@,
            found == (exists|j: int| 0 <= j < it.index() && s@[j] == '\0'),
    {
        if c == '\0' {
            found = true;
        }
    }
    found
}

/// Validate an iTerm2 object identifier (session, tab, window ID).
/// Rejects null bytes and excessively long values.
pub fn identifier(id: &str, kind: &str) -> (r: Result<(), Error>)
    ensures
        reports(r, identifier_problem(id@, kind@)),
        r is Ok <==> utf8_len(id@) <= MAX_ID_LEN && !id@.contains('\0'),
        r is Err ==> r matches Err(Error::Api(_)),
{
    if byte_len(id) > MAX_ID_LEN {
        let mut msg = String::from_str(kind);
        msg.append(" ID too long (");
        push_decimal(&mut msg, byte_len(id) as u64);
        msg.append(" bytes, max ");
        push_decimal(&mut msg, MAX_ID_LEN as u64);
        msg.append(")");
        return Err(Error::Api(msg));
    }
    if has_null(id) {
        let msg = String::from_str(kind).concat(" ID contains null byte");
        return Err(Error::Api(msg));
    }
    Ok(())
}

/// Validate a vector parameter is within bounds.
pub fn vec_len<T>(v: &[T], param: &str) -> (r: Result<(), Error>)
    ensures
        reports(r, vec_len_problem(v@.len(), param@)),
        r is Ok <==> v@.len() <= MAX_VEC_LEN,
        r is Err ==> r matches Err(Error::Api(_)),
{
    if v.len() > MAX_VEC_LEN {
        let mut msg = String::from_str(param);
        msg.append(" too many elements (");
        push_decimal(&mut msg, v.len() as u64);
        msg.append(", max ");
        push_decimal(&mut msg, MAX_VEC_LEN as u64);
        msg.append(")");
        return Err(Error::Api(msg));
    }
    Ok(())
}

/// Validate text length for send operations.
pub fn text_len(text: &str) -> (r: Result<(), Error>)
    ensures
        reports(r, text_len_problem(text@)),
        r is Ok <==> utf8_len(text@) <= MAX_TEXT_LEN,
        r is Err ==> r matches Err(Error::Api(_)),
{
    if byte_len(text) > MAX_TEXT_LEN {
        let mut msg = String::from_str("Text too long (");
        push_decimal(&mut msg, byte_len(text) as u64);
        msg.append(" bytes, max ");
        push_decimal(&mut msg, MAX_TEXT_LEN as u64);
        msg.append(")");
        return Err(Error::Api(msg));
    }
    Ok(())
}

/// The message of serde_json's error for `text` when `text` is not a
/// syntactically valid JSON document, or `None` when it is one.
pub uninterp spec fn json_syntax_error(text: Seq<char>) -> Option<Seq<char>>;

/// `serde_json::from_str::<serde_json::Value>`: `None` when the parse
/// succeeds, else the `Display` text of serde_json's error. The outcome and the
/// text depend on `value` alone; which texts are JSON is left to serde_json.
#[verifier::external_body]
fn parse_json(value: &str) -> (res: Option<String>)
    ensures
        match res {
            None => json_syntax_error(value@) is None,
            Some(m) => json_syntax_error(value@) == Some(m@),
        },
{
    match serde_json::from_str::<serde_json::Value>(value) {
        Ok(_) => None,
        Err(e) => Some(e.to_string()),
    }
}

/// Why a value is refused as JSON, or `None` when it is accepted.
pub open spec fn json_value_problem(value: Seq<char>) -> Option<Seq<char>> {
    match json_syntax_error(value) {
        None => None,
        Some(m) => Some("Invalid JSON value: "@ + m),
    }
}

/// Turn the parser's answer on a value into the outcome of its validation.
pub fn json_check(parse: Option<String>) -> (r: Result<(), Error>)
    ensures
        match parse {
            None => r is Ok,
            Some(m) => r matches Err(Error::Api(t)) && t@ == "Invalid JSON value: "@ + m@,
        },
{
    match parse {
        None => Ok(()),
        Some(m) => Err(Error::Api(String::from_str("Invalid JSON value: ").concat(m.as_str()))),
    }
}

/// Validate that a string is syntactically valid JSON.
pub fn json_value(value: &str) -> (r: Result<(), Error>)
    ensures
        reports(r, json_value_problem(value@)),
        r is Ok <==> json_syntax_error(value@) is None,
{
    json_check(parse_json(value))
}

} // verus!
