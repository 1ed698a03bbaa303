//! High-level handle to an iTerm2 tab.
//!
//! The replies to a tab's requests (activate, close, get-variable) are read as
//! a session's are: see [`crate::session::activate_reply`],
//! [`crate::session::close_reply`] and [`crate::session::get_variable_reply`].

use crate::error::Error;
use crate::text::utf8_len;
use crate::validate::{self, identifier_problem, MAX_ID_LEN};
use vstd::prelude::*;

pub use crate::session::check_status_i32;

verus! {

/// A handle to an iTerm2 tab, reached through the connection `C`.
pub struct Tab<C> {
    /// The unique tab identifier.
    pub id: String,
    /// The connection this handle sends its requests through.
    pub conn: C,
}

impl<C> Tab<C> {
    /// Create a tab handle. Validates the tab ID.
    pub fn new(id: String, conn: C) -> (r: Result<Self, Error>)
        ensures
            match r {
                Ok(t) => identifier_problem(id@, "tab"@) is None && t.id == id && t.conn == conn,
                Err(e) => identifier_problem(id@, "tab"@) matches Some(p) && e matches Error::Api(m)
                    && m@ == p,
            },
            r is Ok <==> utf8_len(id@) <= MAX_ID_LEN && !id@.contains('\0'),
    {
        match validate::identifier(id.as_str(), "tab") {
            Ok(()) => Ok(Self { id, conn }),
            Err(e) => Err(e),
        }
    }

    /// Create without validation, for identifiers that come from the server.
    pub fn new_unchecked(id: String, conn: C) -> (t: Self)
        ensures
            t.id == id && t.conn == conn,
    {
        Self { id, conn }
    }

    /// Get a reference to the underlying connection.
    pub fn connection(&self) -> (c: &C)
        ensures
            *c == self.conn,
    {
        &self.conn
    }
}

} // verus!
