//! What a reply from iTerm2 carries, as far as the client reads it.
//!
//! A server-originated message holds one submessage. The client reads the
//! status fields and the payloads below; profile properties (`P`) and prompt
//! descriptions (`Q`) are handed to the caller untouched.

use vstd::prelude::*;

verus! {

/// The submessage of a reply to a request.
pub enum Response<P, Q> {
    /// Reply to an activate request.
    Activate { status: Option<i32> },
    /// Reply to a close request.
    Close,
    /// Reply to a get- or set-variable request: the JSON values asked for.
    Variable { status: Option<i32>, values: Vec<String> },
    /// Reply to a send-text request.
    SendText { status: Option<i32> },
    /// Reply to a get-buffer request: the text of each line, where present.
    GetBuffer { status: Option<i32>, lines: Vec<Option<String>> },
    /// Reply to a split-pane request: the identifiers of the new sessions.
    SplitPane { status: Option<i32>, session_ids: Vec<String> },
    /// Reply to a get-profile-property request.
    GetProfileProperty { status: Option<i32>, properties: Vec<P> },
    /// Reply to a set-profile-property request.
    SetProfileProperty { status: Option<i32> },
    /// Reply to an inject request: one status per session.
    Inject { statuses: Vec<i32> },
    /// Reply to a restart-session request.
    RestartSession { status: Option<i32> },
    /// Reply to a get-prompt request.
    GetPrompt(Q),
    /// Any other submessage, or none at all.
    Other,
}

} // verus!
