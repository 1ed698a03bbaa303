//! Client-side logic for the iTerm2 scripting API.
//!
//! The library holds what the client decides: input validation, the
//! messages of its errors, how a server reply is read, the table of requests
//! that wait for an answer, and the decisions of the message dispatcher.
//! Sockets, tasks and timers live with the caller.

pub mod text;
pub mod error;
pub mod validate;
pub mod response;
pub mod session;
pub mod tab;
pub mod connection;
pub mod notification;

pub use error::{Error, Result};
pub use session::Session;
pub use tab::Tab;
