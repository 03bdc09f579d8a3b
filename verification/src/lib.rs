//! Verified core of a line-oriented TCP chat client.
//!
//! The crate holds the decisions of one chat session: how a line becomes bytes on the
//! wire, how a read becomes a decoded line, and how the session's event loop moves
//! between its phases. Sockets, threads and the terminal live with the caller.

pub mod actor;
pub mod channel;
pub mod client;
pub mod session;
pub mod wire;
