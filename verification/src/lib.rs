//! The decisions of a local relay that takes tab counts from a browser agent
//! over WebSocket and shows the latest one as a rich-presence status.
//!
//! Everything here is a function from plain values to plain values. The
//! sockets, the presence session and the scheduling of tasks live with the
//! caller: it performs each [`connection::Action`] or
//! [`startup::StartupAction`] that the library hands out and reports back
//! what came of it.
//!
//! - [`startup`] orders the start of the process: parameters, presence
//!   session, listening socket, connections.
//! - [`connection`] is the protocol of one agent connection.
//! - [`message`] decodes what the agent sends, on top of [`json`].
//! - [`presence`] builds what the presence service is sent.
//! - [`state`] is what all connections share.
//! - [`session`] states what holds of whole runs of connections.

pub mod config;
pub mod connection;
pub mod json;
pub mod message;
pub mod presence;
pub mod session;
pub mod startup;
pub mod state;

pub use crate::config::CliParams;
pub use crate::message::AgentMessage;
pub use crate::state::State;
