//! Session-and-routing core of a multi-user text chat relay.
//!
//! Clients register a unique name, broadcast messages to everyone else,
//! send private messages and are told who joins and who leaves. This crate
//! holds what decides all of that:
//!
//! - [`text`] and [`response`]: the pipe-delimited line protocol, read and
//!   written;
//! - [`client`]: the state machine of one connection, from a line read to
//!   the step that the handler takes;
//! - [`directory`] and [`server`]: the registry of connected users, the
//!   rules by which it answers a command and picks the users to notify,
//!   and the laws that follow from the rules;
//! - [`request`] and [`mailbox`]: a command paired with its answer
//!   channel, and the calls that hand answers and events to the channels.
//!
//! Sockets, tasks and the waiting between them are left to the caller.

pub mod client;
pub mod command;
pub mod directory;
pub mod error;
pub mod mailbox;
pub mod request;
pub mod response;
pub mod server;
pub mod text;

pub use crate::client::{handle_ack, handle_read_line, relay, ClientState, Pending, Step};
pub use crate::command::Command;
pub use crate::error::ProtocolError;
pub use crate::mailbox::MAX_USER_SIZE;
pub use crate::request::{ProcessError, Request};
pub use crate::response::Response;
pub use crate::server::{Audience, Notice, Routing, Server, User};
pub use crate::text::is_username_valid;
