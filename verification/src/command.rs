//! What a connection handler submits to the directory.

use crate::response::Response;
use vstd::prelude::*;

verus! {

/// A command of a connection handler to the directory.
#[derive(Debug)]
pub enum Command {
    /// Register `username`, with the mailbox that its events go to.
    Hello { username: String, private_sender: tokio::sync::mpsc::Sender<Response> },
    /// Broadcast `body` to everyone but `from`.
    Message { from: String, body: String },
    /// Remove `username`.
    Quit { username: String },
    /// Deliver `body` to `to` alone.
    PrivateMessage { from: String, to: String, body: String },
}

/// The model of a [`Command`]: each text is the sequence of its characters,
/// the mailbox stays as it is.
pub enum CommandView {
    Hello { username: Seq<char>, private_sender: tokio::sync::mpsc::Sender<Response> },
    Message { from: Seq<char>, body: Seq<char> },
    Quit { username: Seq<char> },
    PrivateMessage { from: Seq<char>, to: Seq<char>, body: Seq<char> },
}

impl View for Command {
    type V = CommandView;

    open spec fn view(&self) -> CommandView {
        match *self {
            Command::Hello { username, private_sender } => CommandView::Hello {
                username: username@,
                private_sender,
            },
            Command::Message { from, body } => CommandView::Message { from: from@, body: body@ },
            Command::Quit { username } => CommandView::Quit { username: username@ },
            Command::PrivateMessage { from, to, body } => CommandView::PrivateMessage {
                from: from@,
                to: to@,
                body: body@,
            },
        }
    }
}

} // verus!
