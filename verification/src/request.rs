//! A command on its way to the directory, with the channel for the answer.

use crate::command::Command;
use crate::directory::{registry_after, routing};
use crate::mailbox::{ack_channel, answer};
use crate::response::Response;
use crate::server::{Routing, Server};
use vstd::prelude::*;

verus! {

/// Why processing a request did not run to its end.
#[derive(Debug, Clone, Copy, PartialEq, Eq, Structural)]
pub enum ProcessError {
    /// The requester had dropped its end of the answer channel, so the
    /// answer could not be placed.
    RequesterGone,
}

/// A command, and the send side of the channel on which the requester
/// awaits the answer.
pub struct Request {
    pub cmd: Command,
    pub respond_to: oneshot::Sender<Response>,
}

/// The result of processing a request whose answer, if it had one, was
/// placed or not.
pub fn settle(placed: bool) -> (done: Result<(), ProcessError>)
    ensures
        done == if placed {
            Ok::<(), ProcessError>(())
        } else {
            Err::<(), ProcessError>(ProcessError::RequesterGone)
        },
{
    if placed {
        Ok(())
    } else {
        Err(ProcessError::RequesterGone)
    }
}

impl Request {
    /// Pairs `cmd` with a fresh answer channel and returns the request and
    /// the requester's end of the channel.
    pub fn new(cmd: Command) -> (made: (Self, oneshot::Receiver<Response>))
        ensures
            made.0.cmd == cmd,
    {
        let (respond_to, answers) = ack_channel();
        (Request { cmd, respond_to }, answers)
    }

    /// Lets the directory process the request: the registry changes as the
    /// command asks, the answer goes to the requester and the notice into
    /// the mailboxes of its audience.
    ///
    /// A hello is answered before the others are told of the newcomer, and
    /// they are not told where the answer cannot be placed. For every other
    /// command the notice goes out first. A mailbox that does not take the
    /// notice is passed over. A command without an answer cannot fail.
    pub fn process(self, server: &mut Server) -> (done: Result<(), ProcessError>)
        ensures
            final(server)@ == registry_after(old(server)@, self.cmd@),
            routing(old(server)@, self.cmd@).reply is None ==> done is Ok,
    {
        let Request { cmd, respond_to } = self;
        let answer_first = match &cmd {
            Command::Hello { .. } => true,
            _ => false,
        };
        let Routing { reply, notice } = server.route(cmd);
        if answer_first {
            let placed = match reply {
                Some(reply) => answer(respond_to, reply),
                None => true,
            };
            if placed {
                match notice {
                    Some(notice) => {
                        server.fan_out(&notice);
                    },
                    None => {},
                }
            }
            settle(placed)
        } else {
            match notice {
                Some(notice) => {
                    server.fan_out(&notice);
                },
                None => {},
            }
            match reply {
                Some(reply) => settle(answer(respond_to, reply)),
                None => Ok(()),
            }
        }
    }
}

} // verus!
