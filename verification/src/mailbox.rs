//! The channels between the connection handlers and the directory.
//!
//! A mailbox is the bounded `tokio` channel through which the directory
//! pushes events to one handler; an acknowledgement travels back through a
//! `oneshot` channel made for one request. Both kinds of handle are opaque
//! to the proofs: the library stores them, passes them on and sends through
//! them, and claims nothing about what the other side sees.

use crate::response::Response;
use vstd::prelude::*;

verus! {

/// The most users the relay is laid out for. Every mailbox and the
/// directory's submission queue are bounded by it.
pub const MAX_USER_SIZE: usize = 50;

/// `tokio::sync::mpsc::Sender`, the send side of a bounded channel. Nothing
/// is claimed of a value of it.
#[verifier::external_type_specification]
#[verifier::external_body]
#[verifier::reject_recursive_types(T)]
pub struct ExMailboxSender<T>(tokio::sync::mpsc::Sender<T>);

/// `oneshot::Sender`, the send side of a channel that carries one message.
/// Nothing is claimed of a value of it.
#[verifier::external_type_specification]
#[verifier::external_body]
#[verifier::reject_recursive_types(T)]
pub struct ExAckSender<T>(oneshot::Sender<T>);

/// `oneshot::Receiver`, the receive side of a channel that carries one
/// message. Nothing is claimed of a value of it.
#[verifier::external_type_specification]
#[verifier::external_body]
#[verifier::reject_recursive_types(T)]
pub struct ExAckReceiver<T>(oneshot::Receiver<T>);

/// `oneshot::RecvError`, which awaiting an `oneshot::Receiver` yields once
/// its sender is gone. Nothing is claimed of a value of it.
#[verifier::external_type_specification]
#[verifier::external_body]
pub struct ExAckRecvError(oneshot::RecvError);

/// Calls `tokio::sync::mpsc::Sender::try_send`, which hands `event` to the
/// channel unless the channel is full or its receiver is closed, and never
/// waits. The result tells whether the channel took the event. Which of the
/// two happens depends on the other side of the channel, so the contract
/// promises nothing.
#[verifier::external_body]
pub(crate) fn push(mailbox: &tokio::sync::mpsc::Sender<Response>, event: Response) -> (taken: bool)
{
    mailbox.try_send(event).is_ok()
}

/// Calls `oneshot::Sender::send`, which places `reply` in the channel and
/// fails only if the receiver was dropped before. The result tells whether
/// the reply was placed. That depends on the requester, so the contract
/// promises nothing.
#[verifier::external_body]
pub(crate) fn answer(respond_to: oneshot::Sender<Response>, reply: Response) -> (placed: bool)
{
    respond_to.send(reply).is_ok()
}

/// Calls `oneshot::channel`, which makes a fresh channel for one
/// [`Response`] and returns its two ends.
#[verifier::external_body]
pub(crate) fn ack_channel() -> (ends: (oneshot::Sender<Response>, oneshot::Receiver<Response>))
{
    oneshot::channel()
}

} // verus!
