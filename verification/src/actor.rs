//! The session as an actor that handles one message at a time.
//!
//! The actor owns the socket. For each message this module decides what is to be done
//! with the socket; doing it is the caller's.

use vstd::prelude::*;

use crate::wire::{encode_line, wire_form};

verus! {

/// The number of messages that wait for the actor before a sender has to wait.
pub const ACTOR_QUEUE_CAPACITY: usize = 8;

/// A request to the actor.
pub enum ActorMessage {
    /// Read what the peer has sent and answer through `respond_to`.
    GetMessage { respond_to: tokio::sync::oneshot::Sender<String> },
    /// Send `msg` as one line.
    SendMessage { msg: String },
}

/// What the actor has to do with its socket for one message.
pub enum ActorWork {
    /// Read the stream to its end, then hand the outcome to `answer`.
    Read { respond_to: tokio::sync::oneshot::Sender<String> },
    /// Write these bytes.
    Write { bytes: Vec<u8> },
}

/// Decides what a message asks of the socket. A request to read is passed on with
/// its responder; a line to send becomes its wire form, ended by exactly one terminator.
pub fn handle_message(msg: ActorMessage) -> (work: ActorWork)
    ensures
        match msg {
            ActorMessage::GetMessage { respond_to } => work == (ActorWork::Read { respond_to }),
            ActorMessage::SendMessage { msg } => work matches ActorWork::Write { bytes }
                && bytes@ == wire_form(msg@),
        },
{
    match msg {
        ActorMessage::GetMessage { respond_to } => ActorWork::Read { respond_to },
        ActorMessage::SendMessage { msg } => ActorWork::Write { bytes: encode_line(msg.as_str()) },
    }
}

/// Answers a request to read. `read` is the text that was read, or `None` when the
/// read failed. A failed read sends nothing: the responder is dropped, which the
/// requester sees. Text that cannot be handed over, because the requester is gone,
/// comes back.
pub fn answer(respond_to: tokio::sync::oneshot::Sender<String>, read: Option<String>) -> (unsent:
    Option<String>)
    ensures
        read is None ==> unsent is None,
        unsent matches Some(text) ==> read == Some(text),
{
    match read {
        Some(text) => match respond_to.send(text) {
            Ok(()) => None,
            Err(back) => Some(back),
        },
        None => None,
    }
}

} // verus!
