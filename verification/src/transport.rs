//! What each side of the connection does with what it reads and after
//! what it writes. The reading and writing themselves are the caller's;
//! here stands the decision. Nothing is tried again: a read or a write that
//! fails ends its loop.

use crate::command::{CommandView, ProjectorCommand};
use crate::protocol::{
    decode_command, command_of, decode_event, event_of, ProtocolError,
};
use vstd::prelude::*;

verus! {

/// The port on which the player listens for its controller.
pub const LISTEN_PORT: u16 = 8765;

/// The two ends of the connection. The player listens and receives
/// commands; the controller connects and receives events.
#[derive(Debug, Clone, Copy, PartialEq, Eq, Structural)]
pub enum Role {
    Player,
    Controller,
}

/// What a read from the connection gave.
#[derive(Debug, Clone, PartialEq, Eq)]
pub enum Received {
    /// A text frame.
    Text(String),
    /// A frame of another kind, which carries no message.
    Other,
    /// The read failed: the connection is lost.
    Lost,
}

/// A `Received` as plain values.
pub enum ReceivedView {
    Text(Seq<char>),
    Other,
    Lost,
}

impl View for Received {
    type V = ReceivedView;

    open spec fn view(&self) -> ReceivedView {
        match *self {
            Received::Text(text) => ReceivedView::Text(text@),
            Received::Other => ReceivedView::Other,
            Received::Lost => ReceivedView::Lost,
        }
    }
}

/// What to do after a read or a write.
#[derive(Debug, Clone, PartialEq, Eq)]
pub enum Reaction {
    /// Hand the message to the owner of the connection and go on.
    Deliver(ProjectorCommand),
    /// The text is no message for this side: note the reason and go on.
    Discard(ProtocolError),
    /// Nothing to do: go on.
    Pass,
    /// Leave the loop: the connection is lost, which its owner is to learn.
    Stop,
}

/// A `Reaction` as plain values.
pub enum ReactionView {
    Deliver(CommandView),
    Discard(ProtocolError),
    Pass,
    Stop,
}

impl View for Reaction {
    type V = ReactionView;

    open spec fn view(&self) -> ReactionView {
        match *self {
            Reaction::Deliver(cmd) => ReactionView::Deliver(cmd@),
            Reaction::Discard(e) => ReactionView::Discard(e),
            Reaction::Pass => ReactionView::Pass,
            Reaction::Stop => ReactionView::Stop,
        }
    }
}

/// What a side makes of a text: the player reads commands, the controller
/// events.
pub open spec fn message_of(role: Role, text: Seq<char>) -> Result<CommandView, ProtocolError> {
    match role {
        Role::Player => command_of(text),
        Role::Controller => event_of(text),
    }
}

/// The reaction of a side to what it has read.
pub open spec fn reaction(role: Role, received: ReceivedView) -> ReactionView {
    match received {
        ReceivedView::Text(text) => match message_of(role, text) {
            Ok(cmd) => ReactionView::Deliver(cmd),
            Err(e) => ReactionView::Discard(e),
        },
        ReceivedView::Other => ReactionView::Pass,
        ReceivedView::Lost => ReactionView::Stop,
    }
}

/// What follows a write: the writing goes on after a message that went
/// out, and stops after one that did not.
pub open spec fn after_send(delivered: bool) -> ReactionView {
    if delivered {
        ReactionView::Pass
    } else {
        ReactionView::Stop
    }
}

/// No text, whatever it holds, ends the reading: only the loss of the
/// connection does. And nothing but a failed write ends the writing.
pub proof fn lemma_only_loss_stops(role: Role, received: ReceivedView, delivered: bool)
    ensures
        reaction(role, received) is Stop <==> received is Lost,
        after_send(delivered) is Stop <==> !delivered,
{
}

/// Decides what to do with what was read from the connection.
pub fn on_received(role: Role, received: &Received) -> (r: Reaction)
    ensures
        r@ == reaction(role, received@),
{
    match received {
        Received::Text(text) => {
            let decoded = match role {
                Role::Player => decode_command(text.as_str()),
                Role::Controller => decode_event(text.as_str()),
            };
            match decoded {
                Ok(cmd) => Reaction::Deliver(cmd),
                Err(e) => Reaction::Discard(e),
            }
        },
        Received::Other => Reaction::Pass,
        Received::Lost => Reaction::Stop,
    }
}

/// Decides what to do after a write to the connection: go on where the
/// message went out, leave the loop where the write failed.
pub fn on_sent(delivered: bool) -> (r: Reaction)
    ensures
        r@ == after_send(delivered),
{
    if delivered {
        Reaction::Pass
    } else {
        Reaction::Stop
    }
}

} // verus!
