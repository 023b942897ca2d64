//! What passes between a session and the transport that carries it: the
//! transport reports an [`Event`], the session answers with an [`Action`].

use crate::message::{ChatMessage, ChatMessageView, TRIGGER};
use vstd::prelude::*;

verus! {

/// What the transport reports.
#[derive(Debug)]
pub enum Event {
    /// The transport is open. Carries the name under which the network
    /// knows this account.
    Connected(String),
    /// The join that was asked for is complete.
    Joined,
    /// A line of chat came in.
    Message(ChatMessage),
    /// Something came in that is not a line of chat.
    Other,
    /// The session has come to its end.
    Closed,
    /// The transport failed.
    Failed,
}

/// An [`Event`] over sequences of characters.
pub enum EventView {
    Connected(Seq<char>),
    Joined,
    Message(ChatMessageView),
    Other,
    Closed,
    Failed,
}

impl View for Event {
    type V = EventView;

    open spec fn view(&self) -> EventView {
        match self {
            Event::Connected(name) => EventView::Connected(name@),
            Event::Joined => EventView::Joined,
            Event::Message(message) => EventView::Message(message@),
            Event::Other => EventView::Other,
            Event::Closed => EventView::Closed,
            Event::Failed => EventView::Failed,
        }
    }
}

/// A line for the transport to send.
#[derive(Debug, PartialEq, Eq)]
pub struct Reply {
    /// The channel to send the line to.
    pub channel: String,
    /// The line.
    pub text: String,
}

/// A [`Reply`] over sequences of characters.
pub struct ReplyView {
    pub channel: Seq<char>,
    pub text: Seq<char>,
}

impl View for Reply {
    type V = ReplyView;

    open spec fn view(&self) -> ReplyView {
        ReplyView { channel: self.channel@, text: self.text@ }
    }
}

/// The answer to a trigger seen in `channel`: the trigger phrase itself,
/// sent to the same channel.
pub open spec fn play_in(channel: Seq<char>) -> ReplyView {
    ReplyView { channel, text: TRIGGER@ }
}

/// Makes the reply to a trigger seen in `channel`.
pub fn say_play(channel: &str) -> (reply: Reply)
    ensures
        reply@ == play_in(channel@),
{
    Reply { channel: channel.to_owned(), text: TRIGGER.to_owned() }
}

/// What the transport is to do next.
#[derive(Debug, PartialEq, Eq)]
pub enum Action {
    /// Join the channel, wait until the join is complete, and report
    /// [`Event::Joined`], or [`Event::Failed`] if it cannot be done.
    Join(String),
    /// Wait for whatever comes in next and report it.
    Receive,
    /// Send the reply; then go on as for [`Action::Receive`], or report
    /// [`Event::Failed`] if it cannot be sent.
    Send(Reply),
    /// The session is over; nothing is left to do.
    Stop,
    /// The session has failed; give up and pass the failure on.
    Abort,
}

/// An [`Action`] over sequences of characters.
pub enum ActionView {
    Join(Seq<char>),
    Receive,
    Send(ReplyView),
    Stop,
    Abort,
}

impl View for Action {
    type V = ActionView;

    open spec fn view(&self) -> ActionView {
        match self {
            Action::Join(channel) => ActionView::Join(channel@),
            Action::Receive => ActionView::Receive,
            Action::Send(reply) => ActionView::Send(reply@),
            Action::Stop => ActionView::Stop,
            Action::Abort => ActionView::Abort,
        }
    }
}

} // verus!
