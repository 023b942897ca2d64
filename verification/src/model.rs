//! The session as a state machine over plain mathematical values: where it
//! stands, and what each reported event makes of it.

use crate::clock::NANOS_PER_SEC;
use crate::config::ConfigView;
use crate::cooldown::GateView;
use crate::message::{triggers, ChatMessageView};
use crate::protocol::{play_in, ActionView, EventView, ReplyView};
use vstd::prelude::*;

verus! {

/// Where a session stands.
#[derive(Clone, Copy, Debug, PartialEq, Eq, Structural)]
pub enum Phase {
    /// The transport is being opened.
    Connecting,
    /// The transport is open and a join is under way.
    Joining,
    /// Every channel is joined; lines are received and answered.
    Running,
    /// The transport reported the end of the session.
    Ended,
    /// The transport failed, or reported what the session did not ask for.
    Failed,
}

/// What a [`Session`](crate::session::Session) stands for.
pub struct SessionView {
    /// Where the session stands.
    pub phase: Phase,
    /// How many channels of the configured list are joined: the first
    /// `joined` of them.
    pub joined: nat,
    /// The name under which the network knows this account; empty until the
    /// transport is open.
    pub username: Seq<char>,
    /// The configuration the session was made with.
    pub config: ConfigView,
    /// The instant from which the next reply is allowed, in nanoseconds.
    pub next_allowed: nat,
}

impl SessionView {
    /// The session's cooldown gate.
    pub open spec fn gate(self) -> GateView {
        GateView {
            next_allowed: self.next_allowed,
            wait: (self.config.wait_seconds * NANOS_PER_SEC) as nat,
        }
    }

    /// What holds of every session: nothing is joined before the transport
    /// is open, a join is under way only while a channel is left to join,
    /// and the session runs only with every channel joined.
    pub open spec fn wf(self) -> bool {
        match self.phase {
            Phase::Connecting => self.joined == 0,
            Phase::Joining => self.joined < self.config.channels.len(),
            Phase::Running | Phase::Ended => self.joined == self.config.channels.len(),
            Phase::Failed => self.joined <= self.config.channels.len(),
        }
    }

    /// A session as it is made: about to open the transport.
    pub open spec fn initial(config: ConfigView) -> SessionView {
        SessionView {
            phase: Phase::Connecting,
            joined: 0,
            username: Seq::empty(),
            config,
            next_allowed: 0,
        }
    }

    /// The session after it failed, and the action that gives up.
    pub open spec fn fail(self) -> (SessionView, ActionView) {
        (SessionView { phase: Phase::Failed, ..self }, ActionView::Abort)
    }

    /// The session with its first `joined` channels joined. While a channel
    /// is left it asks for the join of the next one in the list; with none
    /// left it starts to run, and replies are allowed from `now` on.
    pub open spec fn advance(self, joined: nat, now: nat) -> (SessionView, ActionView) {
        if joined < self.config.channels.len() {
            (
                SessionView { phase: Phase::Joining, joined, ..self },
                ActionView::Join(self.config.channels[joined as int]),
            )
        } else {
            (
                SessionView { phase: Phase::Running, joined, next_allowed: now, ..self },
                ActionView::Receive,
            )
        }
    }

    /// What becomes of a line of chat that comes in at `now`. A line that is
    /// a trigger asks the cooldown; if that lets it pass, the reply goes to
    /// the channel the line came from. Any other line changes nothing.
    pub open spec fn handle(self, message: ChatMessageView, now: nat) -> (
        SessionView,
        Option<ReplyView>,
    ) {
        if !triggers(message, self.username) {
            (self, None)
        } else if self.gate().blocks(now) {
            (self, None)
        } else {
            (
                SessionView { next_allowed: self.gate().consume(now).next_allowed, ..self },
                Some(play_in(message.channel)),
            )
        }
    }

    /// The session after `event` was reported at `now`, and what the
    /// transport is to do next.
    ///
    /// A session that has ended or failed stays as it is, whatever is
    /// reported. An event that answers nothing the session asked for is
    /// taken as a failure of the transport.
    pub open spec fn step(self, event: EventView, now: nat) -> (SessionView, ActionView) {
        match self.phase {
            Phase::Ended => (self, ActionView::Stop),
            Phase::Failed => (self, ActionView::Abort),
            Phase::Connecting => match event {
                EventView::Connected(name) => (SessionView { username: name, ..self }).advance(
                    0,
                    now,
                ),
                _ => self.fail(),
            },
            Phase::Joining => match event {
                EventView::Joined => self.advance(self.joined + 1, now),
                _ => self.fail(),
            },
            Phase::Running => match event {
                EventView::Message(message) => match self.handle(message, now).1 {
                    Some(reply) => (self.handle(message, now).0, ActionView::Send(reply)),
                    None => (self.handle(message, now).0, ActionView::Receive),
                },
                EventView::Other => (self, ActionView::Receive),
                EventView::Closed => (SessionView { phase: Phase::Ended, ..self }, ActionView::Stop),
                _ => self.fail(),
            },
        }
    }

    /// The session after `events` were reported one after the other, each
    /// with the instant at which it was reported.
    pub open spec fn run(self, events: Seq<(EventView, nat)>) -> SessionView
        decreases events.len(),
    {
        if events.len() == 0 {
            self
        } else {
            self.step(events[0].0, events[0].1).0.run(events.drop_first())
        }
    }

    /// The replies that the session has sent in the course of `events`, in
    /// the order in which it sent them.
    pub open spec fn sent(self, events: Seq<(EventView, nat)>) -> Seq<ReplyView>
        decreases events.len(),
    {
        if events.len() == 0 {
            Seq::empty()
        } else {
            let next = self.step(events[0].0, events[0].1).0;
            match self.step(events[0].0, events[0].1).1 {
                ActionView::Send(reply) => seq![reply] + next.sent(events.drop_first()),
                _ => next.sent(events.drop_first()),
            }
        }
    }
}

} // verus!
