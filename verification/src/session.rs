//! The session: what it does next, decided from where it stands and what the
//! transport reports. The transport itself is driven from outside; it
//! carries out each [`Action`] and hands back the [`Event`] that came of it.

use crate::clock::{Clock, Timestamp};
use crate::config::Config;
use crate::cooldown::CooldownGate;
use crate::message::{is_trigger, triggers, ChatMessage};
use crate::model::{Phase, SessionView};
use crate::protocol::{say_play, Action, Event, Reply};
use vstd::prelude::*;

verus! {

/// How far a session has come: its phase and the number of channels joined.
#[derive(Clone, Copy, Debug)]
struct Progress {
    phase: Phase,
    joined: usize,
}

/// One session: the configuration it was made with, the name it goes by,
/// how far it has come, its cooldown gate and its clock.
#[derive(Debug)]
pub struct Session {
    config: Config,
    username: String,
    progress: Progress,
    gate: CooldownGate,
    clock: Clock,
}

impl View for Session {
    type V = SessionView;

    closed spec fn view(&self) -> SessionView {
        SessionView {
            phase: self.progress.phase,
            joined: self.progress.joined as nat,
            username: self.username@,
            config: self.config@,
            next_allowed: self.gate@.next_allowed,
        }
    }
}

impl Session {
    #[verifier::type_invariant]
    spec fn inv(self) -> bool {
        &&& self@.wf()
        &&& self.gate@ == self@.gate()
    }

    /// A session for `config`, about to open the transport. The first thing
    /// it expects to hear is [`Event::Connected`] or [`Event::Failed`].
    pub fn new(config: Config) -> (session: Session)
        ensures
            session@ == SessionView::initial(config@),
            session@.wf(),
    {
        let gate = CooldownGate::new(Timestamp::from_secs(0), config.wait_seconds);
        Session {
            config,
            username: String::new(),
            progress: Progress { phase: Phase::Connecting, joined: 0 },
            gate,
            clock: Clock::start(),
        }
    }

    /// Where the session stands.
    pub fn phase(&self) -> (phase: Phase)
        ensures
            phase == self@.phase,
            self@.wf(),
    {
        proof {
            use_type_invariant(self);
        }
        self.progress.phase
    }

    /// How many channels of the configured list are joined.
    pub fn joined(&self) -> (joined: usize)
        ensures
            joined == self@.joined,
            self@.wf(),
    {
        proof {
            use_type_invariant(self);
        }
        self.progress.joined
    }

    /// The name under which the network knows this account.
    pub fn username(&self) -> (name: &str)
        ensures
            name@ == self@.username,
    {
        self.username.as_str()
    }

    /// The configuration the session was made with.
    pub fn config(&self) -> (config: &Config)
        ensures
            config@ == self@.config,
    {
        &self.config
    }

    /// The instant from which the next reply is allowed, in nanoseconds
    /// since the origin of the clock that stamps the events.
    pub fn next_allowed(&self) -> (n: u128)
        ensures
            n == self@.next_allowed,
    {
        self.gate.next_allowed()
    }

    /// Whether `message` is a trigger for this session's account.
    pub fn is_interesting(&self, message: &ChatMessage) -> (r: bool)
        ensures
            r == triggers(message@, self@.username),
    {
        is_trigger(message, self.username.as_str())
    }

    /// Asks the cooldown at `now`: `true` when a reply has to be held back.
    /// A reply that passes starts the waiting time.
    pub fn dont_spam(&mut self, now: Timestamp) -> (blocked: bool)
        ensures
            blocked == old(self)@.gate().blocks(now@),
            final(self)@ == (SessionView {
                next_allowed: old(self)@.gate().consume(now@).next_allowed,
                ..old(self)@
            }),
            final(self)@.wf(),
    {
        proof {
            use_type_invariant(&*self);
        }
        self.gate.try_consume(now)
    }

    /// Takes one line of chat that came in at `now` through the filter and
    /// the cooldown, and gives the reply to send, if there is one.
    pub fn handle(&mut self, message: &ChatMessage, now: Timestamp) -> (reply: Option<Reply>)
        ensures
            final(self)@ == old(self)@.handle(message@, now@).0,
            match reply {
                Some(r) => old(self)@.handle(message@, now@).1 == Some(r@),
                None => old(self)@.handle(message@, now@).1 is None,
            },
            final(self)@.wf(),
    {
        proof {
            use_type_invariant(&*self);
        }
        if !self.is_interesting(message) {
            return None;
        }
        if self.dont_spam(now) {
            return None;
        }
        Some(say_play(message.channel.as_str()))
    }

    /// Marks the session as failed.
    fn fail(&mut self) -> (action: Action)
        ensures
            final(self)@ == old(self)@.fail().0,
            action@ == old(self)@.fail().1,
    {
        proof {
            use_type_invariant(&*self);
        }
        self.progress = Progress { phase: Phase::Failed, joined: self.progress.joined };
        Action::Abort
    }

    /// Records that the first `joined` channels are joined and moves on.
    fn advance(&mut self, joined: usize, now: Timestamp) -> (action: Action)
        requires
            joined <= old(self)@.config.channels.len(),
        ensures
            final(self)@ == old(self)@.advance(joined as nat, now@).0,
            action@ == old(self)@.advance(joined as nat, now@).1,
    {
        proof {
            use_type_invariant(&*self);
        }
        if joined < self.config.channels.len() {
            self.progress = Progress { phase: Phase::Joining, joined };
            Action::Join(self.config.channels[joined].clone())
        } else {
            self.gate = CooldownGate::new(now, self.config.wait_seconds);
            self.progress = Progress { phase: Phase::Running, joined };
            Action::Receive
        }
    }

    /// Takes in `event`, reported at `now`, and says what the transport is
    /// to do next.
    pub fn step_at(&mut self, event: &Event, now: Timestamp) -> (action: Action)
        ensures
            final(self)@ == old(self)@.step(event@, now@).0,
            action@ == old(self)@.step(event@, now@).1,
            final(self)@.wf(),
    {
        proof {
            use_type_invariant(&*self);
        }
        let action = match self.progress.phase {
            Phase::Ended => Action::Stop,
            Phase::Failed => Action::Abort,
            Phase::Connecting => match event {
                Event::Connected(name) => {
                    self.username = name.clone();
                    self.advance(0, now)
                },
                _ => self.fail(),
            },
            Phase::Joining => match event {
                Event::Joined => {
                    assert(self@.config.channels.len() == self.config.channels.len());
                    let joined: usize = self.progress.joined + 1;
                    self.advance(joined, now)
                },
                _ => self.fail(),
            },
            Phase::Running => match event {
                Event::Message(message) => match self.handle(message, now) {
                    Some(reply) => Action::Send(reply),
                    None => Action::Receive,
                },
                Event::Other => Action::Receive,
                Event::Closed => {
                    self.progress = Progress { phase: Phase::Ended, joined: self.progress.joined };
                    Action::Stop
                },
                _ => self.fail(),
            },
        };
        proof {
            use_type_invariant(&*self);
        }
        action
    }

    /// Takes in `event`, stamped with the reading of the session's own
    /// clock, and says what the transport is to do next. Whatever the clock
    /// shows, the outcome is that of [`Session::step_at`] at that reading.
    pub fn step(&mut self, event: &Event) -> (action: Action)
        ensures
            exists|now: nat|
                {
                    &&& final(self)@ == (#[trigger] old(self)@.step(event@, now)).0
                    &&& action@ == old(self)@.step(event@, now).1
                },
            final(self)@.wf(),
    {
        let now = self.clock.now();
        self.step_at(event, now)
    }
}

} // verus!
