//! The cooldown gate: one token for the whole session, given out at most
//! once per waiting time.

use crate::clock::{Timestamp, NANOS_PER_SEC};
use vstd::prelude::*;

verus! {

/// What a [`CooldownGate`] stands for: the instant from which the next reply
/// is allowed and the waiting time that follows each reply, both in
/// nanoseconds.
pub struct GateView {
    pub next_allowed: nat,
    pub wait: nat,
}

impl GateView {
    /// Whether a reply at `now` is held back: `now` lies strictly before the
    /// instant from which the next reply is allowed.
    pub open spec fn blocks(self, now: nat) -> bool {
        now < self.next_allowed
    }

    /// This gate after it was asked at `now`. A gate that blocks stays as it
    /// is; one that lets the reply pass allows the next one a full waiting
    /// time after `now`.
    pub open spec fn consume(self, now: nat) -> GateView {
        if self.blocks(now) {
            self
        } else {
            GateView { next_allowed: now + self.wait, wait: self.wait }
        }
    }
}

/// The one gate that every reply has to pass. It is not kept per channel or
/// per user: a reply anywhere closes it for all.
#[derive(Debug)]
pub struct CooldownGate {
    next_allowed: u128,
    wait_seconds: u64,
}

impl View for CooldownGate {
    type V = GateView;

    closed spec fn view(&self) -> GateView {
        GateView {
            next_allowed: self.next_allowed as nat,
            wait: (self.wait_seconds * NANOS_PER_SEC) as nat,
        }
    }
}

impl CooldownGate {
    /// A gate that is open from `start` on and closes for `wait_seconds`
    /// seconds after each reply.
    pub fn new(start: Timestamp, wait_seconds: u64) -> (gate: CooldownGate)
        ensures
            gate@ == (GateView { next_allowed: start@, wait: (wait_seconds * NANOS_PER_SEC) as nat }),
    {
        CooldownGate { next_allowed: start.as_nanos(), wait_seconds }
    }

    /// The waiting time after each reply, in seconds.
    pub fn wait_seconds(&self) -> (w: u64)
        ensures
            w * NANOS_PER_SEC == self@.wait,
    {
        self.wait_seconds
    }

    /// The instant from which the next reply is allowed, in nanoseconds
    /// since the clock's origin.
    pub fn next_allowed(&self) -> (n: u128)
        ensures
            n == self@.next_allowed,
    {
        self.next_allowed
    }

    /// Asks for the token at `now`. Returns `true` when the reply is held
    /// back, and then changes nothing; returns `false` when the reply may
    /// go out, and then stays closed until `now` plus the waiting time.
    pub fn try_consume(&mut self, now: Timestamp) -> (blocked: bool)
        ensures
            blocked == old(self)@.blocks(now@),
            final(self)@ == old(self)@.consume(now@),
        no_unwind
    {
        let at: u128 = now.as_nanos();
        if at < self.next_allowed {
            return true;
        }
        let wait: u128 = self.wait_seconds as u128;
        self.next_allowed = at + wait * 1_000_000_000u128;
        false
    }
}

/// The cooldown window. Once a reply has passed a gate at `t0`, every
/// request less than a waiting time later is held back and changes nothing;
/// a request exactly one waiting time later passes, and the next window is
/// counted from that instant.
pub proof fn lemma_cooldown_window(gate: GateView, t0: nat, delta: nat)
    requires
        !gate.blocks(t0),
    ensures
        delta < gate.wait ==> gate.consume(t0).blocks(t0 + delta),
        delta < gate.wait ==> gate.consume(t0).consume(t0 + delta) == gate.consume(t0),
        !gate.consume(t0).blocks(t0 + gate.wait),
        gate.consume(t0).consume(t0 + gate.wait) == (GateView {
            next_allowed: t0 + gate.wait + gate.wait,
            wait: gate.wait,
        }),
{
}

} // verus!
