//! Points in time, and the clock that a session reads them from.

use std::time::{Duration, Instant};
use vstd::prelude::*;

verus! {

/// Nanoseconds in one second.
pub const NANOS_PER_SEC: u32 = 1_000_000_000;

/// A point in time: whole seconds and further nanoseconds elapsed since the
/// origin of the clock that stamped it. The two parts add up; `nanos` need
/// not stay below one second.
#[derive(Clone, Copy, Debug)]
pub struct Timestamp {
    pub secs: u64,
    pub nanos: u32,
}

impl View for Timestamp {
    type V = nat;

    /// The distance from the clock's origin, in nanoseconds.
    open spec fn view(&self) -> nat {
        (self.secs * NANOS_PER_SEC + self.nanos) as nat
    }
}

impl Timestamp {
    /// The point `secs` seconds and `nanos` nanoseconds after the origin.
    pub fn new(secs: u64, nanos: u32) -> (t: Timestamp)
        ensures
            t.secs == secs,
            t.nanos == nanos,
            t@ == secs * NANOS_PER_SEC + nanos,
    {
        Timestamp { secs, nanos }
    }

    /// The point `secs` whole seconds after the origin.
    pub fn from_secs(secs: u64) -> (t: Timestamp)
        ensures
            t.secs == secs,
            t.nanos == 0,
            t@ == secs * NANOS_PER_SEC,
    {
        Timestamp { secs, nanos: 0 }
    }

    /// The distance from the origin in nanoseconds.
    pub fn as_nanos(&self) -> (n: u128)
        ensures
            n == self@,
        no_unwind
    {
        let secs: u128 = self.secs as u128;
        let nanos: u128 = self.nanos as u128;
        secs * 1_000_000_000u128 + nanos
    }
}

/// `std::time::Instant`, a reading of the monotonic clock. It is carried
/// around as it is; nothing is claimed of what it holds.
#[verifier::external_type_specification]
#[verifier::external_body]
pub struct ExInstant(Instant);

/// `Instant::now` reads the monotonic clock. What comes back depends on when
/// the call is made, so nothing is claimed of it.
pub assume_specification[ Instant::now ]() -> Instant;

/// `Instant::saturating_duration_since` gives the time from `earlier` to
/// `later`, and no time at all where `earlier` is the later of the two.
/// Nothing is claimed of it: an `Instant` has no value that a contract
/// could speak of.
pub assume_specification[ Instant::saturating_duration_since ](
    later: &Instant,
    earlier: Instant,
) -> Duration;

/// `Duration::as_secs` gives the whole seconds of a duration. Nothing is
/// claimed of the number.
pub assume_specification[ Duration::as_secs ](d: &Duration) -> u64;

/// `Duration::subsec_nanos` gives the part of a duration below one second,
/// in nanoseconds. Nothing is claimed of the number.
pub assume_specification[ Duration::subsec_nanos ](d: &Duration) -> u32;

/// A monotonic clock that counts from the moment it was started.
#[derive(Debug)]
pub(crate) struct Clock {
    origin: Instant,
}

impl Clock {
    /// Starts a clock; its origin is the moment of the call.
    pub(crate) fn start() -> Clock {
        Clock { origin: Instant::now() }
    }

    /// The time since the clock was started.
    pub(crate) fn now(&self) -> Timestamp {
        let elapsed = Instant::now().saturating_duration_since(self.origin);
        Timestamp::new(elapsed.as_secs(), elapsed.subsec_nanos())
    }
}

} // verus!
