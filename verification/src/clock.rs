//! Monotonic hardware time source.
//!
//! The host backend has no hardware counter; it models one as a register that
//! starts at zero and only moves forward. `Instant`s are opaque timestamps
//! tied to the clock that produced them and are comparable among themselves.

use vstd::prelude::*;

verus! {

/// Scale factor of the counter: how many ticks one second lasts.
pub const TICKS_PER_SEC: u64 = 1_000_000;

/// An opaque monotonic timestamp, comparable only against instants read from
/// the same clock.
#[derive(Clone, Copy, PartialEq, Eq, Structural, Debug)]
pub struct Instant {
    ticks: u64,
}

impl Instant {
    /// The raw counter value this instant was read at.
    pub closed spec fn spec_ticks(self) -> u64 {
        self.ticks
    }

    pub fn from_ticks(ticks: u64) -> (r: Instant)
        ensures
            r.spec_ticks() == ticks,
    {
        Instant { ticks }
    }

    pub fn ticks(&self) -> (r: u64)
        ensures
            r == self.spec_ticks(),
    {
        self.ticks
    }
}

impl PartialOrd for Instant {
    fn partial_cmp(&self, other: &Instant) -> (r: Option<core::cmp::Ordering>) {
        if self.ticks < other.ticks {
            Some(core::cmp::Ordering::Less)
        } else if self.ticks == other.ticks {
            Some(core::cmp::Ordering::Equal)
        } else {
            Some(core::cmp::Ordering::Greater)
        }
    }
}

impl vstd::std_specs::cmp::PartialOrdSpecImpl for Instant {
    open spec fn obeys_partial_cmp_spec() -> bool {
        true
    }

    open spec fn partial_cmp_spec(&self, other: &Instant) -> Option<core::cmp::Ordering> {
        if self.spec_ticks() < other.spec_ticks() {
            Some(core::cmp::Ordering::Less)
        } else if self.spec_ticks() == other.spec_ticks() {
            Some(core::cmp::Ordering::Equal)
        } else {
            Some(core::cmp::Ordering::Greater)
        }
    }
}

/// Handle to the monotonic counter. A fresh counter reads zero; the counter
/// only moves forward (it saturates instead of wrapping).
pub struct Clock {
    ticks: u64,
}

impl Clock {
    /// The current raw value of the counter register.
    pub closed spec fn spec_ticks(self) -> u64 {
        self.ticks
    }

    /// The instant a read of the counter returns in this state.
    pub closed spec fn spec_now(self) -> Instant {
        Instant { ticks: self.ticks }
    }

    /// The counter in `later` is the counter in `earlier` after some time has
    /// passed: every step of `advance` establishes this, and no operation
    /// moves the counter back.
    pub open spec fn spec_evolves(earlier: Clock, later: Clock) -> bool {
        later.spec_ticks() >= earlier.spec_ticks()
    }

    /// A counter that has just been brought up reads zero.
    pub fn new() -> (r: Clock)
        ensures
            r.spec_ticks() == 0,
    {
        Clock { ticks: 0 }
    }

    /// Reads the monotonic counter. Never fails and has no side effect.
    pub fn now(&self) -> (r: Instant)
        ensures
            r == self.spec_now(),
            r.spec_ticks() == self.spec_ticks(),
    {
        Instant { ticks: self.ticks }
    }

    /// Time passing: the counter advances by `delta` ticks. It never goes
    /// backward; at the end of its width it saturates rather than wrapping.
    pub fn advance(&mut self, delta: u64)
        ensures
            final(self).spec_ticks() == if old(self).spec_ticks() + delta <= u64::MAX {
                old(self).spec_ticks() + delta
            } else {
                u64::MAX as int
            },
            Clock::spec_evolves(*old(self), *final(self)),
    {
        if delta <= u64::MAX - self.ticks {
            self.ticks = self.ticks + delta;
        } else {
            self.ticks = u64::MAX;
        }
    }
}

/// Monotonicity: for two reads `t1 = earlier.now()` then `t2 = later.now()`,
/// where the counter only advanced in between (`advance` guarantees exactly
/// that), `t2` is never earlier than `t1`.
pub proof fn lemma_now_monotonic(earlier: Clock, later: Clock)
    requires
        Clock::spec_evolves(earlier, later),
    ensures
        later.spec_now().spec_ticks() >= earlier.spec_now().spec_ticks(),
{
}

} // verus!
