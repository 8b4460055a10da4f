//! Time since a loop began.

use crate::clock::Clock;
use crate::duration::{saturated, Duration, MAX_NANOS};
use vstd::prelude::*;

verus! {

/// Time since a loop began, held to the highest reading so far.
///
/// Timeouts and deadlines spend elapsed time. A clock that goes back must not
/// refund what was spent, or a bounded loop could run on; it is held still
/// instead.
#[derive(Clone, Copy, Debug, PartialEq, Eq, Structural)]
pub struct Elapsed {
    origin: Duration,
    highest: Duration,
}

impl Elapsed {
    /// The reading at which the loop began.
    pub closed spec fn origin(self) -> Duration {
        self.origin
    }

    /// The highest elapsed time so far.
    pub closed spec fn highest(self) -> Duration {
        self.highest
    }

    /// Whether this is the state of a loop that began at the reading `now`.
    pub open spec fn begins_at(self, now: Duration) -> bool {
        self.origin() == now && self.highest()@ == 0
    }

    /// Whether this is `before` once the clock has read `now`.
    pub open spec fn is_after(self, before: Elapsed, now: Duration) -> bool {
        let seen = saturated(now@ - before.origin()@);
        &&& self.origin() == before.origin()
        &&& self.highest()@ == if seen >= before.highest()@ {
            seen
        } else {
            before.highest()@
        }
    }

    /// The state of a loop that begins at the reading `now`.
    pub fn starting_at(now: Duration) -> (r: Elapsed)
        ensures
            r.begins_at(now),
    {
        Elapsed { origin: now, highest: Duration::zero() }
    }

    /// Takes in the reading `now` and returns the time elapsed.
    pub fn observe(&mut self, now: Duration) -> (r: Duration)
        ensures
            final(self).is_after(*old(self), now),
            r == final(self).highest(),
            r@ >= old(self).highest()@,
    {
        let seen = now.saturating_sub(self.origin);
        self.highest = self.highest.max(seen);
        self.highest
    }

    /// The state of a loop that begins now.
    pub fn start<C: Clock>(clock: &mut C) -> (r: Elapsed)
        ensures
            (*old(clock)).reads(*final(clock), r.origin()),
            r.begins_at(r.origin()),
    {
        let now = clock.now();
        Elapsed::starting_at(now)
    }

    /// Reads the clock and returns the time elapsed. It never returns less than
    /// before.
    pub fn read<C: Clock>(&mut self, clock: &mut C) -> (r: Duration)
        ensures
            exists|now: Duration| #[trigger]
                (*old(clock)).reads(*final(clock), now) && final(self).is_after(*old(self), now),
            r == final(self).highest(),
            r@ >= old(self).highest()@,
    {
        let now = clock.now();
        self.observe(now)
    }
}

/// Elapsed time is the furthest that a reading has come from the first: it never goes
/// back, it is never less than what the last reading tells, and it is always what some
/// reading told.
pub proof fn elapsed_is_the_furthest_reading(before: Elapsed, after: Elapsed, now: Duration)
    requires
        now@ <= MAX_NANOS,
        after.is_after(before, now),
    ensures
        after.origin() == before.origin(),
        after.highest()@ >= before.highest()@,
        after.highest()@ >= now@ - before.origin()@,
        after.highest()@ == before.highest()@ || after.highest()@ == now@ - before.origin()@,
{
}

/// A loop begins at its first reading, with nothing elapsed.
pub proof fn elapsed_begins_with_nothing(now: Duration, elapsed: Elapsed)
    requires
        call_ensures(Elapsed::starting_at, (now,), elapsed),
    ensures
        elapsed.origin() == now,
        elapsed.highest()@ == 0,
{
}

/// What is returned for a reading is the furthest that any reading has come from the first.
pub proof fn observing_tells_the_furthest_reading(
    elapsed: &mut Elapsed,
    now: Duration,
    since: Duration,
)
    requires
        now@ <= MAX_NANOS,
        call_ensures(Elapsed::observe, (elapsed, now), since),
    ensures
        since == final(elapsed).highest(),
        final(elapsed).origin() == old(elapsed).origin(),
        since@ >= old(elapsed).highest()@,
        since@ >= now@ - old(elapsed).origin()@,
        since@ == old(elapsed).highest()@ || since@ == now@ - old(elapsed).origin()@,
{
}

} // verus!
