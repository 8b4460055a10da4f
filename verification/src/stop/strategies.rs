//! Stop strategies with a single condition.

use super::Stop;
use crate::duration::{saturated, Duration};
use crate::state::RetryState;
use vstd::prelude::*;

verus! {

/// Stops once a number of attempts has been made. Made by [`attempts`].
#[derive(Clone, Copy, Debug, PartialEq, Eq, Structural)]
pub struct StopAfterAttempts {
    max: u32,
}

impl StopAfterAttempts {
    /// The number of attempts.
    pub closed spec fn max(self) -> u32 {
        self.max
    }
}

/// A strategy that stops after `max` attempts.
pub fn attempts(max: u32) -> (r: StopAfterAttempts)
    requires
        max >= 1,
    ensures
        r.max() == max,
{
    StopAfterAttempts { max }
}

impl Stop for StopAfterAttempts {
    open spec fn may_stop(&self, state: RetryState, stop: bool) -> bool {
        stop == (state.attempt >= self.max())
    }

    fn should_stop(&self, state: &RetryState) -> bool {
        state.attempt >= self.max
    }
}

/// Stops once an amount of time has passed. Made by [`elapsed`].
#[derive(Clone, Copy, Debug, PartialEq, Eq, Structural)]
pub struct StopAfterElapsed {
    deadline: Duration,
}

impl StopAfterElapsed {
    /// The amount of time.
    pub closed spec fn deadline(self) -> Duration {
        self.deadline
    }
}

/// A strategy that stops once the elapsed time reaches `deadline`. Where no clock tells
/// the time, it never stops.
pub fn elapsed(deadline: Duration) -> (r: StopAfterElapsed)
    ensures
        r.deadline() == deadline,
{
    StopAfterElapsed { deadline }
}

impl Stop for StopAfterElapsed {
    open spec fn may_stop(&self, state: RetryState, stop: bool) -> bool {
        stop == (state.clocked && state.elapsed@ >= self.deadline()@)
    }

    fn should_stop(&self, state: &RetryState) -> bool {
        state.clocked && state.elapsed >= self.deadline
    }
}

/// Stops where the coming wait would reach a deadline. Made by
/// [`before_elapsed`].
#[derive(Clone, Copy, Debug, PartialEq, Eq, Structural)]
pub struct StopBeforeElapsed {
    deadline: Duration,
}

impl StopBeforeElapsed {
    /// The deadline.
    pub closed spec fn deadline(self) -> Duration {
        self.deadline
    }
}

/// A strategy that stops once the elapsed time together with the wait that
/// would follow reaches `deadline`, so that no attempt starts past it. Where no clock
/// tells the time, it never stops.
///
/// A loop that goes by a predicate shows the strategy that wait. One that goes by
/// verdicts asks before it has one, so there this strategy stops as
/// [`elapsed`] does: once the elapsed time alone reaches `deadline`.
pub fn before_elapsed(deadline: Duration) -> (r: StopBeforeElapsed)
    ensures
        r.deadline() == deadline,
{
    StopBeforeElapsed { deadline }
}

impl Stop for StopBeforeElapsed {
    open spec fn may_stop(&self, state: RetryState, stop: bool) -> bool {
        let coming = match state.next_delay {
            Some(delay) => delay@,
            None => 0,
        };
        stop == (state.clocked && saturated((state.elapsed@ + coming) as int)
            >= self.deadline()@)
    }

    fn should_stop(&self, state: &RetryState) -> bool {
        let coming = match state.next_delay {
            Some(delay) => delay,
            None => Duration::zero(),
        };
        state.clocked && state.elapsed.saturating_add(coming) >= self.deadline
    }
}

/// Never stops. Made by [`never`].
#[derive(Clone, Copy, Debug, PartialEq, Eq, Structural)]
pub struct StopNever;

/// A strategy that never stops.
pub fn never() -> (r: StopNever)
    ensures
        r == StopNever,
{
    StopNever
}

impl Stop for StopNever {
    open spec fn may_stop(&self, state: RetryState, stop: bool) -> bool {
        !stop
    }

    fn should_stop(&self, state: &RetryState) -> bool {
        false
    }
}

} // verus!
