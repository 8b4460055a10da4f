//! The counting and timing context that strategies, hooks and operations see.

use crate::duration::Duration;
use vstd::prelude::*;

verus! {

/// Context handed to [`Stop::should_stop`](crate::stop::Stop::should_stop),
/// [`Wait::next_wait`](crate::wait::Wait::next_wait), the operation and the
/// before-attempt hook.
///
/// It holds no part of an operation's outcome, so stop and wait strategies work
/// for operations of every outcome type.
#[derive(Clone, Copy, Debug, PartialEq, Eq, Structural)]
pub struct RetryState {
    /// The attempt, counted from 1. An operation and a before-attempt hook see
    /// the attempt about to start; strategies see the one that just completed.
    pub attempt: u32,
    /// Time since the first attempt began, or zero where no clock tells it.
    pub elapsed: Duration,
    /// Whether a clock tells `elapsed`. Where none does, no strategy stops by it.
    pub clocked: bool,
    /// The wait that preceded this attempt, after any cap or timeout clamp;
    /// `None` on the first attempt.
    pub previous_delay: Option<Duration>,
    /// The wait that would follow this attempt, where the engine picks it before
    /// it asks whether to stop.
    pub next_delay: Option<Duration>,
}

/// Elapsed time as strategies see it, who see none where there is no clock.
pub open spec fn seen(elapsed: Option<Duration>) -> Duration {
    match elapsed {
        Some(since) => since,
        None => Duration::empty(),
    }
}

impl RetryState {
    /// The state of attempt `attempt`, with no time elapsed on its clock and no waits
    /// known.
    pub fn for_attempt(attempt: u32) -> (r: RetryState)
        requires
            attempt >= 1,
        ensures
            r.attempt == attempt,
            r.elapsed@ == 0,
            r.clocked,
            r.previous_delay is None,
            r.next_delay is None,
    {
        RetryState {
            attempt,
            elapsed: Duration::zero(),
            clocked: true,
            previous_delay: None,
            next_delay: None,
        }
    }

    /// This state with `elapsed` in place of its elapsed time, told by a clock.
    pub fn with_elapsed(self, elapsed: Duration) -> (r: RetryState)
        ensures
            r == (RetryState { elapsed, clocked: true, ..self }),
    {
        RetryState { elapsed, clocked: true, ..self }
    }

    /// This state with `elapsed` in place of its elapsed time, where there may be no
    /// clock to tell it.
    pub fn with_elapsed_if_known(self, elapsed: Option<Duration>) -> (r: RetryState)
        ensures
            r == (RetryState { elapsed: seen(elapsed), clocked: elapsed is Some, ..self }),
    {
        match elapsed {
            Some(since) => self.with_elapsed(since),
            None => RetryState { elapsed: Duration::zero(), clocked: false, ..self },
        }
    }

    /// This state with `previous_delay` in place of its preceding wait.
    pub fn with_previous_delay(self, previous_delay: Option<Duration>) -> (r: RetryState)
        ensures
            r == (RetryState { previous_delay, ..self }),
    {
        RetryState { previous_delay, ..self }
    }

    /// This state with `next_delay` in place of its following wait.
    pub fn with_next_delay(self, next_delay: Option<Duration>) -> (r: RetryState)
        ensures
            r == (RetryState { next_delay, ..self }),
    {
        RetryState { next_delay, ..self }
    }
}

} // verus!
