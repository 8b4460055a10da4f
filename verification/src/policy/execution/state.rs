//! What the hooks of a loop that goes by a predicate see.

use crate::duration::Duration;
use crate::stats::StopReason;
use vstd::prelude::*;

verus! {

/// What an after-attempt and a before-sleep hook see.
#[derive(Clone, Copy, Debug)]
pub struct AttemptState<'a, T, E> {
    /// The attempt that just completed, counted from 1.
    pub attempt: u32,
    /// Time since the loop began, where there is a clock.
    pub elapsed: Option<Duration>,
    /// The outcome.
    pub outcome: &'a Result<T, E>,
    /// The wait that follows, after any timeout clamp; `None` where the loop
    /// ends.
    pub next_delay: Option<Duration>,
}

impl<'a, T, E> AttemptState<'a, T, E> {
    /// The state of attempt `attempt` with its outcome, no time known and no wait
    /// to follow.
    pub fn for_attempt(attempt: u32, outcome: &'a Result<T, E>) -> (r: AttemptState<'a, T, E>)
        requires
            attempt >= 1,
        ensures
            r == (AttemptState { attempt, elapsed: None, outcome, next_delay: None }),
    {
        AttemptState { attempt, elapsed: None, outcome, next_delay: None }
    }

    /// This state with `elapsed` in place of its elapsed time.
    pub fn with_elapsed(self, elapsed: Option<Duration>) -> (r: AttemptState<'a, T, E>)
        ensures
            r == (AttemptState { elapsed, ..self }),
    {
        AttemptState { elapsed, ..self }
    }

    /// This state with `next_delay` in place of the wait that follows.
    pub fn with_next_delay(self, next_delay: Option<Duration>) -> (r: AttemptState<'a, T, E>)
        ensures
            r == (AttemptState { next_delay, ..self }),
    {
        AttemptState { next_delay, ..self }
    }
}

/// What an on-exit hook sees.
#[derive(Clone, Copy, Debug)]
pub struct ExitState<'a, T, E> {
    /// Attempts completed. None has where the loop was cancelled before the
    /// first.
    pub attempt: u32,
    /// Time since the loop began, where there is a clock.
    pub elapsed: Option<Duration>,
    /// The last outcome, if an attempt completed.
    pub outcome: Option<&'a Result<T, E>>,
    /// All waits.
    pub total_wait: Duration,
    /// Why the loop ended.
    pub stop_reason: StopReason,
}

} // verus!
