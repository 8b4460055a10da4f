//! What happens between an outcome and the next attempt.
//!
//! The blocking and the asynchronous loop differ in how they call the operation
//! and how they wait. What lies between is [`step`]: classify the outcome, ask
//! the stop strategy, pick the wait, tell the hooks. Both loops go through it.

use super::error::RetryError;
use super::hooks::{AttemptHook, ExecutionHooks, ExitHook};
use super::state::{AttemptState, Exit, StopReason};
use super::stats::RetryStats;
use crate::decision::{Decide, Verdict};
use crate::duration::{lesser, saturated, Duration};
use crate::state::RetryState;
use crate::stop::Stop;
use crate::wait::Wait;
use vstd::prelude::*;

verus! {

/// What a completed attempt leads to.
pub enum Step<R, A, O> {
    /// The loop ends. The on-exit hook has been called.
    Done {
        /// What the caller receives.
        result: Result<R, RetryError<A, O>>,
        /// Totals of the loop.
        stats: RetryStats,
    },
    /// The loop tries again after a wait.
    Continue {
        /// The wait.
        delay: Duration,
        /// All waits so far, this one included.
        total_wait: Duration,
    },
}

/// Where a loop stands when an attempt completes.
#[derive(Clone, Copy, Debug, PartialEq, Eq, Structural)]
pub struct Standing {
    /// The attempt, counted from 1.
    pub attempt: u32,
    /// Time since the first attempt began.
    pub elapsed: Duration,
    /// The wait before this attempt.
    pub previous_delay: Option<Duration>,
    /// All waits so far.
    pub total_wait: Duration,
}

impl Standing {
    /// What the stop and wait strategies see.
    pub open spec fn state(self) -> RetryState {
        RetryState {
            attempt: self.attempt,
            elapsed: self.elapsed,
            clocked: true,
            previous_delay: self.previous_delay,
            next_delay: None,
        }
    }

    /// The totals of a loop that ends here for `reason`.
    pub open spec fn stats(self, reason: StopReason) -> RetryStats {
        RetryStats {
            attempts: self.attempt,
            total_elapsed: self.elapsed,
            total_wait: self.total_wait,
            stop_reason: reason,
        }
    }

    /// The totals of a loop that ends here for `reason`.
    pub fn stats_for(&self, reason: StopReason) -> (r: RetryStats)
        ensures
            r == self.stats(reason),
    {
        RetryStats {
            attempts: self.attempt,
            total_elapsed: self.elapsed,
            total_wait: self.total_wait,
            stop_reason: reason,
        }
    }
}

/// Whether `elapsed` has used up `timeout`.
pub open spec fn timed_out(timeout: Option<Duration>, elapsed: Duration) -> bool {
    match timeout {
        Some(budget) => elapsed@ >= budget@,
        None => false,
    }
}

/// `delay` nanoseconds cut down to what `timeout` leaves.
pub open spec fn clamped(timeout: Option<Duration>, elapsed: Duration, delay: nat) -> nat {
    match timeout {
        Some(budget) => lesser(delay, saturated(budget@ - elapsed@)),
        None => delay,
    }
}

/// Whether `elapsed` has used up `timeout`.
pub fn is_timed_out(timeout: Option<Duration>, elapsed: Duration) -> (r: bool)
    ensures
        r == timed_out(timeout, elapsed),
{
    match timeout {
        Some(budget) => elapsed >= budget,
        None => false,
    }
}

/// `delay` cut down to what `timeout` leaves.
pub fn clamp_to_budget(timeout: Option<Duration>, elapsed: Duration, delay: Duration) -> (r: Duration)
    ensures
        r@ == clamped(timeout, elapsed, delay@),
{
    match timeout {
        Some(budget) => delay.min(budget.saturating_sub(elapsed)),
        None => delay,
    }
}

/// Whether a retry after `standing` is put off by `delay`, with `total_wait` for
/// all waits so far: the strategy named a wait, and it was cut down to what the
/// timeout leaves.
pub open spec fn puts_off<W: Wait>(
    standing: Standing,
    wait: W,
    timeout: Option<Duration>,
    delay: Duration,
    total_wait: Duration,
) -> bool {
    &&& exists|named: Duration| #[trigger]
        wait.may_wait(standing.state(), named) && delay@ == clamped(
            timeout,
            standing.elapsed,
            named@,
        )
    &&& total_wait@ == saturated((standing.total_wait@ + delay@) as int)
}

/// Whether `verdict` on the outcome of `standing` leads to `step` and takes the
/// on-exit hook from `before` to `after`.
pub open spec fn follows<S: Stop, W: Wait, OX: ExitHook<R, A, O>, R, A, O>(
    standing: Standing,
    verdict: Verdict<R, A, O>,
    stop: S,
    wait: W,
    timeout: Option<Duration>,
    before: OX,
    after: OX,
    step: Step<R, A, O>,
) -> bool {
    let attempt = standing.attempt;
    let elapsed = standing.elapsed;
    match verdict {
        Verdict::Return(value) => {
            &&& step == Step::<R, A, O>::Done {
                result: Ok(value),
                stats: standing.stats(StopReason::Returned),
            }
            &&& before.fires(Exit::Returned { attempt, elapsed, value: &value }, after)
        },
        Verdict::Abort(last) => {
            &&& step == Step::<R, A, O>::Done {
                result: Err(RetryError::Aborted { last }),
                stats: standing.stats(StopReason::Aborted),
            }
            &&& before.fires(Exit::Aborted { attempt, elapsed, last: &last }, after)
        },
        Verdict::Retry(last) => {
            ||| {
                &&& stop.may_stop(standing.state(), true) || timed_out(timeout, elapsed)
                &&& step == Step::<R, A, O>::Done {
                    result: Err(RetryError::Exhausted { last }),
                    stats: standing.stats(StopReason::Exhausted),
                }
                &&& before.fires(Exit::Exhausted { attempt, elapsed, last: &last }, after)
            }
            ||| {
                &&& stop.may_stop(standing.state(), false) && !timed_out(timeout, elapsed)
                &&& step matches Step::Continue { delay, total_wait }
                &&& puts_off(standing, wait, timeout, delay, total_wait)
                &&& after == before
            }
        },
    }
}

/// Whether `outcome` at `standing` may lead to `step` and take the hooks from
/// `before` to `after`: the after-attempt hook sees the outcome, the classifier
/// gives a verdict, and what follows from it happens.
pub open spec fn steps<C: Decide<O, R = R, A = A>, S: Stop, W: Wait, BA, AA, OX, O, R, A>(
    standing: Standing,
    outcome: O,
    classifier: C,
    stop: S,
    wait: W,
    timeout: Option<Duration>,
    before: ExecutionHooks<BA, AA, OX>,
    after: ExecutionHooks<BA, AA, OX>,
    step: Step<R, A, O>,
) -> bool where AA: AttemptHook<O>, OX: ExitHook<R, A, O> {
    &&& after.before_attempt == before.before_attempt
    &&& before.after_attempt.fires(
        AttemptState { attempt: standing.attempt, elapsed: standing.elapsed, outcome: &outcome },
        after.after_attempt,
    )
    &&& exists|verdict: Verdict<R, A, O>| #[trigger]
        classifier.may_decide(outcome, verdict) && follows(
            standing,
            verdict,
            stop,
            wait,
            timeout,
            before.on_exit,
            after.on_exit,
            step,
        )
}

/// Works out what a completed attempt leads to.
///
/// The after-attempt hook is called first, so it sees the outcome as it came.
/// Where the loop ends, the on-exit hook is called with what the caller receives.
/// The wait strategy is asked only where a retry is certain.
pub fn step<C, S, W, BA, AA, OX, O, R, A>(
    attempt: u32,
    post_elapsed: Duration,
    previous_delay: Option<Duration>,
    total_wait: Duration,
    outcome: O,
    classifier: &C,
    stop: &S,
    wait: &W,
    timeout: Option<Duration>,
    hooks: &mut ExecutionHooks<BA, AA, OX>,
) -> (r: Step<R, A, O>) where
    C: Decide<O, R = R, A = A>,
    S: Stop,
    W: Wait,
    AA: AttemptHook<O>,
    OX: ExitHook<R, A, O>,

    requires
        attempt >= 1,
        classifier.askable(outcome),
        old(hooks).after_attempt.armed(),
        old(hooks).on_exit.armed(),
    ensures
        steps(
            Standing { attempt, elapsed: post_elapsed, previous_delay, total_wait },
            outcome,
            *classifier,
            *stop,
            *wait,
            timeout,
            *old(hooks),
            *final(hooks),
            r,
        ),
        final(hooks).after_attempt.armed(),
        final(hooks).on_exit.armed(),
{
    let elapsed = post_elapsed;
    let standing = Standing { attempt, elapsed, previous_delay, total_wait };
    {
        let seen = AttemptState::new(attempt, elapsed, &outcome);
        hooks.after_attempt.call(&seen);
    }
    let state = RetryState::for_attempt(attempt).with_elapsed(elapsed).with_previous_delay(
        previous_delay,
    );
    match classifier.decide(outcome) {
        Verdict::Return(value) => {
            hooks.on_exit.call(&Exit::Returned { attempt, elapsed, value: &value });
            Step::Done { result: Ok(value), stats: standing.stats_for(StopReason::Returned) }
        },
        Verdict::Abort(last) => {
            hooks.on_exit.call(&Exit::Aborted { attempt, elapsed, last: &last });
            Step::Done {
                result: Err(RetryError::Aborted { last }),
                stats: standing.stats_for(StopReason::Aborted),
            }
        },
        Verdict::Retry(last) => {
            if stop.should_stop(&state) || is_timed_out(timeout, elapsed) {
                hooks.on_exit.call(&Exit::Exhausted { attempt, elapsed, last: &last });
                return Step::Done {
                    result: Err(RetryError::Exhausted { last }),
                    stats: standing.stats_for(StopReason::Exhausted),
                };
            }
            let named = wait.next_wait(&state);
            let delay = clamp_to_budget(timeout, elapsed, named);
            Step::Continue { delay, total_wait: total_wait.saturating_add(delay) }
        },
    }
}

} // verus!
