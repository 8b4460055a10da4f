//! What happens between an outcome and the next attempt.
//!
//! Both the blocking and the driven loop go through the functions of this
//! module, so they cannot come apart.

use super::hooks::{
    attempt_told_after, exit_told_after, tell_attempt_after, tell_exit_after, AttemptHook,
    BeforeAttemptHook, ExecutionHooks, ExitHook,
};
use super::state::{AttemptState, ExitState};
use crate::duration::Duration;
use crate::engine::step::{clamp_to_budget, clamped, is_timed_out, timed_out};
use crate::error::RetryError;
use crate::predicate::Predicate;
use crate::state::{seen, RetryState};
use crate::stats::{RetryStats, StopReason};
use crate::stop::Stop;
use crate::wait::Wait;
use vstd::prelude::*;

verus! {

/// Where a loop stands when an attempt completes.
#[derive(Clone, Copy, Debug, PartialEq, Eq, Structural)]
pub struct Place {
    /// The attempt, counted from 1.
    pub attempt: u32,
    /// Time since the loop began, where there is a clock.
    pub elapsed: Option<Duration>,
    /// The wait before this attempt.
    pub previous_delay: Option<Duration>,
    /// All waits so far.
    pub total_wait: Duration,
}

impl Place {
    /// What the wait strategy sees.
    pub open spec fn state(self) -> RetryState {
        RetryState {
            attempt: self.attempt,
            elapsed: seen(self.elapsed),
            clocked: self.elapsed is Some,
            previous_delay: self.previous_delay,
            next_delay: None,
        }
    }

    /// What the stop strategy sees once the wait strategy has named `delay`.
    pub open spec fn state_before(self, delay: Duration) -> RetryState {
        RetryState { next_delay: Some(delay), ..self.state() }
    }
}

/// How an attempt ended a loop.
#[derive(Clone, Copy, Debug, PartialEq, Eq, Structural)]
pub enum TerminalOutcomeKind {
    /// The predicate accepted the outcome.
    AcceptedOutcome,
    /// The stop strategy or the timeout fired.
    StopStrategyTriggered,
}

/// Why a loop ended.
pub open spec fn terminal_reason<T, E>(
    kind: TerminalOutcomeKind,
    outcome: Result<T, E>,
) -> StopReason {
    match kind {
        TerminalOutcomeKind::AcceptedOutcome => match outcome {
            Ok(_) => StopReason::Succeeded,
            Err(_) => StopReason::Rejected,
        },
        TerminalOutcomeKind::StopStrategyTriggered => StopReason::Exhausted,
    }
}

/// What the caller of a loop receives.
pub open spec fn terminal_result<T, E>(
    kind: TerminalOutcomeKind,
    outcome: Result<T, E>,
) -> Result<T, RetryError<T, E>> {
    match kind {
        TerminalOutcomeKind::AcceptedOutcome => match outcome {
            Ok(value) => Ok(value),
            Err(error) => Err(RetryError::Rejected { last: error }),
        },
        TerminalOutcomeKind::StopStrategyTriggered => Err(RetryError::Exhausted { last: outcome }),
    }
}

/// The totals of a loop, where they are wanted.
pub open spec fn wanted_stats(
    collect_stats: bool,
    attempts: u32,
    total_elapsed: Option<Duration>,
    total_wait: Duration,
    stop_reason: StopReason,
) -> Option<RetryStats> {
    if collect_stats {
        Some(RetryStats { attempts, total_elapsed, total_wait, stop_reason })
    } else {
        None
    }
}

/// The totals of a loop, where they are wanted.
pub fn maybe_stats(
    collect_stats: bool,
    attempts: u32,
    total_elapsed: Option<Duration>,
    total_wait: Duration,
    stop_reason: StopReason,
) -> (r: Option<RetryStats>)
    ensures
        r == wanted_stats(collect_stats, attempts, total_elapsed, total_wait, stop_reason),
{
    if collect_stats {
        Some(RetryStats { attempts, total_elapsed, total_wait, stop_reason })
    } else {
        None
    }
}

/// What a completed attempt leads to.
pub enum AttemptTransition<T, E> {
    /// The loop ends. The hooks have been called.
    Finished {
        /// What the caller receives.
        result: Result<T, RetryError<T, E>>,
        /// Totals of the loop, where they are wanted.
        stats: Option<RetryStats>,
    },
    /// The loop tries again after a wait.
    Sleep {
        /// The wait that the strategy named.
        next_delay: Duration,
        /// The outcome that calls for it.
        last_result: Result<T, E>,
    },
}

/// Whether a loop that ends at `place` with `outcome` calls its after-attempt
/// hook, with no wait to follow, and then its on-exit hook.
pub open spec fn tells_end<BA, AA, BS, OX, T, E>(
    place: Place,
    outcome: Result<T, E>,
    kind: TerminalOutcomeKind,
    before: ExecutionHooks<BA, AA, BS, OX>,
    after: ExecutionHooks<BA, AA, BS, OX>,
) -> bool where AA: AttemptHook<T, E>, OX: ExitHook<T, E> {
    &&& after.before_attempt == before.before_attempt
    &&& after.before_sleep == before.before_sleep
    &&& before.after_attempt.fires(
        AttemptState {
            attempt: place.attempt,
            elapsed: place.elapsed,
            outcome: &outcome,
            next_delay: None,
        },
        after.after_attempt,
    )
    &&& before.on_exit.fires(
        ExitState {
            attempt: place.attempt,
            elapsed: place.elapsed,
            outcome: Some(&outcome),
            total_wait: place.total_wait,
            stop_reason: terminal_reason(kind, outcome),
        },
        after.on_exit,
    )
    &&& exit_told_after(
        before.on_exit,
        after.after_attempt,
        ExitState {
            attempt: place.attempt,
            elapsed: place.elapsed,
            outcome: Some(&outcome),
            total_wait: place.total_wait,
            stop_reason: terminal_reason(kind, outcome),
        },
    )
}

/// The transition of a loop that ends at `place` with `outcome`.
pub open spec fn finished<T, E>(
    place: Place,
    outcome: Result<T, E>,
    kind: TerminalOutcomeKind,
    collect_stats: bool,
) -> AttemptTransition<T, E> {
    AttemptTransition::Finished {
        result: terminal_result(kind, outcome),
        stats: wanted_stats(
            collect_stats,
            place.attempt,
            place.elapsed,
            place.total_wait,
            terminal_reason(kind, outcome),
        ),
    }
}

/// Ends a loop: calls the hooks and says what the caller receives.
pub fn finish_terminal_transition<BA, AA, BS, OX, T, E>(
    hooks: &mut ExecutionHooks<BA, AA, BS, OX>,
    place: Place,
    outcome: Result<T, E>,
    collect_stats: bool,
    outcome_kind: TerminalOutcomeKind,
) -> (r: AttemptTransition<T, E>) where
    BA: BeforeAttemptHook,
    AA: AttemptHook<T, E>,
    BS: AttemptHook<T, E>,
    OX: ExitHook<T, E>,

    requires
        place.attempt >= 1,
        old(hooks).armed(),
    ensures
        r == finished(place, outcome, outcome_kind, collect_stats),
        tells_end(place, outcome, outcome_kind, *old(hooks), *final(hooks)),
        final(hooks).armed(),
{
    let reason = match outcome_kind {
        TerminalOutcomeKind::AcceptedOutcome => if outcome.is_ok() {
            StopReason::Succeeded
        } else {
            StopReason::Rejected
        },
        TerminalOutcomeKind::StopStrategyTriggered => StopReason::Exhausted,
    };
    let stats = maybe_stats(
        collect_stats,
        place.attempt,
        place.elapsed,
        place.total_wait,
        reason,
    );
    {
        let attempt_state = AttemptState::for_attempt(place.attempt, &outcome).with_elapsed(
            place.elapsed,
        );
        hooks.after_attempt.call(&attempt_state);
        let exit_state = ExitState {
            attempt: place.attempt,
            elapsed: place.elapsed,
            outcome: Some(&outcome),
            total_wait: place.total_wait,
            stop_reason: reason,
        };
        tell_exit_after(&mut hooks.on_exit, &hooks.after_attempt, &exit_state);
    }
    let result = match outcome_kind {
        TerminalOutcomeKind::AcceptedOutcome => match outcome {
            Ok(value) => Ok(value),
            Err(error) => Err(RetryError::Rejected { last: error }),
        },
        TerminalOutcomeKind::StopStrategyTriggered => Err(RetryError::Exhausted { last: outcome }),
    };
    AttemptTransition::Finished { result, stats }
}

/// Whether `elapsed` has used up `timeout`. Without a clock no timeout is ever
/// used up.
pub open spec fn over_budget(timeout: Option<Duration>, elapsed: Option<Duration>) -> bool {
    elapsed matches Some(since) && timed_out(timeout, since)
}

/// Whether the outcome at `place`, once the predicate wants to retry it and the
/// wait strategy has named `named`, leads to `transition`.
pub open spec fn after_retry<S: Stop, BA, AA, BS, OX, T, E>(
    stop: S,
    timeout: Option<Duration>,
    place: Place,
    outcome: Result<T, E>,
    named: Duration,
    collect_stats: bool,
    before: ExecutionHooks<BA, AA, BS, OX>,
    after: ExecutionHooks<BA, AA, BS, OX>,
    transition: AttemptTransition<T, E>,
) -> bool where AA: AttemptHook<T, E>, OX: ExitHook<T, E> {
    let kind = TerminalOutcomeKind::StopStrategyTriggered;
    ||| {
        &&& stop.may_stop(place.state_before(named), true) || over_budget(timeout, place.elapsed)
        &&& transition == finished(place, outcome, kind, collect_stats)
        &&& tells_end(place, outcome, kind, before, after)
    }
    ||| {
        &&& stop.may_stop(place.state_before(named), false) && !over_budget(timeout, place.elapsed)
        &&& transition == AttemptTransition::Sleep { next_delay: named, last_result: outcome }
        &&& after == before
    }
}

/// Whether `outcome` at `place` may lead to `transition` and take the hooks from
/// `before` to `after`.
pub open spec fn transits<S: Stop, W: Wait, P, BA, AA, BS, OX, T, E>(
    stop: S,
    wait: W,
    predicate: P,
    timeout: Option<Duration>,
    place: Place,
    outcome: Result<T, E>,
    collect_stats: bool,
    before: ExecutionHooks<BA, AA, BS, OX>,
    after: ExecutionHooks<BA, AA, BS, OX>,
    transition: AttemptTransition<T, E>,
) -> bool where P: Predicate<T, E>, AA: AttemptHook<T, E>, OX: ExitHook<T, E> {
    let kind = TerminalOutcomeKind::AcceptedOutcome;
    ||| {
        &&& predicate.may_answer(outcome, false)
        &&& transition == finished(place, outcome, kind, collect_stats)
        &&& tells_end(place, outcome, kind, before, after)
    }
    ||| {
        &&& predicate.may_answer(outcome, true)
        &&& exists|named: Duration| #[trigger]
            wait.may_wait(place.state(), named) && after_retry(
                stop,
                timeout,
                place,
                outcome,
                named,
                collect_stats,
                before,
                after,
                transition,
            )
    }
}

/// Works out what a completed attempt leads to.
///
/// The predicate is asked first. Where it wants to retry, the wait strategy names
/// a wait and the stop strategy is asked with that wait in sight. The hooks are
/// called here only where the loop ends: on the way to a wait they are called
/// once the wait has been cut down to the timeout.
pub fn transition_from_outcome<S, W, P, BA, AA, BS, OX, T, E>(
    stop: &S,
    wait: &W,
    predicate: &P,
    hooks: &mut ExecutionHooks<BA, AA, BS, OX>,
    outcome: Result<T, E>,
    attempt: u32,
    elapsed: Option<Duration>,
    previous_delay: Option<Duration>,
    total_wait: Duration,
    collect_stats: bool,
    timeout: Option<Duration>,
) -> (r: AttemptTransition<T, E>) where
    S: Stop,
    W: Wait,
    P: Predicate<T, E>,
    BA: BeforeAttemptHook,
    AA: AttemptHook<T, E>,
    BS: AttemptHook<T, E>,
    OX: ExitHook<T, E>,

    requires
        attempt >= 1,
        predicate.askable(outcome),
        old(hooks).armed(),
    ensures
        transits(
            *stop,
            *wait,
            *predicate,
            timeout,
            (Place { attempt, elapsed, previous_delay, total_wait }),
            outcome,
            collect_stats,
            *old(hooks),
            *final(hooks),
            r,
        ),
        final(hooks).armed(),
{
    let place = Place { attempt, elapsed, previous_delay, total_wait };
    if !predicate.should_retry(&outcome) {
        return finish_terminal_transition(
            hooks,
            place,
            outcome,
            collect_stats,
            TerminalOutcomeKind::AcceptedOutcome,
        );
    }
    let state = RetryState::for_attempt(attempt).with_elapsed_if_known(
        elapsed,
    ).with_previous_delay(previous_delay);
    let next_delay = wait.next_wait(&state);
    assert(wait.may_wait(place.state(), next_delay));
    let over = match elapsed {
        Some(since) => is_timed_out(timeout, since),
        None => false,
    };
    if stop.should_stop(&state.with_next_delay(Some(next_delay))) || over {
        return finish_terminal_transition(
            hooks,
            place,
            outcome,
            collect_stats,
            TerminalOutcomeKind::StopStrategyTriggered,
        );
    }
    AttemptTransition::Sleep { next_delay, last_result: outcome }
}

/// `delay` nanoseconds cut down to what `timeout` leaves. Without a clock
/// nothing is cut.
pub open spec fn clamped_at(
    timeout: Option<Duration>,
    elapsed: Option<Duration>,
    delay: nat,
) -> nat {
    match elapsed {
        Some(since) => clamped(timeout, since, delay),
        None => delay,
    }
}

/// Whether the after-attempt hook and then the before-sleep hook are told of a
/// wait of `delay`.
pub open spec fn tells_wait<BA, AA, BS, OX, T, E>(
    attempt: u32,
    elapsed: Option<Duration>,
    outcome: Result<T, E>,
    delay: Duration,
    before: ExecutionHooks<BA, AA, BS, OX>,
    after: ExecutionHooks<BA, AA, BS, OX>,
) -> bool where AA: AttemptHook<T, E>, BS: AttemptHook<T, E> {
    let state = AttemptState { attempt, elapsed, outcome: &outcome, next_delay: Some(delay) };
    &&& after.before_attempt == before.before_attempt
    &&& after.on_exit == before.on_exit
    &&& before.after_attempt.fires(state, after.after_attempt)
    &&& before.before_sleep.fires(state, after.before_sleep)
    &&& attempt_told_after(before.before_sleep, after.after_attempt, state)
}

/// Cuts a wait down to what the timeout leaves and tells the hooks of it, so that
/// they see the wait that is made.
pub fn clamp_and_fire_after_attempt<BA, AA, BS, OX, T, E>(
    hooks: &mut ExecutionHooks<BA, AA, BS, OX>,
    attempt: u32,
    elapsed: Option<Duration>,
    last_result: &Result<T, E>,
    next_delay: Duration,
    timeout: Option<Duration>,
) -> (r: Duration) where
    BA: BeforeAttemptHook,
    AA: AttemptHook<T, E>,
    BS: AttemptHook<T, E>,
    OX: ExitHook<T, E>,

    requires
        attempt >= 1,
        old(hooks).armed(),
    ensures
        r@ == clamped_at(timeout, elapsed, next_delay@),
        tells_wait(attempt, elapsed, *last_result, r, *old(hooks), *final(hooks)),
        final(hooks).armed(),
{
    let delay = match elapsed {
        Some(since) => clamp_to_budget(timeout, since, next_delay),
        None => next_delay,
    };
    let attempt_state = AttemptState::for_attempt(attempt, last_result).with_elapsed(
        elapsed,
    ).with_next_delay(Some(delay));
    hooks.after_attempt.call(&attempt_state);
    tell_attempt_after(&mut hooks.before_sleep, &hooks.after_attempt, &attempt_state);
    delay
}

/// Tells the before-attempt hook that an attempt is about to start. The operation
/// is to be called with the state that the hook saw.
pub fn fire_before_attempt<BA, AA, BS, OX>(
    hooks: &mut ExecutionHooks<BA, AA, BS, OX>,
    attempt: u32,
    elapsed: Option<Duration>,
    previous_delay: Option<Duration>,
) -> (r: RetryState) where BA: BeforeAttemptHook
    requires
        attempt >= 1,
        old(hooks).before_attempt.armed(),
    ensures
        r == (RetryState {
            attempt,
            elapsed: seen(elapsed),
            clocked: elapsed is Some,
            previous_delay,
            next_delay: None,
        }),
        old(hooks).before_attempt.fires(r, final(hooks).before_attempt),
        *final(hooks) == (ExecutionHooks {
            before_attempt: final(hooks).before_attempt,
            ..*old(hooks)
        }),
        final(hooks).before_attempt.armed(),
{
    let state = RetryState::for_attempt(attempt).with_elapsed_if_known(
        elapsed,
    ).with_previous_delay(previous_delay);
    hooks.before_attempt.call(&state);
    state
}

/// What the caller of a cancelled loop receives, with the totals where they are
/// wanted.
pub fn cancelled_return<T, E>(
    last_result: Option<Result<T, E>>,
    attempts: u32,
    elapsed: Option<Duration>,
    total_wait: Duration,
    collect_stats: bool,
) -> (r: (Result<T, RetryError<T, E>>, Option<RetryStats>))
    ensures
        r.0 == Err::<T, RetryError<T, E>>(RetryError::Cancelled { last: last_result }),
        r.1 == wanted_stats(collect_stats, attempts, elapsed, total_wait, StopReason::Cancelled),
{
    let stats = maybe_stats(collect_stats, attempts, elapsed, total_wait, StopReason::Cancelled);
    (Err(RetryError::Cancelled { last: last_result }), stats)
}

/// Whether the on-exit hook, and no other, is told that the loop was cancelled.
pub open spec fn tells_cancel<BA, AA, BS, OX, T, E>(
    attempts: u32,
    elapsed: Option<Duration>,
    last_result: Option<Result<T, E>>,
    total_wait: Duration,
    before: ExecutionHooks<BA, AA, BS, OX>,
    after: ExecutionHooks<BA, AA, BS, OX>,
) -> bool where OX: ExitHook<T, E> {
    let outcome = match last_result {
        Some(outcome) => Some(&outcome),
        None => None,
    };
    &&& after == (ExecutionHooks { on_exit: after.on_exit, ..before })
    &&& before.on_exit.fires(
        ExitState {
            attempt: attempts,
            elapsed,
            outcome,
            total_wait,
            stop_reason: StopReason::Cancelled,
        },
        after.on_exit,
    )
}

/// Ends a cancelled loop: tells the on-exit hook and says what the caller
/// receives.
pub fn finish_cancelled<BA, AA, BS, OX, T, E>(
    hooks: &mut ExecutionHooks<BA, AA, BS, OX>,
    last_result: Option<Result<T, E>>,
    attempts: u32,
    elapsed: Option<Duration>,
    total_wait: Duration,
    collect_stats: bool,
) -> (r: (Result<T, RetryError<T, E>>, Option<RetryStats>)) where OX: ExitHook<T, E>
    requires
        old(hooks).on_exit.armed(),
    ensures
        r.0 == Err::<T, RetryError<T, E>>(RetryError::Cancelled { last: last_result }),
        r.1 == wanted_stats(collect_stats, attempts, elapsed, total_wait, StopReason::Cancelled),
        tells_cancel(attempts, elapsed, last_result, total_wait, *old(hooks), *final(hooks)),
        final(hooks).on_exit.armed(),
{
    {
        let exit_state = ExitState {
            attempt: attempts,
            elapsed,
            outcome: last_result.as_ref(),
            total_wait,
            stop_reason: StopReason::Cancelled,
        };
        hooks.on_exit.call(&exit_state);
    }
    cancelled_return(last_result, attempts, elapsed, total_wait, collect_stats)
}

} // verus!
