//! Loops that go by a predicate, round by round.
//!
//! [`runs`](super::sync_loop::runs) hides the rounds between the start of a loop and its
//! end. Here they are laid out in order, so that what holds of each of them can be said.

use super::async_loop::{
    AsyncEngine, AsyncPhase, Dealt, EngineState, PollAction, PollEvent, Put,
};
use super::common::{
    after_retry, tells_cancel, transition_from_outcome, transits, wanted_stats, AttemptTransition,
    Place,
};
use super::hooks::{
    attempt_told_after, exit_told_after, AttemptHook, BeforeAttemptHook, ExecutionHooks, ExitHook,
};
use super::laws::next_of;
use super::policy::{PolicyHandle, PredicatePolicy};
use super::state::{AttemptState, ExitState};
use super::sync_loop::{ends, execute_sync_loop, runs, Course, LoopRules, Paused, Reading, Tried, Turn};
use crate::cancel::{said_after, Canceler};
use crate::clock::{read_after, waited_after, Clock, SyncClock};
use crate::duration::{Duration, MAX_NANOS};
use crate::engine::op::{called_after, RetryOp};
use crate::engine::run::{Bounded, ATTEMPT_LIMIT};
use crate::error::RetryError;
use crate::predicate::Predicate;
use crate::state::{seen, RetryState};
use crate::stats::{RetryStats, StopReason};
use crate::stop::{Stop, StopBeforeElapsed};
use crate::wait::Wait;
use vstd::prelude::*;

verus! {

/// Where a loop at `c` is once the first `i` rounds of `trace` have happened.
pub open spec fn reached<F, Cl, BA, AA, BS, OX, T, E>(
    c: Course<F, Cl, BA, AA, BS, OX, T, E>,
    trace: Seq<Turn<F, Cl, BA, AA, BS, OX, T, E>>,
    i: int,
) -> Course<F, Cl, BA, AA, BS, OX, T, E>
    decreases i,
{
    if i <= 0 {
        c
    } else {
        reached(c, trace, i - 1).after(trace[i - 1])
    }
}

/// Whether a loop at `c` with `left` attempts to go may make the rounds of `trace`, in order
/// and no others, and end at `end` with `given`.
pub open spec fn goes<F, S, W, P, Cn, Cl, BA, AA, BS, OX, T, E>(
    rules: LoopRules<S, W, P, Cn>,
    c: Course<F, Cl, BA, AA, BS, OX, T, E>,
    left: nat,
    trace: Seq<Turn<F, Cl, BA, AA, BS, OX, T, E>>,
    end: Course<F, Cl, BA, AA, BS, OX, T, E>,
    given: (Result<T, RetryError<T, E>>, Option<RetryStats>),
) -> bool where
    F: RetryOp<Output = Result<T, E>>,
    S: Stop,
    W: Wait,
    P: Predicate<T, E>,
    Cn: Canceler,
    Cl: SyncClock,
    BA: BeforeAttemptHook,
    AA: AttemptHook<T, E>,
    BS: AttemptHook<T, E>,
    OX: ExitHook<T, E>,
 {
    &&& 0 < trace.len() <= left
    &&& forall|i: int|
        0 <= i < trace.len() ==> reached(c, trace, i).turns(
            rules,
            (left - i) as nat,
            #[trigger] trace[i],
        )
    &&& forall|i: int| 0 <= i < trace.len() - 1 ==> #[trigger] trace[i] is Waited
    &&& reached(c, trace, trace.len() - 1).gives(rules.collect_stats, trace.last()) == Some(given)
    &&& end == reached(c, trace, trace.len() as int)
}

proof fn reached_after<F, Cl, BA, AA, BS, OX, T, E>(
    c: Course<F, Cl, BA, AA, BS, OX, T, E>,
    turn: Turn<F, Cl, BA, AA, BS, OX, T, E>,
    rest: Seq<Turn<F, Cl, BA, AA, BS, OX, T, E>>,
    i: int,
)
    requires
        0 <= i <= rest.len(),
    ensures
        reached(c, seq![turn] + rest, i + 1) == reached(c.after(turn), rest, i),
    decreases i,
{
    let trace = seq![turn] + rest;
    if i > 0 {
        reached_after(c, turn, rest, i - 1);
        assert(trace[i] == rest[i - 1]);
    } else {
        assert(reached(c, trace, 1) == reached(c, trace, 0).after(trace[0]));
    }
}

/// The rounds of a loop.
proof fn trace_of<F, S, W, P, Cn, Cl, BA, AA, BS, OX, T, E>(
    rules: LoopRules<S, W, P, Cn>,
    c: Course<F, Cl, BA, AA, BS, OX, T, E>,
    left: nat,
    end: Course<F, Cl, BA, AA, BS, OX, T, E>,
    given: (Result<T, RetryError<T, E>>, Option<RetryStats>),
) -> (r: Seq<Turn<F, Cl, BA, AA, BS, OX, T, E>>) where
    F: RetryOp<Output = Result<T, E>>,
    S: Stop,
    W: Wait,
    P: Predicate<T, E>,
    Cn: Canceler,
    Cl: SyncClock,
    BA: BeforeAttemptHook,
    AA: AttemptHook<T, E>,
    BS: AttemptHook<T, E>,
    OX: ExitHook<T, E>,

    requires
        runs(rules, c, left, end, given),
    ensures
        goes(rules, c, left, r, end, given),
    decreases left,
{
    let turn = next_of(rules, c, left, end, given);
    match c.gives(rules.collect_stats, turn) {
        Some(_) => {
            let trace = seq![turn];
            assert(reached(c, trace, 1) == reached(c, trace, 0).after(trace[0]));
            trace
        },
        None => {
            let rest = trace_of(rules, c.after(turn), (left - 1) as nat, end, given);
            let trace = seq![turn] + rest;
            assert forall|i: int| 0 <= i < trace.len() implies reached(c, trace, i).turns(
                rules,
                (left - i) as nat,
                #[trigger] trace[i],
            ) by {
                if i > 0 {
                    reached_after(c, turn, rest, i - 1);
                    assert(trace[i] == rest[i - 1]);
                }
            }
            assert forall|i: int| 0 <= i < trace.len() - 1 implies #[trigger] trace[i] is Waited by {
                if i > 0 {
                    assert(trace[i] == rest[i - 1]);
                }
            }
            reached_after(c, turn, rest, rest.len() as int);
            reached_after(c, turn, rest, rest.len() - 1);
            assert(trace.last() == rest.last());
            trace
        },
    }
}

/// A loop goes round by round: however it ends, it began somewhere and made a row of rounds
/// that led there.
pub proof fn loop_goes_round_by_round<F, S, W, P, Cn, Cl, BA, AA, BS, OX, T, E>(
    rules: LoopRules<S, W, P, Cn>,
    before: (F, Cl, ExecutionHooks<BA, AA, BS, OX>),
    after: (F, Cl, ExecutionHooks<BA, AA, BS, OX>),
    given: (Result<T, RetryError<T, E>>, Option<RetryStats>),
) where
    F: RetryOp<Output = Result<T, E>>,
    S: Stop,
    W: Wait,
    P: Predicate<T, E>,
    Cn: Canceler,
    Cl: SyncClock,
    BA: BeforeAttemptHook,
    AA: AttemptHook<T, E>,
    BS: AttemptHook<T, E>,
    OX: ExitHook<T, E>,

    requires
        ends(rules, before, after, given),
    ensures
        exists|
            c: Course<F, Cl, BA, AA, BS, OX, T, E>,
            trace: Seq<Turn<F, Cl, BA, AA, BS, OX, T, E>>,
            end: Course<F, Cl, BA, AA, BS, OX, T, E>,
        | #[trigger]
            goes(rules, c, ATTEMPT_LIMIT as nat, trace, end, given) && c.begins(
                before.0,
                before.1,
                before.2,
            ) && (end.op, end.clock, end.hooks) == after,
{
    let (c, end) = choose|
        c: Course<F, Cl, BA, AA, BS, OX, T, E>,
        end: Course<F, Cl, BA, AA, BS, OX, T, E>,
    |
        {
            &&& c.begins(before.0, before.1, before.2)
            &&& #[trigger] runs(rules, c, ATTEMPT_LIMIT as nat, end, given)
            &&& (end.op, end.clock, end.hooks) == after
        };
    let trace = trace_of(rules, c, ATTEMPT_LIMIT as nat, end, given);
    assert(goes(rules, c, ATTEMPT_LIMIT as nat, trace, end, given));
}

/// The attempt of a round, unless the loop was cancelled before it.
pub open spec fn attempt_of<F, Cl, BA, AA, BS, OX, T, E>(turn: Turn<F, Cl, BA, AA, BS, OX, T, E>) -> Option<
    Tried<F, Cl, BA, AA, BS, OX, T, E>,
> {
    match turn {
        Turn::CancelledBefore { .. } => None,
        Turn::Ended { tried } => Some(tried),
        Turn::Waited { tried, .. } => Some(tried),
        Turn::CancelledAfter { tried, .. } => Some(tried),
    }
}

/// The wait of a round, where one was made.
pub open spec fn wait_of<F, Cl, BA, AA, BS, OX, T, E>(turn: Turn<F, Cl, BA, AA, BS, OX, T, E>) -> Option<
    Paused<Cl, BA, AA, BS, OX>,
> {
    match turn {
        Turn::Waited { paused, .. } => Some(paused),
        Turn::CancelledAfter { paused, .. } => Some(paused),
        _ => None,
    }
}

/// All the time that is waited in the first `i` rounds of `trace`.
pub open spec fn slept<F, Cl, BA, AA, BS, OX, T, E>(trace: Seq<Turn<F, Cl, BA, AA, BS, OX, T, E>>, i: int) -> nat
    decreases i,
{
    if i <= 0 {
        0
    } else {
        slept(trace, i - 1) + match wait_of(trace[i - 1]) {
            Some(paused) => paused.delay@,
            None => 0,
        }
    }
}

/// Where a loop is after `i` rounds: at the next attempt, with the wait and the outcome
/// before it in mind and all waits so far added up.
proof fn counters_along_the_way<F, S, W, P, Cn, Cl, BA, AA, BS, OX, T, E>(
    rules: LoopRules<S, W, P, Cn>,
    before: (F, Cl, ExecutionHooks<BA, AA, BS, OX>),
    c: Course<F, Cl, BA, AA, BS, OX, T, E>,
    trace: Seq<Turn<F, Cl, BA, AA, BS, OX, T, E>>,
    end: Course<F, Cl, BA, AA, BS, OX, T, E>,
    given: (Result<T, RetryError<T, E>>, Option<RetryStats>),
    i: int,
) where
    F: RetryOp<Output = Result<T, E>>,
    S: Stop,
    W: Wait,
    P: Predicate<T, E>,
    Cn: Canceler,
    Cl: SyncClock,
    BA: BeforeAttemptHook,
    AA: AttemptHook<T, E>,
    BS: AttemptHook<T, E>,
    OX: ExitHook<T, E>,

    requires
        c.begins(before.0, before.1, before.2),
        goes(rules, c, ATTEMPT_LIMIT as nat, trace, end, given),
        0 <= i < trace.len(),
    ensures
        i < u32::MAX ==> reached(c, trace, i).attempt == i + 1,
        i >= u32::MAX ==> reached(c, trace, i).attempt == u32::MAX,
        i == 0 ==> reached(c, trace, i).previous_delay is None,
        i == 0 ==> reached(c, trace, i).last_result is None,
        i > 0 ==> (trace[i - 1] matches Turn::Waited { tried, paused } && reached(
            c,
            trace,
            i,
        ).previous_delay == Some(paused.delay) && reached(c, trace, i).last_result == Some(
            tried.outcome,
        )),
        slept(trace, i) <= MAX_NANOS ==> reached(c, trace, i).total_wait@ == slept(trace, i),
        slept(trace, i) > MAX_NANOS ==> reached(c, trace, i).total_wait@ == MAX_NANOS,
        reached(c, trace, i).tracker == c.tracker,
        c.tracker.baseline() is Some,
    decreases i,
{
    if i > 0 {
        counters_along_the_way(rules, before, c, trace, end, given, i - 1);
        assert(trace[i - 1] is Waited);
        assert(reached(c, trace, i - 1).turns(
            rules,
            (ATTEMPT_LIMIT - (i - 1)) as nat,
            trace[i - 1],
        ));
    }
}

/// What becomes of an outcome, whichever loop it came up in.
///
/// Where the predicate wants a retry, the wait strategy names a wait for the attempt, with
/// the wait made before it in sight. A retry follows where the stop strategy, with the
/// named wait in sight too, lets it and the timeout is not used up; no hook is called yet.
/// The loop ends with a value or an error that the predicate accepts, or as exhausted with
/// the outcome as it came. The hooks and the totals tell the same.
pub proof fn outcome_leads_on<S, W, P, BA, AA, BS, OX, T, E>(
    state: RetryState,
    elapsed: Option<Duration>,
    total: Duration,
    outcome: Result<T, E>,
    stop: S,
    wait: W,
    predicate: P,
    timeout: Option<Duration>,
    collect_stats: bool,
    hooks: ExecutionHooks<BA, AA, BS, OX>,
    after: ExecutionHooks<BA, AA, BS, OX>,
    transition: AttemptTransition<T, E>,
) where
    S: Stop,
    W: Wait,
    P: Predicate<T, E>,
    AA: AttemptHook<T, E>,
    OX: ExitHook<T, E>,

    requires
        state.next_delay is None,
        state.clocked <==> elapsed is Some,
        elapsed matches Some(since) ==> state.elapsed == since,
        elapsed is None ==> state.elapsed@ == 0,
        transits(
            stop,
            wait,
            predicate,
            timeout,
            (Place {
                attempt: state.attempt,
                elapsed,
                previous_delay: state.previous_delay,
                total_wait: total,
            }),
            outcome,
            collect_stats,
            hooks,
            after,
            transition,
        ),
    ensures
        transition matches AttemptTransition::Sleep { next_delay, last_result } ==> {
            &&& last_result == outcome
            &&& predicate.may_answer(outcome, true)
            &&& wait.may_wait(state, next_delay)
            &&& stop.may_stop((RetryState { next_delay: Some(next_delay), ..state }), false)
            &&& timeout matches Some(budget) ==> (elapsed matches Some(since) ==> since@ < budget@)
            &&& after == hooks
        },
        transition matches AttemptTransition::Finished { result, stats } ==> {
            let reason = match result {
                Ok(_) => StopReason::Succeeded,
                Err(RetryError::Rejected { .. }) => StopReason::Rejected,
                _ => StopReason::Exhausted,
            };
            &&& after.before_attempt == hooks.before_attempt
            &&& after.before_sleep == hooks.before_sleep
            &&& hooks.after_attempt.fires(
                (AttemptState {
                    attempt: state.attempt,
                    elapsed: elapsed,
                    outcome: &outcome,
                    next_delay: None,
                }),
                after.after_attempt,
            )
            &&& hooks.on_exit.fires(
                (ExitState {
                    attempt: state.attempt,
                    elapsed: elapsed,
                    outcome: Some(&outcome),
                    total_wait: total,
                    stop_reason: reason,
                }),
                after.on_exit,
            )
            &&& exit_told_after(
                hooks.on_exit,
                after.after_attempt,
                (ExitState {
                    attempt: state.attempt,
                    elapsed: elapsed,
                    outcome: Some(&outcome),
                    total_wait: total,
                    stop_reason: reason,
                }),
            )
            &&& !collect_stats ==> stats is None
            &&& collect_stats ==> stats == Some(
                RetryStats {
                    attempts: state.attempt,
                    total_elapsed: elapsed,
                    total_wait: total,
                    stop_reason: reason,
                },
            )
            &&& match result {
                Ok(value) => {
                    &&& outcome == Ok::<T, E>(value)
                    &&& predicate.may_answer(outcome, false)
                },
                Err(RetryError::Rejected { last }) => {
                    &&& outcome == Err::<T, E>(last)
                    &&& predicate.may_answer(outcome, false)
                },
                Err(RetryError::Exhausted { last }) => {
                    &&& last == outcome
                    &&& predicate.may_answer(outcome, true)
                    &&& exists|named: Duration| #[trigger]
                        wait.may_wait(state, named) && (stop.may_stop(
                            (RetryState { next_delay: Some(named), ..state }),
                            true,
                        ) || (timeout matches Some(budget) && elapsed matches Some(since) && since@
                            >= budget@))
                },
                Err(RetryError::Cancelled { .. }) => false,
            }
        },
{
    let place = Place {
        attempt: state.attempt,
        elapsed,
        previous_delay: state.previous_delay,
        total_wait: total,
    };
    if elapsed is None {
        broadcast use crate::duration::empty_span;
        crate::duration::duration_ext(place.state().elapsed, state.elapsed);
    }
    assert(place.state() == state);
    if predicate.may_answer(outcome, true) && exists|named: Duration| #[trigger]
        wait.may_wait(place.state(), named) && after_retry(
            stop,
            timeout,
            place,
            outcome,
            named,
            collect_stats,
            hooks,
            after,
            transition,
        ) {
        let named = choose|named: Duration| #[trigger]
            wait.may_wait(place.state(), named) && after_retry(
                stop,
                timeout,
                place,
                outcome,
                named,
                collect_stats,
                hooks,
                after,
                transition,
            );
        assert(wait.may_wait(state, named));
        assert(place.state_before(named) == (RetryState { next_delay: Some(named), ..state }));
    }
}

/// The operation and the hook before it are called once in each attempt, with one state,
/// the operation when the hook is done. The state counts the attempts from 1, tells the
/// time from the first reading to the one before
/// the attempt, and tells the wait that was made since the attempt before, of which there
/// is none at first. The canceler was asked just before, and said no.
pub proof fn operation_sees_the_attempt<F, S, W, P, Cn, Cl, BA, AA, BS, OX, T, E>(
    rules: LoopRules<S, W, P, Cn>,
    before: (F, Cl, ExecutionHooks<BA, AA, BS, OX>),
    c: Course<F, Cl, BA, AA, BS, OX, T, E>,
    trace: Seq<Turn<F, Cl, BA, AA, BS, OX, T, E>>,
    end: Course<F, Cl, BA, AA, BS, OX, T, E>,
    given: (Result<T, RetryError<T, E>>, Option<RetryStats>),
    i: int,
    tried: Tried<F, Cl, BA, AA, BS, OX, T, E>,
    state: RetryState,
    origin: Duration,
) where
    F: RetryOp<Output = Result<T, E>>,
    S: Stop,
    W: Wait,
    P: Predicate<T, E>,
    Cn: Canceler,
    Cl: SyncClock,
    BA: BeforeAttemptHook,
    AA: AttemptHook<T, E>,
    BS: AttemptHook<T, E>,
    OX: ExitHook<T, E>,

    requires
        c.begins(before.0, before.1, before.2),
        goes(rules, c, ATTEMPT_LIMIT as nat, trace, end, given),
        0 <= i < trace.len(),
        attempt_of(trace[i]) == Some(tried),
        before.1.reads(c.clock, origin),
        c.tracker.baseline() == Some(origin),
        tried.before.now@ <= MAX_NANOS,
        i < u32::MAX ==> state.attempt == i + 1,
        i >= u32::MAX ==> state.attempt == u32::MAX,
        i == 0 ==> state.previous_delay is None,
        i > 0 ==> (trace[i - 1] matches Turn::Waited { paused, .. } ==> state.previous_delay
            == Some(paused.delay)),
        state.next_delay is None,
        state.clocked,
        tried.before.now@ >= origin@ ==> state.elapsed@ == tried.before.now@ - origin@,
        tried.before.now@ < origin@ ==> state.elapsed@ == 0,
    ensures
        rules.canceler.may_say(false),
        said_after(rules.canceler, reached(c, trace, i).clock, false),
        reached(c, trace, i).clock.reads(tried.before.clock, tried.before.now),
        reached(c, trace, i).hooks.before_attempt.fires(state, tried.before_attempt),
        reached(c, trace, i).op.yields(state, tried.outcome, tried.op),
        called_after(reached(c, trace, i).op, tried.before_attempt, state, tried.outcome),
        reached(c, trace, i + 1).op == tried.op,
{
    counters_along_the_way(rules, before, c, trace, end, given, i);
    let here = reached(c, trace, i);
    assert(here.turns(rules, (ATTEMPT_LIMIT - i) as nat, trace[i]));
    crate::duration::duration_ext(state.elapsed, tried.before.elapsed->0);
    assert(reached(c, trace, i + 1) == here.after(trace[i]));
}

/// What becomes of an outcome. The clock is read again when the outcome is there, and the time
/// from the first reading to that one is what the strategies, the timeout, the hooks and
/// the totals go by.
///
/// Where the predicate wants a retry, the wait strategy names a wait, with the wait made
/// after the attempt before in sight, of which there is none at first. A retry follows
/// where the stop strategy, with the named wait in sight too, lets it and the timeout is
/// not used up. The loop ends with a value or an error that the predicate accepts, or as
/// exhausted with the outcome as it came.
pub proof fn outcome_is_dealt_with<F, S, W, P, Cn, Cl, BA, AA, BS, OX, T, E>(
    rules: LoopRules<S, W, P, Cn>,
    before: (F, Cl, ExecutionHooks<BA, AA, BS, OX>),
    c: Course<F, Cl, BA, AA, BS, OX, T, E>,
    trace: Seq<Turn<F, Cl, BA, AA, BS, OX, T, E>>,
    end: Course<F, Cl, BA, AA, BS, OX, T, E>,
    given: (Result<T, RetryError<T, E>>, Option<RetryStats>),
    i: int,
    tried: Tried<F, Cl, BA, AA, BS, OX, T, E>,
    state: RetryState,
    origin: Duration,
    hooks: ExecutionHooks<BA, AA, BS, OX>,
    total: Duration,
) where
    F: RetryOp<Output = Result<T, E>>,
    S: Stop,
    W: Wait,
    P: Predicate<T, E>,
    Cn: Canceler,
    Cl: SyncClock,
    BA: BeforeAttemptHook,
    AA: AttemptHook<T, E>,
    BS: AttemptHook<T, E>,
    OX: ExitHook<T, E>,

    requires
        c.begins(before.0, before.1, before.2),
        goes(rules, c, ATTEMPT_LIMIT as nat, trace, end, given),
        0 <= i < trace.len(),
        attempt_of(trace[i]) == Some(tried),
        before.1.reads(c.clock, origin),
        c.tracker.baseline() == Some(origin),
        tried.after.now@ <= MAX_NANOS,
        i < u32::MAX ==> state.attempt == i + 1,
        i >= u32::MAX ==> state.attempt == u32::MAX,
        i == 0 ==> state.previous_delay is None,
        i > 0 ==> (trace[i - 1] matches Turn::Waited { paused, .. } ==> state.previous_delay
            == Some(paused.delay)),
        state.next_delay is None,
        state.clocked,
        tried.after.now@ >= origin@ ==> state.elapsed@ == tried.after.now@ - origin@,
        tried.after.now@ < origin@ ==> state.elapsed@ == 0,
        hooks.before_attempt == tried.before_attempt,
        hooks.after_attempt == reached(c, trace, i).hooks.after_attempt,
        hooks.before_sleep == reached(c, trace, i).hooks.before_sleep,
        hooks.on_exit == reached(c, trace, i).hooks.on_exit,
        total == reached(c, trace, i).total_wait,
    ensures
        tried.before.clock.reads(tried.after.clock, tried.after.now),
        read_after(tried.before.clock, tried.outcome, tried.after.now),
        slept(trace, i) <= MAX_NANOS ==> total@ == slept(trace, i),
        slept(trace, i) > MAX_NANOS ==> total@ == MAX_NANOS,
        tried.transition matches AttemptTransition::Sleep { next_delay, last_result } ==> {
            &&& last_result == tried.outcome
            &&& rules.policy.predicate.may_answer(tried.outcome, true)
            &&& rules.policy.wait.may_wait(state, next_delay)
            &&& rules.policy.stop.may_stop((RetryState { next_delay: Some(next_delay), ..state }), false)
            &&& rules.timeout matches Some(budget) ==> (Some(state.elapsed) matches Some(since) ==> since@ < budget@)
            &&& tried.hooks == hooks
        },
        tried.transition matches AttemptTransition::Finished { result, stats } ==> {
            let reason = match result {
                Ok(_) => StopReason::Succeeded,
                Err(RetryError::Rejected { .. }) => StopReason::Rejected,
                _ => StopReason::Exhausted,
            };
            &&& tried.hooks.before_attempt == hooks.before_attempt
            &&& tried.hooks.before_sleep == hooks.before_sleep
            &&& hooks.after_attempt.fires(
                (AttemptState {
                    attempt: state.attempt,
                    elapsed: Some(state.elapsed),
                    outcome: &tried.outcome,
                    next_delay: None,
                }),
                tried.hooks.after_attempt,
            )
            &&& hooks.on_exit.fires(
                (ExitState {
                    attempt: state.attempt,
                    elapsed: Some(state.elapsed),
                    outcome: Some(&tried.outcome),
                    total_wait: total,
                    stop_reason: reason,
                }),
                tried.hooks.on_exit,
            )
            &&& exit_told_after(
                hooks.on_exit,
                tried.hooks.after_attempt,
                (ExitState {
                    attempt: state.attempt,
                    elapsed: Some(state.elapsed),
                    outcome: Some(&tried.outcome),
                    total_wait: total,
                    stop_reason: reason,
                }),
            )
            &&& !rules.collect_stats ==> stats is None
            &&& rules.collect_stats ==> stats == Some(
                RetryStats {
                    attempts: state.attempt,
                    total_elapsed: Some(state.elapsed),
                    total_wait: total,
                    stop_reason: reason,
                },
            )
            &&& match result {
                Ok(value) => {
                    &&& tried.outcome == Ok::<T, E>(value)
                    &&& rules.policy.predicate.may_answer(tried.outcome, false)
                },
                Err(RetryError::Rejected { last }) => {
                    &&& tried.outcome == Err::<T, E>(last)
                    &&& rules.policy.predicate.may_answer(tried.outcome, false)
                },
                Err(RetryError::Exhausted { last }) => {
                    &&& last == tried.outcome
                    &&& rules.policy.predicate.may_answer(tried.outcome, true)
                    &&& exists|named: Duration| #[trigger]
                        rules.policy.wait.may_wait(state, named) && (rules.policy.stop.may_stop(
                            (RetryState { next_delay: Some(named), ..state }),
                            true,
                        ) || (rules.timeout matches Some(budget) && Some(state.elapsed) matches Some(since) && since@
                            >= budget@) || i == u64::MAX - 1)
                },
                Err(RetryError::Cancelled { .. }) => false,
            }
        },
        trace[i] is Ended <==> tried.transition is Finished,
        trace[i] is Ended ==> reached(c, trace, i + 1).clock == tried.after.clock && reached(
            c,
            trace,
            i + 1,
        ).hooks == tried.hooks,
{
    counters_along_the_way(rules, before, c, trace, end, given, i);
    let here = reached(c, trace, i);
    let left = (ATTEMPT_LIMIT - i) as nat;
    assert(here.turns(rules, left, trace[i]));
    assert(here.tries(rules, left, tried));
    crate::duration::duration_ext(state.elapsed, tried.after.elapsed->0);
    assert(tried.after.elapsed == Some(state.elapsed));
    assert(reached(c, trace, i + 1) == here.after(trace[i]));
    let bounded = Bounded { inner: &rules.policy.stop, spent: left == 1 };
    assert(hooks == (ExecutionHooks { before_attempt: tried.before_attempt, ..here.hooks }));
    assert(here.place(tried.after.elapsed) == (Place {
        attempt: state.attempt,
        elapsed: Some(state.elapsed),
        previous_delay: state.previous_delay,
        total_wait: total,
    }));
    outcome_leads_on(
        state,
        Some(state.elapsed),
        total,
        tried.outcome,
        bounded,
        rules.policy.wait,
        rules.policy.predicate,
        rules.timeout,
        rules.collect_stats,
        hooks,
        tried.hooks,
        tried.transition,
    );
}

/// The wait between two attempts. The clock is read once more, and the wait is the one that
/// the strategy named, or what the timeout leaves by that reading where that is less. The
/// hooks after the attempt and before the wait see it, each once and in this order. Then
/// the clock waits for as long, unless there is nothing to wait for, and the total grows by as much.
pub proof fn wait_is_made<F, S, W, P, Cn, Cl, BA, AA, BS, OX, T, E>(
    rules: LoopRules<S, W, P, Cn>,
    before: (F, Cl, ExecutionHooks<BA, AA, BS, OX>),
    c: Course<F, Cl, BA, AA, BS, OX, T, E>,
    trace: Seq<Turn<F, Cl, BA, AA, BS, OX, T, E>>,
    end: Course<F, Cl, BA, AA, BS, OX, T, E>,
    given: (Result<T, RetryError<T, E>>, Option<RetryStats>),
    i: int,
    tried: Tried<F, Cl, BA, AA, BS, OX, T, E>,
    paused: Paused<Cl, BA, AA, BS, OX>,
    origin: Duration,
    since: Duration,
    named: Duration,
    attempt: u32,
) where
    F: RetryOp<Output = Result<T, E>>,
    S: Stop,
    W: Wait,
    P: Predicate<T, E>,
    Cn: Canceler,
    Cl: SyncClock,
    BA: BeforeAttemptHook,
    AA: AttemptHook<T, E>,
    BS: AttemptHook<T, E>,
    OX: ExitHook<T, E>,

    requires
        c.begins(before.0, before.1, before.2),
        goes(rules, c, ATTEMPT_LIMIT as nat, trace, end, given),
        0 <= i < trace.len(),
        attempt_of(trace[i]) == Some(tried),
        wait_of(trace[i]) == Some(paused),
        before.1.reads(c.clock, origin),
        c.tracker.baseline() == Some(origin),
        paused.before.now@ <= MAX_NANOS,
        rules.timeout matches Some(budget) ==> budget@ <= MAX_NANOS,
        paused.before.now@ >= origin@ ==> since@ == paused.before.now@ - origin@,
        paused.before.now@ < origin@ ==> since@ == 0,
        tried.transition matches AttemptTransition::Sleep { next_delay, .. } ==> named
            == next_delay,
        i < u32::MAX ==> attempt == i + 1,
        i >= u32::MAX ==> attempt == u32::MAX,
    ensures
        tried.transition is Sleep,
        tried.after.clock.reads(paused.before.clock, paused.before.now),
        paused.delay@ <= named@,
        rules.timeout is None ==> paused.delay@ == named@,
        rules.timeout matches Some(budget) ==> {
            &&& named@ <= budget@ - since@ ==> paused.delay@ == named@
            &&& 0 <= budget@ - since@ < named@ ==> paused.delay@ == budget@ - since@
            &&& since@ > budget@ ==> paused.delay@ == 0
        },
        tried.hooks.after_attempt.fires(
            (AttemptState {
                attempt,
                elapsed: Some(since),
                outcome: &tried.outcome,
                next_delay: Some(paused.delay),
            }),
            paused.hooks.after_attempt,
        ),
        tried.hooks.before_sleep.fires(
            (AttemptState {
                attempt,
                elapsed: Some(since),
                outcome: &tried.outcome,
                next_delay: Some(paused.delay),
            }),
            paused.hooks.before_sleep,
        ),
        attempt_told_after(
            tried.hooks.before_sleep,
            paused.hooks.after_attempt,
            (AttemptState {
                attempt,
                elapsed: Some(since),
                outcome: &tried.outcome,
                next_delay: Some(paused.delay),
            }),
        ),
        paused.hooks.before_attempt == tried.hooks.before_attempt,
        paused.hooks.on_exit == tried.hooks.on_exit,
        paused.delay@ == 0 ==> paused.clock == paused.before.clock,
        paused.delay@ > 0 ==> paused.before.clock.sleeps(paused.delay, paused.clock),
        paused.delay@ > 0 ==> waited_after(paused.before.clock, paused.hooks, paused.delay),
        slept(trace, i + 1) <= MAX_NANOS ==> paused.total_wait@ == slept(trace, i + 1),
        slept(trace, i + 1) > MAX_NANOS ==> paused.total_wait@ == MAX_NANOS,
        trace[i] is Waited ==> {
            &&& said_after(rules.canceler, paused.clock, false)
            &&& reached(c, trace, i + 1).clock == paused.clock
            &&& reached(c, trace, i + 1).hooks == paused.hooks
            &&& reached(c, trace, i + 1).op == tried.op
        },
{
    counters_along_the_way(rules, before, c, trace, end, given, i);
    let here = reached(c, trace, i);
    let left = (ATTEMPT_LIMIT - i) as nat;
    assert(here.turns(rules, left, trace[i]));
    assert(here.pauses(rules, tried, paused));
    crate::duration::duration_ext(since, paused.before.elapsed->0);
    assert(reached(c, trace, i + 1) == here.after(trace[i]));
    assert(slept(trace, i + 1) == slept(trace, i) + paused.delay@);
}

/// A wait follows the strategy: the wait after attempt `n + 1` is one that the strategy names
/// for that attempt with the wait after attempt `n` in sight, or for the first attempt with
/// none, or less where a timeout cuts it.
pub proof fn waits_follow_the_strategy<F, S, W, P, Cn, Cl, BA, AA, BS, OX, T, E>(
    rules: LoopRules<S, W, P, Cn>,
    before: (F, Cl, ExecutionHooks<BA, AA, BS, OX>),
    c: Course<F, Cl, BA, AA, BS, OX, T, E>,
    trace: Seq<Turn<F, Cl, BA, AA, BS, OX, T, E>>,
    end: Course<F, Cl, BA, AA, BS, OX, T, E>,
    given: (Result<T, RetryError<T, E>>, Option<RetryStats>),
    i: int,
    paused: Paused<Cl, BA, AA, BS, OX>,
) where
    F: RetryOp<Output = Result<T, E>>,
    S: Stop,
    W: Wait,
    P: Predicate<T, E>,
    Cn: Canceler,
    Cl: SyncClock,
    BA: BeforeAttemptHook,
    AA: AttemptHook<T, E>,
    BS: AttemptHook<T, E>,
    OX: ExitHook<T, E>,

    requires
        c.begins(before.0, before.1, before.2),
        goes(rules, c, ATTEMPT_LIMIT as nat, trace, end, given),
        0 <= i < trace.len(),
        wait_of(trace[i]) == Some(paused),
    ensures
        exists|state: RetryState, named: Duration| #[trigger]
            rules.policy.wait.may_wait(state, named) && paused.delay@ <= named@ && (
            rules.timeout is None ==> paused.delay@ == named@) && (i < u32::MAX ==> state.attempt
                == i + 1) && (i == 0 ==> state.previous_delay is None) && (i > 0 ==> (
            trace[i - 1] matches Turn::Waited { paused: last, .. } && state.previous_delay == Some(
                last.delay,
            ))),
{
    counters_along_the_way(rules, before, c, trace, end, given, i);
    let here = reached(c, trace, i);
    let left = (ATTEMPT_LIMIT - i) as nat;
    assert(here.turns(rules, left, trace[i]));
    let tried = attempt_of(trace[i])->0;
    assert(here.tries(rules, left, tried));
    assert(here.pauses(rules, tried, paused));
    let named = tried.transition->next_delay;
    assert(rules.policy.wait.may_wait(here.place(tried.after.elapsed).state(), named));
}

/// A cancelled loop ends at once: before an attempt, with as many attempts as were
/// completed, or after a wait, with that attempt too. The caller gets the outcome of the
/// last attempt that completed, if one did. The hook at the end, and no other, is told of
/// it, and it and the totals tell the time by one last reading of the clock.
pub proof fn cancelled_loop_ends_at_once<F, S, W, P, Cn, Cl, BA, AA, BS, OX, T, E>(
    rules: LoopRules<S, W, P, Cn>,
    before: (F, Cl, ExecutionHooks<BA, AA, BS, OX>),
    c: Course<F, Cl, BA, AA, BS, OX, T, E>,
    trace: Seq<Turn<F, Cl, BA, AA, BS, OX, T, E>>,
    end: Course<F, Cl, BA, AA, BS, OX, T, E>,
    given: (Result<T, RetryError<T, E>>, Option<RetryStats>),
    i: int,
    clock: Cl,
    hooks: ExecutionHooks<BA, AA, BS, OX>,
    reading: Reading<Cl>,
    attempts: u32,
    last: Option<Result<T, E>>,
    total: Duration,
    origin: Duration,
    since: Duration,
    seen: Option<&Result<T, E>>,
) where
    F: RetryOp<Output = Result<T, E>>,
    S: Stop,
    W: Wait,
    P: Predicate<T, E>,
    Cn: Canceler,
    Cl: SyncClock,
    BA: BeforeAttemptHook,
    AA: AttemptHook<T, E>,
    BS: AttemptHook<T, E>,
    OX: ExitHook<T, E>,

    requires
        c.begins(before.0, before.1, before.2),
        goes(rules, c, ATTEMPT_LIMIT as nat, trace, end, given),
        0 <= i < trace.len(),
        before.1.reads(c.clock, origin),
        c.tracker.baseline() == Some(origin),
        i < u32::MAX,
        reading.now@ <= MAX_NANOS,
        reading.now@ >= origin@ ==> since@ == reading.now@ - origin@,
        reading.now@ < origin@ ==> since@ == 0,
        match last {
            Some(outcome) => seen == Some(&outcome),
            None => seen is None,
        },
        match trace[i] {
            Turn::CancelledBefore { reading: r, .. } => {
                &&& reading == r
                &&& clock == reached(c, trace, i).clock
                &&& hooks == reached(c, trace, i).hooks
                &&& attempts == i
                &&& total == reached(c, trace, i).total_wait
                &&& i == 0 ==> last is None
                &&& i > 0 ==> (trace[i - 1] matches Turn::Waited { tried, .. } ==> last == Some(
                    tried.outcome,
                ))
            },
            Turn::CancelledAfter { reading: r, tried, paused, .. } => {
                &&& reading == r
                &&& clock == paused.clock
                &&& hooks == paused.hooks
                &&& attempts == i + 1
                &&& total == paused.total_wait
                &&& last == Some(tried.outcome)
            },
            _ => false,
        },
    ensures
        i == trace.len() - 1,
        rules.canceler.may_say(true),
        said_after(rules.canceler, clock, true),
        clock.reads(reading.clock, reading.now),
        end.clock == reading.clock,
        given.0 == Err::<T, RetryError<T, E>>(RetryError::Cancelled { last }),
        !rules.collect_stats ==> given.1 is None,
        rules.collect_stats ==> given.1 == Some(
            RetryStats {
                attempts,
                total_elapsed: Some(since),
                total_wait: total,
                stop_reason: StopReason::Cancelled,
            },
        ),
        hooks.on_exit.fires(
            (ExitState {
                attempt: attempts,
                elapsed: Some(since),
                outcome: seen,
                total_wait: total,
                stop_reason: StopReason::Cancelled,
            }),
            end.hooks.on_exit,
        ),
        end.hooks.before_attempt == hooks.before_attempt,
        end.hooks.after_attempt == hooks.after_attempt,
        end.hooks.before_sleep == hooks.before_sleep,
{
    counters_along_the_way(rules, before, c, trace, end, given, i);
    let here = reached(c, trace, i);
    let left = (ATTEMPT_LIMIT - i) as nat;
    assert(here.turns(rules, left, trace[i]));
    if i < trace.len() - 1 {
        assert(trace[i] is Waited);
    }
    crate::duration::duration_ext(since, reading.elapsed->0);
    assert(reached(c, trace, i + 1) == here.after(trace[i]));
}

/// The caller gets what the last round led to, and every round before it ends in a wait.
pub proof fn loop_ends_with_its_last_round<F, S, W, P, Cn, Cl, BA, AA, BS, OX, T, E>(
    rules: LoopRules<S, W, P, Cn>,
    before: (F, Cl, ExecutionHooks<BA, AA, BS, OX>),
    c: Course<F, Cl, BA, AA, BS, OX, T, E>,
    trace: Seq<Turn<F, Cl, BA, AA, BS, OX, T, E>>,
    end: Course<F, Cl, BA, AA, BS, OX, T, E>,
    given: (Result<T, RetryError<T, E>>, Option<RetryStats>),
) where
    F: RetryOp<Output = Result<T, E>>,
    S: Stop,
    W: Wait,
    P: Predicate<T, E>,
    Cn: Canceler,
    Cl: SyncClock,
    BA: BeforeAttemptHook,
    AA: AttemptHook<T, E>,
    BS: AttemptHook<T, E>,
    OX: ExitHook<T, E>,

    requires
        c.begins(before.0, before.1, before.2),
        goes(rules, c, ATTEMPT_LIMIT as nat, trace, end, given),
    ensures
        trace.len() > 0,
        c.op == before.0,
        c.hooks == before.2,
        c.tracker.baseline() matches Some(origin) && before.1.reads(c.clock, origin),
        forall|i: int| 0 <= i < trace.len() - 1 ==> #[trigger] trace[i] is Waited,
        !(trace.last() is Waited),
        trace.last() matches Turn::Ended { tried } ==> tried.transition
            == (AttemptTransition::Finished { result: given.0, stats: given.1 }) && end.op
            == tried.op && end.clock == tried.after.clock && end.hooks == tried.hooks,
{
    let n = trace.len() - 1;
    assert(reached(c, trace, n).turns(rules, (ATTEMPT_LIMIT - n) as nat, trace[n]));
    assert(reached(c, trace, n + 1) == reached(c, trace, n).after(trace[n]));
}

/// A driven loop begins at the first attempt with nothing elapsed, waited for or completed.
pub proof fn driven_loop_begins_at_the_first_attempt<Policy, Cn, BA, AA, BS, OX, T, E>(
    policy: Policy,
    canceler: Cn,
    hooks: ExecutionHooks<BA, AA, BS, OX>,
    timeout: Option<Duration>,
    collect_stats: bool,
    made: EngineState<Policy, Cn, BA, AA, BS, OX, T, E>,
)
    requires
        made.is_new(policy, canceler, hooks, timeout, collect_stats),
    ensures
        made.policy == policy,
        made.canceler == canceler,
        made.hooks == hooks,
        made.timeout == timeout,
        made.collect_stats == collect_stats,
        made.phase == AsyncPhase::ReadyToStartAttempt,
        made.tracker.baseline() is None,
        made.attempt == 1,
        made.total_wait@ == 0,
        made.previous_delay is None,
        made.last_result is None,
{
}

/// A driven loop calls the operation with the state that the hook before the attempt saw:
/// the attempt, the time from the first reading to the present one, and the wait made
/// before. The canceler had just said no. Nothing else about the loop changes but that it
/// is polling.
pub proof fn driven_operation_sees_the_attempt<Policy, Cn, Cl, BA, AA, BS, OX, T, E>(
    before: EngineState<Policy, Cn, BA, AA, BS, OX, T, E>,
    after: EngineState<Policy, Cn, BA, AA, BS, OX, T, E>,
    clock: Cl,
    clock_after: Cl,
    action: PollAction<T, E>,
    origin: Duration,
) where Cl: Clock, Cn: Canceler, BA: BeforeAttemptHook
    requires
        before.tracker.baseline() == Some(origin),
        after.is_resumed(before, clock, clock_after, action),
    ensures
        before.canceler.may_say(false),
        exists|now: Duration| #[trigger]
            clock.reads(clock_after, now) && (action matches PollAction::Call(state) && {
                &&& state.attempt == before.attempt
                &&& state.previous_delay == before.previous_delay
                &&& state.next_delay is None
                &&& state.clocked
                &&& now@ <= MAX_NANOS && now@ >= origin@ ==> state.elapsed@ == now@ - origin@
                &&& now@ < origin@ ==> state.elapsed@ == 0
                &&& before.hooks.before_attempt.fires(state, after.hooks.before_attempt)
            }),
        after.hooks.after_attempt == before.hooks.after_attempt,
        after.hooks.before_sleep == before.hooks.before_sleep,
        after.hooks.on_exit == before.hooks.on_exit,
        after.phase == AsyncPhase::PollingOperation,
        after.policy == before.policy,
        after.canceler == before.canceler,
        after.timeout == before.timeout,
        after.collect_stats == before.collect_stats,
        after.tracker == before.tracker,
        after.attempt == before.attempt,
        after.total_wait == before.total_wait,
        after.previous_delay == before.previous_delay,
        after.last_result == before.last_result,
{
    let reading = choose|reading: Reading<Cl>|
        {
            let state = RetryState {
                attempt: before.attempt,
                elapsed: seen(reading.elapsed),
                clocked: reading.elapsed is Some,
                previous_delay: before.previous_delay,
                next_delay: None,
            };
            &&& #[trigger] reading.is_of(clock, before.tracker)
            &&& clock_after == reading.clock
            &&& before.hooks.before_attempt.fires(state, after.hooks.before_attempt)
            &&& action == PollAction::<T, E>::Call(state)
        };
    assert(clock.reads(clock_after, reading.now));
}

/// A driven loop that is found to be cancelled ends at once. The caller gets the outcome of
/// the last attempt that completed, if one did. The hook at the end, and no other, is told
/// of it, and it and the totals tell the time by one last reading of the clock.
pub proof fn driven_cancelled_loop_ends_at_once<Policy, Cn, Cl, BA, AA, BS, OX, T, E>(
    before: EngineState<Policy, Cn, BA, AA, BS, OX, T, E>,
    after: EngineState<Policy, Cn, BA, AA, BS, OX, T, E>,
    attempts: u32,
    clock: Cl,
    clock_after: Cl,
    action: PollAction<T, E>,
    origin: Duration,
    seen_last: Option<&Result<T, E>>,
) where Cl: Clock, Cn: Canceler, OX: ExitHook<T, E>
    requires
        before.tracker.baseline() == Some(origin),
        match before.last_result {
            Some(outcome) => seen_last == Some(&outcome),
            None => seen_last is None,
        },
        after.is_cancelled(before, attempts, clock, clock_after, action),
    ensures
        before.canceler.may_say(true),
        exists|now: Duration, since: Duration|
            #![trigger clock.reads(clock_after, now), before.tracker.tells(Some(now), Some(since))]
            {
                &&& clock.reads(clock_after, now)
                &&& now@ <= MAX_NANOS && now@ >= origin@ ==> since@ == now@ - origin@
                &&& now@ < origin@ ==> since@ == 0
                &&& before.hooks.on_exit.fires(
                    (ExitState {
                        attempt: attempts,
                        elapsed: Some(since),
                        outcome: seen_last,
                        total_wait: before.total_wait,
                        stop_reason: StopReason::Cancelled,
                    }),
                    after.hooks.on_exit,
                )
                &&& action matches PollAction::Finish { result, stats }
                &&& result == Err::<T, RetryError<T, E>>(
                    RetryError::Cancelled { last: before.last_result },
                )
                &&& !before.collect_stats ==> stats is None
                &&& before.collect_stats ==> stats == Some(
                    RetryStats {
                        attempts,
                        total_elapsed: Some(since),
                        total_wait: before.total_wait,
                        stop_reason: StopReason::Cancelled,
                    },
                )
            },
        after.phase == AsyncPhase::Finished,
        after.hooks.before_attempt == before.hooks.before_attempt,
        after.hooks.after_attempt == before.hooks.after_attempt,
        after.hooks.before_sleep == before.hooks.before_sleep,
{
    let reading = choose|reading: Reading<Cl>|
        {
            &&& #[trigger] reading.is_of(clock, before.tracker)
            &&& clock_after == reading.clock
            &&& tells_cancel(
                attempts,
                reading.elapsed,
                before.last_result,
                before.total_wait,
                before.hooks,
                after.hooks,
            )
            &&& action == PollAction::Finish {
                result: Err::<T, RetryError<T, E>>(
                    RetryError::Cancelled { last: before.last_result },
                ),
                stats: wanted_stats(
                    before.collect_stats,
                    attempts,
                    reading.elapsed,
                    before.total_wait,
                    StopReason::Cancelled,
                ),
            }
        };
    assert(reading.elapsed is Some);
    assert(clock.reads(clock_after, reading.now));
    assert(before.tracker.tells(Some(reading.now), Some(reading.elapsed->0)));
}

/// A driven loop deals with an outcome as a blocking one does, by a reading of the clock
/// when it comes in.
pub proof fn driven_outcome_is_dealt_with<Policy, Cn, Cl, BA, AA, BS, OX, T, E>(
    before: EngineState<Policy, Cn, BA, AA, BS, OX, T, E>,
    clock: Cl,
    outcome: Result<T, E>,
    dealt: Dealt<Cl, BA, AA, BS, OX, T, E>,
    origin: Duration,
    state: RetryState,
) where
    Cl: Clock,
    Policy: PolicyHandle,
    Policy::Stop: Stop,
    Policy::Wait: Wait,
    Policy::Predicate: Predicate<T, E>,
    AA: AttemptHook<T, E>,
    BS: AttemptHook<T, E>,
    OX: ExitHook<T, E>,

    requires
        before.tracker.baseline() == Some(origin),
        before.deals(clock, outcome, dealt),
        dealt.reading.now@ <= MAX_NANOS,
        state.attempt == before.attempt,
        state.previous_delay == before.previous_delay,
        state.next_delay is None,
        state.clocked,
        dealt.reading.now@ >= origin@ ==> state.elapsed@ == dealt.reading.now@ - origin@,
        dealt.reading.now@ < origin@ ==> state.elapsed@ == 0,
    ensures
        clock.reads(dealt.reading.clock, dealt.reading.now),
        dealt.transition matches AttemptTransition::Sleep { next_delay, last_result } ==> {
            &&& last_result == outcome
            &&& before.policy.policy().predicate.may_answer(outcome, true)
            &&& before.policy.policy().wait.may_wait(state, next_delay)
            &&& before.policy.policy().stop.may_stop((RetryState { next_delay: Some(next_delay), ..state }), false)
            &&& before.timeout matches Some(budget) ==> (Some(state.elapsed) matches Some(since) ==> since@ < budget@)
            &&& dealt.hooks == before.hooks
        },
        dealt.transition matches AttemptTransition::Finished { result, stats } ==> {
            let reason = match result {
                Ok(_) => StopReason::Succeeded,
                Err(RetryError::Rejected { .. }) => StopReason::Rejected,
                _ => StopReason::Exhausted,
            };
            &&& dealt.hooks.before_attempt == before.hooks.before_attempt
            &&& dealt.hooks.before_sleep == before.hooks.before_sleep
            &&& before.hooks.after_attempt.fires(
                (AttemptState {
                    attempt: state.attempt,
                    elapsed: Some(state.elapsed),
                    outcome: &outcome,
                    next_delay: None,
                }),
                dealt.hooks.after_attempt,
            )
            &&& before.hooks.on_exit.fires(
                (ExitState {
                    attempt: state.attempt,
                    elapsed: Some(state.elapsed),
                    outcome: Some(&outcome),
                    total_wait: before.total_wait,
                    stop_reason: reason,
                }),
                dealt.hooks.on_exit,
            )
            &&& exit_told_after(
                before.hooks.on_exit,
                dealt.hooks.after_attempt,
                (ExitState {
                    attempt: state.attempt,
                    elapsed: Some(state.elapsed),
                    outcome: Some(&outcome),
                    total_wait: before.total_wait,
                    stop_reason: reason,
                }),
            )
            &&& !before.collect_stats ==> stats is None
            &&& before.collect_stats ==> stats == Some(
                RetryStats {
                    attempts: state.attempt,
                    total_elapsed: Some(state.elapsed),
                    total_wait: before.total_wait,
                    stop_reason: reason,
                },
            )
            &&& match result {
                Ok(value) => {
                    &&& outcome == Ok::<T, E>(value)
                    &&& before.policy.policy().predicate.may_answer(outcome, false)
                },
                Err(RetryError::Rejected { last }) => {
                    &&& outcome == Err::<T, E>(last)
                    &&& before.policy.policy().predicate.may_answer(outcome, false)
                },
                Err(RetryError::Exhausted { last }) => {
                    &&& last == outcome
                    &&& before.policy.policy().predicate.may_answer(outcome, true)
                    &&& exists|named: Duration| #[trigger]
                        before.policy.policy().wait.may_wait(state, named) && (before.policy.policy().stop.may_stop(
                            (RetryState { next_delay: Some(named), ..state }),
                            true,
                        ) || (before.timeout matches Some(budget) && Some(state.elapsed) matches Some(since) && since@
                            >= budget@))
                },
                Err(RetryError::Cancelled { .. }) => false,
            }
        },
{
    crate::duration::duration_ext(state.elapsed, dealt.reading.elapsed->0);
    assert(dealt.reading.elapsed == Some(state.elapsed));
    let policy = before.policy.policy();
    assert(before.place(dealt.reading.elapsed) == (Place {
        attempt: state.attempt,
        elapsed: Some(state.elapsed),
        previous_delay: state.previous_delay,
        total_wait: before.total_wait,
    }));
    outcome_leads_on(
        state,
        Some(state.elapsed),
        before.total_wait,
        outcome,
        policy.stop,
        policy.wait,
        policy.predicate,
        before.timeout,
        before.collect_stats,
        before.hooks,
        dealt.hooks,
        dealt.transition,
    );
}

/// A driven loop sets a wait as a blocking one makes it: the one that the strategy named,
/// or what the timeout leaves by one more reading where that is less. The hooks after the
/// attempt and before the wait see it, each once, and the total grows by as much.
pub proof fn driven_wait_is_set<Policy, Cn, Cl, BA, AA, BS, OX, T, E>(
    before: EngineState<Policy, Cn, BA, AA, BS, OX, T, E>,
    outcome: Result<T, E>,
    dealt: Dealt<Cl, BA, AA, BS, OX, T, E>,
    put: Put<Cl, BA, AA, BS, OX>,
    origin: Duration,
    since: Duration,
    named: Duration,
) where Cl: Clock, AA: AttemptHook<T, E>, BS: AttemptHook<T, E>
    requires
        before.tracker.baseline() == Some(origin),
        before.puts(outcome, dealt, put),
        put.reading.now@ <= MAX_NANOS,
        before.timeout matches Some(budget) ==> budget@ <= MAX_NANOS,
        put.reading.now@ >= origin@ ==> since@ == put.reading.now@ - origin@,
        put.reading.now@ < origin@ ==> since@ == 0,
        dealt.transition matches AttemptTransition::Sleep { next_delay, .. } ==> named
            == next_delay,
    ensures
        dealt.transition is Sleep,
        dealt.reading.clock.reads(put.reading.clock, put.reading.now),
        put.delay@ <= named@,
        before.timeout is None ==> put.delay@ == named@,
        before.timeout matches Some(budget) ==> {
            &&& named@ <= budget@ - since@ ==> put.delay@ == named@
            &&& 0 <= budget@ - since@ < named@ ==> put.delay@ == budget@ - since@
            &&& since@ > budget@ ==> put.delay@ == 0
        },
        before.total_wait@ + put.delay@ <= MAX_NANOS ==> put.total_wait@ == before.total_wait@
            + put.delay@,
        before.total_wait@ + put.delay@ > MAX_NANOS ==> put.total_wait@ == MAX_NANOS,
        dealt.hooks.after_attempt.fires(
            (AttemptState {
                attempt: before.attempt,
                elapsed: Some(since),
                outcome: &outcome,
                next_delay: Some(put.delay),
            }),
            put.hooks.after_attempt,
        ),
        dealt.hooks.before_sleep.fires(
            (AttemptState {
                attempt: before.attempt,
                elapsed: Some(since),
                outcome: &outcome,
                next_delay: Some(put.delay),
            }),
            put.hooks.before_sleep,
        ),
        attempt_told_after(
            dealt.hooks.before_sleep,
            put.hooks.after_attempt,
            (AttemptState {
                attempt: before.attempt,
                elapsed: Some(since),
                outcome: &outcome,
                next_delay: Some(put.delay),
            }),
        ),
        put.hooks.before_attempt == dealt.hooks.before_attempt,
        put.hooks.on_exit == dealt.hooks.on_exit,
{
    crate::duration::duration_ext(since, put.reading.elapsed->0);
}

/// An outcome ends a driven loop with what it was dealt, or is put off by the wait that was
/// set. A wait that is not empty is waited for and then leads to the next attempt; an empty
/// one leads there at once. The outcome and the wait are kept in mind.
pub proof fn driven_outcome_ends_or_is_put_off<Policy, Cn, Cl, BA, AA, BS, OX, T, E>(
    before: EngineState<Policy, Cn, BA, AA, BS, OX, T, E>,
    after: EngineState<Policy, Cn, BA, AA, BS, OX, T, E>,
    clock: Cl,
    clock_after: Cl,
    outcome: Result<T, E>,
    action: PollAction<T, E>,
) where
    Cl: Clock,
    Policy: PolicyHandle,
    Policy::Stop: Stop,
    Policy::Wait: Wait,
    Policy::Predicate: Predicate<T, E>,
    AA: AttemptHook<T, E>,
    BS: AttemptHook<T, E>,
    OX: ExitHook<T, E>,

    requires
        after.is_completed(before, clock, clock_after, outcome, action),
    ensures
        after.policy == before.policy,
        after.canceler == before.canceler,
        after.timeout == before.timeout,
        after.collect_stats == before.collect_stats,
        after.tracker == before.tracker,
        exists|dealt: Dealt<Cl, BA, AA, BS, OX, T, E>| #[trigger]
            before.deals(clock, outcome, dealt) && match dealt.transition {
                AttemptTransition::Finished { result, stats } => {
                    &&& action == PollAction::Finish { result, stats }
                    &&& after.phase == AsyncPhase::Finished
                    &&& after.hooks == dealt.hooks
                    &&& clock_after == dealt.reading.clock
                },
                AttemptTransition::Sleep { .. } => exists|put: Put<Cl, BA, AA, BS, OX>| #[trigger]
                    before.puts(outcome, dealt, put) && {
                        &&& after.hooks == put.hooks
                        &&& clock_after == put.reading.clock
                        &&& after.total_wait == put.total_wait
                        &&& after.previous_delay == Some(put.delay)
                        &&& after.last_result == Some(outcome)
                        &&& put.delay@ > 0 ==> {
                            &&& action == PollAction::<T, E>::Sleep(put.delay)
                            &&& after.phase == AsyncPhase::Sleeping
                            &&& after.attempt == before.attempt
                        }
                        &&& put.delay@ == 0 ==> {
                            &&& action == PollAction::<T, E>::Resume
                            &&& after.phase == AsyncPhase::ReadyToStartAttempt
                            &&& before.attempt < u32::MAX ==> after.attempt == before.attempt + 1
                            &&& before.attempt == u32::MAX ==> after.attempt == u32::MAX
                        }
                    },
            },
{
    let dealt = choose|dealt: Dealt<Cl, BA, AA, BS, OX, T, E>|
        {
            &&& #[trigger] before.deals(clock, outcome, dealt)
            &&& {
                ||| after.is_finished(before, clock_after, dealt, action)
                ||| exists|put: Put<Cl, BA, AA, BS, OX>| #[trigger]
                    before.puts(outcome, dealt, put) && after.is_put_off(
                        before,
                        clock_after,
                        outcome,
                        put,
                        action,
                    )
            }
        };
    assert(before.deals(clock, outcome, dealt));
    if !after.is_finished(before, clock_after, dealt, action) {
        let put = choose|put: Put<Cl, BA, AA, BS, OX>| #[trigger]
            before.puts(outcome, dealt, put) && after.is_put_off(
                before,
                clock_after,
                outcome,
                put,
                action,
            );
        assert(before.puts(outcome, dealt, put));
    }
}

/// A wait of a driven loop that is over leads to the next attempt, where the canceler says
/// no, and changes nothing else.
pub proof fn driven_wait_leads_to_the_next_attempt<Policy, Cn: Canceler, BA, AA, BS, OX, T, E>(
    before: EngineState<Policy, Cn, BA, AA, BS, OX, T, E>,
    after: EngineState<Policy, Cn, BA, AA, BS, OX, T, E>,
    action: PollAction<T, E>,
)
    requires
        after.is_awake(before, action),
    ensures
        before.canceler.may_say(false),
        action is Resume,
        after.phase == AsyncPhase::ReadyToStartAttempt,
        before.attempt < u32::MAX ==> after.attempt == before.attempt + 1,
        before.attempt == u32::MAX ==> after.attempt == u32::MAX,
        after == (EngineState { phase: after.phase, attempt: after.attempt, ..before }),
{
}

/// A blocking loop is run from the operation, the clock and the hooks it is lent, by the
/// rules it is given, round by round. It leaves them where the last round left them, and
/// gives what that round led to.
pub proof fn loop_is_run_round_by_round<F, S, W, P, Cn, Cl, BA, AA, BS, OX, T, E>(
    policy: PredicatePolicy<S, W, P>,
    hooks: &mut ExecutionHooks<BA, AA, BS, OX>,
    op: &mut F,
    clock: &mut Cl,
    canceler: Cn,
    timeout: Option<Duration>,
    collect_stats: bool,
    given: (Result<T, RetryError<T, E>>, Option<RetryStats>),
) where
    F: RetryOp<Output = Result<T, E>>,
    S: Stop,
    W: Wait,
    P: Predicate<T, E>,
    Cn: Canceler,
    Cl: SyncClock,
    BA: BeforeAttemptHook,
    AA: AttemptHook<T, E>,
    BS: AttemptHook<T, E>,
    OX: ExitHook<T, E>,

    requires
        call_ensures(
            execute_sync_loop::<F, S, W, P, Cn, Cl, BA, AA, BS, OX, T, E>,
            (&policy, hooks, op, clock, &canceler, timeout, collect_stats),
            given,
        ),
    ensures
        exists|
            rules: LoopRules<S, W, P, Cn>,
            c: Course<F, Cl, BA, AA, BS, OX, T, E>,
            trace: Seq<Turn<F, Cl, BA, AA, BS, OX, T, E>>,
            end: Course<F, Cl, BA, AA, BS, OX, T, E>,
        |
            {
                &&& #[trigger] goes(rules, c, u64::MAX as nat, trace, end, given)
                &&& rules.policy == policy
                &&& rules.timeout == timeout
                &&& rules.canceler == canceler
                &&& rules.collect_stats == collect_stats
                &&& c.begins(*old(op), *old(clock), *old(hooks))
                &&& end.op == *final(op)
                &&& end.clock == *final(clock)
                &&& end.hooks == *final(hooks)
            },
{
    let rules = LoopRules { policy, timeout, canceler, collect_stats };
    loop_goes_round_by_round(
        rules,
        (*old(op), *old(clock), *old(hooks)),
        (*final(op), *final(clock), *final(hooks)),
        given,
    );
}

/// What is made of an outcome, called for with what is known of the attempt. See
/// [`outcome_leads_on`].
pub proof fn transition_goes_by_the_attempt<S, W, P, BA, AA, BS, OX, T, E>(
    stop: S,
    wait: W,
    predicate: P,
    hooks: &mut ExecutionHooks<BA, AA, BS, OX>,
    outcome: Result<T, E>,
    state: RetryState,
    elapsed: Option<Duration>,
    total: Duration,
    collect_stats: bool,
    timeout: Option<Duration>,
    transition: AttemptTransition<T, E>,
) where
    S: Stop,
    W: Wait,
    P: Predicate<T, E>,
    BA: BeforeAttemptHook,
    AA: AttemptHook<T, E>,
    BS: AttemptHook<T, E>,
    OX: ExitHook<T, E>,

    requires
        state.next_delay is None,
        state.clocked <==> elapsed is Some,
        elapsed matches Some(since) ==> state.elapsed == since,
        elapsed is None ==> state.elapsed@ == 0,
        call_ensures(
            transition_from_outcome::<S, W, P, BA, AA, BS, OX, T, E>,
            (
                &stop,
                &wait,
                &predicate,
                hooks,
                outcome,
                state.attempt,
                elapsed,
                state.previous_delay,
                total,
                collect_stats,
                timeout,
            ),
            transition,
        ),
    ensures
        transition matches AttemptTransition::Sleep { next_delay, last_result } ==> {
            &&& last_result == outcome
            &&& predicate.may_answer(outcome, true)
            &&& wait.may_wait(state, next_delay)
            &&& stop.may_stop((RetryState { next_delay: Some(next_delay), ..state }), false)
            &&& timeout matches Some(budget) ==> (elapsed matches Some(since) ==> since@ < budget@)
            &&& *final(hooks) == *old(hooks)
        },
        transition matches AttemptTransition::Finished { result, stats } ==> {
            let reason = match result {
                Ok(_) => StopReason::Succeeded,
                Err(RetryError::Rejected { .. }) => StopReason::Rejected,
                _ => StopReason::Exhausted,
            };
            &&& final(hooks).before_attempt == old(hooks).before_attempt
            &&& final(hooks).before_sleep == old(hooks).before_sleep
            &&& old(hooks).after_attempt.fires(
                (AttemptState {
                    attempt: state.attempt,
                    elapsed: elapsed,
                    outcome: &outcome,
                    next_delay: None,
                }),
                final(hooks).after_attempt,
            )
            &&& old(hooks).on_exit.fires(
                (ExitState {
                    attempt: state.attempt,
                    elapsed: elapsed,
                    outcome: Some(&outcome),
                    total_wait: total,
                    stop_reason: reason,
                }),
                final(hooks).on_exit,
            )
            &&& exit_told_after(
                old(hooks).on_exit,
                final(hooks).after_attempt,
                (ExitState {
                    attempt: state.attempt,
                    elapsed: elapsed,
                    outcome: Some(&outcome),
                    total_wait: total,
                    stop_reason: reason,
                }),
            )
            &&& !collect_stats ==> stats is None
            &&& collect_stats ==> stats == Some(
                RetryStats {
                    attempts: state.attempt,
                    total_elapsed: elapsed,
                    total_wait: total,
                    stop_reason: reason,
                },
            )
            &&& match result {
                Ok(value) => {
                    &&& outcome == Ok::<T, E>(value)
                    &&& predicate.may_answer(outcome, false)
                },
                Err(RetryError::Rejected { last }) => {
                    &&& outcome == Err::<T, E>(last)
                    &&& predicate.may_answer(outcome, false)
                },
                Err(RetryError::Exhausted { last }) => {
                    &&& last == outcome
                    &&& predicate.may_answer(outcome, true)
                    &&& exists|named: Duration| #[trigger]
                        wait.may_wait(state, named) && (stop.may_stop(
                            (RetryState { next_delay: Some(named), ..state }),
                            true,
                        ) || (timeout matches Some(budget) && elapsed matches Some(since) && since@
                            >= budget@))
                },
                Err(RetryError::Cancelled { .. }) => false,
            }
        },
{
    outcome_leads_on(
        state,
        elapsed,
        total,
        outcome,
        stop,
        wait,
        predicate,
        timeout,
        collect_stats,
        *old(hooks),
        *final(hooks),
        transition,
    );
}

/// Under `before_elapsed(deadline)` a retry follows only where the time elapsed and the
/// named wait together stay short of the deadline, and the loop ends by it only where they
/// do not.
pub proof fn before_elapsed_holds_in_the_loop<W, P, BA, AA, BS, OX, T, E>(
    deadline: Duration,
    stop: StopBeforeElapsed,
    wait: W,
    predicate: P,
    state: RetryState,
    elapsed: Duration,
    total: Duration,
    outcome: Result<T, E>,
    collect_stats: bool,
    hooks: ExecutionHooks<BA, AA, BS, OX>,
    after: ExecutionHooks<BA, AA, BS, OX>,
    transition: AttemptTransition<T, E>,
) where W: Wait, P: Predicate<T, E>, AA: AttemptHook<T, E>, OX: ExitHook<T, E>
    requires
        deadline@ <= MAX_NANOS,
        call_ensures(crate::stop::before_elapsed, (deadline,), stop),
        transits(
            stop,
            wait,
            predicate,
            None,
            (Place {
                attempt: state.attempt,
                elapsed: Some(elapsed),
                previous_delay: state.previous_delay,
                total_wait: total,
            }),
            outcome,
            collect_stats,
            hooks,
            after,
            transition,
        ),
    ensures
        transition matches AttemptTransition::Sleep { next_delay, .. } ==> elapsed@ + next_delay@
            < deadline@,
        transition matches AttemptTransition::Finished { result, .. } ==> (
        result matches Err(RetryError::Exhausted { .. }) ==> exists|
            seen: RetryState,
            named: Duration,
        | #[trigger]
            wait.may_wait(seen, named) && seen.attempt == state.attempt && elapsed@ + named@
                >= deadline@),
{
    let place = Place {
        attempt: state.attempt,
        elapsed: Some(elapsed),
        previous_delay: state.previous_delay,
        total_wait: total,
    };
    if predicate.may_answer(outcome, true) && exists|named: Duration| #[trigger]
        wait.may_wait(place.state(), named) && after_retry(
            stop,
            None,
            place,
            outcome,
            named,
            collect_stats,
            hooks,
            after,
            transition,
        ) {
        let named = choose|named: Duration| #[trigger]
            wait.may_wait(place.state(), named) && after_retry(
                stop,
                None,
                place,
                outcome,
                named,
                collect_stats,
                hooks,
                after,
                transition,
            );
        assert(wait.may_wait(place.state(), named));
    }
}

/// What a driven loop does on each event. Where the canceler says yes it ends as cancelled,
/// with the attempts that completed. Where it says no, it starts an attempt when it is
/// resumed, goes on waiting while a wait is not over, and goes on to the next attempt when
/// it is. It deals with an outcome when it comes in, whatever the canceler would say.
pub proof fn driven_loop_goes_event_by_event<Policy, Cn, Cl, BA, AA, BS, OX, T, E>(
    engine: &mut AsyncEngine<Policy, Cn, BA, AA, BS, OX, T, E>,
    event: PollEvent<T, E>,
    clock: &mut Cl,
    action: PollAction<T, E>,
    completed: u32,
) where
    Cl: Clock,
    Cn: Canceler,
    Policy: PolicyHandle,
    Policy::Stop: Stop,
    Policy::Wait: Wait,
    Policy::Predicate: Predicate<T, E>,
    BA: BeforeAttemptHook,
    AA: AttemptHook<T, E>,
    BS: AttemptHook<T, E>,
    OX: ExitHook<T, E>,

    requires
        old(engine)@.attempt >= 1,
        completed == if event is Resumed {
            old(engine)@.attempt - 1
        } else {
            old(engine)@.attempt as int
        },
        call_ensures(
            AsyncEngine::<Policy, Cn, BA, AA, BS, OX, T, E>::poll_step::<Cl>,
            (engine, event, clock),
            action,
        ),
    ensures
        event matches PollEvent::Completed(outcome) ==> final(engine)@.is_completed(
            old(engine)@,
            *old(clock),
            *final(clock),
            outcome,
            action,
        ),
        !(event is Completed) ==> final(engine)@.is_cancelled(
            old(engine)@,
            completed,
            *old(clock),
            *final(clock),
            action,
        ) || {
            &&& old(engine)@.canceler.may_say(false)
            &&& event is Resumed ==> final(engine)@.is_resumed(
                old(engine)@,
                *old(clock),
                *final(clock),
                action,
            )
            &&& event is StillSleeping ==> {
                &&& action is Pending
                &&& final(engine)@ == old(engine)@
                &&& *final(clock) == *old(clock)
            }
            &&& event is Slept ==> {
                &&& final(engine)@.is_awake(old(engine)@, action)
                &&& *final(clock) == *old(clock)
            }
        },
{
}

/// A driven loop is begun by a reading, and by the first one only.
pub proof fn driven_loop_is_begun_by_a_reading<Policy, Cn, BA, AA, BS, OX, T, E>(
    engine: &mut AsyncEngine<Policy, Cn, BA, AA, BS, OX, T, E>,
    now: Duration,
)
    requires
        call_ensures(
            AsyncEngine::<Policy, Cn, BA, AA, BS, OX, T, E>::start,
            (engine, now),
            (),
        ),
    ensures
        old(engine)@.tracker.baseline() is None ==> final(engine)@.tracker.baseline() == Some(now),
        old(engine)@.tracker.baseline() is Some ==> final(engine)@.tracker.baseline()
            == old(engine)@.tracker.baseline(),
        final(engine)@ == (EngineState { tracker: final(engine)@.tracker, ..old(engine)@ }),
{
}

} // verus!
