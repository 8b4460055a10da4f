//! What holds of the loops that go by a predicate as a whole.

use super::async_loop::{AsyncPhase, Dealt, EngineState, PollAction, Put};
use super::common::{after_retry, over_budget};
use super::hooks::{AttemptHook, BeforeAttemptHook, ExecutionHooks, ExitHook};
use super::policy::PredicatePolicy;
use super::sync_loop::{ends, runs, Course, LoopRules, Paused, Tried, Turn};
use crate::cancel::{CancelNever, Canceler};
use crate::clock::SyncClock;
use crate::duration::Duration;
use crate::engine::laws::{kept_by_calls, may_come_from};
use crate::engine::op::RetryOp;
use crate::engine::run::{next_attempt, Bounded, ATTEMPT_LIMIT};
use crate::error::RetryError;
use crate::predicate::Predicate;
use crate::state::{seen, RetryState};
use crate::stats::{RetryStats, StopReason};
use crate::stop::laws::must_answer;
use crate::stop::{Stop, StopAfterAttempts};
use crate::wait::Wait;
use vstd::prelude::*;

verus! {

/// Whether a result and the reason in the totals tell the same story.
pub open spec fn agree<T, E>(
    given: (Result<T, RetryError<T, E>>, Option<RetryStats>),
) -> bool {
    given.1 matches Some(stats) ==> stats.stop_reason == match given.0 {
        Ok(_) => StopReason::Succeeded,
        Err(error) => error.reason(),
    }
}

/// Whether the caller gets what is due: a value or an error that the predicate
/// accepts, an outcome that it would retry, or word of a cancellation.
pub open spec fn earned<T, E, F, P, Cn>(
    keep: spec_fn(F) -> bool,
    predicate: P,
    canceler: Cn,
    result: Result<T, RetryError<T, E>>,
) -> bool where F: RetryOp<Output = Result<T, E>>, P: Predicate<T, E>, Cn: Canceler {
    match result {
        Ok(value) => predicate.may_answer(Ok(value), false) && may_come_from(keep, Ok(value)),
        Err(RetryError::Rejected { last }) => predicate.may_answer(Err(last), false)
            && may_come_from(keep, Err(last)),
        Err(RetryError::Exhausted { last }) => predicate.may_answer(last, true) && may_come_from(
            keep,
            last,
        ),
        Err(RetryError::Cancelled { last }) => canceler.may_say(true) && match last {
            Some(outcome) => predicate.may_answer(outcome, true) && may_come_from(keep, outcome),
            None => true,
        },
    }
}

/// Where a loop begins.
proof fn first_of<F, S, W, P, Cn, Cl, BA, AA, BS, OX, T, E>(
    rules: LoopRules<S, W, P, Cn>,
    before: (F, Cl, ExecutionHooks<BA, AA, BS, OX>),
    after: (F, Cl, ExecutionHooks<BA, AA, BS, OX>),
    given: (Result<T, RetryError<T, E>>, Option<RetryStats>),
) -> (r: (
    Course<F, Cl, BA, AA, BS, OX, T, E>,
    Course<F, Cl, BA, AA, BS, OX, T, E>,
)) where
    F: RetryOp<Output = Result<T, E>>,
    S: Stop,
    W: Wait,
    P: Predicate<T, E>,
    Cn: Canceler,
    Cl: SyncClock,
    BA: BeforeAttemptHook,
    AA: AttemptHook<T, E>,
    BS: AttemptHook<T, E>,
    OX: ExitHook<T, E>,

    requires
        ends(rules, before, after, given),
    ensures
        r.0.begins(before.0, before.1, before.2),
        runs(rules, r.0, ATTEMPT_LIMIT as nat, r.1, given),
        (r.1.op, r.1.clock, r.1.hooks) == after,
{
    choose|
        c: Course<F, Cl, BA, AA, BS, OX, T, E>,
        end: Course<F, Cl, BA, AA, BS, OX, T, E>,
    |
        {
            &&& c.begins(before.0, before.1, before.2)
            &&& #[trigger] runs(rules, c, ATTEMPT_LIMIT as nat, end, given)
            &&& (end.op, end.clock, end.hooks) == after
        }
}

/// The round that a loop makes next.
pub(crate) proof fn next_of<F, S, W, P, Cn, Cl, BA, AA, BS, OX, T, E>(
    rules: LoopRules<S, W, P, Cn>,
    c: Course<F, Cl, BA, AA, BS, OX, T, E>,
    left: nat,
    end: Course<F, Cl, BA, AA, BS, OX, T, E>,
    given: (Result<T, RetryError<T, E>>, Option<RetryStats>),
) -> (r: Turn<F, Cl, BA, AA, BS, OX, T, E>) where
    F: RetryOp<Output = Result<T, E>>,
    S: Stop,
    W: Wait,
    P: Predicate<T, E>,
    Cn: Canceler,
    Cl: SyncClock,
    BA: BeforeAttemptHook,
    AA: AttemptHook<T, E>,
    BS: AttemptHook<T, E>,
    OX: ExitHook<T, E>,

    requires
        runs(rules, c, left, end, given),
    ensures
        left > 0,
        c.turns(rules, left, r),
        match c.gives(rules.collect_stats, r) {
            Some(what) => what == given && end == c.after(r),
            None => runs(rules, c.after(r), (left - 1) as nat, end, given),
        },
{
    choose|turn: Turn<F, Cl, BA, AA, BS, OX, T, E>| #[trigger]
        c.turns(rules, left, turn) && match c.gives(rules.collect_stats, turn) {
            Some(what) => what == given && end == c.after(turn),
            None => runs(rules, c.after(turn), (left - 1) as nat, end, given),
        }
}

/// However a loop goes, the reason in its totals fits its result, and the caller
/// gets what the predicate made of an outcome of the operation, or word that the
/// canceler said so. What holds of the operation at first and is kept by its calls
/// holds of the operation that gave that outcome.
pub proof fn result_is_earned<F, S, W, P, Cn, Cl, BA, AA, BS, OX, T, E>(
    rules: LoopRules<S, W, P, Cn>,
    before: (F, Cl, ExecutionHooks<BA, AA, BS, OX>),
    after: (F, Cl, ExecutionHooks<BA, AA, BS, OX>),
    given: (Result<T, RetryError<T, E>>, Option<RetryStats>),
    keep: spec_fn(F) -> bool,
) where
    F: RetryOp<Output = Result<T, E>>,
    S: Stop,
    W: Wait,
    P: Predicate<T, E>,
    Cn: Canceler,
    Cl: SyncClock,
    BA: BeforeAttemptHook,
    AA: AttemptHook<T, E>,
    BS: AttemptHook<T, E>,
    OX: ExitHook<T, E>,

    requires
        keep(before.0),
        kept_by_calls(keep),
        ends(rules, before, after, given),
    ensures
        agree(given),
        earned(keep, rules.policy.predicate, rules.canceler, given.0),
{
    let (c, end) = first_of(rules, before, after, given);
    earned_along_the_way(rules, c, ATTEMPT_LIMIT as nat, end, given, keep);
}

proof fn earned_along_the_way<F, S, W, P, Cn, Cl, BA, AA, BS, OX, T, E>(
    rules: LoopRules<S, W, P, Cn>,
    c: Course<F, Cl, BA, AA, BS, OX, T, E>,
    left: nat,
    end: Course<F, Cl, BA, AA, BS, OX, T, E>,
    given: (Result<T, RetryError<T, E>>, Option<RetryStats>),
    keep: spec_fn(F) -> bool,
) where
    F: RetryOp<Output = Result<T, E>>,
    S: Stop,
    W: Wait,
    P: Predicate<T, E>,
    Cn: Canceler,
    Cl: SyncClock,
    BA: BeforeAttemptHook,
    AA: AttemptHook<T, E>,
    BS: AttemptHook<T, E>,
    OX: ExitHook<T, E>,

    requires
        keep(c.op),
        kept_by_calls(keep),
        c.last_result matches Some(outcome) ==> rules.policy.predicate.may_answer(outcome, true)
            && may_come_from(keep, outcome),
        runs(rules, c, left, end, given),
    ensures
        agree(given),
        earned(keep, rules.policy.predicate, rules.canceler, given.0),
    decreases left,
{
    let turn = next_of(rules, c, left, end, given);
    match turn {
        Turn::CancelledBefore { .. } => {},
        Turn::Ended { tried } => {
            assert(may_come_from(keep, tried.outcome));
        },
        Turn::Waited { tried, .. } => {
            assert(may_come_from(keep, tried.outcome));
            earned_along_the_way(rules, c.after(turn), (left - 1) as nat, end, given, keep);
        },
        Turn::CancelledAfter { tried, .. } => {
            assert(may_come_from(keep, tried.outcome));
        },
    }
}

/// With a stop strategy that always fires once `max` attempts are made, alone or
/// as a part of the whole, a loop completes at most `max` attempts.
pub proof fn attempts_are_bounded<F, S, W, P, Cn, Cl, BA, AA, BS, OX, T, E>(
    rules: LoopRules<S, W, P, Cn>,
    before: (F, Cl, ExecutionHooks<BA, AA, BS, OX>),
    after: (F, Cl, ExecutionHooks<BA, AA, BS, OX>),
    given: (Result<T, RetryError<T, E>>, Option<RetryStats>),
    max: u32,
) where
    F: RetryOp<Output = Result<T, E>>,
    S: Stop,
    W: Wait,
    P: Predicate<T, E>,
    Cn: Canceler,
    Cl: SyncClock,
    BA: BeforeAttemptHook,
    AA: AttemptHook<T, E>,
    BS: AttemptHook<T, E>,
    OX: ExitHook<T, E>,

    requires
        max >= 1,
        forall|state: RetryState| #![auto]
            state.attempt >= max ==> must_answer(rules.policy.stop, state, true),
        ends(rules, before, after, given),
    ensures
        given.1 matches Some(stats) ==> stats.attempts <= max,
{
    let (c, end) = first_of(rules, before, after, given);
    bounded_along_the_way(rules, c, ATTEMPT_LIMIT as nat, end, given, max);
}

proof fn bounded_along_the_way<F, S, W, P, Cn, Cl, BA, AA, BS, OX, T, E>(
    rules: LoopRules<S, W, P, Cn>,
    c: Course<F, Cl, BA, AA, BS, OX, T, E>,
    left: nat,
    end: Course<F, Cl, BA, AA, BS, OX, T, E>,
    given: (Result<T, RetryError<T, E>>, Option<RetryStats>),
    max: u32,
) where
    F: RetryOp<Output = Result<T, E>>,
    S: Stop,
    W: Wait,
    P: Predicate<T, E>,
    Cn: Canceler,
    Cl: SyncClock,
    BA: BeforeAttemptHook,
    AA: AttemptHook<T, E>,
    BS: AttemptHook<T, E>,
    OX: ExitHook<T, E>,

    requires
        forall|state: RetryState| #![auto]
            state.attempt >= max ==> must_answer(rules.policy.stop, state, true),
        runs(rules, c, left, end, given),
        1 <= c.attempt <= max,
    ensures
        given.1 matches Some(stats) ==> stats.attempts <= max,
    decreases left,
{
    let turn = next_of(rules, c, left, end, given);
    if let Turn::Waited { tried, .. } = turn {
        if c.attempt >= max {
            let place = c.place(tried.after.elapsed);
            let named = tried.transition->next_delay;
            assert(must_answer(rules.policy.stop, place.state_before(named), true));
            assert(!rules.policy.stop.may_stop(place.state_before(named), false));
        }
        bounded_along_the_way(rules, c.after(turn), (left - 1) as nat, end, given, max);
    }
}

/// A wait never outlasts what the timeout leaves.
pub proof fn wait_fits_the_timeout<F, S, W, P, Cn, Cl, BA, AA, BS, OX, T, E>(
    rules: LoopRules<S, W, P, Cn>,
    c: Course<F, Cl, BA, AA, BS, OX, T, E>,
    tried: Tried<F, Cl, BA, AA, BS, OX, T, E>,
    paused: Paused<Cl, BA, AA, BS, OX>,
    budget: Duration,
    since: Duration,
) where
    F: RetryOp<Output = Result<T, E>>,
    S: Stop,
    W: Wait,
    P: Predicate<T, E>,
    Cn: Canceler,
    Cl: SyncClock,
    BA: BeforeAttemptHook,
    AA: AttemptHook<T, E>,
    BS: AttemptHook<T, E>,
    OX: ExitHook<T, E>,

    requires
        c.pauses(rules, tried, paused),
        rules.timeout == Some(budget),
        paused.before.elapsed == Some(since),
    ensures
        since@ <= budget@ ==> since@ + paused.delay@ <= budget@,
        since@ >= budget@ ==> paused.delay@ == 0,
{
}

/// No retry follows an attempt by whose end the timeout is used up.
pub proof fn no_retry_past_the_timeout<F, S, W, P, Cn, Cl, BA, AA, BS, OX, T, E>(
    rules: LoopRules<S, W, P, Cn>,
    c: Course<F, Cl, BA, AA, BS, OX, T, E>,
    left: nat,
    tried: Tried<F, Cl, BA, AA, BS, OX, T, E>,
) where
    F: RetryOp<Output = Result<T, E>>,
    S: Stop,
    W: Wait,
    P: Predicate<T, E>,
    Cn: Canceler,
    Cl: SyncClock,
    BA: BeforeAttemptHook,
    AA: AttemptHook<T, E>,
    BS: AttemptHook<T, E>,
    OX: ExitHook<T, E>,

    requires
        c.tries(rules, left, tried),
        over_budget(rules.timeout, tried.after.elapsed),
    ensures
        tried.transition is Finished,
{
}

/// A loop that ends as exhausted does so because its stop strategy fired after
/// the last attempt, because its timeout was used up by then, or because the count
/// of attempts is at its highest value.
pub proof fn exhausted_only_when_stopped<F, S, W, P, Cn, Cl, BA, AA, BS, OX, T, E>(
    rules: LoopRules<S, W, P, Cn>,
    before: (F, Cl, ExecutionHooks<BA, AA, BS, OX>),
    after: (F, Cl, ExecutionHooks<BA, AA, BS, OX>),
    given: (Result<T, RetryError<T, E>>, Option<RetryStats>),
    stats: RetryStats,
) where
    F: RetryOp<Output = Result<T, E>>,
    S: Stop,
    W: Wait,
    P: Predicate<T, E>,
    Cn: Canceler,
    Cl: SyncClock,
    BA: BeforeAttemptHook,
    AA: AttemptHook<T, E>,
    BS: AttemptHook<T, E>,
    OX: ExitHook<T, E>,

    requires
        ends(rules, before, after, given),
        given.1 == Some(stats),
        stats.stop_reason == StopReason::Exhausted,
    ensures
        over_budget(rules.timeout, stats.total_elapsed) || stats.attempts == u32::MAX || exists|
            state: RetryState,
        | #[trigger]
            rules.policy.stop.may_stop(state, true) && state.attempt == stats.attempts
                && state.elapsed == seen(stats.total_elapsed) && state.clocked == (
                stats.total_elapsed is Some),
{
    let (c, end) = first_of(rules, before, after, given);
    stopped_along_the_way(rules, c, ATTEMPT_LIMIT as nat, end, given, stats);
}

proof fn stopped_along_the_way<F, S, W, P, Cn, Cl, BA, AA, BS, OX, T, E>(
    rules: LoopRules<S, W, P, Cn>,
    c: Course<F, Cl, BA, AA, BS, OX, T, E>,
    left: nat,
    end: Course<F, Cl, BA, AA, BS, OX, T, E>,
    given: (Result<T, RetryError<T, E>>, Option<RetryStats>),
    stats: RetryStats,
) where
    F: RetryOp<Output = Result<T, E>>,
    S: Stop,
    W: Wait,
    P: Predicate<T, E>,
    Cn: Canceler,
    Cl: SyncClock,
    BA: BeforeAttemptHook,
    AA: AttemptHook<T, E>,
    BS: AttemptHook<T, E>,
    OX: ExitHook<T, E>,

    requires
        runs(rules, c, left, end, given),
        given.1 == Some(stats),
        stats.stop_reason == StopReason::Exhausted,
        left <= ATTEMPT_LIMIT,
        c.attempt == u32::MAX || c.attempt == ATTEMPT_LIMIT - left + 1,
    ensures
        over_budget(rules.timeout, stats.total_elapsed) || stats.attempts == u32::MAX || exists|
            state: RetryState,
        | #[trigger]
            rules.policy.stop.may_stop(state, true) && state.attempt == stats.attempts
                && state.elapsed == seen(stats.total_elapsed) && state.clocked == (
                stats.total_elapsed is Some),
    decreases left,
{
    let turn = next_of(rules, c, left, end, given);
    match turn {
        Turn::Ended { tried } => {
            let place = c.place(tried.after.elapsed);
            let bounded = Bounded { inner: &rules.policy.stop, spent: left == 1 };
            let hooks = ExecutionHooks { before_attempt: tried.before_attempt, ..c.hooks };
            let named = choose|named: Duration| #[trigger]
                rules.policy.wait.may_wait(place.state(), named) && after_retry(
                    bounded,
                    rules.timeout,
                    place,
                    tried.outcome,
                    named,
                    rules.collect_stats,
                    hooks,
                    tried.hooks,
                    tried.transition,
                );
            let state = place.state_before(named);
            if rules.policy.stop.may_stop(state, true) {
                assert(state.attempt == stats.attempts);
            }
        },
        Turn::Waited { .. } => {
            stopped_along_the_way(rules, c.after(turn), (left - 1) as nat, end, given, stats);
        },
        _ => {},
    }
}

/// An operation whose every outcome the predicate wants to retry uses all its
/// attempts: a loop that stops by attempts alone and is not cancelled completes
/// exactly as many as it was told and ends as exhausted.
pub proof fn failing_uses_every_attempt<F, W, P, Cl, BA, AA, BS, OX, T, E>(
    rules: LoopRules<StopAfterAttempts, W, P, CancelNever>,
    before: (F, Cl, ExecutionHooks<BA, AA, BS, OX>),
    after: (F, Cl, ExecutionHooks<BA, AA, BS, OX>),
    given: (Result<T, RetryError<T, E>>, Option<RetryStats>),
    keep: spec_fn(F) -> bool,
) where
    F: RetryOp<Output = Result<T, E>>,
    W: Wait,
    P: Predicate<T, E>,
    Cl: SyncClock,
    BA: BeforeAttemptHook,
    AA: AttemptHook<T, E>,
    BS: AttemptHook<T, E>,
    OX: ExitHook<T, E>,

    requires
        rules.policy.stop.max() >= 1,
        rules.timeout is None,
        keep(before.0),
        kept_by_calls(keep),
        forall|outcome: Result<T, E>| #[trigger]
            may_come_from(keep, outcome) ==> !rules.policy.predicate.may_answer(outcome, false),
        ends(rules, before, after, given),
    ensures
        given.0 matches Err(RetryError::Exhausted { .. }),
        given.1 matches Some(stats) ==> stats.attempts == rules.policy.stop.max(),
{
    let (c, end) = first_of(rules, before, after, given);
    failing_along_the_way(rules, c, ATTEMPT_LIMIT as nat, end, given, keep);
}

proof fn failing_along_the_way<F, W, P, Cl, BA, AA, BS, OX, T, E>(
    rules: LoopRules<StopAfterAttempts, W, P, CancelNever>,
    c: Course<F, Cl, BA, AA, BS, OX, T, E>,
    left: nat,
    end: Course<F, Cl, BA, AA, BS, OX, T, E>,
    given: (Result<T, RetryError<T, E>>, Option<RetryStats>),
    keep: spec_fn(F) -> bool,
) where
    F: RetryOp<Output = Result<T, E>>,
    W: Wait,
    P: Predicate<T, E>,
    Cl: SyncClock,
    BA: BeforeAttemptHook,
    AA: AttemptHook<T, E>,
    BS: AttemptHook<T, E>,
    OX: ExitHook<T, E>,

    requires
        rules.timeout is None,
        keep(c.op),
        kept_by_calls(keep),
        forall|outcome: Result<T, E>| #[trigger]
            may_come_from(keep, outcome) ==> !rules.policy.predicate.may_answer(outcome, false),
        runs(rules, c, left, end, given),
        left <= ATTEMPT_LIMIT,
        c.attempt == u32::MAX || c.attempt == ATTEMPT_LIMIT - left + 1,
        c.attempt <= rules.policy.stop.max(),
    ensures
        given.0 matches Err(RetryError::Exhausted { .. }),
        given.1 matches Some(stats) ==> stats.attempts == rules.policy.stop.max(),
    decreases left,
{
    let turn = next_of(rules, c, left, end, given);
    match turn {
        Turn::Ended { tried } => {
            assert(may_come_from(keep, tried.outcome));
        },
        Turn::Waited { tried, .. } => {
            assert(may_come_from(keep, tried.outcome));
            failing_along_the_way(rules, c.after(turn), (left - 1) as nat, end, given, keep);
        },
        _ => {},
    }
}

/// A loop without a canceler is never cancelled.
pub proof fn never_cancelled_without_a_canceler<F, S, W, P, Cl, BA, AA, BS, OX, T, E>(
    rules: LoopRules<S, W, P, CancelNever>,
    before: (F, Cl, ExecutionHooks<BA, AA, BS, OX>),
    after: (F, Cl, ExecutionHooks<BA, AA, BS, OX>),
    given: (Result<T, RetryError<T, E>>, Option<RetryStats>),
) where
    F: RetryOp<Output = Result<T, E>>,
    S: Stop,
    W: Wait,
    P: Predicate<T, E>,
    Cl: SyncClock,
    BA: BeforeAttemptHook,
    AA: AttemptHook<T, E>,
    BS: AttemptHook<T, E>,
    OX: ExitHook<T, E>,

    requires
        ends(rules, before, after, given),
    ensures
        !(given.0 matches Err(RetryError::Cancelled { .. })),
{
    result_is_earned(rules, before, after, given, |op: F| true);
}

/// A loop that is cancelled before it begins calls neither the operation nor any
/// hook but the one for the end, completes no attempt and waits for nothing.
pub proof fn cancelled_at_once_does_nothing<F, S, W, P, Cn, Cl, BA, AA, BS, OX, T, E>(
    rules: LoopRules<S, W, P, Cn>,
    before: (F, Cl, ExecutionHooks<BA, AA, BS, OX>),
    after: (F, Cl, ExecutionHooks<BA, AA, BS, OX>),
    given: (Result<T, RetryError<T, E>>, Option<RetryStats>),
) where
    F: RetryOp<Output = Result<T, E>>,
    S: Stop,
    W: Wait,
    P: Predicate<T, E>,
    Cn: Canceler,
    Cl: SyncClock,
    BA: BeforeAttemptHook,
    AA: AttemptHook<T, E>,
    BS: AttemptHook<T, E>,
    OX: ExitHook<T, E>,

    requires
        !rules.canceler.may_say(false),
        ends(rules, before, after, given),
    ensures
        given.0 matches Err(RetryError::Cancelled { last }) && last is None,
        given.1 matches Some(stats) ==> stats.attempts == 0 && stats.total_wait@ == 0,
        after.0 == before.0,
        after.2 == (ExecutionHooks { on_exit: after.2.on_exit, ..before.2 }),
{
    let (c, end) = first_of(rules, before, after, given);
    let turn = next_of(rules, c, ATTEMPT_LIMIT as nat, end, given);
    assert(turn is CancelledBefore);
}

/// Whether a driven loop is where a blocking loop with the same rules is.
pub open spec fn keeps_pace<F, S, W, P, Cn, Cl, BA, AA, BS, OX, T, E>(
    s: EngineState<PredicatePolicy<S, W, P>, Cn, BA, AA, BS, OX, T, E>,
    rules: LoopRules<S, W, P, Cn>,
    c: Course<F, Cl, BA, AA, BS, OX, T, E>,
) -> bool {
    &&& s.policy == rules.policy
    &&& s.canceler == rules.canceler
    &&& s.timeout == rules.timeout
    &&& s.collect_stats == rules.collect_stats
    &&& s.phase == AsyncPhase::ReadyToStartAttempt
    &&& s.hooks == c.hooks
    &&& s.tracker == c.tracker
    &&& s.attempt == c.attempt
    &&& s.total_wait == c.total_wait
    &&& s.previous_delay == c.previous_delay
    &&& s.last_result == c.last_result
}

/// Whether a driven loop at `s` goes through `through` as a blocking loop at `c`
/// goes through `turn`: it reads the clock alike, calls the operation with the
/// same state, tells the hooks the same, waits the same time, and finishes with
/// the same result and totals or is again where the blocking loop is.
pub open spec fn goes_alike<F, S, W, P, Cn, Cl, BA, AA, BS, OX, T, E>(
    rules: LoopRules<S, W, P, Cn>,
    c: Course<F, Cl, BA, AA, BS, OX, T, E>,
    turn: Turn<F, Cl, BA, AA, BS, OX, T, E>,
    s: EngineState<PredicatePolicy<S, W, P>, Cn, BA, AA, BS, OX, T, E>,
    through: (
        EngineState<PredicatePolicy<S, W, P>, Cn, BA, AA, BS, OX, T, E>,
        EngineState<PredicatePolicy<S, W, P>, Cn, BA, AA, BS, OX, T, E>,
        EngineState<PredicatePolicy<S, W, P>, Cn, BA, AA, BS, OX, T, E>,
    ),
) -> bool where
    F: RetryOp<Output = Result<T, E>>,
    S: Stop,
    W: Wait,
    P: Predicate<T, E>,
    Cn: Canceler,
    Cl: SyncClock,
    BA: BeforeAttemptHook,
    AA: AttemptHook<T, E>,
    BS: AttemptHook<T, E>,
    OX: ExitHook<T, E>,
 {
    let end = match c.gives(rules.collect_stats, turn) {
        Some(given) => PollAction::Finish { result: given.0, stats: given.1 },
        None => PollAction::Resume,
    };
    match turn {
        Turn::CancelledBefore { reading, hooks } => {
            &&& through.0.is_cancelled(s, (s.attempt - 1) as u32, c.clock, reading.clock, end)
            &&& through.0.hooks == hooks
        },
        Turn::Ended { tried } => {
            &&& tried_alike(c, tried, s, through.0)
            &&& through.1.is_completed(
                through.0,
                tried.before.clock,
                tried.after.clock,
                tried.outcome,
                end,
            )
            &&& through.1.hooks == tried.hooks
        },
        Turn::Waited { tried, paused } => {
            &&& tried_alike(c, tried, s, through.0)
            &&& if paused.delay@ == 0 {
                &&& through.1.is_completed(
                    through.0,
                    tried.before.clock,
                    paused.clock,
                    tried.outcome,
                    end,
                )
                &&& keeps_pace(through.1, rules, c.after(turn))
            } else {
                &&& through.1.is_completed(
                    through.0,
                    tried.before.clock,
                    paused.before.clock,
                    tried.outcome,
                    PollAction::Sleep(paused.delay),
                )
                &&& through.2.is_awake(through.1, end)
                &&& keeps_pace(through.2, rules, c.after(turn))
            }
        },
        Turn::CancelledAfter { tried, paused, reading, hooks } => {
            &&& tried_alike(c, tried, s, through.0)
            &&& through.1.is_completed(
                through.0,
                tried.before.clock,
                paused.before.clock,
                tried.outcome,
                if paused.delay@ == 0 {
                    PollAction::Resume
                } else {
                    PollAction::Sleep(paused.delay)
                },
            )
            &&& through.2.is_cancelled(through.1, c.attempt, paused.clock, reading.clock, end)
            &&& through.2.hooks == hooks
        },
    }
}

/// Whether a driven loop at `s` starts the attempt `tried` as a blocking loop at
/// `c` does, and is then at `started`.
pub open spec fn tried_alike<F, S, W, P, Cn, Cl, BA, AA, BS, OX, T, E>(
    c: Course<F, Cl, BA, AA, BS, OX, T, E>,
    tried: Tried<F, Cl, BA, AA, BS, OX, T, E>,
    s: EngineState<PredicatePolicy<S, W, P>, Cn, BA, AA, BS, OX, T, E>,
    started: EngineState<PredicatePolicy<S, W, P>, Cn, BA, AA, BS, OX, T, E>,
) -> bool where F: RetryOp<Output = Result<T, E>>, Cn: Canceler, Cl: SyncClock, BA: BeforeAttemptHook {
    exists|state: RetryState| #[trigger]
        c.op.yields(state, tried.outcome, tried.op) && started.is_resumed(
            s,
            c.clock,
            tried.before.clock,
            PollAction::Call(state),
        )
}

/// The driven loop does what the blocking loop does, round for round.
///
/// Left out is a cancellation after an empty wait that follows attempt `u32::MAX`:
/// the driven loop has then already moved on and reports one attempt less.
pub proof fn driven_loop_matches_blocking_loop<F, S, W, P, Cn, Cl, BA, AA, BS, OX, T, E>(
    rules: LoopRules<S, W, P, Cn>,
    c: Course<F, Cl, BA, AA, BS, OX, T, E>,
    left: nat,
    turn: Turn<F, Cl, BA, AA, BS, OX, T, E>,
    s: EngineState<PredicatePolicy<S, W, P>, Cn, BA, AA, BS, OX, T, E>,
) -> (r: (
    EngineState<PredicatePolicy<S, W, P>, Cn, BA, AA, BS, OX, T, E>,
    EngineState<PredicatePolicy<S, W, P>, Cn, BA, AA, BS, OX, T, E>,
    EngineState<PredicatePolicy<S, W, P>, Cn, BA, AA, BS, OX, T, E>,
)) where
    F: RetryOp<Output = Result<T, E>>,
    S: Stop,
    W: Wait,
    P: Predicate<T, E>,
    Cn: Canceler,
    Cl: SyncClock,
    BA: BeforeAttemptHook,
    AA: AttemptHook<T, E>,
    BS: AttemptHook<T, E>,
    OX: ExitHook<T, E>,

    requires
        left > 1,
        c.attempt >= 1,
        c.turns(rules, left, turn),
        turn matches Turn::CancelledAfter { paused, .. } ==> paused.delay@ > 0 || c.attempt
            < u32::MAX,
        keeps_pace(s, rules, c),
    ensures
        goes_alike(rules, c, turn, s, r),
{
    match turn {
        Turn::CancelledBefore { reading, hooks } => {
            let ended = EngineState {
                phase: AsyncPhase::Finished,
                hooks,
                last_result: None,
                ..s
            };
            assert(reading.is_of(c.clock, s.tracker));
            (ended, ended, ended)
        },
        Turn::Ended { tried } => {
            let started = start(rules, c, left, tried, s);
            let ended = EngineState {
                phase: AsyncPhase::Finished,
                hooks: tried.hooks,
                ..started
            };
            let dealt = Dealt {
                reading: tried.after,
                hooks: tried.hooks,
                transition: tried.transition,
            };
            assert(started.deals(tried.before.clock, tried.outcome, dealt));
            (started, ended, ended)
        },
        Turn::Waited { tried, paused } => {
            let started = start(rules, c, left, tried, s);
            let waiting = wait(rules, c, left, tried, paused, started);
            let awake = EngineState {
                phase: AsyncPhase::ReadyToStartAttempt,
                attempt: next_attempt(s.attempt),
                ..waiting
            };
            (started, waiting, awake)
        },
        Turn::CancelledAfter { tried, paused, reading, hooks } => {
            let started = start(rules, c, left, tried, s);
            let waiting = wait(rules, c, left, tried, paused, started);
            let ended = EngineState {
                phase: AsyncPhase::Finished,
                hooks,
                last_result: None,
                ..waiting
            };
            assert(reading.is_of(paused.clock, waiting.tracker));
            (started, waiting, ended)
        },
    }
}

/// The driven loop once it has started the attempt `tried`.
proof fn start<F, S, W, P, Cn, Cl, BA, AA, BS, OX, T, E>(
    rules: LoopRules<S, W, P, Cn>,
    c: Course<F, Cl, BA, AA, BS, OX, T, E>,
    left: nat,
    tried: Tried<F, Cl, BA, AA, BS, OX, T, E>,
    s: EngineState<PredicatePolicy<S, W, P>, Cn, BA, AA, BS, OX, T, E>,
) -> (r: EngineState<PredicatePolicy<S, W, P>, Cn, BA, AA, BS, OX, T, E>) where
    F: RetryOp<Output = Result<T, E>>,
    S: Stop,
    W: Wait,
    P: Predicate<T, E>,
    Cn: Canceler,
    Cl: SyncClock,
    BA: BeforeAttemptHook,
    AA: AttemptHook<T, E>,
    BS: AttemptHook<T, E>,
    OX: ExitHook<T, E>,

    requires
        left > 1,
        c.tries(rules, left, tried),
        rules.canceler.may_say(false),
        keeps_pace(s, rules, c),
    ensures
        tried_alike(c, tried, s, r),
        r == (EngineState {
            phase: AsyncPhase::PollingOperation,
            hooks: ExecutionHooks { before_attempt: tried.before_attempt, ..s.hooks },
            ..s
        }),
        r.deals(
            tried.before.clock,
            tried.outcome,
            Dealt { reading: tried.after, hooks: tried.hooks, transition: tried.transition },
        ),
{
    let state = RetryState {
        attempt: c.attempt,
        elapsed: seen(tried.before.elapsed),
        clocked: tried.before.elapsed is Some,
        previous_delay: c.previous_delay,
        next_delay: None,
    };
    let started = EngineState {
        phase: AsyncPhase::PollingOperation,
        hooks: ExecutionHooks { before_attempt: tried.before_attempt, ..s.hooks },
        ..s
    };
    assert(c.op.yields(state, tried.outcome, tried.op));
    assert(tried.before.is_of(c.clock, s.tracker));
    let place = c.place(tried.after.elapsed);
    let bounded = Bounded { inner: &rules.policy.stop, spent: false };
    if rules.policy.predicate.may_answer(tried.outcome, true) && exists|named: Duration| #[trigger]
        rules.policy.wait.may_wait(place.state(), named) && after_retry(
            bounded,
            rules.timeout,
            place,
            tried.outcome,
            named,
            rules.collect_stats,
            started.hooks,
            tried.hooks,
            tried.transition,
        ) {
        let named = choose|named: Duration| #[trigger]
            rules.policy.wait.may_wait(place.state(), named) && after_retry(
                bounded,
                rules.timeout,
                place,
                tried.outcome,
                named,
                rules.collect_stats,
                started.hooks,
                tried.hooks,
                tried.transition,
            );
        assert(rules.policy.wait.may_wait(place.state(), named));
    }
    started
}

/// The driven loop once it has put the attempt `tried` off.
proof fn wait<F, S, W, P, Cn, Cl, BA, AA, BS, OX, T, E>(
    rules: LoopRules<S, W, P, Cn>,
    c: Course<F, Cl, BA, AA, BS, OX, T, E>,
    left: nat,
    tried: Tried<F, Cl, BA, AA, BS, OX, T, E>,
    paused: Paused<Cl, BA, AA, BS, OX>,
    started: EngineState<PredicatePolicy<S, W, P>, Cn, BA, AA, BS, OX, T, E>,
) -> (r: EngineState<PredicatePolicy<S, W, P>, Cn, BA, AA, BS, OX, T, E>) where
    F: RetryOp<Output = Result<T, E>>,
    S: Stop,
    W: Wait,
    P: Predicate<T, E>,
    Cn: Canceler,
    Cl: SyncClock,
    BA: BeforeAttemptHook,
    AA: AttemptHook<T, E>,
    BS: AttemptHook<T, E>,
    OX: ExitHook<T, E>,

    requires
        c.pauses(rules, tried, paused),
        started.timeout == rules.timeout,
        started.tracker == c.tracker,
        started.attempt == c.attempt,
        started.total_wait == c.total_wait,
        started.deals(
            tried.before.clock,
            tried.outcome,
            Dealt { reading: tried.after, hooks: tried.hooks, transition: tried.transition },
        ),
    ensures
        r.is_completed(
            started,
            tried.before.clock,
            paused.before.clock,
            tried.outcome,
            if paused.delay@ == 0 {
                PollAction::Resume
            } else {
                PollAction::Sleep(paused.delay)
            },
        ),
        r == (EngineState {
            phase: if paused.delay@ == 0 {
                AsyncPhase::ReadyToStartAttempt
            } else {
                AsyncPhase::Sleeping
            },
            attempt: if paused.delay@ == 0 {
                next_attempt(started.attempt)
            } else {
                started.attempt
            },
            hooks: paused.hooks,
            total_wait: paused.total_wait,
            previous_delay: Some(paused.delay),
            last_result: Some(tried.outcome),
            ..started
        }),
{
    let dealt = Dealt { reading: tried.after, hooks: tried.hooks, transition: tried.transition };
    let put = Put {
        reading: paused.before,
        delay: paused.delay,
        total_wait: paused.total_wait,
        hooks: paused.hooks,
    };
    assert(started.deals(tried.before.clock, tried.outcome, dealt));
    assert(started.puts(tried.outcome, dealt, put));
    EngineState {
        phase: if paused.delay@ == 0 {
            AsyncPhase::ReadyToStartAttempt
        } else {
            AsyncPhase::Sleeping
        },
        attempt: if paused.delay@ == 0 {
            next_attempt(started.attempt)
        } else {
            started.attempt
        },
        hooks: paused.hooks,
        total_wait: paused.total_wait,
        previous_delay: Some(paused.delay),
        last_result: Some(tried.outcome),
        ..started
    }
}

} // verus!
