//! What holds of the loops as a whole.

use super::error::RetryError;
use super::hooks::{AttemptHook, BeforeAttemptHook, ExecutionHooks, ExitHook};
use super::op::RetryOp;
use super::async_engine::{Action, Phase, RunState};
use super::run::{ends, next_attempt, runs, Attempt, Bounded, Machine, Rules, ATTEMPT_LIMIT};
use super::state::StopReason;
use super::stats::RetryStats;
use super::step::{clamped, follows, puts_off, steps, timed_out, Standing, Step};
use crate::clock::{SyncClock, VirtualClock};
use crate::decision::{Decide, DefaultClassifier, Verdict};
use crate::duration::{duration_ext, saturated, Duration, MAX_NANOS};
use crate::state::RetryState;
use crate::stop::laws::must_answer;
use crate::stop::{Stop, StopAfterAttempts};
use crate::wait::Wait;
use vstd::prelude::*;

verus! {

/// Whether a result and the reason in the totals tell the same story.
pub open spec fn agree<R, A, O>(result: Result<R, RetryError<A, O>>, stats: RetryStats) -> bool {
    stats.stop_reason == match result {
        Ok(_) => StopReason::Returned,
        Err(error) => error.reason(),
    }
}

/// Whether a result is what a verdict calls for.
pub open spec fn called_for<R, A, O>(
    verdict: Verdict<R, A, O>,
    result: Result<R, RetryError<A, O>>,
) -> bool {
    result == match verdict {
        Verdict::Return(value) => Ok::<R, RetryError<A, O>>(value),
        Verdict::Abort(last) => Err(RetryError::Aborted { last }),
        Verdict::Retry(last) => Err(RetryError::Exhausted { last }),
    }
}

/// Whether calls keep what holds of an operation.
pub open spec fn kept_by_calls<F: RetryOp>(keep: spec_fn(F) -> bool) -> bool {
    forall|op: F, state: RetryState, output: F::Output, post: F|
        keep(op) && #[trigger] op.yields(state, output, post) ==> keep(post)
}

/// Whether an operation of which `keep` holds may give `outcome`.
pub open spec fn may_come_from<F: RetryOp>(keep: spec_fn(F) -> bool, outcome: F::Output) -> bool {
    exists|op: F, state: RetryState, post: F|
        keep(op) && #[trigger] op.yields(state, outcome, post)
}

/// Whether a result is what a verdict of the classifier calls for, on an outcome
/// that an operation of which `keep` holds may give.
pub open spec fn earned<F: RetryOp<Output = O>, C: Decide<O, R = R, A = A>, O, R, A>(
    keep: spec_fn(F) -> bool,
    classifier: C,
    result: Result<R, RetryError<A, O>>,
) -> bool {
    exists|outcome: O, verdict: Verdict<R, A, O>| #[trigger]
        classifier.may_decide(outcome, verdict) && called_for(verdict, result) && may_come_from(
            keep,
            outcome,
        )
}

/// However a loop goes, the reason in its totals fits its result, at least one
/// attempt is made, and the caller gets what the classifier made of an outcome of
/// the operation: a value it returned, a cause it aborted with, or an outcome it
/// would retry. What holds of the operation at first and is kept by its calls holds
/// of the operation that gave that outcome.
pub proof fn result_is_earned<F, C, S, W, Cl, BA, AA, OX, O, R, A>(
    rules: Rules<C, S, W>,
    before: (F, Cl, ExecutionHooks<BA, AA, OX>),
    after: (F, Cl, ExecutionHooks<BA, AA, OX>),
    result: Result<R, RetryError<A, O>>,
    stats: RetryStats,
    keep: spec_fn(F) -> bool,
) where
    F: RetryOp<Output = O>,
    C: Decide<O, R = R, A = A>,
    S: Stop,
    W: Wait,
    Cl: SyncClock,
    BA: BeforeAttemptHook,
    AA: AttemptHook<O>,
    OX: ExitHook<R, A, O>,

    requires
        keep(before.0),
        kept_by_calls(keep),
        ends(rules, before, after, result, stats),
    ensures
        agree(result, stats),
        earned(keep, rules.classifier, result),
        stats.attempts >= 1,
{
    let (m, end) = choose|m: Machine<F, Cl, BA, AA, OX>, end: Machine<F, Cl, BA, AA, OX>|
        {
            &&& m.begins(before.0, before.1, before.2)
            &&& #[trigger] runs(rules, m, ATTEMPT_LIMIT as nat, end, result, stats)
            &&& (end.op, end.clock, end.hooks) == after
        };
    earned_along_the_way(rules, m, ATTEMPT_LIMIT as nat, end, result, stats, keep);
}

proof fn earned_along_the_way<F, C, S, W, Cl, BA, AA, OX, O, R, A>(
    rules: Rules<C, S, W>,
    m: Machine<F, Cl, BA, AA, OX>,
    left: nat,
    end: Machine<F, Cl, BA, AA, OX>,
    result: Result<R, RetryError<A, O>>,
    stats: RetryStats,
    keep: spec_fn(F) -> bool,
) where
    F: RetryOp<Output = O>,
    C: Decide<O, R = R, A = A>,
    S: Stop,
    W: Wait,
    Cl: SyncClock,
    BA: BeforeAttemptHook,
    AA: AttemptHook<O>,
    OX: ExitHook<R, A, O>,

    requires
        keep(m.op),
        kept_by_calls(keep),
        runs(rules, m, left, end, result, stats),
    ensures
        agree(result, stats),
        earned(keep, rules.classifier, result),
        stats.attempts >= m.attempt,
    decreases left,
{
    let a = next_of(rules, m, left, end, result, stats);
    assert(m.op.yields(m.state(a.elapsed_before), a.outcome, a.op));
    match a.step {
        Step::Done { .. } => {
            let stop = Bounded { inner: &rules.stop, spent: left == 1 };
            let hooks = ExecutionHooks { before_attempt: a.before_attempt, ..m.hooks };
            let verdict = choose|verdict: Verdict<R, A, O>| #[trigger]
                rules.classifier.may_decide(a.outcome, verdict) && follows(
                    m.standing(a.elapsed_after),
                    verdict,
                    stop,
                    rules.wait,
                    rules.timeout,
                    hooks.on_exit,
                    a.hooks.on_exit,
                    a.step,
                );
            assert(rules.classifier.may_decide(a.outcome, verdict));
        },
        Step::Continue { .. } => {
            earned_along_the_way(rules, m.after(a), (left - 1) as nat, end, result, stats, keep);
        },
    }
}

/// The attempt that a loop makes next.
pub(crate) proof fn next_of<F, C, S, W, Cl, BA, AA, OX, O, R, A>(
    rules: Rules<C, S, W>,
    m: Machine<F, Cl, BA, AA, OX>,
    left: nat,
    end: Machine<F, Cl, BA, AA, OX>,
    result: Result<R, RetryError<A, O>>,
    stats: RetryStats,
) -> (r: Attempt<F, Cl, BA, AA, OX, R, A, O>) where
    F: RetryOp<Output = O>,
    C: Decide<O, R = R, A = A>,
    S: Stop,
    W: Wait,
    Cl: SyncClock,
    BA: BeforeAttemptHook,
    AA: AttemptHook<O>,
    OX: ExitHook<R, A, O>,

    requires
        runs(rules, m, left, end, result, stats),
    ensures
        left > 0,
        m.happens(rules, left, r),
        match r.step {
            Step::Done { result: given, stats: totals } => {
                &&& given == result
                &&& totals == stats
                &&& end == m.after(r)
            },
            Step::Continue { .. } => runs(
                rules,
                m.after(r),
                (left - 1) as nat,
                end,
                result,
                stats,
            ),
        },
{
    choose|a: Attempt<F, Cl, BA, AA, OX, R, A, O>| #[trigger]
        m.happens(rules, left, a) && match a.step {
            Step::Done { result: r, stats: s } => r == result && s == stats && end == m.after(a),
            Step::Continue { .. } => runs(rules, m.after(a), (left - 1) as nat, end, result, stats),
        }
}

/// With a stop strategy that always fires once `max` attempts are made, alone or
/// as a part of the whole, a loop makes at most `max` attempts.
pub proof fn attempts_are_bounded<F, C, S, W, Cl, BA, AA, OX, O, R, A>(
    rules: Rules<C, S, W>,
    before: (F, Cl, ExecutionHooks<BA, AA, OX>),
    after: (F, Cl, ExecutionHooks<BA, AA, OX>),
    result: Result<R, RetryError<A, O>>,
    stats: RetryStats,
    max: u32,
) where
    F: RetryOp<Output = O>,
    C: Decide<O, R = R, A = A>,
    S: Stop,
    W: Wait,
    Cl: SyncClock,
    BA: BeforeAttemptHook,
    AA: AttemptHook<O>,
    OX: ExitHook<R, A, O>,

    requires
        max >= 1,
        forall|state: RetryState| #![auto]
            state.attempt >= max ==> must_answer(rules.stop, state, true),
        ends(rules, before, after, result, stats),
    ensures
        stats.attempts <= max,
{
    let (m, end) = choose|m: Machine<F, Cl, BA, AA, OX>, end: Machine<F, Cl, BA, AA, OX>|
        {
            &&& m.begins(before.0, before.1, before.2)
            &&& #[trigger] runs(rules, m, ATTEMPT_LIMIT as nat, end, result, stats)
            &&& (end.op, end.clock, end.hooks) == after
        };
    bounded_along_the_way(rules, m, ATTEMPT_LIMIT as nat, end, result, stats, max);
}

proof fn bounded_along_the_way<F, C, S, W, Cl, BA, AA, OX, O, R, A>(
    rules: Rules<C, S, W>,
    m: Machine<F, Cl, BA, AA, OX>,
    left: nat,
    end: Machine<F, Cl, BA, AA, OX>,
    result: Result<R, RetryError<A, O>>,
    stats: RetryStats,
    max: u32,
) where
    F: RetryOp<Output = O>,
    C: Decide<O, R = R, A = A>,
    S: Stop,
    W: Wait,
    Cl: SyncClock,
    BA: BeforeAttemptHook,
    AA: AttemptHook<O>,
    OX: ExitHook<R, A, O>,

    requires
        forall|state: RetryState| #![auto]
            state.attempt >= max ==> must_answer(rules.stop, state, true),
        runs(rules, m, left, end, result, stats),
        m.attempt <= max,
    ensures
        stats.attempts <= max,
    decreases left,
{
    let a = next_of(rules, m, left, end, result, stats);
    if a.step is Continue {
        let state = m.standing(a.elapsed_after).state();
        if m.attempt >= max {
            assert(must_answer(rules.stop, state, true));
            assert(!rules.stop.may_stop(state, false));
        }
        bounded_along_the_way(rules, m.after(a), (left - 1) as nat, end, result, stats, max);
    }
}

/// A loop that stops by attempts alone makes no more of them than it was told.
pub proof fn attempts_never_exceed_the_maximum<F, C, W, Cl, BA, AA, OX, O, R, A>(
    rules: Rules<C, StopAfterAttempts, W>,
    before: (F, Cl, ExecutionHooks<BA, AA, OX>),
    after: (F, Cl, ExecutionHooks<BA, AA, OX>),
    result: Result<R, RetryError<A, O>>,
    stats: RetryStats,
) where
    F: RetryOp<Output = O>,
    C: Decide<O, R = R, A = A>,
    W: Wait,
    Cl: SyncClock,
    BA: BeforeAttemptHook,
    AA: AttemptHook<O>,
    OX: ExitHook<R, A, O>,

    requires
        rules.stop.max() >= 1,
        ends(rules, before, after, result, stats),
    ensures
        1 <= stats.attempts <= rules.stop.max(),
{
    result_is_earned(rules, before, after, result, stats, |op: F| true);
    attempts_are_bounded(rules, before, after, result, stats, rules.stop.max());
}

/// A loop that ends as exhausted does so because its stop strategy fired after
/// the last attempt, because its timeout was used up by then, or because the count
/// of attempts is at its highest value.
pub proof fn exhausted_only_when_stopped<F, C, S, W, Cl, BA, AA, OX, O, R, A>(
    rules: Rules<C, S, W>,
    before: (F, Cl, ExecutionHooks<BA, AA, OX>),
    after: (F, Cl, ExecutionHooks<BA, AA, OX>),
    result: Result<R, RetryError<A, O>>,
    stats: RetryStats,
) where
    F: RetryOp<Output = O>,
    C: Decide<O, R = R, A = A>,
    S: Stop,
    W: Wait,
    Cl: SyncClock,
    BA: BeforeAttemptHook,
    AA: AttemptHook<O>,
    OX: ExitHook<R, A, O>,

    requires
        ends(rules, before, after, result, stats),
        stats.stop_reason == StopReason::Exhausted,
    ensures
        timed_out(rules.timeout, stats.total_elapsed) || stats.attempts == u32::MAX || exists|
            state: RetryState,
        | #[trigger]
            rules.stop.may_stop(state, true) && state.attempt == stats.attempts && state.elapsed
                == stats.total_elapsed,
{
    let (m, end) = choose|m: Machine<F, Cl, BA, AA, OX>, end: Machine<F, Cl, BA, AA, OX>|
        {
            &&& m.begins(before.0, before.1, before.2)
            &&& #[trigger] runs(rules, m, ATTEMPT_LIMIT as nat, end, result, stats)
            &&& (end.op, end.clock, end.hooks) == after
        };
    stopped_along_the_way(rules, m, ATTEMPT_LIMIT as nat, end, result, stats);
}

proof fn stopped_along_the_way<F, C, S, W, Cl, BA, AA, OX, O, R, A>(
    rules: Rules<C, S, W>,
    m: Machine<F, Cl, BA, AA, OX>,
    left: nat,
    end: Machine<F, Cl, BA, AA, OX>,
    result: Result<R, RetryError<A, O>>,
    stats: RetryStats,
) where
    F: RetryOp<Output = O>,
    C: Decide<O, R = R, A = A>,
    S: Stop,
    W: Wait,
    Cl: SyncClock,
    BA: BeforeAttemptHook,
    AA: AttemptHook<O>,
    OX: ExitHook<R, A, O>,

    requires
        runs(rules, m, left, end, result, stats),
        stats.stop_reason == StopReason::Exhausted,
        left <= ATTEMPT_LIMIT,
        m.attempt == u32::MAX || m.attempt == ATTEMPT_LIMIT - left + 1,
    ensures
        timed_out(rules.timeout, stats.total_elapsed) || stats.attempts == u32::MAX || exists|
            state: RetryState,
        | #[trigger]
            rules.stop.may_stop(state, true) && state.attempt == stats.attempts && state.elapsed
                == stats.total_elapsed,
    decreases left,
{
    let a = next_of(rules, m, left, end, result, stats);
    match a.step {
        Step::Done { .. } => {
            let state = m.standing(a.elapsed_after).state();
            if rules.stop.may_stop(state, true) {
                assert(state.attempt == stats.attempts && state.elapsed == stats.total_elapsed);
            }
        },
        Step::Continue { .. } => {
            stopped_along_the_way(rules, m.after(a), (left - 1) as nat, end, result, stats);
        },
    }
}

/// A wait never outlasts what the timeout leaves, and no retry follows once the
/// timeout is used up.
pub proof fn wait_fits_the_timeout<C: Decide<O, R = R, A = A>, S: Stop, W: Wait, BA, AA, OX, O, R, A>(
    standing: Standing,
    outcome: O,
    classifier: C,
    stop: S,
    wait: W,
    budget: Duration,
    before: ExecutionHooks<BA, AA, OX>,
    after: ExecutionHooks<BA, AA, OX>,
    delay: Duration,
    total_wait: Duration,
) where AA: AttemptHook<O>, OX: ExitHook<R, A, O>
    requires
        steps(
            standing,
            outcome,
            classifier,
            stop,
            wait,
            Some(budget),
            before,
            after,
            Step::Continue { delay, total_wait },
        ),
    ensures
        standing.elapsed@ < budget@,
        standing.elapsed@ + delay@ <= budget@,
{
}

/// Time elapsed never goes back from one reading of a loop to the next, whatever
/// the clock does.
pub proof fn elapsed_never_goes_back<F, C, S, W, Cl, BA, AA, OX, O, R, A>(
    rules: Rules<C, S, W>,
    m: Machine<F, Cl, BA, AA, OX>,
    left: nat,
    a: Attempt<F, Cl, BA, AA, OX, R, A, O>,
) where
    F: RetryOp<Output = O>,
    C: Decide<O, R = R, A = A>,
    S: Stop,
    W: Wait,
    Cl: SyncClock,
    BA: BeforeAttemptHook,
    AA: AttemptHook<O>,
    OX: ExitHook<R, A, O>,

    requires
        m.happens(rules, left, a),
    ensures
        m.elapsed.highest()@ <= a.elapsed_before.highest()@,
        a.elapsed_before.highest()@ <= a.elapsed_after.highest()@,
        m.after(a).elapsed == a.elapsed_after,
{
}

/// All the time that a clock has waited.
pub open spec fn waited(log: Seq<Duration>) -> nat
    decreases log.len(),
{
    if log.len() == 0 {
        0
    } else {
        saturated((waited(log.drop_last()) + log.last()@) as int)
    }
}

/// Waits that a clock has logged since it stood at `before`.
pub open spec fn gained(before: VirtualClock, after: VirtualClock) -> Seq<Duration> {
    after.log().skip(before.log().len() as int)
}

/// Whether what `before` had logged is still there in `after`.
pub open spec fn log_kept(before: VirtualClock, after: VirtualClock) -> bool {
    &&& before.log().len() <= after.log().len()
    &&& after.log().take(before.log().len() as int) == before.log()
}

/// On a virtual clock waits and elapsed time cannot disagree, wherever the clock
/// stands at first: the time that passes is the time that was waited, up to the
/// highest time there is, and it is what the totals say on both counts. No empty wait
/// is made. A timeout that the clock has room for is never overrun.
pub proof fn virtual_time_is_wait_time<F, C, S, W, BA, AA, OX, O, R, A>(
    rules: Rules<C, S, W>,
    before: (F, VirtualClock, ExecutionHooks<BA, AA, OX>),
    after: (F, VirtualClock, ExecutionHooks<BA, AA, OX>),
    result: Result<R, RetryError<A, O>>,
    stats: RetryStats,
) where
    F: RetryOp<Output = O>,
    C: Decide<O, R = R, A = A>,
    S: Stop,
    W: Wait,
    BA: BeforeAttemptHook,
    AA: AttemptHook<O>,
    OX: ExitHook<R, A, O>,

    requires
        before.1.time()@ <= MAX_NANOS,
        ends(rules, before, after, result, stats),
    ensures
        log_kept(before.1, after.1),
        stats.total_wait@ == waited(gained(before.1, after.1)),
        after.1.time()@ == saturated((before.1.time()@ + stats.total_wait@) as int),
        stats.total_elapsed@ == after.1.time()@ - before.1.time()@,
        rules.timeout matches Some(budget) ==> before.1.time()@ + budget@ <= MAX_NANOS
            ==> stats.total_wait@ <= budget@,
        forall|i: int|
            0 <= i < gained(before.1, after.1).len() ==> #[trigger] gained(
                before.1,
                after.1,
            )[i]@ > 0,
{
    let (m, end) = choose|
        m: Machine<F, VirtualClock, BA, AA, OX>,
        end: Machine<F, VirtualClock, BA, AA, OX>,
    |
        {
            &&& m.begins(before.0, before.1, before.2)
            &&& #[trigger] runs(rules, m, ATTEMPT_LIMIT as nat, end, result, stats)
            &&& (end.op, end.clock, end.hooks) == after
        };
    assert(before.1.log().take(before.1.log().len() as int) =~= before.1.log());
    virtual_along_the_way(rules, before.1, m, ATTEMPT_LIMIT as nat, end, result, stats);
}

proof fn virtual_along_the_way<F, C, S, W, BA, AA, OX, O, R, A>(
    rules: Rules<C, S, W>,
    first: VirtualClock,
    m: Machine<F, VirtualClock, BA, AA, OX>,
    left: nat,
    end: Machine<F, VirtualClock, BA, AA, OX>,
    result: Result<R, RetryError<A, O>>,
    stats: RetryStats,
) where
    F: RetryOp<Output = O>,
    C: Decide<O, R = R, A = A>,
    S: Stop,
    W: Wait,
    BA: BeforeAttemptHook,
    AA: AttemptHook<O>,
    OX: ExitHook<R, A, O>,

    requires
        runs(rules, m, left, end, result, stats),
        log_kept(first, m.clock),
        m.elapsed.origin() == first.time(),
        m.elapsed.highest()@ <= m.clock.time()@ - first.time()@,
        m.total_wait@ == waited(gained(first, m.clock)),
        m.clock.time()@ == saturated((first.time()@ + m.total_wait@) as int),
        rules.timeout matches Some(budget) ==> first.time()@ + budget@ <= MAX_NANOS
            ==> m.total_wait@ <= budget@,
        forall|i: int|
            0 <= i < gained(first, m.clock).len() ==> #[trigger] gained(first, m.clock)[i]@ > 0,
    ensures
        log_kept(first, end.clock),
        stats.total_wait@ == waited(gained(first, end.clock)),
        end.clock.time()@ == saturated((first.time()@ + stats.total_wait@) as int),
        stats.total_elapsed@ == end.clock.time()@ - first.time()@,
        rules.timeout matches Some(budget) ==> first.time()@ + budget@ <= MAX_NANOS
            ==> stats.total_wait@ <= budget@,
        forall|i: int|
            0 <= i < gained(first, end.clock).len() ==> #[trigger] gained(
                first,
                end.clock,
            )[i]@ > 0,
    decreases left,
{
    let a = next_of(rules, m, left, end, result, stats);
    assert(a.elapsed_after.highest()@ == m.clock.time()@ - first.time()@);
    match a.step {
        Step::Done { .. } => {},
        Step::Continue { delay, .. } => {
            let next = m.after(a);
            if delay@ != 0 {
                let logged = gained(first, next.clock);
                assert(next.clock.log() == m.clock.log().push(delay));
                assert(next.clock.log().take(first.log().len() as int) =~= first.log());
                assert(logged =~= gained(first, m.clock).push(delay));
                assert(logged.drop_last() =~= gained(first, m.clock));
                assert(logged.last() == delay);
            }
            virtual_along_the_way(rules, first, next, (left - 1) as nat, end, result, stats);
        },
    }
}

/// Whether every verdict on an outcome that an operation of which `keep` holds may
/// give is to retry.
pub open spec fn always_retried<F: RetryOp<Output = O>, C: Decide<O, R = R, A = A>, O, R, A>(
    keep: spec_fn(F) -> bool,
    classifier: C,
) -> bool {
    forall|outcome: O, verdict: Verdict<R, A, O>|
        may_come_from(keep, outcome) && #[trigger] classifier.may_decide(outcome, verdict)
            ==> verdict is Retry
}

/// An operation whose every outcome is to be retried uses all its attempts: a loop
/// that stops by attempts alone makes exactly as many as it was told and ends as
/// exhausted.
pub proof fn failing_uses_every_attempt<F, C, W, Cl, BA, AA, OX, O, R, A>(
    rules: Rules<C, StopAfterAttempts, W>,
    before: (F, Cl, ExecutionHooks<BA, AA, OX>),
    after: (F, Cl, ExecutionHooks<BA, AA, OX>),
    result: Result<R, RetryError<A, O>>,
    stats: RetryStats,
    keep: spec_fn(F) -> bool,
) where
    F: RetryOp<Output = O>,
    C: Decide<O, R = R, A = A>,
    W: Wait,
    Cl: SyncClock,
    BA: BeforeAttemptHook,
    AA: AttemptHook<O>,
    OX: ExitHook<R, A, O>,

    requires
        rules.stop.max() >= 1,
        rules.timeout is None,
        keep(before.0),
        kept_by_calls(keep),
        always_retried(keep, rules.classifier),
        ends(rules, before, after, result, stats),
    ensures
        stats.attempts == rules.stop.max(),
        result matches Err(RetryError::Exhausted { .. }),
{
    let (m, end) = choose|m: Machine<F, Cl, BA, AA, OX>, end: Machine<F, Cl, BA, AA, OX>|
        {
            &&& m.begins(before.0, before.1, before.2)
            &&& #[trigger] runs(rules, m, ATTEMPT_LIMIT as nat, end, result, stats)
            &&& (end.op, end.clock, end.hooks) == after
        };
    failing_along_the_way(rules, m, ATTEMPT_LIMIT as nat, end, result, stats, keep);
}

proof fn failing_along_the_way<F, C, W, Cl, BA, AA, OX, O, R, A>(
    rules: Rules<C, StopAfterAttempts, W>,
    m: Machine<F, Cl, BA, AA, OX>,
    left: nat,
    end: Machine<F, Cl, BA, AA, OX>,
    result: Result<R, RetryError<A, O>>,
    stats: RetryStats,
    keep: spec_fn(F) -> bool,
) where
    F: RetryOp<Output = O>,
    C: Decide<O, R = R, A = A>,
    W: Wait,
    Cl: SyncClock,
    BA: BeforeAttemptHook,
    AA: AttemptHook<O>,
    OX: ExitHook<R, A, O>,

    requires
        rules.timeout is None,
        keep(m.op),
        kept_by_calls(keep),
        always_retried(keep, rules.classifier),
        runs(rules, m, left, end, result, stats),
        left <= ATTEMPT_LIMIT,
        m.attempt == u32::MAX || m.attempt == ATTEMPT_LIMIT - left + 1,
        m.attempt <= rules.stop.max(),
    ensures
        stats.attempts == rules.stop.max(),
        result matches Err(RetryError::Exhausted { .. }),
    decreases left,
{
    let a = next_of(rules, m, left, end, result, stats);
    assert(m.op.yields(m.state(a.elapsed_before), a.outcome, a.op));
    assert(may_come_from(keep, a.outcome));
    if a.step is Continue {
        failing_along_the_way(rules, m.after(a), (left - 1) as nat, end, result, stats, keep);
    }
}

/// An operation none of whose outcomes is to be retried is called once, and
/// nothing is waited for.
pub proof fn settling_at_once_waits_for_nothing<F, C, S, W, Cl, BA, AA, OX, O, R, A>(
    rules: Rules<C, S, W>,
    before: (F, Cl, ExecutionHooks<BA, AA, OX>),
    after: (F, Cl, ExecutionHooks<BA, AA, OX>),
    result: Result<R, RetryError<A, O>>,
    stats: RetryStats,
) where
    F: RetryOp<Output = O>,
    C: Decide<O, R = R, A = A>,
    S: Stop,
    W: Wait,
    Cl: SyncClock,
    BA: BeforeAttemptHook,
    AA: AttemptHook<O>,
    OX: ExitHook<R, A, O>,

    requires
        forall|state: RetryState, outcome: O, post: F, verdict: Verdict<R, A, O>|
            #![trigger before.0.yields(state, outcome, post), rules.classifier.may_decide(outcome, verdict)]
            before.0.yields(state, outcome, post) && rules.classifier.may_decide(outcome, verdict)
                ==> verdict !is Retry,
        ends(rules, before, after, result, stats),
    ensures
        stats.attempts == 1,
        stats.total_wait@ == 0,
        !(result matches Err(RetryError::Exhausted { .. })),
{
    let (m, end) = choose|m: Machine<F, Cl, BA, AA, OX>, end: Machine<F, Cl, BA, AA, OX>|
        {
            &&& m.begins(before.0, before.1, before.2)
            &&& #[trigger] runs(rules, m, ATTEMPT_LIMIT as nat, end, result, stats)
            &&& (end.op, end.clock, end.hooks) == after
        };
    let a = next_of(rules, m, ATTEMPT_LIMIT as nat, end, result, stats);
    assert(before.0.yields(m.state(a.elapsed_before), a.outcome, a.op));
}

/// Whether `delay` is a wait that `wait` may name after attempt `attempt`.
pub open spec fn named_after<W: Wait>(wait: W, attempt: int, delay: Duration) -> bool {
    exists|state: RetryState| #[trigger] wait.may_wait(state, delay) && state.attempt == attempt
}

/// On a virtual clock, a loop without a timeout waits by its strategy's schedule
/// exactly: one wait between each two attempts, and after attempt `n` one that the
/// strategy names for attempt `n`.
pub proof fn schedule_is_the_strategys<F, C, S, W, BA, AA, OX, O, R, A>(
    rules: Rules<C, S, W>,
    before: (F, VirtualClock, ExecutionHooks<BA, AA, OX>),
    after: (F, VirtualClock, ExecutionHooks<BA, AA, OX>),
    result: Result<R, RetryError<A, O>>,
    stats: RetryStats,
) where
    F: RetryOp<Output = O>,
    C: Decide<O, R = R, A = A>,
    S: Stop,
    W: Wait,
    BA: BeforeAttemptHook,
    AA: AttemptHook<O>,
    OX: ExitHook<R, A, O>,

    requires
        rules.timeout is None,
        forall|state: RetryState, delay: Duration| #[trigger]
            rules.wait.may_wait(state, delay) ==> delay@ > 0,
        stats.attempts < u32::MAX,
        ends(rules, before, after, result, stats),
    ensures
        log_kept(before.1, after.1),
        gained(before.1, after.1).len() == stats.attempts - 1,
        forall|i: int|
            0 <= i < gained(before.1, after.1).len() ==> named_after(
                rules.wait,
                i + 1,
                #[trigger] gained(before.1, after.1)[i],
            ),
{
    let (m, end) = choose|
        m: Machine<F, VirtualClock, BA, AA, OX>,
        end: Machine<F, VirtualClock, BA, AA, OX>,
    |
        {
            &&& m.begins(before.0, before.1, before.2)
            &&& #[trigger] runs(rules, m, ATTEMPT_LIMIT as nat, end, result, stats)
            &&& (end.op, end.clock, end.hooks) == after
        };
    assert(before.1.log().take(before.1.log().len() as int) =~= before.1.log());
    schedule_along_the_way(rules, before.1, m, ATTEMPT_LIMIT as nat, end, result, stats);
}

proof fn schedule_along_the_way<F, C, S, W, BA, AA, OX, O, R, A>(
    rules: Rules<C, S, W>,
    first: VirtualClock,
    m: Machine<F, VirtualClock, BA, AA, OX>,
    left: nat,
    end: Machine<F, VirtualClock, BA, AA, OX>,
    result: Result<R, RetryError<A, O>>,
    stats: RetryStats,
) where
    F: RetryOp<Output = O>,
    C: Decide<O, R = R, A = A>,
    S: Stop,
    W: Wait,
    BA: BeforeAttemptHook,
    AA: AttemptHook<O>,
    OX: ExitHook<R, A, O>,

    requires
        rules.timeout is None,
        forall|state: RetryState, delay: Duration| #[trigger]
            rules.wait.may_wait(state, delay) ==> delay@ > 0,
        runs(rules, m, left, end, result, stats),
        stats.attempts < u32::MAX,
        log_kept(first, m.clock),
        gained(first, m.clock).len() == m.attempt - 1,
        forall|i: int|
            0 <= i < gained(first, m.clock).len() ==> named_after(
                rules.wait,
                i + 1,
                #[trigger] gained(first, m.clock)[i],
            ),
    ensures
        log_kept(first, end.clock),
        gained(first, end.clock).len() == stats.attempts - 1,
        forall|i: int|
            0 <= i < gained(first, end.clock).len() ==> named_after(
                rules.wait,
                i + 1,
                #[trigger] gained(first, end.clock)[i],
            ),
    decreases left,
{
    let a = next_of(rules, m, left, end, result, stats);
    earned_along_the_way(rules, m, left, end, result, stats, |op: F| true);
    match a.step {
        Step::Done { .. } => {},
        Step::Continue { delay, total_wait } => {
            let standing = m.standing(a.elapsed_after);
            assert(puts_off(standing, rules.wait, rules.timeout, delay, total_wait));
            let named = choose|named: Duration| #[trigger]
                rules.wait.may_wait(standing.state(), named) && delay@ == clamped(
                    rules.timeout,
                    standing.elapsed,
                    named@,
                );
            duration_ext(delay, named);
            assert(named_after(rules.wait, m.attempt as int, delay));
            let next = m.after(a);
            assert(next.clock.log() == m.clock.log().push(delay));
            assert(next.clock.log().take(first.log().len() as int) =~= first.log());
            assert(gained(first, next.clock) =~= gained(first, m.clock).push(delay));
            schedule_along_the_way(rules, first, next, (left - 1) as nat, end, result, stats);
        },
    }
}

/// A loop that was given no classifier returns a value or ends as exhausted with
/// an error. It never aborts.
pub proof fn default_loop_never_aborts<F, S, W, Cl, BA, AA, OX, T, E>(
    rules: Rules<DefaultClassifier, S, W>,
    before: (F, Cl, ExecutionHooks<BA, AA, OX>),
    after: (F, Cl, ExecutionHooks<BA, AA, OX>),
    result: Result<T, RetryError<E, Result<T, E>>>,
    stats: RetryStats,
) where
    F: RetryOp<Output = Result<T, E>>,
    S: Stop,
    W: Wait,
    Cl: SyncClock,
    BA: BeforeAttemptHook,
    AA: AttemptHook<Result<T, E>>,
    OX: ExitHook<T, E, Result<T, E>>,

    requires
        ends(rules, before, after, result, stats),
    ensures
        result is Ok || result matches Err(RetryError::Exhausted { last: Err(_) }),
{
    result_is_earned(rules, before, after, result, stats, |op: F| true);
}

/// Whether a driven loop is where a blocking loop with the same rules is.
pub open spec fn keeps_pace<F, C, S, W, Cl, BA, AA, OX>(
    s: RunState<C, S, W, BA, AA, OX>,
    rules: Rules<C, S, W>,
    m: Machine<F, Cl, BA, AA, OX>,
) -> bool {
    &&& s.rules == rules
    &&& s.hooks == m.hooks
    &&& s.phase == Phase::ReadyToStart
    &&& s.elapsed == Some(m.elapsed)
    &&& s.attempt == m.attempt
    &&& s.total_wait == m.total_wait
    &&& s.previous_delay == m.previous_delay
}

/// The driven loop does what the blocking loop does. Given the same readings and
/// the same outcome, it calls the operation with the same state, tells the hooks
/// the same, and then finishes with the same result and totals or waits the same
/// time and is again where the blocking loop is.
pub proof fn driven_loop_matches_blocking_loop<F, C, S, W, Cl, BA, AA, OX, O, R, A>(
    rules: Rules<C, S, W>,
    m: Machine<F, Cl, BA, AA, OX>,
    left: nat,
    a: Attempt<F, Cl, BA, AA, OX, R, A, O>,
    s: RunState<C, S, W, BA, AA, OX>,
) -> (r: (
    RunState<C, S, W, BA, AA, OX>,
    RunState<C, S, W, BA, AA, OX>,
    RunState<C, S, W, BA, AA, OX>,
)) where
    F: RetryOp<Output = O>,
    C: Decide<O, R = R, A = A>,
    S: Stop,
    W: Wait,
    Cl: SyncClock,
    BA: BeforeAttemptHook,
    AA: AttemptHook<O>,
    OX: ExitHook<R, A, O>,

    requires
        left > 1,
        m.happens(rules, left, a),
        keeps_pace(s, rules, m),
    ensures
        r.0.has_resumed(s, a.now_before, m.state(a.elapsed_before)),
        match a.step {
            Step::Done { result, stats } => {
                &&& r.1.has_completed(
                    r.0,
                    a.now_after,
                    a.outcome,
                    Action::Finish { result, stats },
                )
                &&& r.1.phase == Phase::Done
                &&& r.1.hooks == a.hooks
            },
            Step::Continue { delay, .. } => if delay@ == 0 {
                &&& r.1.has_completed(r.0, a.now_after, a.outcome, Action::Resume)
                &&& keeps_pace(r.1, rules, m.after(a))
            } else {
                &&& r.1.has_completed(r.0, a.now_after, a.outcome, Action::Sleep(delay))
                &&& r.2.has_slept(r.1)
                &&& keeps_pace(r.2, rules, m.after(a))
            },
        },
{
    let hooks = ExecutionHooks { before_attempt: a.before_attempt, ..m.hooks };
    let started = RunState {
        phase: Phase::Polling,
        elapsed: Some(a.elapsed_before),
        hooks,
        ..s
    };
    let dealt = RunState { elapsed: Some(a.elapsed_after), hooks: a.hooks, ..started };
    let completed = match a.step {
        Step::Done { .. } => RunState { phase: Phase::Done, ..dealt },
        Step::Continue { delay, total_wait } => if delay@ == 0 {
            RunState {
                phase: Phase::ReadyToStart,
                attempt: next_attempt(s.attempt),
                total_wait,
                previous_delay: Some(delay),
                ..dealt
            }
        } else {
            RunState {
                phase: Phase::Sleeping,
                total_wait,
                previous_delay: Some(delay),
                ..dealt
            }
        },
    };
    let awake = RunState {
        phase: Phase::ReadyToStart,
        attempt: next_attempt(s.attempt),
        ..completed
    };
    assert(steps(
        (RunState { elapsed: completed.elapsed, ..started }).standing(),
        a.outcome,
        rules.classifier,
        rules.stop,
        rules.wait,
        rules.timeout,
        hooks,
        a.hooks,
        a.step,
    )) by {
        let bounded = Bounded { inner: &rules.stop, spent: false };
        let verdict = choose|verdict: Verdict<R, A, O>| #[trigger]
            rules.classifier.may_decide(a.outcome, verdict) && follows(
                m.standing(a.elapsed_after),
                verdict,
                bounded,
                rules.wait,
                rules.timeout,
                hooks.on_exit,
                a.hooks.on_exit,
                a.step,
            );
        assert(rules.classifier.may_decide(a.outcome, verdict));
    }
    (started, completed, awake)
}

} // verus!
