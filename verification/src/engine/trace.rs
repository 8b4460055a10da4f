//! Loops attempt by attempt.
//!
//! [`runs`](super::run::runs) hides the attempts between the start of a loop and its
//! end. Here they are laid out in order, so that what holds of each of them can be
//! said.

use super::async_engine::{Action, AsyncRun, Event, Phase, RunState};
use super::elapsed::Elapsed;
use super::error::RetryError;
use super::hooks::{
    before_told_after, AttemptHook, BeforeAttemptHook, ExecutionHooks, ExitHook, HookChain,
};
use super::laws::{called_for, next_of};
use super::op::{called_after, RetryOp};
use super::run::{ends, next_attempt, run_loop, runs, Attempt, Bounded, Machine, Rules, ATTEMPT_LIMIT};
use super::state::{AttemptState, Exit, StopReason};
use super::stats::RetryStats;
use super::step::{clamped, follows, steps, Standing, Step};
use crate::clock::{read_after, waited_after, SyncClock, VirtualClock};
use crate::decision::{Decide, Verdict};
use crate::duration::{saturated, Duration, MAX_NANOS};
use crate::state::RetryState;
use crate::stop::Stop;
use crate::wait::Wait;
use vstd::prelude::*;

verus! {

/// Where a loop at `m` is once the first `i` attempts of `trace` have happened.
pub open spec fn reached<F, Cl, BA, AA, OX, R, A, O>(
    m: Machine<F, Cl, BA, AA, OX>,
    trace: Seq<Attempt<F, Cl, BA, AA, OX, R, A, O>>,
    i: int,
) -> Machine<F, Cl, BA, AA, OX>
    decreases i,
{
    if i <= 0 {
        m
    } else {
        reached(m, trace, i - 1).after(trace[i - 1])
    }
}

/// Whether a loop at `m` with `left` attempts to go may make the attempts of `trace`,
/// in order and no others, and end at `end` with `result` and `stats`.
pub open spec fn goes<F, C, S, W, Cl, BA, AA, OX, O, R, A>(
    rules: Rules<C, S, W>,
    m: Machine<F, Cl, BA, AA, OX>,
    left: nat,
    trace: Seq<Attempt<F, Cl, BA, AA, OX, R, A, O>>,
    end: Machine<F, Cl, BA, AA, OX>,
    result: Result<R, RetryError<A, O>>,
    stats: RetryStats,
) -> bool where
    F: RetryOp<Output = O>,
    C: Decide<O, R = R, A = A>,
    S: Stop,
    W: Wait,
    Cl: SyncClock,
    BA: BeforeAttemptHook,
    AA: AttemptHook<O>,
    OX: ExitHook<R, A, O>,
 {
    &&& 0 < trace.len() <= left
    &&& forall|i: int|
        0 <= i < trace.len() ==> reached(m, trace, i).happens(
            rules,
            (left - i) as nat,
            #[trigger] trace[i],
        )
    &&& forall|i: int| 0 <= i < trace.len() - 1 ==> (#[trigger] trace[i]).step is Continue
    &&& trace.last().step == Step::<R, A, O>::Done { result, stats }
    &&& end == reached(m, trace, trace.len() as int)
}

proof fn reached_after<F, Cl, BA, AA, OX, R, A, O>(
    m: Machine<F, Cl, BA, AA, OX>,
    a: Attempt<F, Cl, BA, AA, OX, R, A, O>,
    rest: Seq<Attempt<F, Cl, BA, AA, OX, R, A, O>>,
    i: int,
)
    requires
        0 <= i <= rest.len(),
    ensures
        reached(m, seq![a] + rest, i + 1) == reached(m.after(a), rest, i),
    decreases i,
{
    let trace = seq![a] + rest;
    if i > 0 {
        reached_after(m, a, rest, i - 1);
        assert(trace[i] == rest[i - 1]);
    } else {
        assert(reached(m, trace, 1) == reached(m, trace, 0).after(trace[0]));
    }
}

/// The attempts of a loop.
proof fn trace_of<F, C, S, W, Cl, BA, AA, OX, O, R, A>(
    rules: Rules<C, S, W>,
    m: Machine<F, Cl, BA, AA, OX>,
    left: nat,
    end: Machine<F, Cl, BA, AA, OX>,
    result: Result<R, RetryError<A, O>>,
    stats: RetryStats,
) -> (r: Seq<Attempt<F, Cl, BA, AA, OX, R, A, O>>) where
    F: RetryOp<Output = O>,
    C: Decide<O, R = R, A = A>,
    S: Stop,
    W: Wait,
    Cl: SyncClock,
    BA: BeforeAttemptHook,
    AA: AttemptHook<O>,
    OX: ExitHook<R, A, O>,

    requires
        runs(rules, m, left, end, result, stats),
    ensures
        goes(rules, m, left, r, end, result, stats),
    decreases left,
{
    let a = next_of(rules, m, left, end, result, stats);
    match a.step {
        Step::Done { .. } => {
            let trace = seq![a];
            assert(reached(m, trace, 1) == reached(m, trace, 0).after(trace[0]));
            trace
        },
        Step::Continue { .. } => {
            let rest = trace_of(rules, m.after(a), (left - 1) as nat, end, result, stats);
            let trace = seq![a] + rest;
            assert forall|i: int| 0 <= i < trace.len() implies reached(m, trace, i).happens(
                rules,
                (left - i) as nat,
                #[trigger] trace[i],
            ) by {
                if i > 0 {
                    reached_after(m, a, rest, i - 1);
                    assert(trace[i] == rest[i - 1]);
                }
            }
            assert forall|i: int| 0 <= i < trace.len() - 1 implies (#[trigger]
            trace[i]).step is Continue by {
                if i > 0 {
                    assert(trace[i] == rest[i - 1]);
                }
            }
            reached_after(m, a, rest, rest.len() as int);
            trace
        },
    }
}

/// A loop goes attempt by attempt: however it ends, it began somewhere and made a row of
/// attempts that led there.
pub proof fn loop_goes_attempt_by_attempt<F, C, S, W, Cl, BA, AA, OX, O, R, A>(
    rules: Rules<C, S, W>,
    before: (F, Cl, ExecutionHooks<BA, AA, OX>),
    after: (F, Cl, ExecutionHooks<BA, AA, OX>),
    result: Result<R, RetryError<A, O>>,
    stats: RetryStats,
) where
    F: RetryOp<Output = O>,
    C: Decide<O, R = R, A = A>,
    S: Stop,
    W: Wait,
    Cl: SyncClock,
    BA: BeforeAttemptHook,
    AA: AttemptHook<O>,
    OX: ExitHook<R, A, O>,

    requires
        ends(rules, before, after, result, stats),
    ensures
        exists|
            m: Machine<F, Cl, BA, AA, OX>,
            trace: Seq<Attempt<F, Cl, BA, AA, OX, R, A, O>>,
            end: Machine<F, Cl, BA, AA, OX>,
        | #[trigger]
            goes(rules, m, ATTEMPT_LIMIT as nat, trace, end, result, stats) && m.begins(
                before.0,
                before.1,
                before.2,
            ) && (end.op, end.clock, end.hooks) == after,
{
    let (m, end) = choose|m: Machine<F, Cl, BA, AA, OX>, end: Machine<F, Cl, BA, AA, OX>|
        {
            &&& m.begins(before.0, before.1, before.2)
            &&& #[trigger] runs(rules, m, ATTEMPT_LIMIT as nat, end, result, stats)
            &&& (end.op, end.clock, end.hooks) == after
        };
    let trace = trace_of(rules, m, ATTEMPT_LIMIT as nat, end, result, stats);
    assert(goes(rules, m, ATTEMPT_LIMIT as nat, trace, end, result, stats));
}

/// All the time that is waited after the first `i` attempts of `trace`.
pub open spec fn slept<F, Cl, BA, AA, OX, R, A, O>(
    trace: Seq<Attempt<F, Cl, BA, AA, OX, R, A, O>>,
    i: int,
) -> nat
    decreases i,
{
    if i <= 0 {
        0
    } else {
        slept(trace, i - 1) + match trace[i - 1].step {
            Step::Continue { delay, .. } => delay@,
            Step::Done { .. } => 0,
        }
    }
}

/// Whether only waits move a clock's time, each by as much as is waited. The time stays
/// at the longest representable span once it gets there.
pub open spec fn moved_by_waits<Cl: SyncClock>(time: spec_fn(Cl) -> nat) -> bool {
    &&& forall|clock: Cl, post: Cl, now: Duration| #[trigger]
        clock.reads(post, now) ==> now@ == time(clock) && time(post) == time(clock)
    &&& forall|clock: Cl, dur: Duration, post: Cl| #[trigger]
        clock.sleeps(dur, post) ==> time(post) == saturated((time(clock) + dur@) as int)
}

/// A virtual clock that a loop has to itself is moved by its waits alone.
pub proof fn virtual_clock_is_moved_by_waits()
    ensures
        moved_by_waits(|clock: VirtualClock| clock.time()@),
{
}

/// Whether attempt `i` of `trace` fits a timeout of `budget`:
///
/// - elapsed time is what was waited so far, before and after the attempt;
/// - the wait that follows is no longer than what the timeout leaves;
/// - where the timeout is used up, no attempt follows;
/// - where the wait uses the timeout up, one last attempt follows, which sees the whole
///   timeout elapsed.
pub open spec fn fits<F, Cl, BA, AA, OX, R, A, O>(
    trace: Seq<Attempt<F, Cl, BA, AA, OX, R, A, O>>,
    budget: Duration,
    i: int,
) -> bool {
    let elapsed = trace[i].elapsed_after.highest()@;
    &&& trace[i].elapsed_before.highest()@ == slept(trace, i)
    &&& elapsed == slept(trace, i)
    &&& elapsed >= budget@ ==> i == trace.len() - 1
    &&& trace[i].step matches Step::Continue { delay, .. } ==> {
        &&& delay@ <= budget@ - elapsed
        &&& elapsed + delay@ == budget@ ==> {
            &&& i + 2 == trace.len()
            &&& trace[i + 1].elapsed_before.highest()@ == budget@
        }
    }
}

/// Whether a result is what a verdict that `classifier` may give on `outcome` calls for.
pub open spec fn settled_by<C: Decide<O, R = R, A = A>, O, R, A>(
    classifier: C,
    outcome: O,
    result: Result<R, RetryError<A, O>>,
) -> bool {
    exists|verdict: Verdict<R, A, O>| #[trigger]
        classifier.may_decide(outcome, verdict) && called_for(verdict, result)
}

/// Where a loop under a timeout stands after `i` attempts, on a clock that only its waits
/// move.
proof fn within_budget<F, C, S, W, Cl, BA, AA, OX, O, R, A>(
    rules: Rules<C, S, W>,
    before: (F, Cl, ExecutionHooks<BA, AA, OX>),
    m: Machine<F, Cl, BA, AA, OX>,
    trace: Seq<Attempt<F, Cl, BA, AA, OX, R, A, O>>,
    end: Machine<F, Cl, BA, AA, OX>,
    result: Result<R, RetryError<A, O>>,
    stats: RetryStats,
    budget: Duration,
    time: spec_fn(Cl) -> nat,
    i: int,
) where
    F: RetryOp<Output = O>,
    C: Decide<O, R = R, A = A>,
    S: Stop,
    W: Wait,
    Cl: SyncClock,
    BA: BeforeAttemptHook,
    AA: AttemptHook<O>,
    OX: ExitHook<R, A, O>,

    requires
        rules.timeout == Some(budget),
        moved_by_waits(time),
        time(before.1) + budget@ <= MAX_NANOS,
        m.begins(before.0, before.1, before.2),
        goes(rules, m, ATTEMPT_LIMIT as nat, trace, end, result, stats),
        0 <= i < trace.len(),
    ensures
        slept(trace, i) <= budget@,
        reached(m, trace, i).total_wait@ == slept(trace, i),
        reached(m, trace, i).elapsed.origin()@ == time(before.1),
        reached(m, trace, i).elapsed.highest()@ <= slept(trace, i),
        time(reached(m, trace, i).clock) == time(before.1) + slept(trace, i),
        trace[i].elapsed_before.highest()@ == slept(trace, i),
        trace[i].elapsed_after.highest()@ == slept(trace, i),
        trace[i].step matches Step::Continue { delay, .. } ==> {
            &&& i < trace.len() - 1
            &&& slept(trace, i) < budget@
            &&& slept(trace, i + 1) == slept(trace, i) + delay@
            &&& slept(trace, i + 1) <= budget@
        },
        trace[i].step is Done ==> {
            &&& i == trace.len() - 1
            &&& slept(trace, i + 1) == slept(trace, i)
            &&& stats.total_wait@ == slept(trace, i)
            &&& settled_by(rules.classifier, trace[i].outcome, result)
        },
    decreases i,
{
    let here = reached(m, trace, i);
    if i > 0 {
        within_budget(rules, before, m, trace, end, result, stats, budget, time, i - 1);
        let last = trace[i - 1];
        let there = reached(m, trace, i - 1);
        assert(there.happens(rules, (ATTEMPT_LIMIT - (i - 1)) as nat, last));
        assert(here == there.after(last));
        assert(last.step is Continue);
    }
    let a = trace[i];
    assert(here.happens(rules, (ATTEMPT_LIMIT - i) as nat, a));
}

/// A timeout holds throughout a loop, on a clock that only the waits of the loop move and
/// that has room for the timeout. Every attempt and the wait after it fit the timeout, so
/// all waits together are no longer than it. A wait that uses it up is followed by one
/// last attempt. The caller gets what the verdict on the last outcome calls for: a value
/// or a cause as without a timeout, and where the verdict is to retry, the loop ends as
/// exhausted.
pub proof fn timeout_holds_throughout<F, C, S, W, Cl, BA, AA, OX, O, R, A>(
    rules: Rules<C, S, W>,
    before: (F, Cl, ExecutionHooks<BA, AA, OX>),
    m: Machine<F, Cl, BA, AA, OX>,
    trace: Seq<Attempt<F, Cl, BA, AA, OX, R, A, O>>,
    end: Machine<F, Cl, BA, AA, OX>,
    result: Result<R, RetryError<A, O>>,
    stats: RetryStats,
    budget: Duration,
    time: spec_fn(Cl) -> nat,
) where
    F: RetryOp<Output = O>,
    C: Decide<O, R = R, A = A>,
    S: Stop,
    W: Wait,
    Cl: SyncClock,
    BA: BeforeAttemptHook,
    AA: AttemptHook<O>,
    OX: ExitHook<R, A, O>,

    requires
        rules.timeout == Some(budget),
        moved_by_waits(time),
        time(before.1) + budget@ <= MAX_NANOS,
        m.begins(before.0, before.1, before.2),
        goes(rules, m, ATTEMPT_LIMIT as nat, trace, end, result, stats),
    ensures
        forall|i: int| 0 <= i < trace.len() ==> #[trigger] fits(trace, budget, i),
        stats.total_wait@ == slept(trace, trace.len() as int),
        stats.total_wait@ <= budget@,
        settled_by(rules.classifier, trace.last().outcome, result),
{
    let n = trace.len() - 1;
    assert forall|i: int| 0 <= i < trace.len() implies #[trigger] fits(trace, budget, i) by {
        within_budget(rules, before, m, trace, end, result, stats, budget, time, i);
        if i < n {
            within_budget(rules, before, m, trace, end, result, stats, budget, time, i + 1);
        }
    }
    within_budget(rules, before, m, trace, end, result, stats, budget, time, n);
}

/// A loop that returns or aborts at an attempt does so whatever its timeout: the same
/// attempt may happen under every other.
pub proof fn settling_ignores_the_timeout<F, C, S, W, Cl, BA, AA, OX, O, R, A>(
    rules: Rules<C, S, W>,
    m: Machine<F, Cl, BA, AA, OX>,
    left: nat,
    a: Attempt<F, Cl, BA, AA, OX, R, A, O>,
    result: Result<R, RetryError<A, O>>,
    stats: RetryStats,
    timeout: Option<Duration>,
) where
    F: RetryOp<Output = O>,
    C: Decide<O, R = R, A = A>,
    S: Stop,
    W: Wait,
    Cl: SyncClock,
    BA: BeforeAttemptHook,
    AA: AttemptHook<O>,
    OX: ExitHook<R, A, O>,

    requires
        m.happens(rules, left, a),
        (a.step == Step::<R, A, O>::Done { result, stats }),
        !(result matches Err(RetryError::Exhausted { .. })),
    ensures
        m.happens((Rules { timeout, ..rules }), left, a),
{
}

/// The attempt number that comes after `i` attempts. It stays at its highest value once
/// there.
pub open spec fn counted(i: int) -> int {
    if i < u32::MAX {
        i + 1
    } else {
        u32::MAX as int
    }
}

/// Hooks before an attempt and the operation are called once each in every attempt, all
/// with one state, and attempt after attempt the state counts on from 1. The second hook is
/// called when the first is done, and the operation when both are.
pub proof fn hooks_and_operation_share_a_state<F, C, S, W, Cl, First, Second, AA, OX, O, R, A>(
    rules: Rules<C, S, W>,
    before: (F, Cl, ExecutionHooks<HookChain<First, Second>, AA, OX>),
    m: Machine<F, Cl, HookChain<First, Second>, AA, OX>,
    trace: Seq<Attempt<F, Cl, HookChain<First, Second>, AA, OX, R, A, O>>,
    end: Machine<F, Cl, HookChain<First, Second>, AA, OX>,
    result: Result<R, RetryError<A, O>>,
    stats: RetryStats,
    i: int,
) where
    F: RetryOp<Output = O>,
    C: Decide<O, R = R, A = A>,
    S: Stop,
    W: Wait,
    Cl: SyncClock,
    First: BeforeAttemptHook,
    Second: BeforeAttemptHook,
    AA: AttemptHook<O>,
    OX: ExitHook<R, A, O>,

    requires
        m.begins(before.0, before.1, before.2),
        goes(rules, m, ATTEMPT_LIMIT as nat, trace, end, result, stats),
        0 <= i < trace.len(),
    ensures
        ({
            let here = reached(m, trace, i);
            let hooks = here.hooks.before_attempt;
            let state = here.state(trace[i].elapsed_before);
            let next = reached(m, trace, i + 1);
            &&& state.attempt == counted(i)
            &&& hooks.first().fires(state, next.hooks.before_attempt.first())
            &&& hooks.second().fires(state, next.hooks.before_attempt.second())
            &&& before_told_after(hooks.second(), next.hooks.before_attempt.first(), state)
            &&& called_after(here.op, next.hooks.before_attempt, state, trace[i].outcome)
            &&& here.op.yields(state, trace[i].outcome, next.op)
        }),
    decreases i,
{
    if i > 0 {
        hooks_and_operation_share_a_state(rules, before, m, trace, end, result, stats, i - 1);
        assert(trace[i - 1].step is Continue);
    }
    assert(reached(m, trace, i).happens(rules, (ATTEMPT_LIMIT - i) as nat, trace[i]));
    assert(reached(m, trace, i + 1) == reached(m, trace, i).after(trace[i]));
}

/// What becomes of an outcome, whichever loop it came up in.
///
/// The hook after the attempt sees it as it came. A retry follows only on a verdict to
/// retry, where the stop strategy lets it and the timeout is not used up, and after a wait
/// that the wait strategy names, or what the timeout leaves where that is less. The loop
/// ends with what the verdict says, or as exhausted where it says to retry and the stop
/// strategy or the timeout forbids it; the totals and the hook at the end tell the same.
pub proof fn outcome_leads_on<C, S, W, BA, AA, OX, O, R, A>(
    state: RetryState,
    total: Duration,
    outcome: O,
    classifier: C,
    stop: S,
    wait: W,
    timeout: Option<Duration>,
    hooks: ExecutionHooks<BA, AA, OX>,
    after: ExecutionHooks<BA, AA, OX>,
    step: Step<R, A, O>,
) where
    C: Decide<O, R = R, A = A>,
    S: Stop,
    W: Wait,
    AA: AttemptHook<O>,
    OX: ExitHook<R, A, O>,

    requires
        state.clocked,
        state.next_delay is None,
        timeout matches Some(budget) ==> budget@ <= MAX_NANOS,
        steps(
            (Standing {
                attempt: state.attempt,
                elapsed: state.elapsed,
                previous_delay: state.previous_delay,
                total_wait: total,
            }),
            outcome,
            classifier,
            stop,
            wait,
            timeout,
            hooks,
            after,
            step,
        ),
    ensures
        after.before_attempt == hooks.before_attempt,
        hooks.after_attempt.fires(
            (AttemptState { attempt: state.attempt, elapsed: state.elapsed, outcome: &outcome }),
            after.after_attempt,
        ),
        step matches Step::Continue { delay, total_wait } ==> {
            &&& exists|last: O| #[trigger]
                classifier.may_decide(outcome, Verdict::<R, A, O>::Retry(last))
            &&& stop.may_stop(state, false)
            &&& timeout matches Some(budget) ==> {
                &&& state.elapsed@ < budget@
                &&& delay@ <= budget@ - state.elapsed@
            }
            &&& exists|named: Duration| #[trigger]
                wait.may_wait(state, named) && (delay@ == named@ || {
                    &&& timeout matches Some(budget)
                    &&& delay@ < named@
                    &&& delay@ == budget@ - state.elapsed@
                })
            &&& total@ + delay@ <= MAX_NANOS ==> total_wait@ == total@ + delay@
            &&& total@ + delay@ > MAX_NANOS ==> total_wait@ == MAX_NANOS
            &&& after.on_exit == hooks.on_exit
        },
        step matches Step::Done { result: given, stats: totals } ==> {
            &&& totals.attempts == state.attempt
            &&& totals.total_elapsed == state.elapsed
            &&& totals.total_wait == total
            &&& match given {
                Ok(value) => {
                    &&& classifier.may_decide(outcome, Verdict::Return(value))
                    &&& totals.stop_reason == StopReason::Returned
                    &&& hooks.on_exit.fires(
                        (Exit::Returned { attempt: state.attempt, elapsed: state.elapsed, value: &value }),
                        after.on_exit,
                    )
                },
                Err(RetryError::Aborted { last }) => {
                    &&& classifier.may_decide(outcome, Verdict::Abort(last))
                    &&& totals.stop_reason == StopReason::Aborted
                    &&& hooks.on_exit.fires(
                        (Exit::Aborted { attempt: state.attempt, elapsed: state.elapsed, last: &last }),
                        after.on_exit,
                    )
                },
                Err(RetryError::Exhausted { last }) => {
                    &&& classifier.may_decide(outcome, Verdict::Retry(last))
                    &&& totals.stop_reason == StopReason::Exhausted
                    &&& hooks.on_exit.fires(
                        (Exit::Exhausted { attempt: state.attempt, elapsed: state.elapsed, last: &last }),
                        after.on_exit,
                    )
                    &&& stop.may_stop(state, true) || (timeout matches Some(budget)
                        && state.elapsed@ >= budget@)
                },
            }
        },
{
    let standing = Standing {
        attempt: state.attempt,
        elapsed: state.elapsed,
        previous_delay: state.previous_delay,
        total_wait: total,
    };
    assert(standing.state() == state);
    let verdict = choose|verdict: Verdict<R, A, O>| #[trigger]
        classifier.may_decide(outcome, verdict) && follows(
            standing,
            verdict,
            stop,
            wait,
            timeout,
            hooks.on_exit,
            after.on_exit,
            step,
        );
    assert(classifier.may_decide(outcome, verdict));
    if let Step::Continue { delay, total_wait } = step {
        let named = choose|named: Duration| #[trigger]
            wait.may_wait(standing.state(), named) && delay@ == clamped(
                timeout,
                standing.elapsed,
                named@,
            );
        assert(wait.may_wait(state, named));
    }
}

/// Where a loop is after `i` attempts: at the next attempt, with the wait before it in
/// mind and all waits so far added up.
proof fn counters_along_the_way<F, C, S, W, Cl, BA, AA, OX, O, R, A>(
    rules: Rules<C, S, W>,
    before: (F, Cl, ExecutionHooks<BA, AA, OX>),
    m: Machine<F, Cl, BA, AA, OX>,
    trace: Seq<Attempt<F, Cl, BA, AA, OX, R, A, O>>,
    end: Machine<F, Cl, BA, AA, OX>,
    result: Result<R, RetryError<A, O>>,
    stats: RetryStats,
    i: int,
) where
    F: RetryOp<Output = O>,
    C: Decide<O, R = R, A = A>,
    S: Stop,
    W: Wait,
    Cl: SyncClock,
    BA: BeforeAttemptHook,
    AA: AttemptHook<O>,
    OX: ExitHook<R, A, O>,

    requires
        m.begins(before.0, before.1, before.2),
        goes(rules, m, ATTEMPT_LIMIT as nat, trace, end, result, stats),
        0 <= i < trace.len(),
    ensures
        reached(m, trace, i).attempt == counted(i),
        i == 0 ==> reached(m, trace, i).previous_delay is None,
        i > 0 ==> (trace[i - 1].step matches Step::Continue { delay, .. } && reached(
            m,
            trace,
            i,
        ).previous_delay == Some(delay)),
        slept(trace, i) <= MAX_NANOS ==> reached(m, trace, i).total_wait@ == slept(trace, i),
        slept(trace, i) > MAX_NANOS ==> reached(m, trace, i).total_wait@ == MAX_NANOS,
        reached(m, trace, i).elapsed.origin() == m.elapsed.origin(),
        i > 0 ==> reached(m, trace, i).elapsed == trace[i - 1].elapsed_after,
    decreases i,
{
    if i > 0 {
        counters_along_the_way(rules, before, m, trace, end, result, stats, i - 1);
        assert(trace[i - 1].step is Continue);
        assert(reached(m, trace, i - 1).happens(
            rules,
            (ATTEMPT_LIMIT - (i - 1)) as nat,
            trace[i - 1],
        ));
    }
}

/// The clock is read once when a loop begins, once before each attempt and once after it,
/// and then waits for as long as the loop waits. The reading after an attempt is taken when
/// its outcome is there, and the wait is made when the hooks are done. The clock is asked
/// for nothing else, and ends where the last reading left it.
pub proof fn clock_is_read_around_each_attempt<F, C, S, W, Cl, BA, AA, OX, O, R, A>(
    rules: Rules<C, S, W>,
    before: (F, Cl, ExecutionHooks<BA, AA, OX>),
    m: Machine<F, Cl, BA, AA, OX>,
    trace: Seq<Attempt<F, Cl, BA, AA, OX, R, A, O>>,
    end: Machine<F, Cl, BA, AA, OX>,
    result: Result<R, RetryError<A, O>>,
    stats: RetryStats,
    i: int,
) where
    F: RetryOp<Output = O>,
    C: Decide<O, R = R, A = A>,
    S: Stop,
    W: Wait,
    Cl: SyncClock,
    BA: BeforeAttemptHook,
    AA: AttemptHook<O>,
    OX: ExitHook<R, A, O>,

    requires
        m.begins(before.0, before.1, before.2),
        goes(rules, m, ATTEMPT_LIMIT as nat, trace, end, result, stats),
        0 <= i < trace.len(),
    ensures
        before.1.reads(m.clock, m.elapsed.origin()),
        reached(m, trace, i).clock.reads(trace[i].clock_before, trace[i].now_before),
        trace[i].clock_before.reads(trace[i].clock_after, trace[i].now_after),
        read_after(trace[i].clock_before, trace[i].outcome, trace[i].now_after),
        trace[i].step matches Step::Continue { delay, .. } ==> {
            &&& delay@ == 0 ==> reached(m, trace, i + 1).clock == trace[i].clock_after
            &&& delay@ > 0 ==> trace[i].clock_after.sleeps(delay, reached(m, trace, i + 1).clock)
            &&& delay@ > 0 ==> waited_after(
                trace[i].clock_after,
                reached(m, trace, i + 1).hooks,
                delay,
            )
        },
        end.clock == trace.last().clock_after,
{
    assert(reached(m, trace, i).happens(rules, (ATTEMPT_LIMIT - i) as nat, trace[i]));
    let n = trace.len() - 1;
    assert(reached(m, trace, n).happens(rules, (ATTEMPT_LIMIT - n) as nat, trace[n]));
    assert(reached(m, trace, i + 1) == reached(m, trace, i).after(trace[i]));
}

/// The time an attempt takes counts, on every clock. Elapsed time before and after an
/// attempt is at least what the reading there tells since the loop began, it never goes
/// back, and it is no more than some reading told. The totals say what it was after the
/// last attempt. Under a timeout no retry follows an attempt that was read to end at or
/// past it.
pub proof fn attempts_take_time<F, C, S, W, Cl, BA, AA, OX, O, R, A>(
    rules: Rules<C, S, W>,
    before: (F, Cl, ExecutionHooks<BA, AA, OX>),
    m: Machine<F, Cl, BA, AA, OX>,
    trace: Seq<Attempt<F, Cl, BA, AA, OX, R, A, O>>,
    end: Machine<F, Cl, BA, AA, OX>,
    result: Result<R, RetryError<A, O>>,
    stats: RetryStats,
    i: int,
) where
    F: RetryOp<Output = O>,
    C: Decide<O, R = R, A = A>,
    S: Stop,
    W: Wait,
    Cl: SyncClock,
    BA: BeforeAttemptHook,
    AA: AttemptHook<O>,
    OX: ExitHook<R, A, O>,

    requires
        m.begins(before.0, before.1, before.2),
        goes(rules, m, ATTEMPT_LIMIT as nat, trace, end, result, stats),
        0 <= i < trace.len(),
        trace[i].now_before@ <= MAX_NANOS,
        trace[i].now_after@ <= MAX_NANOS,
    ensures
        trace[i].elapsed_before.highest()@ >= trace[i].now_before@ - m.elapsed.origin()@,
        trace[i].elapsed_after.highest()@ >= trace[i].now_after@ - m.elapsed.origin()@,
        trace[i].elapsed_after.highest()@ >= trace[i].elapsed_before.highest()@,
        trace[i].elapsed_after.highest()@ == trace[i].elapsed_before.highest()@
            || trace[i].elapsed_after.highest()@ == trace[i].now_after@ - m.elapsed.origin()@,
        i == 0 ==> (trace[i].elapsed_before.highest()@ == 0
            || trace[i].elapsed_before.highest()@ == trace[i].now_before@ - m.elapsed.origin()@),
        i > 0 ==> trace[i].elapsed_before.highest()@ >= trace[i - 1].elapsed_after.highest()@,
        i > 0 ==> (trace[i].elapsed_before.highest()@ == trace[i - 1].elapsed_after.highest()@
            || trace[i].elapsed_before.highest()@ == trace[i].now_before@ - m.elapsed.origin()@),
        i == trace.len() - 1 ==> stats.total_elapsed == trace[i].elapsed_after.highest(),
        rules.timeout matches Some(budget) ==> (trace[i].now_after@ >= m.elapsed.origin()@
            + budget@ ==> i == trace.len() - 1),
{
    counters_along_the_way(rules, before, m, trace, end, result, stats, i);
    assert(reached(m, trace, i).happens(rules, (ATTEMPT_LIMIT - i) as nat, trace[i]));
}

/// The operation and the hook before it are called once in each attempt, with one state,
/// the operation when the hook is done. The state counts the attempts from 1, tells the
/// time elapsed before the attempt, and tells the
/// wait that was made since the attempt before, of which there is none at first.
pub proof fn operation_sees_the_attempt<F, C, S, W, Cl, BA, AA, OX, O, R, A>(
    rules: Rules<C, S, W>,
    before: (F, Cl, ExecutionHooks<BA, AA, OX>),
    m: Machine<F, Cl, BA, AA, OX>,
    trace: Seq<Attempt<F, Cl, BA, AA, OX, R, A, O>>,
    end: Machine<F, Cl, BA, AA, OX>,
    result: Result<R, RetryError<A, O>>,
    stats: RetryStats,
    i: int,
    state: RetryState,
) where
    F: RetryOp<Output = O>,
    C: Decide<O, R = R, A = A>,
    S: Stop,
    W: Wait,
    Cl: SyncClock,
    BA: BeforeAttemptHook,
    AA: AttemptHook<O>,
    OX: ExitHook<R, A, O>,

    requires
        m.begins(before.0, before.1, before.2),
        goes(rules, m, ATTEMPT_LIMIT as nat, trace, end, result, stats),
        0 <= i < trace.len(),
        i < u32::MAX ==> state.attempt == i + 1,
        i >= u32::MAX ==> state.attempt == u32::MAX,
        state.elapsed == trace[i].elapsed_before.highest(),
        state.clocked,
        i == 0 ==> state.previous_delay is None,
        i > 0 ==> (trace[i - 1].step matches Step::Continue { delay, .. } ==> state.previous_delay
            == Some(delay)),
        state.next_delay is None,
    ensures
        reached(m, trace, i).hooks.before_attempt.fires(
            state,
            reached(m, trace, i + 1).hooks.before_attempt,
        ),
        reached(m, trace, i).op.yields(state, trace[i].outcome, reached(m, trace, i + 1).op),
        called_after(
            reached(m, trace, i).op,
            reached(m, trace, i + 1).hooks.before_attempt,
            state,
            trace[i].outcome,
        ),
{
    counters_along_the_way(rules, before, m, trace, end, result, stats, i);
    assert(reached(m, trace, i).happens(rules, (ATTEMPT_LIMIT - i) as nat, trace[i]));
    assert(reached(m, trace, i).state(trace[i].elapsed_before) == state);
    assert(reached(m, trace, i + 1) == reached(m, trace, i).after(trace[i]));
}

/// What becomes of an outcome. The hook after the attempt sees it as it came, with the
/// time elapsed after the attempt.
///
/// A retry follows only on a verdict to retry, where the stop strategy lets it and the
/// timeout is not used up. The wait is one that the wait strategy names, or what the
/// timeout leaves where that is less, and it is added to the total. Both strategies see
/// the attempt, the time elapsed after it and the wait made before it. The hook at the end
/// is not called.
///
/// The loop ends with a value or a cause on a verdict that says so. It ends as exhausted
/// on a verdict to retry where the stop strategy or the timeout forbids it, or where no
/// attempt is left. The totals and the hook at the end tell the same.
pub proof fn outcome_is_dealt_with<F, C, S, W, Cl, BA, AA, OX, O, R, A>(
    rules: Rules<C, S, W>,
    before: (F, Cl, ExecutionHooks<BA, AA, OX>),
    m: Machine<F, Cl, BA, AA, OX>,
    trace: Seq<Attempt<F, Cl, BA, AA, OX, R, A, O>>,
    end: Machine<F, Cl, BA, AA, OX>,
    result: Result<R, RetryError<A, O>>,
    stats: RetryStats,
    i: int,
    state: RetryState,
) where
    F: RetryOp<Output = O>,
    C: Decide<O, R = R, A = A>,
    S: Stop,
    W: Wait,
    Cl: SyncClock,
    BA: BeforeAttemptHook,
    AA: AttemptHook<O>,
    OX: ExitHook<R, A, O>,

    requires
        m.begins(before.0, before.1, before.2),
        goes(rules, m, ATTEMPT_LIMIT as nat, trace, end, result, stats),
        0 <= i < trace.len(),
        i < u32::MAX ==> state.attempt == i + 1,
        i >= u32::MAX ==> state.attempt == u32::MAX,
        state.elapsed == trace[i].elapsed_after.highest(),
        state.clocked,
        i == 0 ==> state.previous_delay is None,
        i > 0 ==> (trace[i - 1].step matches Step::Continue { delay, .. } ==> state.previous_delay
            == Some(delay)),
        state.next_delay is None,
        rules.timeout matches Some(budget) ==> budget@ <= MAX_NANOS,
    ensures
        reached(m, trace, i).hooks.after_attempt.fires(
            (AttemptState { attempt: state.attempt, elapsed: state.elapsed, outcome: &trace[i].outcome }),
            reached(m, trace, i + 1).hooks.after_attempt,
        ),
        trace[i].step matches Step::Continue { delay, total_wait } ==> {
            &&& exists|last: O| #[trigger]
                rules.classifier.may_decide(trace[i].outcome, Verdict::<R, A, O>::Retry(last))
            &&& rules.stop.may_stop(state, false)
            &&& rules.timeout matches Some(budget) ==> {
                &&& state.elapsed@ < budget@
                &&& delay@ <= budget@ - state.elapsed@
            }
            &&& exists|named: Duration| #[trigger]
                rules.wait.may_wait(state, named) && (delay@ == named@ || {
                    &&& rules.timeout matches Some(budget)
                    &&& delay@ < named@
                    &&& delay@ == budget@ - state.elapsed@
                })
            &&& reached(m, trace, i).total_wait@ + delay@ <= MAX_NANOS ==> total_wait@ == reached(m, trace, i).total_wait@ + delay@
            &&& reached(m, trace, i).total_wait@ + delay@ > MAX_NANOS ==> total_wait@ == MAX_NANOS
            &&& reached(m, trace, i + 1).hooks.on_exit == reached(m, trace, i).hooks.on_exit
        },
        trace[i].step matches Step::Done { result: given, stats: totals } ==> {
            &&& totals.attempts == state.attempt
            &&& totals.total_elapsed == state.elapsed
            &&& totals.total_wait == reached(m, trace, i).total_wait
            &&& match given {
                Ok(value) => {
                    &&& rules.classifier.may_decide(trace[i].outcome, Verdict::Return(value))
                    &&& totals.stop_reason == StopReason::Returned
                    &&& reached(m, trace, i).hooks.on_exit.fires(
                        (Exit::Returned { attempt: state.attempt, elapsed: state.elapsed, value: &value }),
                        reached(m, trace, i + 1).hooks.on_exit,
                    )
                },
                Err(RetryError::Aborted { last }) => {
                    &&& rules.classifier.may_decide(trace[i].outcome, Verdict::Abort(last))
                    &&& totals.stop_reason == StopReason::Aborted
                    &&& reached(m, trace, i).hooks.on_exit.fires(
                        (Exit::Aborted { attempt: state.attempt, elapsed: state.elapsed, last: &last }),
                        reached(m, trace, i + 1).hooks.on_exit,
                    )
                },
                Err(RetryError::Exhausted { last }) => {
                    &&& rules.classifier.may_decide(trace[i].outcome, Verdict::Retry(last))
                    &&& totals.stop_reason == StopReason::Exhausted
                    &&& reached(m, trace, i).hooks.on_exit.fires(
                        (Exit::Exhausted { attempt: state.attempt, elapsed: state.elapsed, last: &last }),
                        reached(m, trace, i + 1).hooks.on_exit,
                    )
                    &&& rules.stop.may_stop(state, true) || (rules.timeout matches Some(budget)
                        && state.elapsed@ >= budget@) || i == u64::MAX - 1
                },
            }
        },
{
    counters_along_the_way(rules, before, m, trace, end, result, stats, i);
    let here = reached(m, trace, i);
    let a = trace[i];
    assert(here.happens(rules, (ATTEMPT_LIMIT - i) as nat, a));
    assert(reached(m, trace, i + 1) == here.after(a));
    let left = (ATTEMPT_LIMIT - i) as nat;
    let bounded = Bounded { inner: &rules.stop, spent: left == 1 };
    let hooks = ExecutionHooks { before_attempt: a.before_attempt, ..here.hooks };
    assert(here.standing(a.elapsed_after) == (Standing {
        attempt: state.attempt,
        elapsed: state.elapsed,
        previous_delay: state.previous_delay,
        total_wait: here.total_wait,
    }));
    outcome_leads_on(
        state,
        here.total_wait,
        a.outcome,
        rules.classifier,
        bounded,
        rules.wait,
        rules.timeout,
        hooks,
        a.hooks,
        a.step,
    );
}

/// Waits add up: the total is all the time that was waited, up to the longest
/// representable span, and so is the total that each attempt starts from.
pub proof fn waits_add_up<F, C, S, W, Cl, BA, AA, OX, O, R, A>(
    rules: Rules<C, S, W>,
    before: (F, Cl, ExecutionHooks<BA, AA, OX>),
    m: Machine<F, Cl, BA, AA, OX>,
    trace: Seq<Attempt<F, Cl, BA, AA, OX, R, A, O>>,
    end: Machine<F, Cl, BA, AA, OX>,
    result: Result<R, RetryError<A, O>>,
    stats: RetryStats,
    i: int,
) where
    F: RetryOp<Output = O>,
    C: Decide<O, R = R, A = A>,
    S: Stop,
    W: Wait,
    Cl: SyncClock,
    BA: BeforeAttemptHook,
    AA: AttemptHook<O>,
    OX: ExitHook<R, A, O>,

    requires
        m.begins(before.0, before.1, before.2),
        goes(rules, m, ATTEMPT_LIMIT as nat, trace, end, result, stats),
        0 <= i < trace.len(),
    ensures
        slept(trace, i) <= MAX_NANOS ==> reached(m, trace, i).total_wait@ == slept(trace, i),
        slept(trace, i) > MAX_NANOS ==> reached(m, trace, i).total_wait@ == MAX_NANOS,
        i == trace.len() - 1 ==> stats.total_wait == reached(m, trace, i).total_wait,
{
    counters_along_the_way(rules, before, m, trace, end, result, stats, i);
    assert(reached(m, trace, i).happens(rules, (ATTEMPT_LIMIT - i) as nat, trace[i]));
}

/// A driven loop calls the operation with the state that the hook before the attempt saw.
/// It tells the attempt, the wait made before it, and a time elapsed that is at least what
/// the reading tells, never goes back, and is no more than some reading told. Nothing else
/// about the loop changes but that it is polling.
pub proof fn driven_operation_sees_the_attempt<C, S, W, BA: BeforeAttemptHook, AA, OX>(
    before: RunState<C, S, W, BA, AA, OX>,
    after: RunState<C, S, W, BA, AA, OX>,
    origin: Duration,
    elapsed: Elapsed,
    now: Duration,
    state: RetryState,
)
    requires
        before.elapsed == Some(elapsed),
        elapsed.origin() == origin,
        now@ <= MAX_NANOS,
        after.has_resumed(before, now, state),
    ensures
        state.attempt == before.attempt,
        state.previous_delay == before.previous_delay,
        state.clocked,
        state.next_delay is None,
        state.elapsed@ >= elapsed.highest()@,
        state.elapsed@ >= now@ - origin@,
        state.elapsed@ == elapsed.highest()@ || state.elapsed@ == now@ - origin@,
        after.elapsed matches Some(later) && later.origin() == origin && later.highest()
            == state.elapsed,
        before.hooks.before_attempt.fires(state, after.hooks.before_attempt),
        after.hooks.after_attempt == before.hooks.after_attempt,
        after.hooks.on_exit == before.hooks.on_exit,
        after.phase == Phase::Polling,
        after.rules == before.rules,
        after.attempt == before.attempt,
        after.total_wait == before.total_wait,
        after.previous_delay == before.previous_delay,
{
}

/// A driven loop deals with an outcome as a blocking one does. The time elapsed is at
/// least what the reading after the attempt tells, never goes back, and is no more than
/// some reading told; the hooks, the strategies, the timeout and the totals go by it. What
/// is to be done next, and where the loop then is, follow from the verdict, the strategies
/// and the timeout.
pub proof fn driven_outcome_is_dealt_with<C, S, W, BA, AA, OX, O, R, A>(
    before: RunState<C, S, W, BA, AA, OX>,
    after: RunState<C, S, W, BA, AA, OX>,
    elapsed: Elapsed,
    now: Duration,
    outcome: O,
    action: Action<R, A, O>,
    state: RetryState,
) where
    C: Decide<O, R = R, A = A>,
    S: Stop,
    W: Wait,
    AA: AttemptHook<O>,
    OX: ExitHook<R, A, O>,

    requires
        before.elapsed == Some(elapsed),
        now@ <= MAX_NANOS,
        before.rules.timeout matches Some(budget) ==> budget@ <= MAX_NANOS,
        after.has_completed(before, now, outcome, action),
        state.attempt == before.attempt,
        state.previous_delay == before.previous_delay,
        state.clocked,
        state.next_delay is None,
        state.elapsed == after.elapsed->0.highest(),
    ensures
        state.elapsed@ >= elapsed.highest()@,
        state.elapsed@ >= now@ - elapsed.origin()@,
        state.elapsed@ == elapsed.highest()@ || state.elapsed@ == now@ - elapsed.origin()@,
        after.elapsed matches Some(later) && later.origin() == elapsed.origin(),
        after.rules == before.rules,
        after.hooks.before_attempt == before.hooks.before_attempt,
        before.hooks.after_attempt.fires(
            (AttemptState { attempt: before.attempt, elapsed: after.elapsed->0.highest(), outcome: &outcome }),
            after.hooks.after_attempt,
        ),
        !(action is Finish) ==> {
            &&& after.previous_delay matches Some(delay)
            &&& action == if delay@ == 0 {
                Action::<R, A, O>::Resume
            } else {
                Action::<R, A, O>::Sleep(delay)
            }
            &&& after.phase == if delay@ == 0 {
                Phase::ReadyToStart
            } else {
                Phase::Sleeping
            }
            &&& delay@ > 0 ==> after.attempt == before.attempt
            &&& delay@ == 0 && before.attempt < u32::MAX ==> after.attempt == before.attempt + 1
            &&& delay@ == 0 && before.attempt == u32::MAX ==> after.attempt == u32::MAX
            &&& exists|last: O| #[trigger]
                before.rules.classifier.may_decide(outcome, Verdict::<R, A, O>::Retry(last))
            &&& before.rules.stop.may_stop(state, false)
            &&& before.rules.timeout matches Some(budget) ==> {
                &&& after.elapsed->0.highest()@ < budget@
                &&& delay@ <= budget@ - after.elapsed->0.highest()@
            }
            &&& exists|named: Duration| #[trigger]
                before.rules.wait.may_wait(state, named) && (delay@ == named@ || {
                    &&& before.rules.timeout matches Some(budget)
                    &&& delay@ < named@
                    &&& delay@ == budget@ - after.elapsed->0.highest()@
                })
            &&& before.total_wait@ + delay@ <= MAX_NANOS ==> after.total_wait@ == before.total_wait@ + delay@
            &&& before.total_wait@ + delay@ > MAX_NANOS ==> after.total_wait@ == MAX_NANOS
            &&& after.hooks.on_exit == before.hooks.on_exit
        },
        action matches Action::Finish { result: given, stats: totals } ==> {
            &&& after.phase == Phase::Done
            &&& totals.attempts == before.attempt
            &&& totals.total_elapsed == after.elapsed->0.highest()
            &&& totals.total_wait == before.total_wait
            &&& match given {
                Ok(value) => {
                    &&& before.rules.classifier.may_decide(outcome, Verdict::Return(value))
                    &&& totals.stop_reason == StopReason::Returned
                    &&& before.hooks.on_exit.fires(
                        (Exit::Returned { attempt: before.attempt, elapsed: after.elapsed->0.highest(), value: &value }),
                        after.hooks.on_exit,
                    )
                },
                Err(RetryError::Aborted { last }) => {
                    &&& before.rules.classifier.may_decide(outcome, Verdict::Abort(last))
                    &&& totals.stop_reason == StopReason::Aborted
                    &&& before.hooks.on_exit.fires(
                        (Exit::Aborted { attempt: before.attempt, elapsed: after.elapsed->0.highest(), last: &last }),
                        after.hooks.on_exit,
                    )
                },
                Err(RetryError::Exhausted { last }) => {
                    &&& before.rules.classifier.may_decide(outcome, Verdict::Retry(last))
                    &&& totals.stop_reason == StopReason::Exhausted
                    &&& before.hooks.on_exit.fires(
                        (Exit::Exhausted { attempt: before.attempt, elapsed: after.elapsed->0.highest(), last: &last }),
                        after.hooks.on_exit,
                    )
                    &&& before.rules.stop.may_stop(state, true) || (before.rules.timeout matches Some(budget)
                        && after.elapsed->0.highest()@ >= budget@)
                },
            }
        },
{
    let given = RunState { elapsed: after.elapsed, ..before };
    let stepped = choose|stepped: Step<R, A, O>|
        {
            &&& #[trigger] steps(
                given.standing(),
                outcome,
                before.rules.classifier,
                before.rules.stop,
                before.rules.wait,
                before.rules.timeout,
                before.hooks,
                after.hooks,
                stepped,
            )
            &&& match stepped {
                Step::Done { result, stats } => {
                    &&& action == Action::<R, A, O>::Finish { result, stats }
                    &&& after == (RunState {
                        phase: Phase::Done,
                        elapsed: after.elapsed,
                        hooks: after.hooks,
                        ..before
                    })
                },
                Step::Continue { delay, total_wait } => if delay@ == 0 {
                    &&& action == Action::<R, A, O>::Resume
                    &&& after == (RunState {
                        phase: Phase::ReadyToStart,
                        elapsed: after.elapsed,
                        hooks: after.hooks,
                        attempt: next_attempt(before.attempt),
                        total_wait,
                        previous_delay: Some(delay),
                        ..before
                    })
                } else {
                    &&& action == Action::<R, A, O>::Sleep(delay)
                    &&& after == (RunState {
                        phase: Phase::Sleeping,
                        elapsed: after.elapsed,
                        hooks: after.hooks,
                        total_wait,
                        previous_delay: Some(delay),
                        ..before
                    })
                },
            }
        };
    assert(given.standing() == (Standing {
        attempt: state.attempt,
        elapsed: state.elapsed,
        previous_delay: state.previous_delay,
        total_wait: before.total_wait,
    }));
    outcome_leads_on(
        state,
        before.total_wait,
        outcome,
        before.rules.classifier,
        before.rules.stop,
        before.rules.wait,
        before.rules.timeout,
        before.hooks,
        after.hooks,
        stepped,
    );
}

/// A driven loop begins at the first attempt, at the reading it is given, with nothing
/// elapsed and nothing waited for. Once it has begun it does not begin again.
pub proof fn driven_loop_begins_once<C, S, W, BA, AA, OX>(
    rules: Rules<C, S, W>,
    hooks: ExecutionHooks<BA, AA, OX>,
    made: RunState<C, S, W, BA, AA, OX>,
    begun: RunState<C, S, W, BA, AA, OX>,
    again: RunState<C, S, W, BA, AA, OX>,
    now: Duration,
    later: Duration,
)
    requires
        made.is_new(rules, hooks),
        begun.is_started(made, now),
        again.is_started(begun, later),
    ensures
        made.elapsed is None,
        again == begun,
        begun.rules == rules,
        begun.hooks == hooks,
        begun.phase == Phase::ReadyToStart,
        begun.elapsed matches Some(elapsed) && elapsed.origin() == now && elapsed.highest()@ == 0,
        begun.attempt == 1,
        begun.total_wait@ == 0,
        begun.previous_delay is None,
{
}

/// A wait of a driven loop leads to the next attempt and changes nothing else.
pub proof fn driven_wait_leads_to_the_next_attempt<C, S, W, BA, AA, OX>(
    before: RunState<C, S, W, BA, AA, OX>,
    after: RunState<C, S, W, BA, AA, OX>,
)
    requires
        after.has_slept(before),
    ensures
        after.phase == Phase::ReadyToStart,
        before.attempt < u32::MAX ==> after.attempt == before.attempt + 1,
        before.attempt == u32::MAX ==> after.attempt == u32::MAX,
        after.rules == before.rules,
        after.hooks == before.hooks,
        after.elapsed == before.elapsed,
        after.total_wait == before.total_wait,
        after.previous_delay == before.previous_delay,
{
}

/// A blocking loop is run from the operation, the clock and the hooks it is lent, by the
/// rules it is given, attempt by attempt. It leaves them where the last attempt left them,
/// and gives what that attempt led to.
pub proof fn loop_is_run_attempt_by_attempt<F, C, S, W, Cl, BA, AA, OX, O, R, A>(
    op: &mut F,
    classifier: C,
    stop: S,
    wait: W,
    timeout: Option<Duration>,
    clock: &mut Cl,
    hooks: &mut ExecutionHooks<BA, AA, OX>,
    given: (Result<R, RetryError<A, O>>, RetryStats),
) where
    F: RetryOp<Output = O>,
    C: Decide<O, R = R, A = A>,
    S: Stop,
    W: Wait,
    Cl: SyncClock,
    BA: BeforeAttemptHook,
    AA: AttemptHook<O>,
    OX: ExitHook<R, A, O>,

    requires
        call_ensures(
            run_loop::<F, C, S, W, Cl, BA, AA, OX, O, R, A>,
            (op, &classifier, &stop, &wait, timeout, clock, hooks),
            given,
        ),
    ensures
        exists|
            rules: Rules<C, S, W>,
            m: Machine<F, Cl, BA, AA, OX>,
            trace: Seq<Attempt<F, Cl, BA, AA, OX, R, A, O>>,
            end: Machine<F, Cl, BA, AA, OX>,
        |
            {
                &&& #[trigger] goes(rules, m, u64::MAX as nat, trace, end, given.0, given.1)
                &&& rules.classifier == classifier
                &&& rules.stop == stop
                &&& rules.wait == wait
                &&& rules.timeout == timeout
                &&& m.begins(*old(op), *old(clock), *old(hooks))
                &&& end.op == *final(op)
                &&& end.clock == *final(clock)
                &&& end.hooks == *final(hooks)
            },
{
    let rules = Rules { classifier, stop, wait, timeout };
    loop_goes_attempt_by_attempt(
        rules,
        (*old(op), *old(clock), *old(hooks)),
        (*final(op), *final(clock), *final(hooks)),
        given.0,
        given.1,
    );
}

/// A loop begins with the operation and the hooks it is given, at the first reading of the
/// clock. Every attempt but the last is followed by a retry, and the caller gets what the
/// last one led to.
pub proof fn loop_ends_with_its_last_attempt<F, C, S, W, Cl, BA, AA, OX, O, R, A>(
    rules: Rules<C, S, W>,
    before: (F, Cl, ExecutionHooks<BA, AA, OX>),
    m: Machine<F, Cl, BA, AA, OX>,
    trace: Seq<Attempt<F, Cl, BA, AA, OX, R, A, O>>,
    end: Machine<F, Cl, BA, AA, OX>,
    result: Result<R, RetryError<A, O>>,
    stats: RetryStats,
) where
    F: RetryOp<Output = O>,
    C: Decide<O, R = R, A = A>,
    S: Stop,
    W: Wait,
    Cl: SyncClock,
    BA: BeforeAttemptHook,
    AA: AttemptHook<O>,
    OX: ExitHook<R, A, O>,

    requires
        m.begins(before.0, before.1, before.2),
        goes(rules, m, ATTEMPT_LIMIT as nat, trace, end, result, stats),
    ensures
        trace.len() > 0,
        m.op == before.0,
        m.hooks == before.2,
        before.1.reads(m.clock, m.elapsed.origin()),
        m.elapsed.highest()@ == 0,
        forall|i: int| 0 <= i < trace.len() - 1 ==> (#[trigger] trace[i]).step is Continue,
        trace.last().step == (Step::<R, A, O>::Done { result, stats }),
        end.op == trace.last().op,
        end.clock == trace.last().clock_after,
        end.hooks == trace.last().hooks,
{
    let n = trace.len() - 1;
    assert(reached(m, trace, n).happens(rules, (ATTEMPT_LIMIT - n) as nat, trace[n]));
    assert(reached(m, trace, n + 1) == reached(m, trace, n).after(trace[n]));
}

/// What a driven loop does on each event: it starts an attempt when it is resumed, deals
/// with an outcome when it comes in, and goes on to the next attempt when a wait is over.
pub proof fn driven_loop_goes_event_by_event<C, S, W, BA, AA, OX, O, R, A>(
    run: &mut AsyncRun<C, S, W, BA, AA, OX>,
    event: Event<O>,
    now: Duration,
    action: Action<R, A, O>,
) where
    C: Decide<O, R = R, A = A>,
    S: Stop,
    W: Wait,
    BA: BeforeAttemptHook,
    AA: AttemptHook<O>,
    OX: ExitHook<R, A, O>,

    requires
        call_ensures(
            AsyncRun::<C, S, W, BA, AA, OX>::poll::<O, R, A>,
            (run, event, now),
            action,
        ),
    ensures
        event is Resumed ==> (action matches Action::Call(state) && final(run)@.has_resumed(
            old(run)@,
            now,
            state,
        )),
        event matches Event::Completed(outcome) ==> final(run)@.has_completed(
            old(run)@,
            now,
            outcome,
            action,
        ),
        event is Slept ==> action is Resume && final(run)@.has_slept(old(run)@),
{
}

/// A driven loop is begun by a reading, and by the first one only.
pub proof fn driven_loop_is_begun_by_a_reading<C, S, W, BA, AA, OX>(
    run: &mut AsyncRun<C, S, W, BA, AA, OX>,
    now: Duration,
)
    requires
        call_ensures(AsyncRun::<C, S, W, BA, AA, OX>::start, (run, now), ()),
    ensures
        old(run)@.elapsed is Some ==> final(run)@ == old(run)@,
        old(run)@.elapsed is None ==> (final(run)@.elapsed matches Some(elapsed)
            && elapsed.origin() == now && elapsed.highest()@ == 0),
        final(run)@.rules == old(run)@.rules,
        final(run)@.hooks == old(run)@.hooks,
        final(run)@.phase == old(run)@.phase,
        final(run)@.attempt == old(run)@.attempt,
        final(run)@.total_wait == old(run)@.total_wait,
        final(run)@.previous_delay == old(run)@.previous_delay,
{
}

} // verus!
