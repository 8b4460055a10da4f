//! The blocking loop.
//!
//! The loop is stated as a relation. A [`Machine`] is everything that changes
//! from attempt to attempt, an [`Attempt`] is what one attempt did, and
//! [`runs`] says which ends and results the attempts can lead to.

use super::elapsed::Elapsed;
use super::error::RetryError;
use super::hooks::{AttemptHook, BeforeAttemptHook, ExecutionHooks, ExitHook};
use super::op::{call_after, called_after, RetryOp};
use super::stats::RetryStats;
use super::step::{step, steps, Standing, Step};
use crate::clock::{read_after, take_reading_after, wait_after, waited_after, Clock, SyncClock};
use crate::decision::Decide;
use crate::duration::Duration;
use crate::state::RetryState;
use crate::stop::Stop;
use crate::wait::Wait;
use vstd::prelude::*;

verus! {

/// Attempts that a loop makes at most. A loop that no strategy ends before ends
/// here as if its stop strategy had fired.
pub const ATTEMPT_LIMIT: u64 = 0xffff_ffff_ffff_ffff;

/// The attempt after `attempt`. The count stays at its highest value once there.
pub open spec fn next_attempt(attempt: u32) -> u32 {
    if attempt == u32::MAX {
        u32::MAX
    } else {
        (attempt + 1) as u32
    }
}

/// A stop strategy that also fires where a loop has spent its attempts.
#[derive(Clone, Copy, Debug)]
pub struct Bounded<'a, S> {
    /// The strategy.
    pub inner: &'a S,
    /// Whether the attempts are spent.
    pub spent: bool,
}

impl<S: Stop> Stop for Bounded<'_, S> {
    open spec fn may_stop(&self, state: RetryState, stop: bool) -> bool {
        self.inner.may_stop(state, true) && stop || self.inner.may_stop(state, false) && stop
            == self.spent
    }

    fn should_stop(&self, state: &RetryState) -> bool {
        self.inner.should_stop(state) || self.spent
    }
}

/// What stays the same throughout a loop.
pub struct Rules<C, S, W> {
    /// The classifier.
    pub classifier: C,
    /// The stop strategy.
    pub stop: S,
    /// The wait strategy.
    pub wait: W,
    /// The timeout.
    pub timeout: Option<Duration>,
}

/// What changes in the course of a loop.
pub struct Machine<F, Cl, BA, AA, OX> {
    /// The operation.
    pub op: F,
    /// The clock.
    pub clock: Cl,
    /// The hooks.
    pub hooks: ExecutionHooks<BA, AA, OX>,
    /// Elapsed time.
    pub elapsed: Elapsed,
    /// The attempt about to start.
    pub attempt: u32,
    /// All waits so far.
    pub total_wait: Duration,
    /// The wait before this attempt.
    pub previous_delay: Option<Duration>,
}

/// What one attempt did.
pub struct Attempt<F, Cl, BA, AA, OX, R, A, O> {
    /// The clock's reading before the operation.
    pub now_before: Duration,
    /// The clock after that reading.
    pub clock_before: Cl,
    /// Elapsed time after that reading.
    pub elapsed_before: Elapsed,
    /// The before-attempt hook after its call.
    pub before_attempt: BA,
    /// What the operation gave.
    pub outcome: O,
    /// The operation after its call.
    pub op: F,
    /// The clock's reading after the operation.
    pub now_after: Duration,
    /// The clock after that reading.
    pub clock_after: Cl,
    /// Elapsed time after that reading.
    pub elapsed_after: Elapsed,
    /// The hooks once the outcome was dealt with.
    pub hooks: ExecutionHooks<BA, AA, OX>,
    /// What the outcome led to.
    pub step: Step<R, A, O>,
    /// The clock after the wait, if there was one.
    pub clock: Cl,
}

impl<F, Cl, BA, AA, OX> Machine<F, Cl, BA, AA, OX> {
    /// Whether this is where a loop begins.
    pub open spec fn begins(
        self,
        op: F,
        clock: Cl,
        hooks: ExecutionHooks<BA, AA, OX>,
    ) -> bool where Cl: Clock {
        &&& self.op == op
        &&& clock.reads(self.clock, self.elapsed.origin())
        &&& self.hooks == hooks
        &&& self.elapsed.begins_at(self.elapsed.origin())
        &&& self.attempt == 1
        &&& self.total_wait@ == 0
        &&& self.previous_delay is None
    }

    /// What the operation and the before-attempt hook see when elapsed time
    /// stands at `elapsed`.
    pub open spec fn state(self, elapsed: Elapsed) -> RetryState {
        RetryState {
            attempt: self.attempt,
            elapsed: elapsed.highest(),
            clocked: true,
            previous_delay: self.previous_delay,
            next_delay: None,
        }
    }

    /// Where the loop stands when the attempt completes and elapsed time stands
    /// at `elapsed`.
    pub open spec fn standing(self, elapsed: Elapsed) -> Standing {
        Standing {
            attempt: self.attempt,
            elapsed: elapsed.highest(),
            previous_delay: self.previous_delay,
            total_wait: self.total_wait,
        }
    }

    /// Whether `a` is an attempt that may happen here: the clock is read, the
    /// before-attempt hook called, the operation called with the state that the
    /// hook saw, the clock read again, the outcome dealt with, and the wait made
    /// unless it is empty. With `left` at 1 no attempt is left after it.
    ///
    /// They go in this order. The readings of the clock and the wait follow one
    /// another, as do the hooks, for each starts from what the one before left. The
    /// operation is called when the hook before it is done, the clock is read again
    /// when the outcome is there, and the wait is made when the hooks are done.
    pub open spec fn happens<C, S, W, O, R, A>(
        self,
        rules: Rules<C, S, W>,
        left: nat,
        a: Attempt<F, Cl, BA, AA, OX, R, A, O>,
    ) -> bool where
        F: RetryOp<Output = O>,
        C: Decide<O, R = R, A = A>,
        S: Stop,
        W: Wait,
        Cl: SyncClock,
        BA: BeforeAttemptHook,
        AA: AttemptHook<O>,
        OX: ExitHook<R, A, O>,
     {
        let state = self.state(a.elapsed_before);
        &&& self.clock.reads(a.clock_before, a.now_before)
        &&& a.elapsed_before.is_after(self.elapsed, a.now_before)
        &&& self.hooks.before_attempt.fires(state, a.before_attempt)
        &&& self.op.yields(state, a.outcome, a.op)
        &&& called_after(self.op, a.before_attempt, state, a.outcome)
        &&& a.clock_before.reads(a.clock_after, a.now_after)
        &&& read_after(a.clock_before, a.outcome, a.now_after)
        &&& a.elapsed_after.is_after(a.elapsed_before, a.now_after)
        &&& steps(
            self.standing(a.elapsed_after),
            a.outcome,
            rules.classifier,
            Bounded { inner: &rules.stop, spent: left == 1 },
            rules.wait,
            rules.timeout,
            ExecutionHooks { before_attempt: a.before_attempt, ..self.hooks },
            a.hooks,
            a.step,
        )
        &&& match a.step {
            Step::Continue { delay, .. } if delay@ != 0 => {
                &&& a.clock_after.sleeps(delay, a.clock)
                &&& waited_after(a.clock_after, a.hooks, delay)
            },
            _ => a.clock == a.clock_after,
        }
    }

    /// Where the loop is once `a` has happened.
    pub open spec fn after<R, A, O>(self, a: Attempt<F, Cl, BA, AA, OX, R, A, O>) -> Self {
        match a.step {
            Step::Continue { delay, total_wait } => Machine {
                op: a.op,
                clock: a.clock,
                hooks: a.hooks,
                elapsed: a.elapsed_after,
                attempt: next_attempt(self.attempt),
                total_wait,
                previous_delay: Some(delay),
            },
            Step::Done { .. } => Machine {
                op: a.op,
                clock: a.clock,
                hooks: a.hooks,
                elapsed: a.elapsed_after,
                ..self
            },
        }
    }
}

/// Whether a loop at `m` with `left` attempts to go may end at `end` with
/// `result` and `stats`.
pub open spec fn runs<F, C, S, W, Cl, BA, AA, OX, O, R, A>(
    rules: Rules<C, S, W>,
    m: Machine<F, Cl, BA, AA, OX>,
    left: nat,
    end: Machine<F, Cl, BA, AA, OX>,
    result: Result<R, RetryError<A, O>>,
    stats: RetryStats,
) -> bool where
    F: RetryOp<Output = O>,
    C: Decide<O, R = R, A = A>,
    S: Stop,
    W: Wait,
    Cl: SyncClock,
    BA: BeforeAttemptHook,
    AA: AttemptHook<O>,
    OX: ExitHook<R, A, O>,

    decreases left,
{
    left > 0 && exists|a: Attempt<F, Cl, BA, AA, OX, R, A, O>| #[trigger]
        m.happens(rules, left, a) && match a.step {
            Step::Done { result: r, stats: s } => r == result && s == stats && end == m.after(a),
            Step::Continue { .. } => runs(
                rules,
                m.after(a),
                (left - 1) as nat,
                end,
                result,
                stats,
            ),
        }
}

/// Whether a loop over the operation, the clock and the hooks of `before` may
/// leave them as in `after` and end with `result` and `stats`.
pub open spec fn ends<F, C, S, W, Cl, BA, AA, OX, O, R, A>(
    rules: Rules<C, S, W>,
    before: (F, Cl, ExecutionHooks<BA, AA, OX>),
    after: (F, Cl, ExecutionHooks<BA, AA, OX>),
    result: Result<R, RetryError<A, O>>,
    stats: RetryStats,
) -> bool where
    F: RetryOp<Output = O>,
    C: Decide<O, R = R, A = A>,
    S: Stop,
    W: Wait,
    Cl: SyncClock,
    BA: BeforeAttemptHook,
    AA: AttemptHook<O>,
    OX: ExitHook<R, A, O>,
 {
    exists|m: Machine<F, Cl, BA, AA, OX>, end: Machine<F, Cl, BA, AA, OX>|
        {
            &&& m.begins(before.0, before.1, before.2)
            &&& #[trigger] runs(rules, m, ATTEMPT_LIMIT as nat, end, result, stats)
            &&& (end.op, end.clock, end.hooks) == after
        }
}

/// Runs the loop.
pub fn run_loop<F, C, S, W, Cl, BA, AA, OX, O, R, A>(
    op: &mut F,
    classifier: &C,
    stop: &S,
    wait: &W,
    timeout: Option<Duration>,
    clock: &mut Cl,
    hooks: &mut ExecutionHooks<BA, AA, OX>,
) -> (r: (Result<R, RetryError<A, O>>, RetryStats)) where
    F: RetryOp<Output = O>,
    C: Decide<O, R = R, A = A>,
    S: Stop,
    W: Wait,
    Cl: SyncClock,
    BA: BeforeAttemptHook,
    AA: AttemptHook<O>,
    OX: ExitHook<R, A, O>,

    requires
        old(op).ready(),
        forall|outcome: O| classifier.askable(outcome),
        old(hooks).before_attempt.armed(),
        old(hooks).after_attempt.armed(),
        old(hooks).on_exit.armed(),
    ensures
        ends(
            Rules { classifier: *classifier, stop: *stop, wait: *wait, timeout },
            (*old(op), *old(clock), *old(hooks)),
            (*final(op), *final(clock), *final(hooks)),
            r.0,
            r.1,
        ),
{
    let mut elapsed = Elapsed::start(clock);
    let mut attempt: u32 = 1;
    let mut total_wait = Duration::zero();
    let mut previous_delay: Option<Duration> = None;
    let mut left: u64 = ATTEMPT_LIMIT;
    let ghost rules = Rules { classifier: *classifier, stop: *stop, wait: *wait, timeout };
    let ghost first = Machine {
        op: *op,
        clock: *clock,
        hooks: *hooks,
        elapsed,
        attempt,
        total_wait,
        previous_delay,
    };
    loop
        invariant
            left > 0,
            attempt >= 1,
            op.ready(),
            forall|outcome: O| classifier.askable(outcome),
            hooks.before_attempt.armed(),
            hooks.after_attempt.armed(),
            hooks.on_exit.armed(),
            rules == (Rules { classifier: *classifier, stop: *stop, wait: *wait, timeout }),
            first.begins(*old(op), *old(clock), *old(hooks)),
            forall|
                end: Machine<F, Cl, BA, AA, OX>,
                result: Result<R, RetryError<A, O>>,
                stats: RetryStats,
            |
                runs(
                    rules,
                    (Machine {
                        op: *op,
                        clock: *clock,
                        hooks: *hooks,
                        elapsed,
                        attempt,
                        total_wait,
                        previous_delay,
                    }),
                    left as nat,
                    end,
                    result,
                    stats,
                ) ==> #[trigger] runs(rules, first, ATTEMPT_LIMIT as nat, end, result, stats),
        decreases left,
    {
        let ghost m = Machine {
            op: *op,
            clock: *clock,
            hooks: *hooks,
            elapsed,
            attempt,
            total_wait,
            previous_delay,
        };
        let now_before = clock.now();
        let ghost clock_before = *clock;
        let since_before = elapsed.observe(now_before);
        let ghost elapsed_before = elapsed;
        let state = RetryState::for_attempt(attempt).with_elapsed(since_before).with_previous_delay(
            previous_delay,
        );
        hooks.before_attempt.call(&state);
        let ghost before_attempt = hooks.before_attempt;
        let outcome = call_after(op, &hooks.before_attempt, state);
        let ghost given = outcome;
        let now_after = take_reading_after(clock, &outcome);
        let ghost clock_after = *clock;
        let since_after = elapsed.observe(now_after);
        let stepped = step(
            attempt,
            since_after,
            previous_delay,
            total_wait,
            outcome,
            classifier,
            &Bounded { inner: stop, spent: left == 1 },
            wait,
            timeout,
            hooks,
        );
        let ghost a = Attempt {
            now_before,
            clock_before,
            elapsed_before,
            before_attempt,
            outcome: given,
            op: *op,
            now_after,
            clock_after,
            elapsed_after: elapsed,
            hooks: *hooks,
            step: stepped,
            clock: *clock,
        };
        match stepped {
            Step::Done { result, stats } => {
                proof {
                    assert(m.happens(rules, left as nat, a));
                    let end = m.after(a);
                    assert(runs(rules, m, left as nat, end, result, stats));
                    assert(runs(rules, first, ATTEMPT_LIMIT as nat, end, result, stats));
                }
                return (result, stats);
            },
            Step::Continue { delay, total_wait: waited } => {
                if !delay.is_zero() {
                    wait_after(clock, &*hooks, delay);
                }
                let ghost done = Attempt { clock: *clock, ..a };
                total_wait = waited;
                previous_delay = Some(delay);
                attempt = attempt.saturating_add(1);
                proof {
                    assert(m.happens(rules, left as nat, done));
                }
                left = left - 1;
            },
        }
    }
}

/// A bounded strategy stops where its attempts are spent, and answers as the strategy in it
/// as long as they are not.
pub proof fn bound_stops_only_when_spent<S: Stop>(strategy: &S, state: RetryState, stop: bool)
    ensures
        (Bounded { inner: strategy, spent: false }).may_stop(state, stop) == strategy.may_stop(
            state,
            stop,
        ),
        !(Bounded { inner: strategy, spent: true }).may_stop(state, false),
{
}

} // verus!
