//! The blocking loop that goes by a predicate.
//!
//! The loop is stated as a relation. A [`Course`] is everything that changes from
//! attempt to attempt, a [`Turn`] is what one round of the loop did, and [`runs`]
//! says which ends and results the rounds can lead to.

use super::common::{
    clamp_and_fire_after_attempt, clamped_at, finish_cancelled, fire_before_attempt,
    tells_cancel, tells_wait, transition_from_outcome, transits, wanted_stats, AttemptTransition,
    Place,
};
use super::hooks::{AttemptHook, BeforeAttemptHook, ExecutionHooks, ExitHook};
use super::policy::PredicatePolicy;
use crate::cancel::{ask_after, said_after, Canceler};
use crate::clock::{read_after, take_reading_after, wait_after, waited_after, Clock, SyncClock};
use crate::duration::{saturated, Duration};
use crate::engine::op::{call_after, called_after, RetryOp};
use crate::engine::run::{next_attempt, Bounded, ATTEMPT_LIMIT};
use crate::error::RetryError;
use crate::policy::time::ElapsedTracker;
use crate::predicate::Predicate;
use crate::state::{seen, RetryState};
use crate::stats::{RetryStats, StopReason};
use crate::stop::Stop;
use crate::wait::Wait;
use vstd::prelude::*;

verus! {

/// What stays the same throughout a loop.
pub struct LoopRules<S, W, P, Cn> {
    /// Stop strategy, wait strategy and predicate.
    pub policy: PredicatePolicy<S, W, P>,
    /// The timeout.
    pub timeout: Option<Duration>,
    /// The canceler.
    pub canceler: Cn,
    /// Whether totals are wanted.
    pub collect_stats: bool,
}

/// What changes in the course of a loop.
pub struct Course<F, Cl, BA, AA, BS, OX, T, E> {
    /// The operation.
    pub op: F,
    /// The clock.
    pub clock: Cl,
    /// The hooks.
    pub hooks: ExecutionHooks<BA, AA, BS, OX>,
    /// Elapsed time.
    pub tracker: ElapsedTracker,
    /// The attempt about to start.
    pub attempt: u32,
    /// All waits so far.
    pub total_wait: Duration,
    /// The wait before this attempt.
    pub previous_delay: Option<Duration>,
    /// The outcome of the attempt before.
    pub last_result: Option<Result<T, E>>,
}

/// A reading of the clock.
pub struct Reading<Cl> {
    /// What the clock read.
    pub now: Duration,
    /// The clock afterwards.
    pub clock: Cl,
    /// The time elapsed by that reading.
    pub elapsed: Option<Duration>,
}

impl<Cl: Clock> Reading<Cl> {
    /// Whether this is a reading that `clock` may give to `tracker`.
    pub open spec fn is_of(self, clock: Cl, tracker: ElapsedTracker) -> bool {
        &&& clock.reads(self.clock, self.now)
        &&& tracker.tells(Some(self.now), self.elapsed)
    }
}

/// What an attempt did.
pub struct Tried<F, Cl, BA, AA, BS, OX, T, E> {
    /// The reading before the operation.
    pub before: Reading<Cl>,
    /// The before-attempt hook after its call.
    pub before_attempt: BA,
    /// What the operation gave.
    pub outcome: Result<T, E>,
    /// The operation after its call.
    pub op: F,
    /// The reading after the operation.
    pub after: Reading<Cl>,
    /// The hooks once the outcome was dealt with.
    pub hooks: ExecutionHooks<BA, AA, BS, OX>,
    /// What the outcome led to.
    pub transition: AttemptTransition<T, E>,
}

/// What a wait did.
pub struct Paused<Cl, BA, AA, BS, OX> {
    /// The reading before the wait.
    pub before: Reading<Cl>,
    /// The wait that was made.
    pub delay: Duration,
    /// All waits so far, this one included.
    pub total_wait: Duration,
    /// The hooks once they were told of the wait.
    pub hooks: ExecutionHooks<BA, AA, BS, OX>,
    /// The clock after the wait.
    pub clock: Cl,
}

/// What one round of the loop did.
pub enum Turn<F, Cl, BA, AA, BS, OX, T, E> {
    /// The loop was cancelled before the attempt.
    CancelledBefore {
        /// The last reading.
        reading: Reading<Cl>,
        /// The hooks once they were told.
        hooks: ExecutionHooks<BA, AA, BS, OX>,
    },
    /// The attempt ended the loop.
    Ended {
        /// The attempt.
        tried: Tried<F, Cl, BA, AA, BS, OX, T, E>,
    },
    /// The attempt was followed by a wait, and the loop goes on.
    Waited {
        /// The attempt.
        tried: Tried<F, Cl, BA, AA, BS, OX, T, E>,
        /// The wait.
        paused: Paused<Cl, BA, AA, BS, OX>,
    },
    /// The attempt was followed by a wait, during which the loop was cancelled.
    CancelledAfter {
        /// The attempt.
        tried: Tried<F, Cl, BA, AA, BS, OX, T, E>,
        /// The wait.
        paused: Paused<Cl, BA, AA, BS, OX>,
        /// The last reading.
        reading: Reading<Cl>,
        /// The hooks once they were told.
        hooks: ExecutionHooks<BA, AA, BS, OX>,
    },
}

impl<F, Cl, BA, AA, BS, OX, T, E> Course<F, Cl, BA, AA, BS, OX, T, E> {
    /// Whether this is where a loop begins.
    pub open spec fn begins(
        self,
        op: F,
        clock: Cl,
        hooks: ExecutionHooks<BA, AA, BS, OX>,
    ) -> bool where Cl: Clock {
        &&& self.op == op
        &&& self.tracker.baseline() matches Some(origin)
        &&& clock.reads(self.clock, origin)
        &&& self.hooks == hooks
        &&& self.attempt == 1
        &&& self.total_wait@ == 0
        &&& self.previous_delay is None
        &&& self.last_result is None
    }

    /// Where the loop stands when the attempt completes and `elapsed` has passed.
    pub open spec fn place(self, elapsed: Option<Duration>) -> Place {
        Place {
            attempt: self.attempt,
            elapsed,
            previous_delay: self.previous_delay,
            total_wait: self.total_wait,
        }
    }

    /// Whether `tried` is an attempt that may be made here: the clock is read, the
    /// before-attempt hook called, the operation called with the state that the
    /// hook saw, the clock read again, and the outcome dealt with. With `left` at
    /// 1 no attempt is left after it.
    ///
    /// They go in this order. The readings of the clock follow one another, as do the
    /// hooks, for each starts from what the one before left. The operation is called
    /// when the hook before it is done, and the clock is read again when the outcome is
    /// there.
    pub open spec fn tries<S, W, P, Cn>(
        self,
        rules: LoopRules<S, W, P, Cn>,
        left: nat,
        tried: Tried<F, Cl, BA, AA, BS, OX, T, E>,
    ) -> bool where
        F: RetryOp<Output = Result<T, E>>,
        S: Stop,
        W: Wait,
        P: Predicate<T, E>,
        Cl: SyncClock,
        BA: BeforeAttemptHook,
        AA: AttemptHook<T, E>,
        OX: ExitHook<T, E>,
     {
        let state = RetryState {
            attempt: self.attempt,
            elapsed: seen(tried.before.elapsed),
            clocked: tried.before.elapsed is Some,
            previous_delay: self.previous_delay,
            next_delay: None,
        };
        &&& tried.before.is_of(self.clock, self.tracker)
        &&& self.hooks.before_attempt.fires(state, tried.before_attempt)
        &&& self.op.yields(state, tried.outcome, tried.op)
        &&& called_after(self.op, tried.before_attempt, state, tried.outcome)
        &&& tried.after.is_of(tried.before.clock, self.tracker)
        &&& read_after(tried.before.clock, tried.outcome, tried.after.now)
        &&& transits(
            (Bounded { inner: &rules.policy.stop, spent: left == 1 }),
            rules.policy.wait,
            rules.policy.predicate,
            rules.timeout,
            self.place(tried.after.elapsed),
            tried.outcome,
            rules.collect_stats,
            (ExecutionHooks { before_attempt: tried.before_attempt, ..self.hooks }),
            tried.hooks,
            tried.transition,
        )
    }

    /// Whether `paused` is a wait that may follow `tried`: the clock is read once
    /// more, the wait cut down to what the timeout leaves, the hooks told of it,
    /// and the wait made unless it is empty. It is made when
    /// the hooks are done.
    pub open spec fn pauses<S, W, P, Cn>(
        self,
        rules: LoopRules<S, W, P, Cn>,
        tried: Tried<F, Cl, BA, AA, BS, OX, T, E>,
        paused: Paused<Cl, BA, AA, BS, OX>,
    ) -> bool where
        Cl: SyncClock,
        AA: AttemptHook<T, E>,
        BS: AttemptHook<T, E>,
     {
        &&& tried.transition matches AttemptTransition::Sleep { next_delay, last_result }
        &&& last_result == tried.outcome
        &&& paused.before.is_of(tried.after.clock, self.tracker)
        &&& paused.delay@ == clamped_at(rules.timeout, paused.before.elapsed, next_delay@)
        &&& paused.total_wait@ == saturated((self.total_wait@ + paused.delay@) as int)
        &&& tells_wait(
            self.attempt,
            paused.before.elapsed,
            tried.outcome,
            paused.delay,
            tried.hooks,
            paused.hooks,
        )
        &&& if paused.delay@ == 0 {
            paused.clock == paused.before.clock
        } else {
            &&& paused.before.clock.sleeps(paused.delay, paused.clock)
            &&& waited_after(paused.before.clock, paused.hooks, paused.delay)
        }
    }

    /// Whether `turn` is a round that may happen here. The canceler is asked
    /// before the attempt and after the wait, each time with the clock as it then is.
    pub open spec fn turns<S, W, P, Cn>(
        self,
        rules: LoopRules<S, W, P, Cn>,
        left: nat,
        turn: Turn<F, Cl, BA, AA, BS, OX, T, E>,
    ) -> bool where
        F: RetryOp<Output = Result<T, E>>,
        S: Stop,
        W: Wait,
        P: Predicate<T, E>,
        Cn: Canceler,
        Cl: SyncClock,
        BA: BeforeAttemptHook,
        AA: AttemptHook<T, E>,
        BS: AttemptHook<T, E>,
        OX: ExitHook<T, E>,
     {
        match turn {
            Turn::CancelledBefore { reading, hooks } => {
                &&& rules.canceler.may_say(true)
                &&& said_after(rules.canceler, self.clock, true)
                &&& reading.is_of(self.clock, self.tracker)
                &&& tells_cancel(
                    (self.attempt - 1) as u32,
                    reading.elapsed,
                    self.last_result,
                    self.total_wait,
                    self.hooks,
                    hooks,
                )
            },
            Turn::Ended { tried } => {
                &&& rules.canceler.may_say(false)
                &&& said_after(rules.canceler, self.clock, false)
                &&& self.tries(rules, left, tried)
                &&& tried.transition is Finished
            },
            Turn::Waited { tried, paused } => {
                &&& rules.canceler.may_say(false)
                &&& said_after(rules.canceler, self.clock, false)
                &&& self.tries(rules, left, tried)
                &&& self.pauses(rules, tried, paused)
                &&& said_after(rules.canceler, paused.clock, false)
            },
            Turn::CancelledAfter { tried, paused, reading, hooks } => {
                &&& rules.canceler.may_say(false)
                &&& said_after(rules.canceler, self.clock, false)
                &&& self.tries(rules, left, tried)
                &&& self.pauses(rules, tried, paused)
                &&& rules.canceler.may_say(true)
                &&& said_after(rules.canceler, paused.clock, true)
                &&& reading.is_of(paused.clock, self.tracker)
                &&& tells_cancel(
                    self.attempt,
                    reading.elapsed,
                    Some(tried.outcome),
                    paused.total_wait,
                    paused.hooks,
                    hooks,
                )
            },
        }
    }

    /// Where the loop is once `turn` has happened.
    pub open spec fn after(self, turn: Turn<F, Cl, BA, AA, BS, OX, T, E>) -> Self {
        match turn {
            Turn::CancelledBefore { reading, hooks } => Course {
                clock: reading.clock,
                hooks,
                ..self
            },
            Turn::Ended { tried } => Course {
                op: tried.op,
                clock: tried.after.clock,
                hooks: tried.hooks,
                ..self
            },
            Turn::Waited { tried, paused } => Course {
                op: tried.op,
                clock: paused.clock,
                hooks: paused.hooks,
                tracker: self.tracker,
                attempt: next_attempt(self.attempt),
                total_wait: paused.total_wait,
                previous_delay: Some(paused.delay),
                last_result: Some(tried.outcome),
            },
            Turn::CancelledAfter { tried, paused, reading, hooks } => Course {
                op: tried.op,
                clock: reading.clock,
                hooks,
                ..self
            },
        }
    }

    /// What the caller receives where `turn` ends the loop.
    pub open spec fn gives(
        self,
        collect_stats: bool,
        turn: Turn<F, Cl, BA, AA, BS, OX, T, E>,
    ) -> Option<(Result<T, RetryError<T, E>>, Option<RetryStats>)> {
        match turn {
            Turn::CancelledBefore { reading, .. } => Some(
                (
                    Err(RetryError::Cancelled { last: self.last_result }),
                    wanted_stats(
                        collect_stats,
                        (self.attempt - 1) as u32,
                        reading.elapsed,
                        self.total_wait,
                        StopReason::Cancelled,
                    ),
                ),
            ),
            Turn::Ended { tried } => match tried.transition {
                AttemptTransition::Finished { result, stats } => Some((result, stats)),
                AttemptTransition::Sleep { .. } => None,
            },
            Turn::Waited { .. } => None,
            Turn::CancelledAfter { tried, paused, reading, .. } => Some(
                (
                    Err(RetryError::Cancelled { last: Some(tried.outcome) }),
                    wanted_stats(
                        collect_stats,
                        self.attempt,
                        reading.elapsed,
                        paused.total_wait,
                        StopReason::Cancelled,
                    ),
                ),
            ),
        }
    }
}

/// Whether a loop at `c` with `left` attempts to go may end at `end` with `given`.
pub open spec fn runs<F, S, W, P, Cn, Cl, BA, AA, BS, OX, T, E>(
    rules: LoopRules<S, W, P, Cn>,
    c: Course<F, Cl, BA, AA, BS, OX, T, E>,
    left: nat,
    end: Course<F, Cl, BA, AA, BS, OX, T, E>,
    given: (Result<T, RetryError<T, E>>, Option<RetryStats>),
) -> bool where
    F: RetryOp<Output = Result<T, E>>,
    S: Stop,
    W: Wait,
    P: Predicate<T, E>,
    Cn: Canceler,
    Cl: SyncClock,
    BA: BeforeAttemptHook,
    AA: AttemptHook<T, E>,
    BS: AttemptHook<T, E>,
    OX: ExitHook<T, E>,

    decreases left,
{
    left > 0 && exists|turn: Turn<F, Cl, BA, AA, BS, OX, T, E>| #[trigger]
        c.turns(rules, left, turn) && match c.gives(rules.collect_stats, turn) {
            Some(what) => what == given && end == c.after(turn),
            None => runs(rules, c.after(turn), (left - 1) as nat, end, given),
        }
}

/// Whether a loop over the operation, the clock and the hooks of `before` may
/// leave them as in `after` and end with `given`.
pub open spec fn ends<F, S, W, P, Cn, Cl, BA, AA, BS, OX, T, E>(
    rules: LoopRules<S, W, P, Cn>,
    before: (F, Cl, ExecutionHooks<BA, AA, BS, OX>),
    after: (F, Cl, ExecutionHooks<BA, AA, BS, OX>),
    given: (Result<T, RetryError<T, E>>, Option<RetryStats>),
) -> bool where
    F: RetryOp<Output = Result<T, E>>,
    S: Stop,
    W: Wait,
    P: Predicate<T, E>,
    Cn: Canceler,
    Cl: SyncClock,
    BA: BeforeAttemptHook,
    AA: AttemptHook<T, E>,
    BS: AttemptHook<T, E>,
    OX: ExitHook<T, E>,
 {
    exists|
        c: Course<F, Cl, BA, AA, BS, OX, T, E>,
        end: Course<F, Cl, BA, AA, BS, OX, T, E>,
    |
        {
            &&& c.begins(before.0, before.1, before.2)
            &&& #[trigger] runs(rules, c, ATTEMPT_LIMIT as nat, end, given)
            &&& (end.op, end.clock, end.hooks) == after
        }
}

/// A loop hands totals back exactly where they are wanted.
pub proof fn stats_come_when_wanted<F, S, W, P, Cn, Cl, BA, AA, BS, OX, T, E>(
    rules: LoopRules<S, W, P, Cn>,
    before: (F, Cl, ExecutionHooks<BA, AA, BS, OX>),
    given: (Result<T, RetryError<T, E>>, Option<RetryStats>),
) where
    F: RetryOp<Output = Result<T, E>>,
    S: Stop,
    W: Wait,
    P: Predicate<T, E>,
    Cn: Canceler,
    Cl: SyncClock,
    BA: BeforeAttemptHook,
    AA: AttemptHook<T, E>,
    BS: AttemptHook<T, E>,
    OX: ExitHook<T, E>,

    requires
        exists|after: (F, Cl, ExecutionHooks<BA, AA, BS, OX>)| #[trigger]
            ends(rules, before, after, given),
    ensures
        given.1 is Some <==> rules.collect_stats,
{
    let after = choose|after: (F, Cl, ExecutionHooks<BA, AA, BS, OX>)| #[trigger]
        ends(rules, before, after, given);
    let (c, end) = choose|
        c: Course<F, Cl, BA, AA, BS, OX, T, E>,
        end: Course<F, Cl, BA, AA, BS, OX, T, E>,
    |
        {
            &&& c.begins(before.0, before.1, before.2)
            &&& #[trigger] runs(rules, c, ATTEMPT_LIMIT as nat, end, given)
            &&& (end.op, end.clock, end.hooks) == after
        };
    stats_along_the_way(rules, c, ATTEMPT_LIMIT as nat, end, given);
}

proof fn stats_along_the_way<F, S, W, P, Cn, Cl, BA, AA, BS, OX, T, E>(
    rules: LoopRules<S, W, P, Cn>,
    c: Course<F, Cl, BA, AA, BS, OX, T, E>,
    left: nat,
    end: Course<F, Cl, BA, AA, BS, OX, T, E>,
    given: (Result<T, RetryError<T, E>>, Option<RetryStats>),
) where
    F: RetryOp<Output = Result<T, E>>,
    S: Stop,
    W: Wait,
    P: Predicate<T, E>,
    Cn: Canceler,
    Cl: SyncClock,
    BA: BeforeAttemptHook,
    AA: AttemptHook<T, E>,
    BS: AttemptHook<T, E>,
    OX: ExitHook<T, E>,

    requires
        runs(rules, c, left, end, given),
    ensures
        given.1 is Some <==> rules.collect_stats,
    decreases left,
{
    let turn = choose|turn: Turn<F, Cl, BA, AA, BS, OX, T, E>| #[trigger]
        c.turns(rules, left, turn) && match c.gives(rules.collect_stats, turn) {
            Some(what) => what == given && end == c.after(turn),
            None => runs(rules, c.after(turn), (left - 1) as nat, end, given),
        };
    match c.gives(rules.collect_stats, turn) {
        Some(_) => {},
        None => {
            stats_along_the_way(rules, c.after(turn), (left - 1) as nat, end, given);
        },
    }
}

/// Runs the loop.
pub fn execute_sync_loop<F, S, W, P, Cn, Cl, BA, AA, BS, OX, T, E>(
    policy: &PredicatePolicy<S, W, P>,
    hooks: &mut ExecutionHooks<BA, AA, BS, OX>,
    op: &mut F,
    clock: &mut Cl,
    canceler: &Cn,
    timeout: Option<Duration>,
    collect_stats: bool,
) -> (r: (Result<T, RetryError<T, E>>, Option<RetryStats>)) where
    F: RetryOp<Output = Result<T, E>>,
    S: Stop,
    W: Wait,
    P: Predicate<T, E>,
    Cn: Canceler,
    Cl: SyncClock,
    BA: BeforeAttemptHook,
    AA: AttemptHook<T, E>,
    BS: AttemptHook<T, E>,
    OX: ExitHook<T, E>,

    requires
        old(op).ready(),
        forall|outcome: Result<T, E>| policy.predicate.askable(outcome),
        old(hooks).armed(),
    ensures
        ends(
            LoopRules { policy: *policy, timeout, canceler: *canceler, collect_stats },
            (*old(op), *old(clock), *old(hooks)),
            (*final(op), *final(clock), *final(hooks)),
            r,
        ),
{
    let origin = clock.now();
    let mut tracker = ElapsedTracker::new();
    tracker.start(Some(origin));
    let mut attempt: u32 = 1;
    let mut total_wait = Duration::zero();
    let mut previous_delay: Option<Duration> = None;
    let mut last_result: Option<Result<T, E>> = None;
    let mut left: u64 = ATTEMPT_LIMIT;
    let ghost rules = LoopRules { policy: *policy, timeout, canceler: *canceler, collect_stats };
    let ghost first = Course {
        op: *op,
        clock: *clock,
        hooks: *hooks,
        tracker,
        attempt,
        total_wait,
        previous_delay,
        last_result,
    };
    loop
        invariant
            left > 0,
            attempt >= 1,
            op.ready(),
            forall|outcome: Result<T, E>| policy.predicate.askable(outcome),
            hooks.armed(),
            rules == (LoopRules {
                policy: *policy,
                timeout,
                canceler: *canceler,
                collect_stats,
            }),
            first.begins(*old(op), *old(clock), *old(hooks)),
            forall|
                end: Course<F, Cl, BA, AA, BS, OX, T, E>,
                given: (Result<T, RetryError<T, E>>, Option<RetryStats>),
            |
                runs(
                    rules,
                    (Course {
                        op: *op,
                        clock: *clock,
                        hooks: *hooks,
                        tracker,
                        attempt,
                        total_wait,
                        previous_delay,
                        last_result,
                    }),
                    left as nat,
                    end,
                    given,
                ) ==> #[trigger] runs(rules, first, ATTEMPT_LIMIT as nat, end, given),
        decreases left,
    {
        let ghost c = Course {
            op: *op,
            clock: *clock,
            hooks: *hooks,
            tracker,
            attempt,
            total_wait,
            previous_delay,
            last_result,
        };
        if ask_after(canceler, &*clock) {
            let now = clock.now();
            let elapsed = tracker.elapsed(Some(now));
            let given = finish_cancelled(
                hooks,
                last_result,
                attempt - 1,
                elapsed,
                total_wait,
                collect_stats,
            );
            proof {
                let turn = Turn::CancelledBefore {
                    reading: Reading { now, clock: *clock, elapsed },
                    hooks: *hooks,
                };
                assert(c.turns(rules, left as nat, turn));
                assert(runs(rules, first, ATTEMPT_LIMIT as nat, c.after(turn), given));
            }
            return given;
        }
        let now_before = clock.now();
        let since_before = tracker.elapsed(Some(now_before));
        let ghost before = Reading { now: now_before, clock: *clock, elapsed: since_before };
        let state = fire_before_attempt(hooks, attempt, since_before, previous_delay);
        let ghost before_attempt = hooks.before_attempt;
        let outcome = call_after(op, &hooks.before_attempt, state);
        let ghost given_outcome = outcome;
        let now_after = take_reading_after(clock, &outcome);
        let since_after = tracker.elapsed(Some(now_after));
        let ghost after = Reading {
            now: now_after,
            clock: *clock,
            elapsed: since_after,
        };
        let transition = transition_from_outcome(
            &Bounded { inner: &policy.stop, spent: left == 1 },
            &policy.wait,
            &policy.predicate,
            hooks,
            outcome,
            attempt,
            since_after,
            previous_delay,
            total_wait,
            collect_stats,
            timeout,
        );
        let ghost tried = Tried {
            before,
            before_attempt,
            outcome: given_outcome,
            op: *op,
            after,
            hooks: *hooks,
            transition,
        };
        match transition {
            AttemptTransition::Finished { result, stats } => {
                proof {
                    let turn = Turn::Ended { tried };
                    assert(c.turns(rules, left as nat, turn));
                    assert(runs(
                        rules,
                        first,
                        ATTEMPT_LIMIT as nat,
                        c.after(turn),
                        (result, stats),
                    ));
                }
                return (result, stats);
            },
            AttemptTransition::Sleep { next_delay, last_result: retried } => {
                let now_wait = clock.now();
                let since_wait = tracker.elapsed(Some(now_wait));
                let ghost before_wait = Reading {
                    now: now_wait,
                    clock: *clock,
                    elapsed: since_wait,
                };
                let delay = clamp_and_fire_after_attempt(
                    hooks,
                    attempt,
                    since_wait,
                    &retried,
                    next_delay,
                    timeout,
                );
                let ghost hooks_wait = *hooks;
                if !delay.is_zero() {
                    wait_after(clock, &*hooks, delay);
                }
                let waited = total_wait.saturating_add(delay);
                let ghost paused = Paused {
                    before: before_wait,
                    delay,
                    total_wait: waited,
                    hooks: hooks_wait,
                    clock: *clock,
                };
                if ask_after(canceler, &*clock) {
                    let now = clock.now();
                    let elapsed = tracker.elapsed(Some(now));
                    let given = finish_cancelled(
                        hooks,
                        Some(retried),
                        attempt,
                        elapsed,
                        waited,
                        collect_stats,
                    );
                    proof {
                        let turn = Turn::CancelledAfter {
                            tried,
                            paused,
                            reading: Reading { now, clock: *clock, elapsed },
                            hooks: *hooks,
                        };
                        assert(c.turns(rules, left as nat, turn));
                        assert(runs(rules, first, ATTEMPT_LIMIT as nat, c.after(turn), given));
                    }
                    return given;
                }
                total_wait = waited;
                previous_delay = Some(delay);
                last_result = Some(retried);
                attempt = attempt.saturating_add(1);
                proof {
                    let turn = Turn::Waited { tried, paused };
                    assert(c.turns(rules, left as nat, turn));
                }
                left = left - 1;
            },
        }
    }
}

} // verus!
