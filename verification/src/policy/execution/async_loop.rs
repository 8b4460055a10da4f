//! The driven loop that goes by a predicate.
//!
//! The loop is a state machine without futures. [`AsyncEngine::poll_step`] takes
//! in what happened and says what to do next; whoever drives it polls the futures.
//! It takes the same steps as the blocking loop, in the same order.

use super::common::{
    clamp_and_fire_after_attempt, clamped_at, finish_cancelled, fire_before_attempt,
    tells_cancel, tells_wait, transition_from_outcome, transits, wanted_stats, AttemptTransition,
    Place,
};
use super::hooks::{AttemptHook, BeforeAttemptHook, ExecutionHooks, ExitHook};
use super::policy::PolicyHandle;
use super::sync_loop::Reading;
use crate::cancel::Canceler;
use crate::clock::Clock;
use crate::duration::{saturated, Duration};
use crate::engine::run::next_attempt;
use crate::error::RetryError;
use crate::policy::time::ElapsedTracker;
use crate::predicate::Predicate;
use crate::state::{seen, RetryState};
use crate::stats::{RetryStats, StopReason};
use crate::stop::Stop;
use crate::wait::Wait;
use vstd::prelude::*;

verus! {

/// What a loop is in the middle of.
#[derive(Clone, Copy, Debug, PartialEq, Eq, Structural)]
pub enum AsyncPhase {
    /// An attempt is about to start.
    ReadyToStartAttempt,
    /// The future of an attempt is being polled.
    PollingOperation,
    /// A wait is under way.
    Sleeping,
    /// The loop has ended.
    Finished,
}

/// What happened.
pub enum PollEvent<T, E> {
    /// The loop was resumed to start an attempt.
    Resumed,
    /// The future of the attempt gave this.
    Completed(Result<T, E>),
    /// The wait was polled and is not over.
    StillSleeping,
    /// The wait is over.
    Slept,
}

/// What to do next.
pub enum PollAction<T, E> {
    /// Call the operation with this state and poll its future.
    Call(RetryState),
    /// Wait this long.
    Sleep(Duration),
    /// Resume the loop at once.
    Resume,
    /// Go on waiting.
    Pending,
    /// Hand this to the caller.
    Finish {
        /// What the caller receives.
        result: Result<T, RetryError<T, E>>,
        /// Totals of the loop, where they are wanted.
        stats: Option<RetryStats>,
    },
}

/// A loop as a state machine.
pub struct AsyncEngine<Policy, Cn, BA, AA, BS, OX, T, E> {
    policy: Policy,
    canceler: Cn,
    hooks: ExecutionHooks<BA, AA, BS, OX>,
    timeout: Option<Duration>,
    collect_stats: bool,
    phase: AsyncPhase,
    tracker: ElapsedTracker,
    attempt: u32,
    total_wait: Duration,
    previous_delay: Option<Duration>,
    last_result: Option<Result<T, E>>,
}

/// The state of an [`AsyncEngine`].
pub struct EngineState<Policy, Cn, BA, AA, BS, OX, T, E> {
    /// Stop strategy, wait strategy and predicate.
    pub policy: Policy,
    /// The canceler.
    pub canceler: Cn,
    /// The hooks.
    pub hooks: ExecutionHooks<BA, AA, BS, OX>,
    /// The timeout.
    pub timeout: Option<Duration>,
    /// Whether totals are wanted.
    pub collect_stats: bool,
    /// What the loop is in the middle of.
    pub phase: AsyncPhase,
    /// Elapsed time.
    pub tracker: ElapsedTracker,
    /// The attempt under way or about to start.
    pub attempt: u32,
    /// All waits so far.
    pub total_wait: Duration,
    /// The wait before this attempt.
    pub previous_delay: Option<Duration>,
    /// The outcome of the last attempt that was retried.
    pub last_result: Option<Result<T, E>>,
}

/// How an outcome was dealt with.
pub struct Dealt<Cl, BA, AA, BS, OX, T, E> {
    /// The reading when it came in.
    pub reading: Reading<Cl>,
    /// The hooks once it was dealt with.
    pub hooks: ExecutionHooks<BA, AA, BS, OX>,
    /// What it led to.
    pub transition: AttemptTransition<T, E>,
}

/// How a wait was set.
pub struct Put<Cl, BA, AA, BS, OX> {
    /// The reading before the wait.
    pub reading: Reading<Cl>,
    /// The wait.
    pub delay: Duration,
    /// All waits so far, this one included.
    pub total_wait: Duration,
    /// The hooks once they were told of it.
    pub hooks: ExecutionHooks<BA, AA, BS, OX>,
}

impl<Policy, Cn, BA, AA, BS, OX, T, E> View for AsyncEngine<Policy, Cn, BA, AA, BS, OX, T, E> {
    type V = EngineState<Policy, Cn, BA, AA, BS, OX, T, E>;

    closed spec fn view(&self) -> EngineState<Policy, Cn, BA, AA, BS, OX, T, E> {
        EngineState {
            policy: self.policy,
            canceler: self.canceler,
            hooks: self.hooks,
            timeout: self.timeout,
            collect_stats: self.collect_stats,
            phase: self.phase,
            tracker: self.tracker,
            attempt: self.attempt,
            total_wait: self.total_wait,
            previous_delay: self.previous_delay,
            last_result: self.last_result,
        }
    }
}

impl<Policy, Cn, BA, AA, BS, OX, T, E> EngineState<Policy, Cn, BA, AA, BS, OX, T, E> {
    /// Whether this is the state of a loop that has not begun.
    pub open spec fn is_new(
        self,
        policy: Policy,
        canceler: Cn,
        hooks: ExecutionHooks<BA, AA, BS, OX>,
        timeout: Option<Duration>,
        collect_stats: bool,
    ) -> bool {
        &&& self.policy == policy
        &&& self.canceler == canceler
        &&& self.hooks == hooks
        &&& self.timeout == timeout
        &&& self.collect_stats == collect_stats
        &&& self.phase == AsyncPhase::ReadyToStartAttempt
        &&& self.tracker.baseline() is None
        &&& self.attempt == 1
        &&& self.total_wait@ == 0
        &&& self.previous_delay is None
        &&& self.last_result is None
    }

    /// Whether the loop may take `event` in.
    pub open spec fn expects(self, event: PollEvent<T, E>) -> bool {
        &&& self.tracker.baseline() is Some
        &&& self.attempt >= 1
        &&& self.phase == match event {
            PollEvent::Resumed => AsyncPhase::ReadyToStartAttempt,
            PollEvent::Completed(_) => AsyncPhase::PollingOperation,
            PollEvent::StillSleeping => AsyncPhase::Sleeping,
            PollEvent::Slept => AsyncPhase::Sleeping,
        }
    }

    /// Where the loop stands when the attempt completes and `elapsed` has passed.
    pub open spec fn place(self, elapsed: Option<Duration>) -> Place {
        Place {
            attempt: self.attempt,
            elapsed,
            previous_delay: self.previous_delay,
            total_wait: self.total_wait,
        }
    }

    /// Whether this is `before` once the loop was found to be cancelled with
    /// `attempts` completed, and `action` hands that to the caller.
    pub open spec fn is_cancelled<Cl>(
        self,
        before: Self,
        attempts: u32,
        clock: Cl,
        clock_after: Cl,
        action: PollAction<T, E>,
    ) -> bool where Cl: Clock, Cn: Canceler, OX: ExitHook<T, E> {
        &&& before.canceler.may_say(true)
        &&& exists|reading: Reading<Cl>|
            {
                &&& #[trigger] reading.is_of(clock, before.tracker)
                &&& clock_after == reading.clock
                &&& tells_cancel(
                    attempts,
                    reading.elapsed,
                    before.last_result,
                    before.total_wait,
                    before.hooks,
                    self.hooks,
                )
                &&& action == PollAction::Finish {
                    result: Err::<T, RetryError<T, E>>(
                        RetryError::Cancelled { last: before.last_result },
                    ),
                    stats: wanted_stats(
                        before.collect_stats,
                        attempts,
                        reading.elapsed,
                        before.total_wait,
                        StopReason::Cancelled,
                    ),
                }
            }
        &&& self == (EngineState {
            phase: AsyncPhase::Finished,
            hooks: self.hooks,
            last_result: None,
            ..before
        })
    }

    /// Whether this is `before` once an attempt has been started, with `action` to
    /// be done next.
    pub open spec fn is_resumed<Cl>(
        self,
        before: Self,
        clock: Cl,
        clock_after: Cl,
        action: PollAction<T, E>,
    ) -> bool where Cl: Clock, Cn: Canceler, BA: BeforeAttemptHook {
        &&& before.canceler.may_say(false)
        &&& exists|reading: Reading<Cl>|
            {
                let state = RetryState {
                    attempt: before.attempt,
                    elapsed: seen(reading.elapsed),
                    clocked: reading.elapsed is Some,
                    previous_delay: before.previous_delay,
                    next_delay: None,
                };
                &&& #[trigger] reading.is_of(clock, before.tracker)
                &&& clock_after == reading.clock
                &&& before.hooks.before_attempt.fires(state, self.hooks.before_attempt)
                &&& action == PollAction::<T, E>::Call(state)
            }
        &&& self == (EngineState {
            phase: AsyncPhase::PollingOperation,
            hooks: ExecutionHooks {
                before_attempt: self.hooks.before_attempt,
                ..before.hooks
            },
            ..before
        })
    }

    /// Whether `outcome` may be dealt with like this.
    pub open spec fn deals<Cl>(
        self,
        clock: Cl,
        outcome: Result<T, E>,
        dealt: Dealt<Cl, BA, AA, BS, OX, T, E>,
    ) -> bool where
        Cl: Clock,
        Policy: PolicyHandle,
        Policy::Stop: Stop,
        Policy::Wait: Wait,
        Policy::Predicate: Predicate<T, E>,
        AA: AttemptHook<T, E>,
        OX: ExitHook<T, E>,
     {
        &&& dealt.reading.is_of(clock, self.tracker)
        &&& transits(
            self.policy.policy().stop,
            self.policy.policy().wait,
            self.policy.policy().predicate,
            self.timeout,
            self.place(dealt.reading.elapsed),
            outcome,
            self.collect_stats,
            self.hooks,
            dealt.hooks,
            dealt.transition,
        )
    }

    /// Whether a wait may be set like this after `outcome` was dealt with.
    pub open spec fn puts<Cl>(
        self,
        outcome: Result<T, E>,
        dealt: Dealt<Cl, BA, AA, BS, OX, T, E>,
        put: Put<Cl, BA, AA, BS, OX>,
    ) -> bool where Cl: Clock, AA: AttemptHook<T, E>, BS: AttemptHook<T, E> {
        &&& dealt.transition matches AttemptTransition::Sleep { next_delay, last_result }
        &&& last_result == outcome
        &&& put.reading.is_of(dealt.reading.clock, self.tracker)
        &&& put.delay@ == clamped_at(self.timeout, put.reading.elapsed, next_delay@)
        &&& put.total_wait@ == saturated((self.total_wait@ + put.delay@) as int)
        &&& tells_wait(
            self.attempt,
            put.reading.elapsed,
            outcome,
            put.delay,
            dealt.hooks,
            put.hooks,
        )
    }

    /// Whether this is `before` once `outcome` has ended the loop.
    pub open spec fn is_finished<Cl>(
        self,
        before: Self,
        clock_after: Cl,
        dealt: Dealt<Cl, BA, AA, BS, OX, T, E>,
        action: PollAction<T, E>,
    ) -> bool {
        &&& dealt.transition matches AttemptTransition::Finished { result, stats }
        &&& action == PollAction::Finish { result, stats }
        &&& clock_after == dealt.reading.clock
        &&& self == (EngineState {
            phase: AsyncPhase::Finished,
            hooks: dealt.hooks,
            ..before
        })
    }

    /// Whether this is `before` once `outcome` has been put off. An empty wait is
    /// not made.
    pub open spec fn is_put_off<Cl>(
        self,
        before: Self,
        clock_after: Cl,
        outcome: Result<T, E>,
        put: Put<Cl, BA, AA, BS, OX>,
        action: PollAction<T, E>,
    ) -> bool {
        let waiting = EngineState {
            phase: AsyncPhase::Sleeping,
            hooks: put.hooks,
            total_wait: put.total_wait,
            previous_delay: Some(put.delay),
            last_result: Some(outcome),
            ..before
        };
        &&& clock_after == put.reading.clock
        &&& if put.delay@ == 0 {
            &&& action == PollAction::<T, E>::Resume
            &&& self == (EngineState {
                phase: AsyncPhase::ReadyToStartAttempt,
                attempt: next_attempt(before.attempt),
                ..waiting
            })
        } else {
            &&& action == PollAction::<T, E>::Sleep(put.delay)
            &&& self == waiting
        }
    }

    /// Whether this is `before` once `outcome` has come in, with `action` to be
    /// done next.
    pub open spec fn is_completed<Cl>(
        self,
        before: Self,
        clock: Cl,
        clock_after: Cl,
        outcome: Result<T, E>,
        action: PollAction<T, E>,
    ) -> bool where
        Cl: Clock,
        Policy: PolicyHandle,
        Policy::Stop: Stop,
        Policy::Wait: Wait,
        Policy::Predicate: Predicate<T, E>,
        AA: AttemptHook<T, E>,
        BS: AttemptHook<T, E>,
        OX: ExitHook<T, E>,
     {
        exists|dealt: Dealt<Cl, BA, AA, BS, OX, T, E>|
            {
                &&& #[trigger] before.deals(clock, outcome, dealt)
                &&& {
                    ||| self.is_finished(before, clock_after, dealt, action)
                    ||| exists|put: Put<Cl, BA, AA, BS, OX>| #[trigger]
                        before.puts(outcome, dealt, put) && self.is_put_off(
                            before,
                            clock_after,
                            outcome,
                            put,
                            action,
                        )
                }
            }
    }

    /// Whether this is `before` once its wait is over.
    pub open spec fn is_awake(self, before: Self, action: PollAction<T, E>) -> bool where
        Cn: Canceler,
     {
        &&& before.canceler.may_say(false)
        &&& action == PollAction::<T, E>::Resume
        &&& self == (EngineState {
            phase: AsyncPhase::ReadyToStartAttempt,
            attempt: next_attempt(before.attempt),
            ..before
        })
    }
}

impl<Policy, Cn, BA, AA, BS, OX, T, E> AsyncEngine<Policy, Cn, BA, AA, BS, OX, T, E> {
    /// A loop that has not begun.
    pub fn new(
        policy: Policy,
        canceler: Cn,
        hooks: ExecutionHooks<BA, AA, BS, OX>,
        timeout: Option<Duration>,
        collect_stats: bool,
    ) -> (r: Self)
        ensures
            r@.is_new(policy, canceler, hooks, timeout, collect_stats),
    {
        AsyncEngine {
            policy,
            canceler,
            hooks,
            timeout,
            collect_stats,
            phase: AsyncPhase::ReadyToStartAttempt,
            tracker: ElapsedTracker::new(),
            attempt: 1,
            total_wait: Duration::zero(),
            previous_delay: None,
            last_result: None,
        }
    }

    /// What the loop is in the middle of.
    pub fn phase(&self) -> (r: AsyncPhase)
        ensures
            r == self@.phase,
    {
        self.phase
    }

    /// Lets the loop begin at the reading `now`. Only the first call counts, so
    /// time before it is not counted.
    pub fn start(&mut self, now: Duration)
        ensures
            final(self)@.tracker.is_started(old(self)@.tracker, Some(now)),
            final(self)@ == (EngineState { tracker: final(self)@.tracker, ..old(self)@ }),
    {
        self.tracker.start(Some(now));
    }

    /// Ends the loop as cancelled with `attempts` completed.
    fn cancel<Cl>(&mut self, attempts: u32, clock: &mut Cl) -> (r: PollAction<T, E>) where
        Cl: Clock,
        Cn: Canceler,
        OX: ExitHook<T, E>,

        requires
            old(self)@.canceler.may_say(true),
            old(self)@.hooks.on_exit.armed(),
        ensures
            final(self)@.is_cancelled(old(self)@, attempts, *old(clock), *final(clock), r),
            final(self)@.hooks.on_exit.armed(),
    {
        let now = clock.now();
        let elapsed = self.tracker.elapsed(Some(now));
        let last_result = self.last_result.take();
        let (result, stats) = finish_cancelled(
            &mut self.hooks,
            last_result,
            attempts,
            elapsed,
            self.total_wait,
            self.collect_stats,
        );
        self.phase = AsyncPhase::Finished;
        proof {
            let reading = Reading { now, clock: *clock, elapsed };
            assert(reading.is_of(*old(clock), old(self)@.tracker));
        }
        PollAction::Finish { result, stats }
    }

    /// Takes in what happened and says what to do next.
    ///
    /// The canceler is asked before each attempt, whenever a wait is polled, and
    /// when it is over.
    pub fn poll_step<Cl>(&mut self, event: PollEvent<T, E>, clock: &mut Cl) -> (r: PollAction<
        T,
        E,
    >) where
        Cl: Clock,
        Cn: Canceler,
        Policy: PolicyHandle,
        Policy::Stop: Stop,
        Policy::Wait: Wait,
        Policy::Predicate: Predicate<T, E>,
        BA: BeforeAttemptHook,
        AA: AttemptHook<T, E>,
        BS: AttemptHook<T, E>,
        OX: ExitHook<T, E>,

        requires
            old(self)@.expects(event),
            event matches PollEvent::Completed(outcome)
                ==> old(self)@.policy.policy().predicate.askable(outcome),
            old(self)@.hooks.armed(),
        ensures
            match event {
                PollEvent::Resumed => {
                    ||| final(self)@.is_cancelled(
                        old(self)@,
                        (old(self)@.attempt - 1) as u32,
                        *old(clock),
                        *final(clock),
                        r,
                    )
                    ||| final(self)@.is_resumed(old(self)@, *old(clock), *final(clock), r)
                },
                PollEvent::Completed(outcome) => final(self)@.is_completed(
                    old(self)@,
                    *old(clock),
                    *final(clock),
                    outcome,
                    r,
                ),
                PollEvent::StillSleeping => {
                    ||| final(self)@.is_cancelled(
                        old(self)@,
                        old(self)@.attempt,
                        *old(clock),
                        *final(clock),
                        r,
                    )
                    ||| {
                        &&& old(self)@.canceler.may_say(false)
                        &&& r is Pending
                        &&& final(self)@ == old(self)@
                        &&& *final(clock) == *old(clock)
                    }
                },
                PollEvent::Slept => {
                    ||| final(self)@.is_cancelled(
                        old(self)@,
                        old(self)@.attempt,
                        *old(clock),
                        *final(clock),
                        r,
                    )
                    ||| final(self)@.is_awake(old(self)@, r) && *final(clock) == *old(clock)
                },
            },
            final(self)@.hooks.armed(),
    {
        match event {
            PollEvent::Resumed => {
                if self.canceler.is_cancelled() {
                    let attempts: u32 = self.attempt - 1;
                    return self.cancel(attempts, clock);
                }
                let now = clock.now();
                let elapsed = self.tracker.elapsed(Some(now));
                let state = fire_before_attempt(
                    &mut self.hooks,
                    self.attempt,
                    elapsed,
                    self.previous_delay,
                );
                self.phase = AsyncPhase::PollingOperation;
                proof {
                    let reading = Reading { now, clock: *clock, elapsed };
                    assert(reading.is_of(*old(clock), old(self)@.tracker));
                }
                PollAction::Call(state)
            },
            PollEvent::Completed(outcome) => {
                let ghost given = outcome;
                let now = clock.now();
                let elapsed = self.tracker.elapsed(Some(now));
                let ghost reading = Reading { now, clock: *clock, elapsed };
                let policy = self.policy.policy_ref();
                let transition = transition_from_outcome(
                    &policy.stop,
                    &policy.wait,
                    &policy.predicate,
                    &mut self.hooks,
                    outcome,
                    self.attempt,
                    elapsed,
                    self.previous_delay,
                    self.total_wait,
                    self.collect_stats,
                    self.timeout,
                );
                let ghost dealt = Dealt { reading, hooks: self.hooks, transition };
                assert(old(self)@.deals(*old(clock), given, dealt));
                match transition {
                    AttemptTransition::Finished { result, stats } => {
                        self.phase = AsyncPhase::Finished;
                        assert(self@.is_finished(
                            old(self)@,
                            *clock,
                            dealt,
                            PollAction::Finish { result, stats },
                        ));
                        PollAction::Finish { result, stats }
                    },
                    AttemptTransition::Sleep { next_delay, last_result } => {
                        let now_wait = clock.now();
                        let since_wait = self.tracker.elapsed(Some(now_wait));
                        let delay = clamp_and_fire_after_attempt(
                            &mut self.hooks,
                            self.attempt,
                            since_wait,
                            &last_result,
                            next_delay,
                            self.timeout,
                        );
                        self.total_wait = self.total_wait.saturating_add(delay);
                        self.previous_delay = Some(delay);
                        self.last_result = Some(last_result);
                        proof {
                            let put = Put {
                                reading: Reading {
                                    now: now_wait,
                                    clock: *clock,
                                    elapsed: since_wait,
                                },
                                delay,
                                total_wait: self.total_wait,
                                hooks: self.hooks,
                            };
                            assert(old(self)@.puts(given, dealt, put));
                        }
                        if delay.is_zero() {
                            self.attempt = self.attempt.saturating_add(1);
                            self.phase = AsyncPhase::ReadyToStartAttempt;
                            PollAction::Resume
                        } else {
                            self.phase = AsyncPhase::Sleeping;
                            PollAction::Sleep(delay)
                        }
                    },
                }
            },
            PollEvent::StillSleeping => {
                if self.canceler.is_cancelled() {
                    let attempts: u32 = self.attempt;
                    return self.cancel(attempts, clock);
                }
                PollAction::Pending
            },
            PollEvent::Slept => {
                if self.canceler.is_cancelled() {
                    let attempts: u32 = self.attempt;
                    return self.cancel(attempts, clock);
                }
                self.attempt = self.attempt.saturating_add(1);
                self.phase = AsyncPhase::ReadyToStartAttempt;
                PollAction::Resume
            },
        }
    }
}

} // verus!
