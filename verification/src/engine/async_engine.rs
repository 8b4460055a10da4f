//! The loop for operations that give futures.
//!
//! Futures are polled by an executor, so the loop is a state machine without
//! them. [`AsyncRun`] says what to do: call the operation, wait, go on, or finish.
//! Whoever drives it does that and reports back what happened. Between an outcome
//! and the next attempt it goes through [`step`](super::step::step), as the
//! blocking loop does.

use super::elapsed::Elapsed;
use super::error::RetryError;
use super::hooks::{AttemptHook, BeforeAttemptHook, ExecutionHooks, ExitHook, HookChain};
use super::op::StatelessOp;
use super::run::{next_attempt, Rules};
use super::state::{AttemptState, Exit};
use super::stats::RetryStats;
use super::step::{step, steps, Standing, Step};
use super::{default_rules, OwnsRules, DEFAULT_INITIAL_WAIT_MILLIS, DEFAULT_MAX_ATTEMPTS};
use crate::clock::SystemClock;
use crate::decision::{ClosureClassifier, Decide, DefaultClassifier, IntoDecision, Until, When};
use crate::duration::Duration;
use crate::predicate::Predicate;
use crate::state::RetryState;
use crate::stop::{self, Stop, StopAfterAttempts};
use crate::wait::{self, Wait, WaitExponential};
use core::future::Future;
use core::marker::PhantomData;
use vstd::prelude::*;

verus! {

/// An operation that gives a future each time it is called.
pub trait AsyncRetryOp: Sized {
    /// What the future gives.
    type Output;

    /// The future.
    type Future: Future<Output = Self::Output>;

    /// Whether this operation may be called, now and after every call.
    open spec fn ready(&self) -> bool {
        true
    }

    /// Whether a call with `state` may give `future` and leave the operation as
    /// `post`. A type that does not say leaves it open.
    open spec fn makes(&self, state: RetryState, future: Self::Future, post: Self) -> bool {
        true
    }

    /// Calls the operation.
    fn call_op(&mut self, state: RetryState) -> (r: Self::Future)
        requires
            old(self).ready(),
        ensures
            old(self).makes(state, r, *final(self)),
            final(self).ready(),
    ;
}

impl<F, Fut, O> AsyncRetryOp for F where F: FnMut(RetryState) -> Fut, Fut: Future<Output = O> {
    type Output = O;

    type Future = Fut;

    open spec fn ready(&self) -> bool {
        forall|state: RetryState| call_requires(*self, (state,))
    }

    open spec fn makes(&self, state: RetryState, future: Fut, post: Self) -> bool {
        call_ensures(*self, (state,), future) && post == *self
    }

    fn call_op(&mut self, state: RetryState) -> Fut {
        (self)(state)
    }
}

impl<F, Fut, O> AsyncRetryOp for StatelessOp<F> where F: FnMut() -> Fut, Fut: Future<Output = O> {
    type Output = O;

    type Future = Fut;

    open spec fn ready(&self) -> bool {
        call_requires(self.0, ())
    }

    open spec fn makes(&self, state: RetryState, future: Fut, post: Self) -> bool {
        call_ensures(self.0, (), future) && post == *self
    }

    fn call_op(&mut self, state: RetryState) -> Fut {
        (self.0)()
    }
}

/// A retry loop over futures in the making.
///
/// It takes the same rules, clock and hooks as [`Retry`](super::Retry).
pub struct AsyncRetry<F, C, S, W, Cl, BA, AA, OX, Own = OwnsRules> {
    op: F,
    classifier: C,
    stop: S,
    wait: W,
    clock: Cl,
    hooks: ExecutionHooks<BA, AA, OX>,
    timeout: Option<Duration>,
    own: PhantomData<Own>,
}

/// A loop over `F` with everything else as it is by default.
pub type DefaultAsyncRetry<F> =
    AsyncRetry<F, DefaultClassifier, StopAfterAttempts, WaitExponential, SystemClock, (), (), ()>;

/// Starts a loop over `op`.
pub fn retry_async<F, Fut, O>(op: F) -> (r: DefaultAsyncRetry<F>) where
    F: FnMut(RetryState) -> Fut,
    Fut: Future<Output = O>,

    ensures
        default_rules(r.rules()),
        r.parts() == (
            op,
            SystemClock,
            (ExecutionHooks { before_attempt: (), after_attempt: (), on_exit: () }),
        ),
{
    AsyncRetry::from_op(op)
}

/// Starts a loop over a closure that takes nothing and gives a future.
pub trait AsyncRetryExt<Fut, O>: FnMut() -> Fut + Sized where Fut: Future<Output = O> {
    /// Starts a loop over this closure.
    fn retry_async(self) -> (r: DefaultAsyncRetry<StatelessOp<Self>>)
        ensures
            default_rules(r.rules()),
            r.parts() == (
                StatelessOp(self),
                SystemClock,
                (ExecutionHooks { before_attempt: (), after_attempt: (), on_exit: () }),
            ),
    ;
}

impl<Fut, O, F> AsyncRetryExt<Fut, O> for F where F: FnMut() -> Fut, Fut: Future<Output = O> {
    fn retry_async(self) -> DefaultAsyncRetry<StatelessOp<Self>> {
        AsyncRetry::from_op(StatelessOp(self))
    }
}

impl<F> DefaultAsyncRetry<F> {
    fn from_op(op: F) -> (r: Self)
        ensures
            default_rules(r.rules()),
            r.parts() == (
                op,
                SystemClock,
                (ExecutionHooks { before_attempt: (), after_attempt: (), on_exit: () }),
            ),
    {
        AsyncRetry::from_parts(
            op,
            DefaultClassifier,
            stop::attempts(DEFAULT_MAX_ATTEMPTS),
            wait::exponential(Duration::from_millis(DEFAULT_INITIAL_WAIT_MILLIS)),
            None,
        )
    }
}

impl<F, C, S, W, Own> AsyncRetry<F, C, S, W, SystemClock, (), (), (), Own> {
    /// A loop over `op` by the given rules, with no clock chosen and no hooks.
    pub fn from_parts(op: F, classifier: C, stop: S, wait: W, timeout: Option<Duration>) -> (r: Self)
        ensures
            r.rules() == (Rules { classifier, stop, wait, timeout }),
            r.parts() == (
                op,
                SystemClock,
                (ExecutionHooks { before_attempt: (), after_attempt: (), on_exit: () }),
            ),
    {
        AsyncRetry {
            op,
            classifier,
            stop,
            wait,
            clock: SystemClock,
            hooks: ExecutionHooks::new(),
            timeout,
            own: PhantomData,
        }
    }
}

impl<F, C, S, W, BA, AA, OX, Own> AsyncRetry<F, C, S, W, SystemClock, BA, AA, OX, Own> {
    /// This loop with `clock` for its clock. A clock is chosen once: the method is
    /// there only as long as none has been.
    pub fn clock<NewClock>(self, clock: NewClock) -> (r: AsyncRetry<F, C, S, W, NewClock, BA, AA, OX, Own>)
        ensures
            r.rules() == self.rules(),
            r.parts() == (self.parts().0, clock, self.parts().2),
    {
        AsyncRetry {
            op: self.op,
            classifier: self.classifier,
            stop: self.stop,
            wait: self.wait,
            clock,
            hooks: self.hooks,
            timeout: self.timeout,
            own: PhantomData,
        }
    }
}

impl<F, C, S, W, Cl, BA, AA, OX, Own> AsyncRetry<F, C, S, W, Cl, BA, AA, OX, Own> {
    /// What stays the same throughout the loop.
    pub closed spec fn rules(self) -> Rules<C, S, W> {
        Rules {
            classifier: self.classifier,
            stop: self.stop,
            wait: self.wait,
            timeout: self.timeout,
        }
    }

    /// The operation, the clock and the hooks.
    pub closed spec fn parts(self) -> (F, Cl, ExecutionHooks<BA, AA, OX>) {
        (self.op, self.clock, self.hooks)
    }
}

impl<F, C, S, W, Cl, BA, AA, OX> AsyncRetry<F, C, S, W, Cl, BA, AA, OX> {
    /// This loop with `stop` for its stop strategy.
    pub fn stop<NewStop>(self, stop: NewStop) -> (r: AsyncRetry<F, C, NewStop, W, Cl, BA, AA, OX>)
        ensures
            r.rules() == (Rules {
                classifier: self.rules().classifier,
                stop,
                wait: self.rules().wait,
                timeout: self.rules().timeout,
            }),
            r.parts() == self.parts(),
    {
        AsyncRetry {
            op: self.op,
            classifier: self.classifier,
            stop,
            wait: self.wait,
            clock: self.clock,
            hooks: self.hooks,
            timeout: self.timeout,
            own: PhantomData,
        }
    }

    /// This loop with `wait` for its wait strategy.
    pub fn wait<NewWait>(self, wait: NewWait) -> (r: AsyncRetry<F, C, S, NewWait, Cl, BA, AA, OX>)
        ensures
            r.rules() == (Rules {
                classifier: self.rules().classifier,
                stop: self.rules().stop,
                wait,
                timeout: self.rules().timeout,
            }),
            r.parts() == self.parts(),
    {
        AsyncRetry {
            op: self.op,
            classifier: self.classifier,
            stop: self.stop,
            wait,
            clock: self.clock,
            hooks: self.hooks,
            timeout: self.timeout,
            own: PhantomData,
        }
    }

    fn with_classifier<NewC>(self, classifier: NewC) -> (r: AsyncRetry<F, NewC, S, W, Cl, BA, AA, OX>)
        ensures
            r.rules() == (Rules {
                classifier,
                stop: self.rules().stop,
                wait: self.rules().wait,
                timeout: self.rules().timeout,
            }),
            r.parts() == self.parts(),
    {
        AsyncRetry {
            op: self.op,
            classifier,
            stop: self.stop,
            wait: self.wait,
            clock: self.clock,
            hooks: self.hooks,
            timeout: self.timeout,
            own: PhantomData,
        }
    }

    /// This loop with `classifier` for its classifier. The closure returns a
    /// [`Verdict`](crate::decision::Verdict), or a
    /// [`Decision`](crate::decision::Decision) where it never gives up.
    pub fn decide<O, D, NewC>(
        self,
        classifier: NewC,
    ) -> (r: AsyncRetry<F, ClosureClassifier<NewC>, S, W, Cl, BA, AA, OX>) where
        F: AsyncRetryOp<Output = O>,
        NewC: Fn(O) -> D,
        D: IntoDecision<O>,

        ensures
            r.rules() == (Rules {
                classifier: ClosureClassifier(classifier),
                stop: self.rules().stop,
                wait: self.rules().wait,
                timeout: self.rules().timeout,
            }),
            r.parts() == self.parts(),
    {
        self.with_classifier(ClosureClassifier(classifier))
    }

    /// This loop with outcomes retried while `predicate` says so, and otherwise settled: a value is
    /// returned, an error aborts.
    pub fn when<T, E, P>(self, predicate: P) -> (r: AsyncRetry<F, When<P>, S, W, Cl, BA, AA, OX>) where
        F: AsyncRetryOp<Output = Result<T, E>>,
        P: Predicate<T, E>,

        ensures
            r.rules().classifier.predicate() == predicate,
            r.rules().stop == self.rules().stop,
            r.rules().wait == self.rules().wait,
            r.rules().timeout == self.rules().timeout,
            r.parts() == self.parts(),
    {
        self.with_classifier(When::new(predicate))
    }

    /// This loop with outcomes retried until `predicate` is satisfied, and then settled: a value
    /// is returned, an error aborts.
    pub fn until<T, E, P>(self, predicate: P) -> (r: AsyncRetry<F, Until<P>, S, W, Cl, BA, AA, OX>) where
        F: AsyncRetryOp<Output = Result<T, E>>,
        P: Predicate<T, E>,

        ensures
            r.rules().classifier.predicate() == predicate,
            r.rules().stop == self.rules().stop,
            r.rules().wait == self.rules().wait,
            r.rules().timeout == self.rules().timeout,
            r.parts() == self.parts(),
    {
        self.with_classifier(Until::new(predicate))
    }
}

impl<F, C, S, W, Cl, BA, AA, OX, Own> AsyncRetry<F, C, S, W, Cl, BA, AA, OX, Own> {
    /// This loop with a budget of `dur` for the whole of it.
    ///
    /// The budget is looked at between attempts: a wait is cut down to what is
    /// left of it, and the loop ends as exhausted once it is spent. An operation
    /// or a wait under way is not interrupted.
    pub fn timeout(self, dur: Duration) -> (r: Self)
        ensures
            r.rules() == (Rules { timeout: Some(dur), ..self.rules() }),
            r.parts() == self.parts(),
    {
        AsyncRetry { timeout: Some(dur), ..self }
    }

    /// This loop with its totals handed back too.
    pub fn with_stats(self) -> (r: AsyncRetryWithStats<F, C, S, W, Cl, BA, AA, OX, Own>)
        ensures
            r.inner() == self,
    {
        AsyncRetryWithStats { inner: self }
    }

    /// This loop with `hook` called before each attempt, after any such hook it has.
    pub fn before_attempt<Hook>(self, hook: Hook) -> (r: AsyncRetry<F, C, S, W, Cl, HookChain<BA, Hook>, AA, OX, Own>) where
        Hook: FnMut(&RetryState),

        ensures
            r.rules() == self.rules(),
            r.parts().0 == self.parts().0,
            r.parts().1 == self.parts().1,
            r.parts().2.before_attempt.first() == self.parts().2.before_attempt,
            r.parts().2.before_attempt.second() == hook,
            r.parts().2.after_attempt == self.parts().2.after_attempt,
            r.parts().2.on_exit == self.parts().2.on_exit,
    {
        AsyncRetry {
            op: self.op,
            classifier: self.classifier,
            stop: self.stop,
            wait: self.wait,
            clock: self.clock,
            hooks: self.hooks.chain_before_attempt(hook),
            timeout: self.timeout,
            own: PhantomData,
        }
    }

    /// This loop with `hook` called after each attempt, before its outcome is
    /// classified, after any such hook it has.
    pub fn after_attempt<O, Hook>(self, hook: Hook) -> (r: AsyncRetry<F, C, S, W, Cl, BA, HookChain<AA, Hook>, OX, Own>) where
        F: AsyncRetryOp<Output = O>,
        Hook: for<'a> FnMut(&AttemptState<'a, O>),

        ensures
            r.rules() == self.rules(),
            r.parts().0 == self.parts().0,
            r.parts().1 == self.parts().1,
            r.parts().2.after_attempt.first() == self.parts().2.after_attempt,
            r.parts().2.after_attempt.second() == hook,
            r.parts().2.before_attempt == self.parts().2.before_attempt,
            r.parts().2.on_exit == self.parts().2.on_exit,
    {
        AsyncRetry {
            op: self.op,
            classifier: self.classifier,
            stop: self.stop,
            wait: self.wait,
            clock: self.clock,
            hooks: self.hooks.chain_after_attempt(hook),
            timeout: self.timeout,
            own: PhantomData,
        }
    }

    /// This loop with `hook` called once, when the loop ends, after any such hook it has.
    pub fn on_exit<O, R, A, Hook>(self, hook: Hook) -> (r: AsyncRetry<F, C, S, W, Cl, BA, AA, HookChain<OX, Hook>, Own>) where
        F: AsyncRetryOp<Output = O>,
        C: Decide<O, R = R, A = A>,
        Hook: for<'a> FnMut(&Exit<'a, R, A, O>),

        ensures
            r.rules() == self.rules(),
            r.parts().0 == self.parts().0,
            r.parts().1 == self.parts().1,
            r.parts().2.on_exit.first() == self.parts().2.on_exit,
            r.parts().2.on_exit.second() == hook,
            r.parts().2.before_attempt == self.parts().2.before_attempt,
            r.parts().2.after_attempt == self.parts().2.after_attempt,
    {
        AsyncRetry {
            op: self.op,
            classifier: self.classifier,
            stop: self.stop,
            wait: self.wait,
            clock: self.clock,
            hooks: self.hooks.chain_on_exit(hook),
            timeout: self.timeout,
            own: PhantomData,
        }
    }

    /// The loop, ready to be driven: the operation, the clock, and the state
    /// machine that says what to do with them.
    fn into_run(self) -> (r: (F, Cl, AsyncRun<C, S, W, BA, AA, OX>))
        ensures
            r.0 == self.parts().0,
            r.1 == self.parts().1,
            r.2@.is_new(self.rules(), self.parts().2),
    {
        let run = AsyncRun {
            classifier: self.classifier,
            stop: self.stop,
            wait: self.wait,
            timeout: self.timeout,
            hooks: self.hooks,
            phase: Phase::ReadyToStart,
            elapsed: None,
            attempt: 1,
            total_wait: Duration::zero(),
            previous_delay: None,
        };
        (self.op, self.clock, run)
    }

    /// The loop, ready to be driven by someone who wants its result alone.
    pub fn call(self) -> (r: DropStats<(F, Cl, AsyncRun<C, S, W, BA, AA, OX>)>)
        ensures
            r.inner.0 == self.parts().0,
            r.inner.1 == self.parts().1,
            r.inner.2@.is_new(self.rules(), self.parts().2),
    {
        DropStats { inner: self.into_run() }
    }
}

/// Something whose totals are not wanted.
pub struct DropStats<Inner> {
    /// The thing.
    pub inner: Inner,
}

/// An [`AsyncRetry`] whose totals are wanted too. Made by
/// [`AsyncRetry::with_stats`].
pub struct AsyncRetryWithStats<F, C, S, W, Cl, BA, AA, OX, Own = OwnsRules> {
    inner: AsyncRetry<F, C, S, W, Cl, BA, AA, OX, Own>,
}

impl<F, C, S, W, Cl, BA, AA, OX, Own> AsyncRetryWithStats<F, C, S, W, Cl, BA, AA, OX, Own> {
    /// The loop.
    pub closed spec fn inner(self) -> AsyncRetry<F, C, S, W, Cl, BA, AA, OX, Own> {
        self.inner
    }

    /// The loop, ready to be driven by someone who wants its result and totals.
    pub fn call(self) -> (r: (F, Cl, AsyncRun<C, S, W, BA, AA, OX>))
        ensures
            r.0 == self.inner().parts().0,
            r.1 == self.inner().parts().1,
            r.2@.is_new(self.inner().rules(), self.inner().parts().2),
    {
        self.inner.into_run()
    }
}

/// What a loop is in the middle of.
#[derive(Clone, Copy, Debug, PartialEq, Eq, Structural)]
pub enum Phase {
    /// An attempt is about to start.
    ReadyToStart,
    /// The future of an attempt is being polled.
    Polling,
    /// A wait is under way.
    Sleeping,
    /// The loop has ended.
    Done,
}

/// What happened.
pub enum Event<O> {
    /// The loop was resumed to start an attempt.
    Resumed,
    /// The future of the attempt gave this.
    Completed(O),
    /// The wait is over.
    Slept,
}

/// What to do next.
pub enum Action<R, A, O> {
    /// Call the operation with this state and poll its future.
    Call(RetryState),
    /// Wait this long.
    Sleep(Duration),
    /// Resume the loop at once.
    Resume,
    /// Hand this to the caller.
    Finish {
        /// What the caller receives.
        result: Result<R, RetryError<A, O>>,
        /// Totals of the loop.
        stats: RetryStats,
    },
}

/// A loop as a state machine.
pub struct AsyncRun<C, S, W, BA, AA, OX> {
    classifier: C,
    stop: S,
    wait: W,
    timeout: Option<Duration>,
    hooks: ExecutionHooks<BA, AA, OX>,
    phase: Phase,
    elapsed: Option<Elapsed>,
    attempt: u32,
    total_wait: Duration,
    previous_delay: Option<Duration>,
}

/// The state of an [`AsyncRun`].
pub struct RunState<C, S, W, BA, AA, OX> {
    /// What stays the same throughout the loop.
    pub rules: Rules<C, S, W>,
    /// The hooks.
    pub hooks: ExecutionHooks<BA, AA, OX>,
    /// What the loop is in the middle of.
    pub phase: Phase,
    /// Elapsed time, once the loop has begun.
    pub elapsed: Option<Elapsed>,
    /// The attempt under way or about to start.
    pub attempt: u32,
    /// All waits so far.
    pub total_wait: Duration,
    /// The wait before this attempt.
    pub previous_delay: Option<Duration>,
}

impl<C, S, W, BA, AA, OX> View for AsyncRun<C, S, W, BA, AA, OX> {
    type V = RunState<C, S, W, BA, AA, OX>;

    closed spec fn view(&self) -> RunState<C, S, W, BA, AA, OX> {
        RunState {
            rules: Rules {
                classifier: self.classifier,
                stop: self.stop,
                wait: self.wait,
                timeout: self.timeout,
            },
            hooks: self.hooks,
            phase: self.phase,
            elapsed: self.elapsed,
            attempt: self.attempt,
            total_wait: self.total_wait,
            previous_delay: self.previous_delay,
        }
    }
}

impl<C, S, W, BA, AA, OX> RunState<C, S, W, BA, AA, OX> {
    /// Whether this is the state of a loop that has not begun.
    pub open spec fn is_new(
        self,
        rules: Rules<C, S, W>,
        hooks: ExecutionHooks<BA, AA, OX>,
    ) -> bool {
        &&& self.rules == rules
        &&& self.hooks == hooks
        &&& self.phase == Phase::ReadyToStart
        &&& self.elapsed is None
        &&& self.attempt == 1
        &&& self.total_wait@ == 0
        &&& self.previous_delay is None
    }

    /// Whether this is `before` once the clock has read `now` for the first time.
    pub open spec fn is_started(self, before: Self, now: Duration) -> bool {
        match before.elapsed {
            Some(_) => self == before,
            None => {
                &&& self.elapsed matches Some(elapsed)
                &&& elapsed.begins_at(now)
                &&& self == (RunState { elapsed: self.elapsed, ..before })
            },
        }
    }

    /// Whether the loop may take `event` in.
    pub open spec fn expects<O>(self, event: Event<O>) -> bool {
        &&& self.elapsed is Some
        &&& self.attempt >= 1
        &&& self.phase == match event {
            Event::Resumed => Phase::ReadyToStart,
            Event::Completed(_) => Phase::Polling,
            Event::Slept => Phase::Sleeping,
        }
    }

    /// What the operation and the before-attempt hook see.
    pub open spec fn state(self) -> RetryState {
        RetryState {
            attempt: self.attempt,
            elapsed: self.elapsed->0.highest(),
            clocked: true,
            previous_delay: self.previous_delay,
            next_delay: None,
        }
    }

    /// Where the loop stands when the attempt completes.
    pub open spec fn standing(self) -> Standing {
        Standing {
            attempt: self.attempt,
            elapsed: self.elapsed->0.highest(),
            previous_delay: self.previous_delay,
            total_wait: self.total_wait,
        }
    }

    /// Whether this is `before` once an attempt has been started at the reading
    /// `now`, with the operation to be called with `state`.
    pub open spec fn has_resumed(self, before: Self, now: Duration, state: RetryState) -> bool where
        BA: BeforeAttemptHook,
     {
        &&& self.elapsed matches Some(elapsed)
        &&& elapsed.is_after(before.elapsed->0, now)
        &&& state == self.state()
        &&& before.hooks.before_attempt.fires(state, self.hooks.before_attempt)
        &&& self == (RunState {
            phase: Phase::Polling,
            elapsed: self.elapsed,
            hooks: ExecutionHooks {
                before_attempt: self.hooks.before_attempt,
                ..before.hooks
            },
            ..before
        })
    }

    /// Whether this is `before` once `outcome` has come in at the reading `now`,
    /// with `action` to be done next.
    pub open spec fn has_completed<O, R, A>(
        self,
        before: Self,
        now: Duration,
        outcome: O,
        action: Action<R, A, O>,
    ) -> bool where
        C: Decide<O, R = R, A = A>,
        S: Stop,
        W: Wait,
        AA: AttemptHook<O>,
        OX: ExitHook<R, A, O>,
     {
        &&& self.elapsed matches Some(elapsed)
        &&& elapsed.is_after(before.elapsed->0, now)
        &&& exists|stepped: Step<R, A, O>|
            {
                &&& #[trigger] steps(
                    (RunState { elapsed: self.elapsed, ..before }).standing(),
                    outcome,
                    before.rules.classifier,
                    before.rules.stop,
                    before.rules.wait,
                    before.rules.timeout,
                    before.hooks,
                    self.hooks,
                    stepped,
                )
                &&& match stepped {
                    Step::Done { result, stats } => {
                        &&& action == Action::<R, A, O>::Finish { result, stats }
                        &&& self == (RunState {
                            phase: Phase::Done,
                            elapsed: self.elapsed,
                            hooks: self.hooks,
                            ..before
                        })
                    },
                    Step::Continue { delay, total_wait } => if delay@ == 0 {
                        &&& action == Action::<R, A, O>::Resume
                        &&& self == (RunState {
                            phase: Phase::ReadyToStart,
                            elapsed: self.elapsed,
                            hooks: self.hooks,
                            attempt: next_attempt(before.attempt),
                            total_wait,
                            previous_delay: Some(delay),
                            ..before
                        })
                    } else {
                        &&& action == Action::<R, A, O>::Sleep(delay)
                        &&& self == (RunState {
                            phase: Phase::Sleeping,
                            elapsed: self.elapsed,
                            hooks: self.hooks,
                            total_wait,
                            previous_delay: Some(delay),
                            ..before
                        })
                    },
                }
            }
    }

    /// Whether this is `before` once its wait is over.
    pub open spec fn has_slept(self, before: Self) -> bool {
        self == (RunState {
            phase: Phase::ReadyToStart,
            attempt: next_attempt(before.attempt),
            ..before
        })
    }
}

impl<C, S, W, BA, AA, OX> AsyncRun<C, S, W, BA, AA, OX> {
    /// What the loop is in the middle of.
    pub fn phase(&self) -> (r: Phase)
        ensures
            r == self@.phase,
    {
        self.phase
    }

    /// Whether the loop has begun.
    pub fn is_started(&self) -> (r: bool)
        ensures
            r == (self@.elapsed is Some),
    {
        self.elapsed.is_some()
    }

    /// Lets the loop begin at the reading `now`, unless it has begun already.
    /// Time before that is not counted.
    pub fn start(&mut self, now: Duration)
        ensures
            final(self)@.is_started(old(self)@, now),
    {
        if self.elapsed.is_none() {
            self.elapsed = Some(Elapsed::starting_at(now));
        }
    }

    /// Takes in what happened, with the clock's reading at that moment, and says
    /// what to do next.
    pub fn poll<O, R, A>(&mut self, event: Event<O>, now: Duration) -> (r: Action<R, A, O>) where
        C: Decide<O, R = R, A = A>,
        S: Stop,
        W: Wait,
        BA: BeforeAttemptHook,
        AA: AttemptHook<O>,
        OX: ExitHook<R, A, O>,

        requires
            old(self)@.expects(event),
            event matches Event::Completed(outcome) ==> old(self)@.rules.classifier.askable(
                outcome,
            ),
            old(self)@.hooks.before_attempt.armed(),
            old(self)@.hooks.after_attempt.armed(),
            old(self)@.hooks.on_exit.armed(),
        ensures
            match event {
                Event::Resumed => r matches Action::Call(state) && final(self)@.has_resumed(
                    old(self)@,
                    now,
                    state,
                ),
                Event::Completed(outcome) => final(self)@.has_completed(
                    old(self)@,
                    now,
                    outcome,
                    r,
                ),
                Event::Slept => r is Resume && final(self)@.has_slept(old(self)@),
            },
            final(self)@.hooks.before_attempt.armed(),
            final(self)@.hooks.after_attempt.armed(),
            final(self)@.hooks.on_exit.armed(),
    {
        match event {
            Event::Resumed => {
                let since = self.read(now);
                let state = RetryState::for_attempt(self.attempt).with_elapsed(
                    since,
                ).with_previous_delay(self.previous_delay);
                self.hooks.before_attempt.call(&state);
                self.phase = Phase::Polling;
                Action::Call(state)
            },
            Event::Completed(outcome) => {
                let since = self.read(now);
                let ghost given = outcome;
                let stepped = step(
                    self.attempt,
                    since,
                    self.previous_delay,
                    self.total_wait,
                    outcome,
                    &self.classifier,
                    &self.stop,
                    &self.wait,
                    self.timeout,
                    &mut self.hooks,
                );
                assert(steps(
                    (RunState { elapsed: self@.elapsed, ..old(self)@ }).standing(),
                    given,
                    old(self)@.rules.classifier,
                    old(self)@.rules.stop,
                    old(self)@.rules.wait,
                    old(self)@.rules.timeout,
                    old(self)@.hooks,
                    self@.hooks,
                    stepped,
                ));
                match stepped {
                    Step::Done { result, stats } => {
                        self.phase = Phase::Done;
                        Action::Finish { result, stats }
                    },
                    Step::Continue { delay, total_wait } => {
                        self.total_wait = total_wait;
                        self.previous_delay = Some(delay);
                        if delay.is_zero() {
                            self.attempt = self.attempt.saturating_add(1);
                            self.phase = Phase::ReadyToStart;
                            Action::Resume
                        } else {
                            self.phase = Phase::Sleeping;
                            Action::Sleep(delay)
                        }
                    },
                }
            },
            Event::Slept => {
                self.attempt = self.attempt.saturating_add(1);
                self.phase = Phase::ReadyToStart;
                Action::Resume
            },
        }
    }

    /// Takes in a reading and returns the time elapsed.
    fn read(&mut self, now: Duration) -> (r: Duration)
        requires
            old(self)@.elapsed is Some,
        ensures
            final(self)@.elapsed is Some,
            final(self)@.elapsed->0.is_after(old(self)@.elapsed->0, now),
            r == final(self)@.elapsed->0.highest(),
            final(self)@ == (RunState { elapsed: final(self)@.elapsed, ..old(self)@ }),
    {
        let mut elapsed = match self.elapsed {
            Some(elapsed) => elapsed,
            None => Elapsed::starting_at(now),
        };
        let since = elapsed.observe(now);
        self.elapsed = Some(elapsed);
        since
    }
}

/// What a loop goes by is chosen one by one: each choice takes the place of the one before
/// it and leaves the others as they were.
pub proof fn choices_are_made_one_by_one<F, C, S, W, Cl, BA, AA, OX, S2, W2, Cl2>(
    made: AsyncRetry<F, C, S, W, Cl, BA, AA, OX>,
    unclocked: AsyncRetry<F, C, S, W, SystemClock, BA, AA, OX>,
    stop: S2,
    stopping: AsyncRetry<F, C, S2, W, Cl, BA, AA, OX>,
    wait: W2,
    waiting: AsyncRetry<F, C, S, W2, Cl, BA, AA, OX>,
    dur: Duration,
    timed: AsyncRetry<F, C, S, W, Cl, BA, AA, OX>,
    clock: Cl2,
    clocked: AsyncRetry<F, C, S, W, Cl2, BA, AA, OX>,
    counted: AsyncRetryWithStats<F, C, S, W, Cl, BA, AA, OX>,
)
    requires
        call_ensures(AsyncRetry::<F, C, S, W, Cl, BA, AA, OX>::stop::<S2>, (made, stop), stopping),
        call_ensures(AsyncRetry::<F, C, S, W, Cl, BA, AA, OX>::wait::<W2>, (made, wait), waiting),
        call_ensures(AsyncRetry::<F, C, S, W, Cl, BA, AA, OX, OwnsRules>::timeout, (made, dur), timed),
        call_ensures(
            AsyncRetry::<F, C, S, W, SystemClock, BA, AA, OX, OwnsRules>::clock::<Cl2>,
            (unclocked, clock),
            clocked,
        ),
        call_ensures(AsyncRetry::<F, C, S, W, Cl, BA, AA, OX, OwnsRules>::with_stats, (made,), counted),
    ensures
        stopping.rules().stop == stop,
        stopping.rules().wait == made.rules().wait,
        stopping.rules().classifier == made.rules().classifier,
        stopping.rules().timeout == made.rules().timeout,
        stopping.parts() == made.parts(),
        waiting.rules().wait == wait,
        waiting.rules().stop == made.rules().stop,
        waiting.rules().classifier == made.rules().classifier,
        waiting.rules().timeout == made.rules().timeout,
        waiting.parts() == made.parts(),
        timed.rules().timeout == Some(dur),
        timed.rules().stop == made.rules().stop,
        timed.rules().wait == made.rules().wait,
        timed.rules().classifier == made.rules().classifier,
        timed.parts() == made.parts(),
        clocked.parts().1 == clock,
        clocked.parts().0 == unclocked.parts().0,
        clocked.parts().2 == unclocked.parts().2,
        clocked.rules() == unclocked.rules(),
        counted.inner() == made,
{
}

/// Choosing what to make of outcomes leaves the strategies, the timeout, the operation, the
/// clock and the hooks as they were.
pub proof fn classifiers_are_chosen_alone<F, C, S, W, Cl, BA, AA, OX, T, E, P, D, NewC>(
    made: AsyncRetry<F, C, S, W, Cl, BA, AA, OX>,
    predicate: P,
    whenever: AsyncRetry<F, When<P>, S, W, Cl, BA, AA, OX>,
    until: AsyncRetry<F, Until<P>, S, W, Cl, BA, AA, OX>,
    decider: NewC,
    deciding: AsyncRetry<F, ClosureClassifier<NewC>, S, W, Cl, BA, AA, OX>,
) where
    F: AsyncRetryOp<Output = Result<T, E>>,
    P: Predicate<T, E>,
    NewC: Fn(Result<T, E>) -> D,
    D: IntoDecision<Result<T, E>>,

    requires
        call_ensures(
            AsyncRetry::<F, C, S, W, Cl, BA, AA, OX>::when::<T, E, P>,
            (made, predicate),
            whenever,
        ),
        call_ensures(
            AsyncRetry::<F, C, S, W, Cl, BA, AA, OX>::until::<T, E, P>,
            (made, predicate),
            until,
        ),
        call_ensures(
            AsyncRetry::<F, C, S, W, Cl, BA, AA, OX>::decide::<Result<T, E>, D, NewC>,
            (made, decider),
            deciding,
        ),
    ensures
        whenever.rules().classifier.predicate() == predicate,
        until.rules().classifier.predicate() == predicate,
        deciding.rules().classifier.0 == decider,
        whenever.rules().stop == made.rules().stop,
        until.rules().stop == made.rules().stop,
        deciding.rules().stop == made.rules().stop,
        whenever.rules().wait == made.rules().wait,
        until.rules().wait == made.rules().wait,
        deciding.rules().wait == made.rules().wait,
        whenever.rules().timeout == made.rules().timeout,
        until.rules().timeout == made.rules().timeout,
        deciding.rules().timeout == made.rules().timeout,
        whenever.parts() == made.parts(),
        until.parts() == made.parts(),
        deciding.parts() == made.parts(),
{
}

/// A hook is added after those there are, and nothing else about the loop changes.
pub proof fn hooks_are_added_alone<F, C, S, W, Cl, BA, AA, OX, O, R, A, HB, HA, HX>(
    made: AsyncRetry<F, C, S, W, Cl, BA, AA, OX>,
    before: HB,
    early: AsyncRetry<F, C, S, W, Cl, HookChain<BA, HB>, AA, OX>,
    after: HA,
    late: AsyncRetry<F, C, S, W, Cl, BA, HookChain<AA, HA>, OX>,
    exit: HX,
    last: AsyncRetry<F, C, S, W, Cl, BA, AA, HookChain<OX, HX>>,
) where
    F: AsyncRetryOp<Output = O>,
    C: Decide<O, R = R, A = A>,
    HB: FnMut(&RetryState),
    HA: for<'a> FnMut(&AttemptState<'a, O>),
    HX: for<'a> FnMut(&Exit<'a, R, A, O>),

    requires
        call_ensures(AsyncRetry::<F, C, S, W, Cl, BA, AA, OX, OwnsRules>::before_attempt::<HB>, (made, before), early),
        call_ensures(AsyncRetry::<F, C, S, W, Cl, BA, AA, OX, OwnsRules>::after_attempt::<O, HA>, (made, after), late),
        call_ensures(AsyncRetry::<F, C, S, W, Cl, BA, AA, OX, OwnsRules>::on_exit::<O, R, A, HX>, (made, exit), last),
    ensures
        early.rules() == made.rules(),
        late.rules() == made.rules(),
        last.rules() == made.rules(),
        early.parts().0 == made.parts().0 && early.parts().1 == made.parts().1,
        late.parts().0 == made.parts().0 && late.parts().1 == made.parts().1,
        last.parts().0 == made.parts().0 && last.parts().1 == made.parts().1,
        early.parts().2.before_attempt.first() == made.parts().2.before_attempt,
        early.parts().2.before_attempt.second() == before,
        early.parts().2.after_attempt == made.parts().2.after_attempt,
        early.parts().2.on_exit == made.parts().2.on_exit,
        late.parts().2.after_attempt.first() == made.parts().2.after_attempt,
        late.parts().2.after_attempt.second() == after,
        late.parts().2.before_attempt == made.parts().2.before_attempt,
        late.parts().2.on_exit == made.parts().2.on_exit,
        last.parts().2.on_exit.first() == made.parts().2.on_exit,
        last.parts().2.on_exit.second() == exit,
        last.parts().2.before_attempt == made.parts().2.before_attempt,
        last.parts().2.after_attempt == made.parts().2.after_attempt,
{
}

/// A driven loop that was told nothing makes three attempts, waits 100 ms and then twice as
/// long each time, has no timeout and no clock yet, from a closure of the state and from
/// one that takes nothing.
pub proof fn default_loop_makes_three_attempts<F, G, Fut, O>(
    op: F,
    made: DefaultAsyncRetry<F>,
    plain: G,
    extended: DefaultAsyncRetry<StatelessOp<G>>,
    state: RetryState,
) where F: FnMut(RetryState) -> Fut, G: FnMut() -> Fut, Fut: Future<Output = O>
    requires
        call_ensures(retry_async::<F, Fut, O>, (op,), made),
        call_ensures(<G as AsyncRetryExt<Fut, O>>::retry_async, (plain,), extended),
    ensures
        made.rules().stop.may_stop(state, true) <==> state.attempt >= 3,
        made.rules().wait.initial()@ == 100_000_000,
        made.rules().wait.factor() == 2,
        made.rules().timeout is None,
        made.parts().0 == op,
        extended.rules().stop.may_stop(state, true) <==> state.attempt >= 3,
        extended.rules().wait.initial()@ == 100_000_000,
        extended.rules().wait.factor() == 2,
        extended.rules().timeout is None,
        extended.parts().0.0 == plain,
{
}

/// A call makes ready the loop by the rules and the hooks, over the operation and the
/// clock, at its first attempt. So does a call for the totals too.
pub proof fn call_makes_the_loop_ready<F, C, S, W, Cl, BA, AA, OX>(
    made: AsyncRetry<F, C, S, W, Cl, BA, AA, OX>,
    ready: DropStats<(F, Cl, AsyncRun<C, S, W, BA, AA, OX>)>,
    counted: AsyncRetryWithStats<F, C, S, W, Cl, BA, AA, OX>,
    tallied: (F, Cl, AsyncRun<C, S, W, BA, AA, OX>),
)
    requires
        call_ensures(AsyncRetry::<F, C, S, W, Cl, BA, AA, OX, OwnsRules>::call, (made,), ready),
        call_ensures(
            AsyncRetryWithStats::<F, C, S, W, Cl, BA, AA, OX, OwnsRules>::call,
            (counted,),
            tallied,
        ),
    ensures
        ready.inner.0 == made.parts().0,
        ready.inner.1 == made.parts().1,
        ready.inner.2@.rules == made.rules(),
        ready.inner.2@.hooks == made.parts().2,
        ready.inner.2@.attempt == 1,
        ready.inner.2@.phase == Phase::ReadyToStart,
        ready.inner.2@.elapsed is None,
        tallied.0 == counted.inner().parts().0,
        tallied.1 == counted.inner().parts().1,
        tallied.2@.rules == counted.inner().rules(),
        tallied.2@.hooks == counted.inner().parts().2,
        tallied.2@.attempt == 1,
        tallied.2@.phase == Phase::ReadyToStart,
        tallied.2@.elapsed is None,
{
}

} // verus!
