//! Retrying by verdict.
//!
//! [`retry`] starts a [`Retry`] builder from an operation. A classifier sorts
//! each outcome into return, retry or abort; a stop strategy, a wait strategy, a
//! timeout and a clock shape the loop; hooks watch it. [`Retry::call`] runs it.

use crate::clock::{SyncClock, SystemClock};
use crate::decision::{ClosureClassifier, Decide, DefaultClassifier, IntoDecision, Until, When};
use crate::duration::Duration;
use crate::predicate::Predicate;
use crate::state::RetryState;
use crate::stop::{self, Stop, StopAfterAttempts};
use crate::wait::{self, Wait, WaitExponential};
use core::marker::PhantomData;
use vstd::prelude::*;

pub mod async_engine;
pub mod elapsed;
pub mod error;
pub mod hooks;
pub mod laws;
pub mod op;
pub mod run;
pub mod state;
pub mod stats;
pub mod step;
pub mod trace;

use error::RetryError;
use hooks::{AttemptHook, BeforeAttemptHook, ExecutionHooks, ExitHook, HookChain};
use op::{RetryOp, StatelessOp};
use run::{ends, run_loop, Rules};
use state::{AttemptState, Exit};
use stats::RetryStats;

verus! {

/// Attempts that a loop makes unless told otherwise.
pub const DEFAULT_MAX_ATTEMPTS: u32 = 3;

/// Milliseconds of the first wait unless told otherwise.
pub const DEFAULT_INITIAL_WAIT_MILLIS: u64 = 100;

/// Marks a loop that has its rules to itself, and can be given others.
#[derive(Clone, Copy, Debug, PartialEq, Eq, Structural)]
pub struct OwnsRules;

/// Marks a loop by the rules of a policy that it shares with other loops: they are
/// fixed, and only what else there is to a loop can be chosen.
#[derive(Clone, Copy, Debug, PartialEq, Eq, Structural)]
pub struct SharesRules;

/// A retry loop in the making.
///
/// `C` classifies outcomes, `S` stops, `W` waits, `Cl` is the clock, and `BA`,
/// `AA` and `OX` are the hooks. `Own` says whether the loop owns its rules: the
/// methods that change them are there only where it does.
pub struct Retry<F, C, S, W, Cl, BA, AA, OX, Own = OwnsRules> {
    op: F,
    classifier: C,
    stop: S,
    wait: W,
    clock: Cl,
    hooks: ExecutionHooks<BA, AA, OX>,
    timeout: Option<Duration>,
    own: PhantomData<Own>,
}

/// A loop over `F` with everything else as it is by default.
pub type DefaultRetry<F> =
    Retry<F, DefaultClassifier, StopAfterAttempts, WaitExponential, SystemClock, (), (), ()>;

/// Whether `rules` are the rules of a loop that was told nothing: three attempts,
/// waits of 100 ms doubling each time, no timeout.
pub open spec fn default_rules(
    rules: Rules<DefaultClassifier, StopAfterAttempts, WaitExponential>,
) -> bool {
    &&& rules.classifier == DefaultClassifier
    &&& rules.stop.max() == DEFAULT_MAX_ATTEMPTS
    &&& rules.wait.initial()@ == DEFAULT_INITIAL_WAIT_MILLIS * crate::duration::NANOS_PER_MILLI
    &&& rules.wait.factor() == 2
    &&& rules.timeout is None
}

/// Starts a loop over `op`.
pub fn retry<F, O>(op: F) -> (r: DefaultRetry<F>) where F: FnMut(RetryState) -> O
    ensures
        default_rules(r.rules()),
        r.parts() == (
            op,
            SystemClock,
            (ExecutionHooks { before_attempt: (), after_attempt: (), on_exit: () }),
        ),
{
    Retry::from_op(op)
}

/// Starts a loop over a closure that takes nothing.
pub trait RetryExt<O>: FnMut() -> O + Sized {
    /// Starts a loop over this closure.
    fn retry(self) -> (r: DefaultRetry<StatelessOp<Self>>)
        ensures
            default_rules(r.rules()),
            r.parts() == (
                StatelessOp(self),
                SystemClock,
                (ExecutionHooks { before_attempt: (), after_attempt: (), on_exit: () }),
            ),
    ;
}

impl<O, F: FnMut() -> O> RetryExt<O> for F {
    fn retry(self) -> DefaultRetry<StatelessOp<Self>> {
        Retry::from_op(StatelessOp(self))
    }
}

impl<F> DefaultRetry<F> {
    fn from_op(op: F) -> (r: Self)
        ensures
            default_rules(r.rules()),
            r.parts() == (
                op,
                SystemClock,
                (ExecutionHooks { before_attempt: (), after_attempt: (), on_exit: () }),
            ),
    {
        Retry::from_parts(
            op,
            DefaultClassifier,
            stop::attempts(DEFAULT_MAX_ATTEMPTS),
            wait::exponential(Duration::from_millis(DEFAULT_INITIAL_WAIT_MILLIS)),
            None,
        )
    }
}

impl<F, C, S, W, Own> Retry<F, C, S, W, SystemClock, (), (), (), Own> {
    /// A loop over `op` by the given rules, with no clock chosen and no hooks.
    pub fn from_parts(op: F, classifier: C, stop: S, wait: W, timeout: Option<Duration>) -> (r: Self)
        ensures
            r.rules() == (Rules { classifier, stop, wait, timeout }),
            r.parts() == (
                op,
                SystemClock,
                (ExecutionHooks { before_attempt: (), after_attempt: (), on_exit: () }),
            ),
    {
        Retry {
            op,
            classifier,
            stop,
            wait,
            clock: SystemClock,
            hooks: ExecutionHooks::new(),
            timeout,
            own: PhantomData,
        }
    }
}

impl<F, C, S, W, BA, AA, OX, Own> Retry<F, C, S, W, SystemClock, BA, AA, OX, Own> {
    /// This loop with `clock` for its clock. A clock is chosen once: the method is
    /// there only as long as none has been.
    pub fn clock<NewClock>(self, clock: NewClock) -> (r: Retry<F, C, S, W, NewClock, BA, AA, OX, Own>)
        ensures
            r.rules() == self.rules(),
            r.parts() == (self.parts().0, clock, self.parts().2),
    {
        Retry {
            op: self.op,
            classifier: self.classifier,
            stop: self.stop,
            wait: self.wait,
            clock,
            hooks: self.hooks,
            timeout: self.timeout,
            own: PhantomData,
        }
    }
}

impl<F, C, S, W, Cl, BA, AA, OX, Own> Retry<F, C, S, W, Cl, BA, AA, OX, Own> {
    /// What stays the same throughout the loop.
    pub closed spec fn rules(self) -> Rules<C, S, W> {
        Rules {
            classifier: self.classifier,
            stop: self.stop,
            wait: self.wait,
            timeout: self.timeout,
        }
    }

    /// The operation, the clock and the hooks.
    pub closed spec fn parts(self) -> (F, Cl, ExecutionHooks<BA, AA, OX>) {
        (self.op, self.clock, self.hooks)
    }
}

impl<F, C, S, W, Cl, BA, AA, OX> Retry<F, C, S, W, Cl, BA, AA, OX> {
    /// This loop with `stop` for its stop strategy.
    pub fn stop<NewStop>(self, stop: NewStop) -> (r: Retry<F, C, NewStop, W, Cl, BA, AA, OX>)
        ensures
            r.rules() == (Rules {
                classifier: self.rules().classifier,
                stop,
                wait: self.rules().wait,
                timeout: self.rules().timeout,
            }),
            r.parts() == self.parts(),
    {
        Retry {
            op: self.op,
            classifier: self.classifier,
            stop,
            wait: self.wait,
            clock: self.clock,
            hooks: self.hooks,
            timeout: self.timeout,
            own: PhantomData,
        }
    }

    /// This loop with `wait` for its wait strategy.
    pub fn wait<NewWait>(self, wait: NewWait) -> (r: Retry<F, C, S, NewWait, Cl, BA, AA, OX>)
        ensures
            r.rules() == (Rules {
                classifier: self.rules().classifier,
                stop: self.rules().stop,
                wait,
                timeout: self.rules().timeout,
            }),
            r.parts() == self.parts(),
    {
        Retry {
            op: self.op,
            classifier: self.classifier,
            stop: self.stop,
            wait,
            clock: self.clock,
            hooks: self.hooks,
            timeout: self.timeout,
            own: PhantomData,
        }
    }

    fn with_classifier<NewC>(self, classifier: NewC) -> (r: Retry<F, NewC, S, W, Cl, BA, AA, OX>)
        ensures
            r.rules() == (Rules {
                classifier,
                stop: self.rules().stop,
                wait: self.rules().wait,
                timeout: self.rules().timeout,
            }),
            r.parts() == self.parts(),
    {
        Retry {
            op: self.op,
            classifier,
            stop: self.stop,
            wait: self.wait,
            clock: self.clock,
            hooks: self.hooks,
            timeout: self.timeout,
            own: PhantomData,
        }
    }

    /// This loop with `classifier` for its classifier. The closure returns a
    /// [`Verdict`](crate::decision::Verdict), or a
    /// [`Decision`](crate::decision::Decision) where it never gives up.
    pub fn decide<O, D, NewC>(
        self,
        classifier: NewC,
    ) -> (r: Retry<F, ClosureClassifier<NewC>, S, W, Cl, BA, AA, OX>) where
        F: RetryOp<Output = O>,
        NewC: Fn(O) -> D,
        D: IntoDecision<O>,

        ensures
            r.rules() == (Rules {
                classifier: ClosureClassifier(classifier),
                stop: self.rules().stop,
                wait: self.rules().wait,
                timeout: self.rules().timeout,
            }),
            r.parts() == self.parts(),
    {
        self.with_classifier(ClosureClassifier(classifier))
    }

    /// This loop with outcomes retried while `predicate` says so, and otherwise settled: a value is
    /// returned, an error aborts.
    pub fn when<T, E, P>(self, predicate: P) -> (r: Retry<F, When<P>, S, W, Cl, BA, AA, OX>) where
        F: RetryOp<Output = Result<T, E>>,
        P: Predicate<T, E>,

        ensures
            r.rules().classifier.predicate() == predicate,
            r.rules().stop == self.rules().stop,
            r.rules().wait == self.rules().wait,
            r.rules().timeout == self.rules().timeout,
            r.parts() == self.parts(),
    {
        self.with_classifier(When::new(predicate))
    }

    /// This loop with outcomes retried until `predicate` is satisfied, and then settled: a value
    /// is returned, an error aborts.
    pub fn until<T, E, P>(self, predicate: P) -> (r: Retry<F, Until<P>, S, W, Cl, BA, AA, OX>) where
        F: RetryOp<Output = Result<T, E>>,
        P: Predicate<T, E>,

        ensures
            r.rules().classifier.predicate() == predicate,
            r.rules().stop == self.rules().stop,
            r.rules().wait == self.rules().wait,
            r.rules().timeout == self.rules().timeout,
            r.parts() == self.parts(),
    {
        self.with_classifier(Until::new(predicate))
    }
}

impl<F, C, S, W, Cl, BA, AA, OX, Own> Retry<F, C, S, W, Cl, BA, AA, OX, Own> {
    /// This loop with a budget of `dur` for the whole of it.
    ///
    /// The budget is looked at between attempts: a wait is cut down to what is
    /// left of it, and the loop ends as exhausted once it is spent. An operation
    /// or a wait under way is not interrupted.
    pub fn timeout(self, dur: Duration) -> (r: Self)
        ensures
            r.rules() == (Rules { timeout: Some(dur), ..self.rules() }),
            r.parts() == self.parts(),
    {
        Retry { timeout: Some(dur), ..self }
    }

    /// This loop with its totals handed back too.
    pub fn with_stats(self) -> (r: RetryWithStats<F, C, S, W, Cl, BA, AA, OX, Own>)
        ensures
            r.inner() == self,
    {
        RetryWithStats { inner: self }
    }

    /// This loop with `hook` called before each attempt, after any such hook it has.
    pub fn before_attempt<Hook>(self, hook: Hook) -> (r: Retry<F, C, S, W, Cl, HookChain<BA, Hook>, AA, OX, Own>) where
        Hook: FnMut(&RetryState),

        ensures
            r.rules() == self.rules(),
            r.parts().0 == self.parts().0,
            r.parts().1 == self.parts().1,
            r.parts().2.before_attempt.first() == self.parts().2.before_attempt,
            r.parts().2.before_attempt.second() == hook,
            r.parts().2.after_attempt == self.parts().2.after_attempt,
            r.parts().2.on_exit == self.parts().2.on_exit,
    {
        Retry {
            op: self.op,
            classifier: self.classifier,
            stop: self.stop,
            wait: self.wait,
            clock: self.clock,
            hooks: self.hooks.chain_before_attempt(hook),
            timeout: self.timeout,
            own: PhantomData,
        }
    }

    /// This loop with `hook` called after each attempt, before its outcome is
    /// classified, after any such hook it has.
    pub fn after_attempt<O, Hook>(self, hook: Hook) -> (r: Retry<F, C, S, W, Cl, BA, HookChain<AA, Hook>, OX, Own>) where
        F: RetryOp<Output = O>,
        Hook: for<'a> FnMut(&AttemptState<'a, O>),

        ensures
            r.rules() == self.rules(),
            r.parts().0 == self.parts().0,
            r.parts().1 == self.parts().1,
            r.parts().2.after_attempt.first() == self.parts().2.after_attempt,
            r.parts().2.after_attempt.second() == hook,
            r.parts().2.before_attempt == self.parts().2.before_attempt,
            r.parts().2.on_exit == self.parts().2.on_exit,
    {
        Retry {
            op: self.op,
            classifier: self.classifier,
            stop: self.stop,
            wait: self.wait,
            clock: self.clock,
            hooks: self.hooks.chain_after_attempt(hook),
            timeout: self.timeout,
            own: PhantomData,
        }
    }

    /// This loop with `hook` called once, when the loop ends, after any such hook it has.
    pub fn on_exit<O, R, A, Hook>(self, hook: Hook) -> (r: Retry<F, C, S, W, Cl, BA, AA, HookChain<OX, Hook>, Own>) where
        F: RetryOp<Output = O>,
        C: Decide<O, R = R, A = A>,
        Hook: for<'a> FnMut(&Exit<'a, R, A, O>),

        ensures
            r.rules() == self.rules(),
            r.parts().0 == self.parts().0,
            r.parts().1 == self.parts().1,
            r.parts().2.on_exit.first() == self.parts().2.on_exit,
            r.parts().2.on_exit.second() == hook,
            r.parts().2.before_attempt == self.parts().2.before_attempt,
            r.parts().2.after_attempt == self.parts().2.after_attempt,
    {
        Retry {
            op: self.op,
            classifier: self.classifier,
            stop: self.stop,
            wait: self.wait,
            clock: self.clock,
            hooks: self.hooks.chain_on_exit(hook),
            timeout: self.timeout,
            own: PhantomData,
        }
    }
}

impl<F, C, S, W, Cl, BA, AA, OX, Own, O, R, A> Retry<F, C, S, W, Cl, BA, AA, OX, Own> where
    F: RetryOp<Output = O>,
    C: Decide<O, R = R, A = A>,
    S: Stop,
    W: Wait,
    Cl: SyncClock,
    BA: BeforeAttemptHook,
    AA: AttemptHook<O>,
    OX: ExitHook<R, A, O>,
 {
    /// Whether the operation, the classifier and the hooks may be called.
    pub open spec fn ready(self) -> bool {
        &&& self.parts().0.ready()
        &&& forall|outcome: O| self.rules().classifier.askable(outcome)
        &&& self.parts().2.before_attempt.armed()
        &&& self.parts().2.after_attempt.armed()
        &&& self.parts().2.on_exit.armed()
    }

    /// Whether the loop may end with `result` and `stats`.
    pub open spec fn may_end(
        self,
        result: Result<R, RetryError<A, O>>,
        stats: RetryStats,
    ) -> bool {
        exists|after: (F, Cl, ExecutionHooks<BA, AA, OX>)| #[trigger]
            ends(self.rules(), self.parts(), after, result, stats)
    }

    /// Runs the loop.
    ///
    /// The caller gets the value of the first outcome that is to be returned, the
    /// cause of the first that is to be aborted, or the last outcome where the
    /// stop strategy or the timeout ends the loop before. Nothing is done to the
    /// operation, the clock and the hooks once the loop has ended.
    pub fn call(self) -> (r: Result<R, RetryError<A, O>>)
        requires
            self.ready(),
        ensures
            exists|stats: RetryStats| #[trigger] self.may_end(r, stats),
            exists|stats: RetryStats, after: (F, Cl, ExecutionHooks<BA, AA, OX>)| #[trigger]
                ends(self.rules(), self.parts(), after, r, stats) && has_resolved(after.0)
                    && has_resolved(after.1) && has_resolved(after.2),
    {
        let (result, stats) = self.run();
        assert(self.may_end(result, stats));
        result
    }

    /// Runs the loop and hands its totals back too.
    fn run(self) -> (r: (Result<R, RetryError<A, O>>, RetryStats))
        requires
            self.ready(),
        ensures
            self.may_end(r.0, r.1),
            exists|after: (F, Cl, ExecutionHooks<BA, AA, OX>)| #[trigger]
                ends(self.rules(), self.parts(), after, r.0, r.1) && has_resolved(after.0)
                    && has_resolved(after.1) && has_resolved(after.2),
    {
        let Retry { mut op, classifier, stop, wait, mut clock, mut hooks, timeout, own: _ } = self;
        let r = run_loop(&mut op, &classifier, &stop, &wait, timeout, &mut clock, &mut hooks);
        assert(ends(self.rules(), self.parts(), (op, clock, hooks), r.0, r.1));
        r
    }
}

/// A [`Retry`] whose call hands its totals back too. Made by
/// [`Retry::with_stats`].
pub struct RetryWithStats<F, C, S, W, Cl, BA, AA, OX, Own = OwnsRules> {
    inner: Retry<F, C, S, W, Cl, BA, AA, OX, Own>,
}

impl<F, C, S, W, Cl, BA, AA, OX, Own> RetryWithStats<F, C, S, W, Cl, BA, AA, OX, Own> {
    /// The loop.
    pub closed spec fn inner(self) -> Retry<F, C, S, W, Cl, BA, AA, OX, Own> {
        self.inner
    }
}

impl<F, C, S, W, Cl, BA, AA, OX, Own, O, R, A> RetryWithStats<F, C, S, W, Cl, BA, AA, OX, Own> where
    F: RetryOp<Output = O>,
    C: Decide<O, R = R, A = A>,
    S: Stop,
    W: Wait,
    Cl: SyncClock,
    BA: BeforeAttemptHook,
    AA: AttemptHook<O>,
    OX: ExitHook<R, A, O>,
 {
    /// Runs the loop and hands its totals back too.
    pub fn call(self) -> (r: (Result<R, RetryError<A, O>>, RetryStats))
        requires
            self.inner().ready(),
        ensures
            self.inner().may_end(r.0, r.1),
            exists|after: (F, Cl, ExecutionHooks<BA, AA, OX>)| #[trigger]
                ends(self.inner().rules(), self.inner().parts(), after, r.0, r.1) && has_resolved(
                    after.0,
                ) && has_resolved(after.1) && has_resolved(after.2),
    {
        self.inner.run()
    }
}

/// What a loop goes by is chosen one by one: each choice takes the place of the one before
/// it and leaves the others as they were.
pub proof fn choices_are_made_one_by_one<F, C, S, W, Cl, BA, AA, OX, S2, W2, Cl2>(
    made: Retry<F, C, S, W, Cl, BA, AA, OX>,
    unclocked: Retry<F, C, S, W, SystemClock, BA, AA, OX>,
    stop: S2,
    stopping: Retry<F, C, S2, W, Cl, BA, AA, OX>,
    wait: W2,
    waiting: Retry<F, C, S, W2, Cl, BA, AA, OX>,
    dur: Duration,
    timed: Retry<F, C, S, W, Cl, BA, AA, OX>,
    clock: Cl2,
    clocked: Retry<F, C, S, W, Cl2, BA, AA, OX>,
    counted: RetryWithStats<F, C, S, W, Cl, BA, AA, OX>,
)
    requires
        call_ensures(Retry::<F, C, S, W, Cl, BA, AA, OX>::stop::<S2>, (made, stop), stopping),
        call_ensures(Retry::<F, C, S, W, Cl, BA, AA, OX>::wait::<W2>, (made, wait), waiting),
        call_ensures(Retry::<F, C, S, W, Cl, BA, AA, OX, OwnsRules>::timeout, (made, dur), timed),
        call_ensures(
            Retry::<F, C, S, W, SystemClock, BA, AA, OX, OwnsRules>::clock::<Cl2>,
            (unclocked, clock),
            clocked,
        ),
        call_ensures(Retry::<F, C, S, W, Cl, BA, AA, OX, OwnsRules>::with_stats, (made,), counted),
    ensures
        stopping.rules().stop == stop,
        stopping.rules().wait == made.rules().wait,
        stopping.rules().classifier == made.rules().classifier,
        stopping.rules().timeout == made.rules().timeout,
        stopping.parts() == made.parts(),
        waiting.rules().wait == wait,
        waiting.rules().stop == made.rules().stop,
        waiting.rules().classifier == made.rules().classifier,
        waiting.rules().timeout == made.rules().timeout,
        waiting.parts() == made.parts(),
        timed.rules().timeout == Some(dur),
        timed.rules().stop == made.rules().stop,
        timed.rules().wait == made.rules().wait,
        timed.rules().classifier == made.rules().classifier,
        timed.parts() == made.parts(),
        clocked.parts().1 == clock,
        clocked.parts().0 == unclocked.parts().0,
        clocked.parts().2 == unclocked.parts().2,
        clocked.rules() == unclocked.rules(),
        counted.inner() == made,
{
}

/// Choosing what to make of outcomes leaves the strategies, the timeout, the operation, the
/// clock and the hooks as they were.
pub proof fn classifiers_are_chosen_alone<F, C, S, W, Cl, BA, AA, OX, T, E, P, D, NewC>(
    made: Retry<F, C, S, W, Cl, BA, AA, OX>,
    predicate: P,
    whenever: Retry<F, When<P>, S, W, Cl, BA, AA, OX>,
    until: Retry<F, Until<P>, S, W, Cl, BA, AA, OX>,
    decider: NewC,
    deciding: Retry<F, ClosureClassifier<NewC>, S, W, Cl, BA, AA, OX>,
) where
    F: RetryOp<Output = Result<T, E>>,
    P: Predicate<T, E>,
    NewC: Fn(Result<T, E>) -> D,
    D: IntoDecision<Result<T, E>>,

    requires
        call_ensures(
            Retry::<F, C, S, W, Cl, BA, AA, OX>::when::<T, E, P>,
            (made, predicate),
            whenever,
        ),
        call_ensures(
            Retry::<F, C, S, W, Cl, BA, AA, OX>::until::<T, E, P>,
            (made, predicate),
            until,
        ),
        call_ensures(
            Retry::<F, C, S, W, Cl, BA, AA, OX>::decide::<Result<T, E>, D, NewC>,
            (made, decider),
            deciding,
        ),
    ensures
        whenever.rules().classifier.predicate() == predicate,
        until.rules().classifier.predicate() == predicate,
        deciding.rules().classifier.0 == decider,
        whenever.rules().stop == made.rules().stop,
        until.rules().stop == made.rules().stop,
        deciding.rules().stop == made.rules().stop,
        whenever.rules().wait == made.rules().wait,
        until.rules().wait == made.rules().wait,
        deciding.rules().wait == made.rules().wait,
        whenever.rules().timeout == made.rules().timeout,
        until.rules().timeout == made.rules().timeout,
        deciding.rules().timeout == made.rules().timeout,
        whenever.parts() == made.parts(),
        until.parts() == made.parts(),
        deciding.parts() == made.parts(),
{
}

/// A loop that was told nothing makes three attempts, waits 100 ms and then twice as long
/// each time, has no timeout, no hooks and no clock yet.
pub proof fn default_loop_makes_three_attempts<F, O>(
    op: F,
    made: DefaultRetry<F>,
    state: RetryState,
) where F: FnMut(RetryState) -> O
    requires
        call_ensures(retry::<F, O>, (op,), made),
    ensures
        made.rules().stop.may_stop(state, true) <==> state.attempt >= 3,
        made.rules().wait.initial()@ == 100_000_000,
        made.rules().wait.factor() == 2,
        made.rules().timeout is None,
        made.parts().0 == op,
        made.parts().1 == SystemClock,
{
}

/// A call ends as the loop by the rules over the operation, the clock and the hooks may
/// end, and it gives what a call for the totals too would give first.
pub proof fn call_ends_as_the_loop<F, C, S, W, Cl, BA, AA, OX, O, R, A>(
    made: Retry<F, C, S, W, Cl, BA, AA, OX>,
    counted: RetryWithStats<F, C, S, W, Cl, BA, AA, OX>,
    result: Result<R, RetryError<A, O>>,
    both: (Result<R, RetryError<A, O>>, RetryStats),
) where
    F: RetryOp<Output = O>,
    C: Decide<O, R = R, A = A>,
    S: Stop,
    W: Wait,
    Cl: SyncClock,
    BA: BeforeAttemptHook,
    AA: AttemptHook<O>,
    OX: ExitHook<R, A, O>,

    requires
        call_ensures(Retry::<F, C, S, W, Cl, BA, AA, OX, OwnsRules>::call, (made,), result),
        call_ensures(
            RetryWithStats::<F, C, S, W, Cl, BA, AA, OX, OwnsRules>::call,
            (counted,),
            both,
        ),
    ensures
        exists|stats: RetryStats, after: (F, Cl, ExecutionHooks<BA, AA, OX>)| #[trigger]
            ends(made.rules(), made.parts(), after, result, stats),
        exists|after: (F, Cl, ExecutionHooks<BA, AA, OX>)| #[trigger]
            ends(counted.inner().rules(), counted.inner().parts(), after, both.0, both.1),
{
}

/// A hook is added after those there are, and nothing else about the loop changes.
pub proof fn hooks_are_added_alone<F, C, S, W, Cl, BA, AA, OX, O, R, A, HB, HA, HX>(
    made: Retry<F, C, S, W, Cl, BA, AA, OX>,
    before: HB,
    early: Retry<F, C, S, W, Cl, HookChain<BA, HB>, AA, OX>,
    after: HA,
    late: Retry<F, C, S, W, Cl, BA, HookChain<AA, HA>, OX>,
    exit: HX,
    last: Retry<F, C, S, W, Cl, BA, AA, HookChain<OX, HX>>,
) where
    F: RetryOp<Output = O>,
    C: Decide<O, R = R, A = A>,
    HB: FnMut(&RetryState),
    HA: for<'a> FnMut(&AttemptState<'a, O>),
    HX: for<'a> FnMut(&Exit<'a, R, A, O>),

    requires
        call_ensures(Retry::<F, C, S, W, Cl, BA, AA, OX, OwnsRules>::before_attempt::<HB>, (made, before), early),
        call_ensures(Retry::<F, C, S, W, Cl, BA, AA, OX, OwnsRules>::after_attempt::<O, HA>, (made, after), late),
        call_ensures(Retry::<F, C, S, W, Cl, BA, AA, OX, OwnsRules>::on_exit::<O, R, A, HX>, (made, exit), last),
    ensures
        early.rules() == made.rules(),
        late.rules() == made.rules(),
        last.rules() == made.rules(),
        early.parts().0 == made.parts().0 && early.parts().1 == made.parts().1,
        late.parts().0 == made.parts().0 && late.parts().1 == made.parts().1,
        last.parts().0 == made.parts().0 && last.parts().1 == made.parts().1,
        early.parts().2.before_attempt.first() == made.parts().2.before_attempt,
        early.parts().2.before_attempt.second() == before,
        early.parts().2.after_attempt == made.parts().2.after_attempt,
        early.parts().2.on_exit == made.parts().2.on_exit,
        late.parts().2.after_attempt.first() == made.parts().2.after_attempt,
        late.parts().2.after_attempt.second() == after,
        late.parts().2.before_attempt == made.parts().2.before_attempt,
        late.parts().2.on_exit == made.parts().2.on_exit,
        last.parts().2.on_exit.first() == made.parts().2.on_exit,
        last.parts().2.on_exit.second() == exit,
        last.parts().2.before_attempt == made.parts().2.before_attempt,
        last.parts().2.after_attempt == made.parts().2.after_attempt,
{
}

/// A closure that takes nothing starts the loop that a closure of the state starts, over
/// itself.
pub proof fn extension_starts_the_default_loop<F, O>(
    op: F,
    made: DefaultRetry<StatelessOp<F>>,
    state: RetryState,
) where F: FnMut() -> O
    requires
        call_ensures(<F as RetryExt<O>>::retry, (op,), made),
    ensures
        made.rules().stop.may_stop(state, true) <==> state.attempt >= 3,
        made.rules().wait.initial()@ == 100_000_000,
        made.rules().wait.factor() == 2,
        made.rules().timeout is None,
        made.parts().0.0 == op,
        made.parts().1 == SystemClock,
{
}

} // verus!
