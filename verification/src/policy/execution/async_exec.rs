//! Loops over futures in the making.

use super::async_loop::AsyncEngine;
use super::hooks::{ExecutionHooks, HookChain};
use super::policy::PredicatePolicy;
use super::state::{AttemptState, ExitState};
use crate::cancel::CancelNever;
use crate::clock::{ClockFn, SystemClock};
use crate::duration::Duration;
use crate::engine::async_engine::AsyncRetryOp;
use crate::predicate::PredicateUntil;
use crate::state::RetryState;
use core::future::Future;
use vstd::prelude::*;

verus! {

/// Stands where no sleeper has been chosen yet.
#[derive(Clone, Copy, Debug, PartialEq, Eq, Structural)]
pub struct NoAsyncSleep;

/// A loop over futures in the making, over a policy that is owned or borrowed.
///
/// Where the policy is owned, its strategies and its predicate can still be
/// replaced.
pub struct AsyncRetryExec<Policy, BA, AA, BS, OX, F, Sl, Cl, Cn = CancelNever> {
    policy: Policy,
    hooks: ExecutionHooks<BA, AA, BS, OX>,
    op: F,
    sleeper: Sl,
    clock: Cl,
    canceler: Cn,
    timeout: Option<Duration>,
}

/// A [`AsyncRetryExec`] that borrows its policy. Made by
/// [`PredicatePolicy::retry_async`].
pub type AsyncRetry<'policy, S, W, P, BA, AA, BS, OX, F, Sl, Cl, Cn = CancelNever> =
    AsyncRetryExec<&'policy PredicatePolicy<S, W, P>, BA, AA, BS, OX, F, Sl, Cl, Cn>;

/// A [`AsyncRetry`] whose call hands its totals back too.
pub type AsyncRetryWithStats<'policy, S, W, P, BA, AA, BS, OX, F, Sl, Cl, Cn = CancelNever> =
    AsyncRetryExecWithStats<&'policy PredicatePolicy<S, W, P>, BA, AA, BS, OX, F, Sl, Cl, Cn>;

/// A [`AsyncRetryExec`] that owns its policy.
pub type AsyncRetryBuilder<S, W, P, BA, AA, BS, OX, F, Sl, Cl, Cn = CancelNever> =
    AsyncRetryExec<PredicatePolicy<S, W, P>, BA, AA, BS, OX, F, Sl, Cl, Cn>;

/// A [`AsyncRetryBuilder`] whose call hands its totals back too.
pub type AsyncRetryBuilderWithStats<S, W, P, BA, AA, BS, OX, F, Sl, Cl, Cn = CancelNever> =
    AsyncRetryExecWithStats<PredicatePolicy<S, W, P>, BA, AA, BS, OX, F, Sl, Cl, Cn>;

/// What a loop in the making has been told.
pub struct AsyncSetup<Policy, BA, AA, BS, OX, F, Sl, Cl, Cn> {
    /// The policy, owned or borrowed.
    pub policy: Policy,
    /// The hooks.
    pub hooks: ExecutionHooks<BA, AA, BS, OX>,
    /// The operation.
    pub op: F,
    /// What waits.
    pub sleeper: Sl,
    /// The clock.
    pub clock: Cl,
    /// The canceler.
    pub canceler: Cn,
    /// The timeout.
    pub timeout: Option<Duration>,
}

impl<Policy, BA, AA, BS, OX, F, Sl, Cl, Cn> View for AsyncRetryExec<
    Policy,
    BA,
    AA,
    BS,
    OX,
    F,
    Sl,
    Cl,
    Cn,
> {
    type V = AsyncSetup<Policy, BA, AA, BS, OX, F, Sl, Cl, Cn>;

    closed spec fn view(&self) -> AsyncSetup<Policy, BA, AA, BS, OX, F, Sl, Cl, Cn> {
        AsyncSetup {
            policy: self.policy,
            hooks: self.hooks,
            op: self.op,
            sleeper: self.sleeper,
            clock: self.clock,
            canceler: self.canceler,
            timeout: self.timeout,
        }
    }
}

impl<Policy, F> AsyncRetryExec<Policy, (), (), (), (), F, NoAsyncSleep, SystemClock> {
    /// A loop over `op` by `policy`, without hooks, timeout or canceler.
    pub fn from_policy(policy: Policy, op: F) -> (r: Self)
        ensures
            r@ == (AsyncSetup {
                policy,
                hooks: ExecutionHooks {
                    before_attempt: (),
                    after_attempt: (),
                    before_sleep: (),
                    on_exit: (),
                },
                op,
                sleeper: NoAsyncSleep,
                clock: SystemClock,
                canceler: CancelNever,
                timeout: None,
            }),
    {
        AsyncRetryExec {
            policy,
            hooks: ExecutionHooks::new(),
            op,
            sleeper: NoAsyncSleep,
            clock: SystemClock,
            canceler: CancelNever,
            timeout: None,
        }
    }
}

impl<Policy, BA, AA, BS, OX, F, Sl, Cl, Cn> AsyncRetryExec<Policy, BA, AA, BS, OX, F, Sl, Cl, Cn> {
    fn with_hooks<NewBA, NewAA, NewBS, NewOX>(
        policy: Policy,
        hooks: ExecutionHooks<NewBA, NewAA, NewBS, NewOX>,
        op: F,
        sleeper: Sl,
        clock: Cl,
        canceler: Cn,
        timeout: Option<Duration>,
    ) -> (r: AsyncRetryExec<Policy, NewBA, NewAA, NewBS, NewOX, F, Sl, Cl, Cn>)
        ensures
            r@ == (AsyncSetup { policy, hooks, op, sleeper, clock, canceler, timeout }),
    {
        AsyncRetryExec { policy, hooks, op, sleeper, clock, canceler, timeout }
    }

    /// This loop with a budget of `dur` for the whole of it.
    ///
    /// The budget is looked at between attempts: a wait is cut down to what is
    /// left of it, and the loop ends as exhausted once it is spent. An operation
    /// or a wait under way is not interrupted.
    pub fn timeout(self, dur: Duration) -> (r: Self)
        ensures
            r@ == (AsyncSetup { timeout: Some(dur), ..self@ }),
    {
        AsyncRetryExec { timeout: Some(dur), ..self }
    }

    /// This loop with its totals handed back too.
    pub fn with_stats(self) -> (r: AsyncRetryExecWithStats<Policy, BA, AA, BS, OX, F, Sl, Cl, Cn>)
        ensures
            r.inner() == self,
    {
        AsyncRetryExecWithStats { inner: self }
    }

    /// This loop with `canceler` asked before each attempt, whenever a
    /// wait is polled, and after it.
    pub fn cancel_on<NewCn>(self, canceler: NewCn) -> (r: AsyncRetryExec<
        Policy,
        BA,
        AA,
        BS,
        OX,
        F,
        Sl,
        Cl,
        NewCn,
    >)
        ensures
            r@ == (AsyncSetup {
                policy: self@.policy,
                hooks: self@.hooks,
                op: self@.op,
                sleeper: self@.sleeper,
                clock: self@.clock,
                canceler,
                timeout: self@.timeout,
            }),
    {
        AsyncRetryExec {
            policy: self.policy,
            hooks: self.hooks,
            op: self.op,
            sleeper: self.sleeper,
            clock: self.clock,
            canceler,
            timeout: self.timeout,
        }
    }

    /// This loop with `hook` called before each attempt, after any such hook it has.
    pub fn before_attempt<Hook>(self, hook: Hook) -> (r: AsyncRetryExec<
        Policy,
        HookChain<BA, Hook>,
        AA,
        BS,
        OX,
        F,
        Sl,
        Cl,
        Cn,
    >) where Hook: FnMut(&RetryState)
        ensures
            r@.hooks.before_attempt.first() == self@.hooks.before_attempt,
            r@.hooks.before_attempt.second() == hook,
            r@ == (AsyncSetup {
                policy: self@.policy,
                hooks: ExecutionHooks {
                    before_attempt: r@.hooks.before_attempt,
                    after_attempt: self@.hooks.after_attempt,
                    before_sleep: self@.hooks.before_sleep,
                    on_exit: self@.hooks.on_exit,
                },
                op: self@.op,
                sleeper: self@.sleeper,
                clock: self@.clock,
                canceler: self@.canceler,
                timeout: self@.timeout,
            }),
    {
        let hooks = self.hooks.chain_before_attempt(hook);
        Self::with_hooks(
            self.policy,
            hooks,
            self.op,
            self.sleeper,
            self.clock,
            self.canceler,
            self.timeout,
        )
    }

    /// This loop with `hook` called after each attempt, once the wait that
    /// follows is known, after any such hook it has.
    pub fn after_attempt<T, E, Hook>(self, hook: Hook) -> (r: AsyncRetryExec<
        Policy,
        BA,
        HookChain<AA, Hook>,
        BS,
        OX,
        F,
        Sl,
        Cl,
        Cn,
    >) where
        F: AsyncRetryOp<Output = Result<T, E>>,
        Hook: for<'a> FnMut(&AttemptState<'a, T, E>),

        ensures
            r@.hooks.after_attempt.first() == self@.hooks.after_attempt,
            r@.hooks.after_attempt.second() == hook,
            r@ == (AsyncSetup {
                policy: self@.policy,
                hooks: ExecutionHooks {
                    before_attempt: self@.hooks.before_attempt,
                    after_attempt: r@.hooks.after_attempt,
                    before_sleep: self@.hooks.before_sleep,
                    on_exit: self@.hooks.on_exit,
                },
                op: self@.op,
                sleeper: self@.sleeper,
                clock: self@.clock,
                canceler: self@.canceler,
                timeout: self@.timeout,
            }),
    {
        let hooks = self.hooks.chain_after_attempt(hook);
        Self::with_hooks(
            self.policy,
            hooks,
            self.op,
            self.sleeper,
            self.clock,
            self.canceler,
            self.timeout,
        )
    }

    /// This loop with `hook` called before each wait, after any such hook it has.
    pub fn before_sleep<T, E, Hook>(self, hook: Hook) -> (r: AsyncRetryExec<
        Policy,
        BA,
        AA,
        HookChain<BS, Hook>,
        OX,
        F,
        Sl,
        Cl,
        Cn,
    >) where
        F: AsyncRetryOp<Output = Result<T, E>>,
        Hook: for<'a> FnMut(&AttemptState<'a, T, E>),

        ensures
            r@.hooks.before_sleep.first() == self@.hooks.before_sleep,
            r@.hooks.before_sleep.second() == hook,
            r@ == (AsyncSetup {
                policy: self@.policy,
                hooks: ExecutionHooks {
                    before_attempt: self@.hooks.before_attempt,
                    after_attempt: self@.hooks.after_attempt,
                    before_sleep: r@.hooks.before_sleep,
                    on_exit: self@.hooks.on_exit,
                },
                op: self@.op,
                sleeper: self@.sleeper,
                clock: self@.clock,
                canceler: self@.canceler,
                timeout: self@.timeout,
            }),
    {
        let hooks = self.hooks.chain_before_sleep(hook);
        Self::with_hooks(
            self.policy,
            hooks,
            self.op,
            self.sleeper,
            self.clock,
            self.canceler,
            self.timeout,
        )
    }

    /// This loop with `hook` called once, when the loop ends, after any such hook
    /// it has.
    pub fn on_exit<T, E, Hook>(self, hook: Hook) -> (r: AsyncRetryExec<
        Policy,
        BA,
        AA,
        BS,
        HookChain<OX, Hook>,
        F,
        Sl,
        Cl,
        Cn,
    >) where
        F: AsyncRetryOp<Output = Result<T, E>>,
        Hook: for<'a> FnMut(&ExitState<'a, T, E>),

        ensures
            r@.hooks.on_exit.first() == self@.hooks.on_exit,
            r@.hooks.on_exit.second() == hook,
            r@ == (AsyncSetup {
                policy: self@.policy,
                hooks: ExecutionHooks {
                    before_attempt: self@.hooks.before_attempt,
                    after_attempt: self@.hooks.after_attempt,
                    before_sleep: self@.hooks.before_sleep,
                    on_exit: r@.hooks.on_exit,
                },
                op: self@.op,
                sleeper: self@.sleeper,
                clock: self@.clock,
                canceler: self@.canceler,
                timeout: self@.timeout,
            }),
    {
        let hooks = self.hooks.chain_on_exit(hook);
        Self::with_hooks(
            self.policy,
            hooks,
            self.op,
            self.sleeper,
            self.clock,
            self.canceler,
            self.timeout,
        )
    }
}

impl<Policy, BA, AA, BS, OX, F, Sl, Cn> AsyncRetryExec<
    Policy,
    BA,
    AA,
    BS,
    OX,
    F,
    Sl,
    SystemClock,
    Cn,
> {
    /// This loop with `clock` for its readings.
    ///
    /// A clock that stands still keeps elapsed time at zero, so a loop that is to
    /// end must not rest on elapsed time alone then.
    pub fn elapsed_clock<NewClock>(self, clock: NewClock) -> (r: AsyncRetryExec<
        Policy,
        BA,
        AA,
        BS,
        OX,
        F,
        Sl,
        NewClock,
        Cn,
    >)
        ensures
            r@ == (AsyncSetup {
                policy: self@.policy,
                hooks: self@.hooks,
                op: self@.op,
                sleeper: self@.sleeper,
                clock,
                canceler: self@.canceler,
                timeout: self@.timeout,
            }),
    {
        AsyncRetryExec {
            policy: self.policy,
            hooks: self.hooks,
            op: self.op,
            sleeper: self.sleeper,
            clock,
            canceler: self.canceler,
            timeout: self.timeout,
        }
    }

    /// This loop with the closure `read` for its readings.
    pub fn elapsed_clock_fn<K>(self, read: K) -> (r: AsyncRetryExec<
        Policy,
        BA,
        AA,
        BS,
        OX,
        F,
        Sl,
        ClockFn<K>,
        Cn,
    >) where K: Fn() -> Duration
        requires
            call_requires(read, ()),
        ensures
            r@.clock.read() == read,
            r@ == (AsyncSetup {
                policy: self@.policy,
                hooks: self@.hooks,
                op: self@.op,
                sleeper: self@.sleeper,
                clock: r@.clock,
                canceler: self@.canceler,
                timeout: self@.timeout,
            }),
    {
        self.elapsed_clock(ClockFn::new(read))
    }
}

impl<Policy, BA, AA, BS, OX, F, Cl, Cn> AsyncRetryExec<
    Policy,
    BA,
    AA,
    BS,
    OX,
    F,
    NoAsyncSleep,
    Cl,
    Cn,
> {
    /// This loop with `sleeper` for its waits.
    pub fn sleep<NewSleep>(self, sleeper: NewSleep) -> (r: AsyncRetryExec<
        Policy,
        BA,
        AA,
        BS,
        OX,
        F,
        NewSleep,
        Cl,
        Cn,
    >)
        ensures
            r@ == (AsyncSetup {
                policy: self@.policy,
                hooks: self@.hooks,
                op: self@.op,
                sleeper,
                clock: self@.clock,
                canceler: self@.canceler,
                timeout: self@.timeout,
            }),
    {
        AsyncRetryExec {
            policy: self.policy,
            hooks: self.hooks,
            op: self.op,
            sleeper,
            clock: self.clock,
            canceler: self.canceler,
            timeout: self.timeout,
        }
    }
}

impl<S, W, P, BA, AA, BS, OX, F, Sl, Cl, Cn> AsyncRetryExec<
    PredicatePolicy<S, W, P>,
    BA,
    AA,
    BS,
    OX,
    F,
    Sl,
    Cl,
    Cn,
> {
    /// This loop with `stop` for its stop strategy.
    pub fn stop<NewStop>(self, stop: NewStop) -> (r: AsyncRetryBuilder<
        NewStop,
        W,
        P,
        BA,
        AA,
        BS,
        OX,
        F,
        Sl,
        Cl,
        Cn,
    >)
        ensures
            r@ == (AsyncSetup {
                policy: PredicatePolicy {
                    stop,
                    wait: self@.policy.wait,
                    predicate: self@.policy.predicate,
                },
                hooks: self@.hooks,
                op: self@.op,
                sleeper: self@.sleeper,
                clock: self@.clock,
                canceler: self@.canceler,
                timeout: self@.timeout,
            }),
    {
        AsyncRetryExec {
            policy: self.policy.stop(stop),
            hooks: self.hooks,
            op: self.op,
            sleeper: self.sleeper,
            clock: self.clock,
            canceler: self.canceler,
            timeout: self.timeout,
        }
    }

    /// This loop with `wait` for its wait strategy.
    pub fn wait<NewWait>(self, wait: NewWait) -> (r: AsyncRetryBuilder<
        S,
        NewWait,
        P,
        BA,
        AA,
        BS,
        OX,
        F,
        Sl,
        Cl,
        Cn,
    >)
        ensures
            r@ == (AsyncSetup {
                policy: PredicatePolicy {
                    stop: self@.policy.stop,
                    wait,
                    predicate: self@.policy.predicate,
                },
                hooks: self@.hooks,
                op: self@.op,
                sleeper: self@.sleeper,
                clock: self@.clock,
                canceler: self@.canceler,
                timeout: self@.timeout,
            }),
    {
        AsyncRetryExec {
            policy: self.policy.wait(wait),
            hooks: self.hooks,
            op: self.op,
            sleeper: self.sleeper,
            clock: self.clock,
            canceler: self.canceler,
            timeout: self.timeout,
        }
    }

    /// This loop with outcomes retried while `predicate` says so.
    pub fn when<NewPredicate>(self, predicate: NewPredicate) -> (r: AsyncRetryBuilder<
        S,
        W,
        NewPredicate,
        BA,
        AA,
        BS,
        OX,
        F,
        Sl,
        Cl,
        Cn,
    >)
        ensures
            r@ == (AsyncSetup {
                policy: PredicatePolicy {
                    stop: self@.policy.stop,
                    wait: self@.policy.wait,
                    predicate,
                },
                hooks: self@.hooks,
                op: self@.op,
                sleeper: self@.sleeper,
                clock: self@.clock,
                canceler: self@.canceler,
                timeout: self@.timeout,
            }),
    {
        AsyncRetryExec {
            policy: self.policy.when(predicate),
            hooks: self.hooks,
            op: self.op,
            sleeper: self.sleeper,
            clock: self.clock,
            canceler: self.canceler,
            timeout: self.timeout,
        }
    }

    /// This loop with outcomes retried until `predicate` is satisfied.
    pub fn until<NewPredicate>(self, predicate: NewPredicate) -> (r: AsyncRetryBuilder<
        S,
        W,
        PredicateUntil<NewPredicate>,
        BA,
        AA,
        BS,
        OX,
        F,
        Sl,
        Cl,
        Cn,
    >)
        ensures
            r@.policy.predicate.inner() == predicate,
            r@ == (AsyncSetup {
                policy: PredicatePolicy {
                    stop: self@.policy.stop,
                    wait: self@.policy.wait,
                    predicate: r@.policy.predicate,
                },
                hooks: self@.hooks,
                op: self@.op,
                sleeper: self@.sleeper,
                clock: self@.clock,
                canceler: self@.canceler,
                timeout: self@.timeout,
            }),
    {
        AsyncRetryExec {
            policy: self.policy.until(predicate),
            hooks: self.hooks,
            op: self.op,
            sleeper: self.sleeper,
            clock: self.clock,
            canceler: self.canceler,
            timeout: self.timeout,
        }
    }
}

/// A loop over futures, ready to be driven. Made by [`AsyncRetryExec::call`].
pub struct AsyncRetryCall<Policy, BA, AA, BS, OX, F, Sl, Cl, Cn, T, E> {
    /// The operation.
    pub op: F,
    /// What waits.
    pub sleeper: Sl,
    /// The clock.
    pub clock: Cl,
    /// The loop.
    pub engine: AsyncEngine<Policy, Cn, BA, AA, BS, OX, T, E>,
}

impl<Policy, BA, AA, BS, OX, F, Sl, Cl, Cn, T, E> AsyncRetryCall<
    Policy,
    BA,
    AA,
    BS,
    OX,
    F,
    Sl,
    Cl,
    Cn,
    T,
    E,
> {
    /// Whether this is the loop that `setup` calls for.
    pub open spec fn is_of(
        self,
        setup: AsyncSetup<Policy, BA, AA, BS, OX, F, Sl, Cl, Cn>,
        collect_stats: bool,
    ) -> bool {
        &&& self.op == setup.op
        &&& self.sleeper == setup.sleeper
        &&& self.clock == setup.clock
        &&& self.engine@.is_new(
            setup.policy,
            setup.canceler,
            setup.hooks,
            setup.timeout,
            collect_stats,
        )
    }
}

impl<Policy, BA, AA, BS, OX, F, Sl, Cl, Cn, T, E> AsyncRetryExec<
    Policy,
    BA,
    AA,
    BS,
    OX,
    F,
    Sl,
    Cl,
    Cn,
> where F: AsyncRetryOp<Output = Result<T, E>> {
    fn into_engine(self, collect_stats: bool) -> (r: AsyncRetryCall<
        Policy,
        BA,
        AA,
        BS,
        OX,
        F,
        Sl,
        Cl,
        Cn,
        T,
        E,
    >)
        ensures
            r.is_of(self@, collect_stats),
    {
        AsyncRetryCall {
            op: self.op,
            sleeper: self.sleeper,
            clock: self.clock,
            engine: AsyncEngine::new(
                self.policy,
                self.canceler,
                self.hooks,
                self.timeout,
                collect_stats,
            ),
        }
    }

    /// The loop, ready to be driven. Nothing happens until it is.
    pub fn call(self) -> (r: AsyncRetryCall<Policy, BA, AA, BS, OX, F, Sl, Cl, Cn, T, E>)
        ensures
            r.is_of(self@, false),
    {
        self.into_engine(false)
    }
}

/// An [`AsyncRetryExec`] whose loop hands its totals back too. Made by
/// [`AsyncRetryExec::with_stats`].
pub struct AsyncRetryExecWithStats<Policy, BA, AA, BS, OX, F, Sl, Cl, Cn = CancelNever> {
    inner: AsyncRetryExec<Policy, BA, AA, BS, OX, F, Sl, Cl, Cn>,
}

impl<Policy, BA, AA, BS, OX, F, Sl, Cl, Cn> AsyncRetryExecWithStats<
    Policy,
    BA,
    AA,
    BS,
    OX,
    F,
    Sl,
    Cl,
    Cn,
> {
    /// The loop in the making.
    pub closed spec fn inner(self) -> AsyncRetryExec<Policy, BA, AA, BS, OX, F, Sl, Cl, Cn> {
        self.inner
    }
}

impl<Policy, BA, AA, BS, OX, F, Sl, Cl, Cn, T, E> AsyncRetryExecWithStats<
    Policy,
    BA,
    AA,
    BS,
    OX,
    F,
    Sl,
    Cl,
    Cn,
> where F: AsyncRetryOp<Output = Result<T, E>> {
    /// The loop, ready to be driven. Nothing happens until it is.
    pub fn call(self) -> (r: AsyncRetryCall<Policy, BA, AA, BS, OX, F, Sl, Cl, Cn, T, E>)
        ensures
            r.is_of(self.inner()@, true),
    {
        self.inner.into_engine(true)
    }
}

impl<S, W, P> PredicatePolicy<S, W, P> {
    /// A loop over `op`, which gives futures, by this policy, which is borrowed.
    pub fn retry_async<T, E, F, Fut>(&self, op: F) -> (r: AsyncRetry<
        '_,
        S,
        W,
        P,
        (),
        (),
        (),
        (),
        F,
        NoAsyncSleep,
        SystemClock,
    >) where F: FnMut(RetryState) -> Fut, Fut: Future<Output = Result<T, E>>
        ensures
            r@ == (AsyncSetup {
                policy: self,
                hooks: ExecutionHooks {
                    before_attempt: (),
                    after_attempt: (),
                    before_sleep: (),
                    on_exit: (),
                },
                op,
                sleeper: NoAsyncSleep,
                clock: SystemClock,
                canceler: CancelNever,
                timeout: None,
            }),
    {
        AsyncRetryExec::from_policy(self, op)
    }
}

/// A driven loop goes by what it was told: its policy, timeout and canceler, over its
/// operation, clock, timer and hooks. Totals are handed back where they were asked for.
pub proof fn call_goes_by_the_setup<Policy, BA, AA, BS, OX, F, Sl, Cl, Cn, T, E>(
    made: AsyncRetryExec<Policy, BA, AA, BS, OX, F, Sl, Cl, Cn>,
    driven: AsyncRetryCall<Policy, BA, AA, BS, OX, F, Sl, Cl, Cn, T, E>,
    counted: AsyncRetryExecWithStats<Policy, BA, AA, BS, OX, F, Sl, Cl, Cn>,
    tallied: AsyncRetryCall<Policy, BA, AA, BS, OX, F, Sl, Cl, Cn, T, E>,
) where F: AsyncRetryOp<Output = Result<T, E>>
    requires
        call_ensures(AsyncRetryExec::<Policy, BA, AA, BS, OX, F, Sl, Cl, Cn>::call, (made,), driven),
        call_ensures(
            AsyncRetryExecWithStats::<Policy, BA, AA, BS, OX, F, Sl, Cl, Cn>::call,
            (counted,),
            tallied,
        ),
    ensures
        driven.op == made@.op,
        driven.sleeper == made@.sleeper,
        driven.clock == made@.clock,
        driven.engine@.policy == made@.policy,
        driven.engine@.canceler == made@.canceler,
        driven.engine@.hooks == made@.hooks,
        driven.engine@.timeout == made@.timeout,
        driven.engine@.attempt == 1,
        !driven.engine@.collect_stats,
        tallied.op == counted.inner()@.op,
        tallied.sleeper == counted.inner()@.sleeper,
        tallied.clock == counted.inner()@.clock,
        tallied.engine@.policy == counted.inner()@.policy,
        tallied.engine@.canceler == counted.inner()@.canceler,
        tallied.engine@.hooks == counted.inner()@.hooks,
        tallied.engine@.timeout == counted.inner()@.timeout,
        tallied.engine@.attempt == 1,
        tallied.engine@.collect_stats,
{
}

/// A hook is added after those there are, and nothing else about the loop changes.
pub proof fn hooks_are_added_alone<Policy, BA, AA, BS, OX, F, Sl, Cl, Cn, T, E, HB, HA, HX>(
    made: AsyncRetryExec<Policy, BA, AA, BS, OX, F, Sl, Cl, Cn>,
    before: HB,
    early: AsyncRetryExec<Policy, HookChain<BA, HB>, AA, BS, OX, F, Sl, Cl, Cn>,
    after: HA,
    late: AsyncRetryExec<Policy, BA, HookChain<AA, HA>, BS, OX, F, Sl, Cl, Cn>,
    asleep: AsyncRetryExec<Policy, BA, AA, HookChain<BS, HA>, OX, F, Sl, Cl, Cn>,
    exit: HX,
    last: AsyncRetryExec<Policy, BA, AA, BS, HookChain<OX, HX>, F, Sl, Cl, Cn>,
) where
    F: AsyncRetryOp<Output = Result<T, E>>,
    HB: FnMut(&RetryState),
    HA: for<'a> FnMut(&AttemptState<'a, T, E>),
    HX: for<'a> FnMut(&ExitState<'a, T, E>),

    requires
        call_ensures(AsyncRetryExec::<Policy, BA, AA, BS, OX, F, Sl, Cl, Cn>::before_attempt::<HB>, (made, before), early),
        call_ensures(AsyncRetryExec::<Policy, BA, AA, BS, OX, F, Sl, Cl, Cn>::after_attempt::<T, E, HA>, (made, after), late),
        call_ensures(AsyncRetryExec::<Policy, BA, AA, BS, OX, F, Sl, Cl, Cn>::before_sleep::<T, E, HA>, (made, after), asleep),
        call_ensures(AsyncRetryExec::<Policy, BA, AA, BS, OX, F, Sl, Cl, Cn>::on_exit::<T, E, HX>, (made, exit), last),
    ensures
        early@.policy == made@.policy && early@.op == made@.op && early@.clock == made@.clock && early@.canceler == made@.canceler && early@.timeout == made@.timeout && early@.sleeper == made@.sleeper,
        late@.policy == made@.policy && late@.op == made@.op && late@.clock == made@.clock && late@.canceler == made@.canceler && late@.timeout == made@.timeout && late@.sleeper == made@.sleeper,
        asleep@.policy == made@.policy && asleep@.op == made@.op && asleep@.clock == made@.clock && asleep@.canceler == made@.canceler && asleep@.timeout == made@.timeout && asleep@.sleeper == made@.sleeper,
        last@.policy == made@.policy && last@.op == made@.op && last@.clock == made@.clock && last@.canceler == made@.canceler && last@.timeout == made@.timeout && last@.sleeper == made@.sleeper,
        early@.hooks.before_attempt.first() == made@.hooks.before_attempt,
        early@.hooks.before_attempt.second() == before,
        early@.hooks.after_attempt == made@.hooks.after_attempt,
        early@.hooks.before_sleep == made@.hooks.before_sleep,
        early@.hooks.on_exit == made@.hooks.on_exit,
        late@.hooks.after_attempt.first() == made@.hooks.after_attempt,
        late@.hooks.after_attempt.second() == after,
        late@.hooks.before_attempt == made@.hooks.before_attempt,
        late@.hooks.before_sleep == made@.hooks.before_sleep,
        late@.hooks.on_exit == made@.hooks.on_exit,
        asleep@.hooks.before_sleep.first() == made@.hooks.before_sleep,
        asleep@.hooks.before_sleep.second() == after,
        asleep@.hooks.before_attempt == made@.hooks.before_attempt,
        asleep@.hooks.after_attempt == made@.hooks.after_attempt,
        asleep@.hooks.on_exit == made@.hooks.on_exit,
        last@.hooks.on_exit.first() == made@.hooks.on_exit,
        last@.hooks.on_exit.second() == exit,
        last@.hooks.before_attempt == made@.hooks.before_attempt,
        last@.hooks.after_attempt == made@.hooks.after_attempt,
        last@.hooks.before_sleep == made@.hooks.before_sleep,
{
}

/// What a driven loop goes by is chosen one by one: each choice takes the place of the one
/// before it and leaves the others as they were.
pub proof fn choices_are_made_one_by_one<
    S,
    W,
    P,
    BA,
    AA,
    BS,
    OX,
    F,
    Sl,
    Cl,
    Cn,
    S2,
    W2,
    P2,
    Cl2,
    Sl2,
    Cn2,
>(
    made: AsyncRetryBuilder<S, W, P, BA, AA, BS, OX, F, Sl, Cl, Cn>,
    stop: S2,
    stopping: AsyncRetryBuilder<S2, W, P, BA, AA, BS, OX, F, Sl, Cl, Cn>,
    wait: W2,
    waiting: AsyncRetryBuilder<S, W2, P, BA, AA, BS, OX, F, Sl, Cl, Cn>,
    predicate: P2,
    whenever: AsyncRetryBuilder<S, W, P2, BA, AA, BS, OX, F, Sl, Cl, Cn>,
    until: AsyncRetryBuilder<S, W, PredicateUntil<P2>, BA, AA, BS, OX, F, Sl, Cl, Cn>,
    dur: Duration,
    timed: AsyncRetryBuilder<S, W, P, BA, AA, BS, OX, F, Sl, Cl, Cn>,
    canceler: Cn2,
    cancelled: AsyncRetryBuilder<S, W, P, BA, AA, BS, OX, F, Sl, Cl, Cn2>,
    unclocked: AsyncRetryBuilder<S, W, P, BA, AA, BS, OX, F, Sl, SystemClock, Cn>,
    clock: Cl2,
    clocked: AsyncRetryBuilder<S, W, P, BA, AA, BS, OX, F, Sl, Cl2, Cn>,
    sleepless: AsyncRetryBuilder<S, W, P, BA, AA, BS, OX, F, NoAsyncSleep, Cl, Cn>,
    sleeper: Sl2,
    sleeping: AsyncRetryBuilder<S, W, P, BA, AA, BS, OX, F, Sl2, Cl, Cn>,
)
    requires
        call_ensures(AsyncRetryExec::<PredicatePolicy<S, W, P>, BA, AA, BS, OX, F, Sl, Cl, Cn>::stop::<S2>, (made, stop), stopping),
        call_ensures(AsyncRetryExec::<PredicatePolicy<S, W, P>, BA, AA, BS, OX, F, Sl, Cl, Cn>::wait::<W2>, (made, wait), waiting),
        call_ensures(AsyncRetryExec::<PredicatePolicy<S, W, P>, BA, AA, BS, OX, F, Sl, Cl, Cn>::when::<P2>, (made, predicate), whenever),
        call_ensures(AsyncRetryExec::<PredicatePolicy<S, W, P>, BA, AA, BS, OX, F, Sl, Cl, Cn>::until::<P2>, (made, predicate), until),
        call_ensures(AsyncRetryExec::<PredicatePolicy<S, W, P>, BA, AA, BS, OX, F, Sl, Cl, Cn>::timeout, (made, dur), timed),
        call_ensures(AsyncRetryExec::<PredicatePolicy<S, W, P>, BA, AA, BS, OX, F, Sl, Cl, Cn>::cancel_on::<Cn2>, (made, canceler), cancelled),
        call_ensures(AsyncRetryExec::<PredicatePolicy<S, W, P>, BA, AA, BS, OX, F, Sl, SystemClock, Cn>::elapsed_clock::<Cl2>, (unclocked, clock), clocked),
        call_ensures(AsyncRetryExec::<PredicatePolicy<S, W, P>, BA, AA, BS, OX, F, NoAsyncSleep, Cl, Cn>::sleep::<Sl2>, (sleepless, sleeper), sleeping),
    ensures
        stopping@.policy.stop == stop && stopping@.policy.wait == made@.policy.wait
            && stopping@.policy.predicate == made@.policy.predicate,
        waiting@.policy.wait == wait && waiting@.policy.stop == made@.policy.stop
            && waiting@.policy.predicate == made@.policy.predicate,
        whenever@.policy.predicate == predicate && whenever@.policy.stop == made@.policy.stop
            && whenever@.policy.wait == made@.policy.wait,
        until@.policy.predicate.inner() == predicate && until@.policy.stop == made@.policy.stop
            && until@.policy.wait == made@.policy.wait,
        timed@.timeout == Some(dur),
        cancelled@.canceler == canceler,
        clocked@.clock == clock,
        sleeping@.sleeper == sleeper,
        stopping@.canceler == made@.canceler && stopping@.clock == made@.clock && stopping@.hooks == made@.hooks && stopping@.op == made@.op && stopping@.sleeper == made@.sleeper && stopping@.timeout == made@.timeout,
        waiting@.canceler == made@.canceler && waiting@.clock == made@.clock && waiting@.hooks == made@.hooks && waiting@.op == made@.op && waiting@.sleeper == made@.sleeper && waiting@.timeout == made@.timeout,
        whenever@.canceler == made@.canceler && whenever@.clock == made@.clock && whenever@.hooks == made@.hooks && whenever@.op == made@.op && whenever@.sleeper == made@.sleeper && whenever@.timeout == made@.timeout,
        until@.canceler == made@.canceler && until@.clock == made@.clock && until@.hooks == made@.hooks && until@.op == made@.op && until@.sleeper == made@.sleeper && until@.timeout == made@.timeout,
        timed@.canceler == made@.canceler && timed@.clock == made@.clock && timed@.hooks == made@.hooks && timed@.op == made@.op && timed@.policy == made@.policy && timed@.sleeper == made@.sleeper,
        cancelled@.clock == made@.clock && cancelled@.hooks == made@.hooks && cancelled@.op == made@.op && cancelled@.policy == made@.policy && cancelled@.sleeper == made@.sleeper && cancelled@.timeout == made@.timeout,
        clocked@.canceler == unclocked@.canceler && clocked@.hooks == unclocked@.hooks && clocked@.op == unclocked@.op && clocked@.policy == unclocked@.policy && clocked@.sleeper == unclocked@.sleeper && clocked@.timeout == unclocked@.timeout,
        sleeping@.canceler == sleepless@.canceler && sleeping@.clock == sleepless@.clock && sleeping@.hooks == sleepless@.hooks && sleeping@.op == sleepless@.op && sleeping@.policy == sleepless@.policy && sleeping@.timeout == sleepless@.timeout,
{
}

} // verus!
