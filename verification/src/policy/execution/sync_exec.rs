//! Blocking loops in the making.

use super::hooks::{AttemptHook, BeforeAttemptHook, ExecutionHooks, ExitHook, HookChain};
use super::policy::{PolicyHandle, PredicatePolicy};
use super::state::{AttemptState, ExitState};
use super::sync_loop::{ends, execute_sync_loop, stats_come_when_wanted, LoopRules};
use crate::cancel::{CancelNever, Canceler};
use crate::clock::{SyncClock, SystemClock};
use crate::duration::Duration;
use crate::engine::op::RetryOp;
use crate::error::RetryError;
use crate::predicate::{Predicate, PredicateUntil};
use crate::state::RetryState;
use crate::stats::RetryStats;
use crate::stop::Stop;
use crate::wait::Wait;
use vstd::prelude::*;

verus! {

/// A blocking loop in the making, over a policy that is owned or borrowed.
///
/// Where the policy is owned, its strategies and its predicate can still be
/// replaced.
pub struct SyncRetryExec<Policy, BA, AA, BS, OX, F, Cl, Cn = CancelNever> {
    policy: Policy,
    hooks: ExecutionHooks<BA, AA, BS, OX>,
    op: F,
    clock: Cl,
    canceler: Cn,
    timeout: Option<Duration>,
}

/// A [`SyncRetryExec`] that borrows its policy. Made by
/// [`PredicatePolicy::retry`].
pub type SyncRetry<'policy, S, W, P, BA, AA, BS, OX, F, Cl, Cn = CancelNever> =
    SyncRetryExec<&'policy PredicatePolicy<S, W, P>, BA, AA, BS, OX, F, Cl, Cn>;

/// A [`SyncRetry`] whose call hands its totals back too.
pub type SyncRetryWithStats<'policy, S, W, P, BA, AA, BS, OX, F, Cl, Cn = CancelNever> =
    SyncRetryExecWithStats<&'policy PredicatePolicy<S, W, P>, BA, AA, BS, OX, F, Cl, Cn>;

/// A [`SyncRetryExec`] that owns its policy.
pub type SyncRetryBuilder<S, W, P, BA, AA, BS, OX, F, Cl, Cn = CancelNever> =
    SyncRetryExec<PredicatePolicy<S, W, P>, BA, AA, BS, OX, F, Cl, Cn>;

/// A [`SyncRetryBuilder`] whose call hands its totals back too.
pub type SyncRetryBuilderWithStats<S, W, P, BA, AA, BS, OX, F, Cl, Cn = CancelNever> =
    SyncRetryExecWithStats<PredicatePolicy<S, W, P>, BA, AA, BS, OX, F, Cl, Cn>;

/// What a loop in the making has been told.
pub struct Setup<Policy, BA, AA, BS, OX, F, Cl, Cn> {
    /// The policy, owned or borrowed.
    pub policy: Policy,
    /// The hooks.
    pub hooks: ExecutionHooks<BA, AA, BS, OX>,
    /// The operation.
    pub op: F,
    /// The clock.
    pub clock: Cl,
    /// The canceler.
    pub canceler: Cn,
    /// The timeout.
    pub timeout: Option<Duration>,
}

impl<Policy, BA, AA, BS, OX, F, Cl, Cn> View for SyncRetryExec<
    Policy,
    BA,
    AA,
    BS,
    OX,
    F,
    Cl,
    Cn,
> {
    type V = Setup<Policy, BA, AA, BS, OX, F, Cl, Cn>;

    closed spec fn view(&self) -> Setup<Policy, BA, AA, BS, OX, F, Cl, Cn> {
        Setup {
            policy: self.policy,
            hooks: self.hooks,
            op: self.op,
            clock: self.clock,
            canceler: self.canceler,
            timeout: self.timeout,
        }
    }
}

impl<Policy, F> SyncRetryExec<Policy, (), (), (), (), F, SystemClock> {
    /// A loop over `op` by `policy`, without hooks, timeout or canceler.
    pub fn from_policy(policy: Policy, op: F) -> (r: Self)
        ensures
            r@ == (Setup {
                policy,
                hooks: ExecutionHooks {
                    before_attempt: (),
                    after_attempt: (),
                    before_sleep: (),
                    on_exit: (),
                },
                op,
                clock: SystemClock,
                canceler: CancelNever,
                timeout: None,
            }),
    {
        SyncRetryExec {
            policy,
            hooks: ExecutionHooks::new(),
            op,
            clock: SystemClock,
            canceler: CancelNever,
            timeout: None,
        }
    }
}

impl<Policy, BA, AA, BS, OX, F, Cl, Cn> SyncRetryExec<Policy, BA, AA, BS, OX, F, Cl, Cn> {
    fn with_hooks<NewBA, NewAA, NewBS, NewOX>(
        policy: Policy,
        hooks: ExecutionHooks<NewBA, NewAA, NewBS, NewOX>,
        op: F,
        clock: Cl,
        canceler: Cn,
        timeout: Option<Duration>,
    ) -> (r: SyncRetryExec<Policy, NewBA, NewAA, NewBS, NewOX, F, Cl, Cn>)
        ensures
            r@ == (Setup { policy, hooks, op, clock, canceler, timeout }),
    {
        SyncRetryExec { policy, hooks, op, clock, canceler, timeout }
    }

    /// This loop with a budget of `dur` for the whole of it.
    ///
    /// The budget is looked at between attempts: a wait is cut down to what is
    /// left of it, and the loop ends as exhausted once it is spent. An operation
    /// or a wait under way is not interrupted.
    pub fn timeout(self, dur: Duration) -> (r: Self)
        ensures
            r@ == (Setup { timeout: Some(dur), ..self@ }),
    {
        SyncRetryExec { timeout: Some(dur), ..self }
    }

    /// This loop with its totals handed back too.
    pub fn with_stats(self) -> (r: SyncRetryExecWithStats<Policy, BA, AA, BS, OX, F, Cl, Cn>)
        ensures
            r.inner() == self,
    {
        SyncRetryExecWithStats { inner: self }
    }

    /// This loop with `canceler` asked before each attempt and after each wait.
    pub fn cancel_on<NewCn>(self, canceler: NewCn) -> (r: SyncRetryExec<
        Policy,
        BA,
        AA,
        BS,
        OX,
        F,
        Cl,
        NewCn,
    >)
        ensures
            r@ == (Setup {
                policy: self@.policy,
                hooks: self@.hooks,
                op: self@.op,
                clock: self@.clock,
                canceler,
                timeout: self@.timeout,
            }),
    {
        SyncRetryExec {
            policy: self.policy,
            hooks: self.hooks,
            op: self.op,
            clock: self.clock,
            canceler,
            timeout: self.timeout,
        }
    }

    /// This loop with `hook` called before each attempt, after any such hook it has.
    pub fn before_attempt<Hook>(self, hook: Hook) -> (r: SyncRetryExec<
        Policy,
        HookChain<BA, Hook>,
        AA,
        BS,
        OX,
        F,
        Cl,
        Cn,
    >) where Hook: FnMut(&RetryState)
        ensures
            r@.hooks.before_attempt.first() == self@.hooks.before_attempt,
            r@.hooks.before_attempt.second() == hook,
            r@ == (Setup {
                policy: self@.policy,
                hooks: ExecutionHooks {
                    before_attempt: r@.hooks.before_attempt,
                    after_attempt: self@.hooks.after_attempt,
                    before_sleep: self@.hooks.before_sleep,
                    on_exit: self@.hooks.on_exit,
                },
                op: self@.op,
                clock: self@.clock,
                canceler: self@.canceler,
                timeout: self@.timeout,
            }),
    {
        let hooks = self.hooks.chain_before_attempt(hook);
        Self::with_hooks(self.policy, hooks, self.op, self.clock, self.canceler, self.timeout)
    }

    /// This loop with `hook` called after each attempt, once the wait that
    /// follows is known, after any such hook it has.
    pub fn after_attempt<T, E, Hook>(self, hook: Hook) -> (r: SyncRetryExec<
        Policy,
        BA,
        HookChain<AA, Hook>,
        BS,
        OX,
        F,
        Cl,
        Cn,
    >) where
        F: RetryOp<Output = Result<T, E>>,
        Hook: for<'a> FnMut(&AttemptState<'a, T, E>),

        ensures
            r@.hooks.after_attempt.first() == self@.hooks.after_attempt,
            r@.hooks.after_attempt.second() == hook,
            r@ == (Setup {
                policy: self@.policy,
                hooks: ExecutionHooks {
                    before_attempt: self@.hooks.before_attempt,
                    after_attempt: r@.hooks.after_attempt,
                    before_sleep: self@.hooks.before_sleep,
                    on_exit: self@.hooks.on_exit,
                },
                op: self@.op,
                clock: self@.clock,
                canceler: self@.canceler,
                timeout: self@.timeout,
            }),
    {
        let hooks = self.hooks.chain_after_attempt(hook);
        Self::with_hooks(self.policy, hooks, self.op, self.clock, self.canceler, self.timeout)
    }

    /// This loop with `hook` called before each wait, after any such hook it has.
    pub fn before_sleep<T, E, Hook>(self, hook: Hook) -> (r: SyncRetryExec<
        Policy,
        BA,
        AA,
        HookChain<BS, Hook>,
        OX,
        F,
        Cl,
        Cn,
    >) where
        F: RetryOp<Output = Result<T, E>>,
        Hook: for<'a> FnMut(&AttemptState<'a, T, E>),

        ensures
            r@.hooks.before_sleep.first() == self@.hooks.before_sleep,
            r@.hooks.before_sleep.second() == hook,
            r@ == (Setup {
                policy: self@.policy,
                hooks: ExecutionHooks {
                    before_attempt: self@.hooks.before_attempt,
                    after_attempt: self@.hooks.after_attempt,
                    before_sleep: r@.hooks.before_sleep,
                    on_exit: self@.hooks.on_exit,
                },
                op: self@.op,
                clock: self@.clock,
                canceler: self@.canceler,
                timeout: self@.timeout,
            }),
    {
        let hooks = self.hooks.chain_before_sleep(hook);
        Self::with_hooks(self.policy, hooks, self.op, self.clock, self.canceler, self.timeout)
    }

    /// This loop with `hook` called once, when the loop ends, after any such hook
    /// it has.
    pub fn on_exit<T, E, Hook>(self, hook: Hook) -> (r: SyncRetryExec<
        Policy,
        BA,
        AA,
        BS,
        HookChain<OX, Hook>,
        F,
        Cl,
        Cn,
    >) where
        F: RetryOp<Output = Result<T, E>>,
        Hook: for<'a> FnMut(&ExitState<'a, T, E>),

        ensures
            r@.hooks.on_exit.first() == self@.hooks.on_exit,
            r@.hooks.on_exit.second() == hook,
            r@ == (Setup {
                policy: self@.policy,
                hooks: ExecutionHooks {
                    before_attempt: self@.hooks.before_attempt,
                    after_attempt: self@.hooks.after_attempt,
                    before_sleep: self@.hooks.before_sleep,
                    on_exit: r@.hooks.on_exit,
                },
                op: self@.op,
                clock: self@.clock,
                canceler: self@.canceler,
                timeout: self@.timeout,
            }),
    {
        let hooks = self.hooks.chain_on_exit(hook);
        Self::with_hooks(self.policy, hooks, self.op, self.clock, self.canceler, self.timeout)
    }
}

impl<Policy, BA, AA, BS, OX, F, Cn> SyncRetryExec<Policy, BA, AA, BS, OX, F, SystemClock, Cn> {
    /// This loop with `clock` for its readings and its waits, so that the two
    /// cannot disagree.
    pub fn clock<NewClock>(self, clock: NewClock) -> (r: SyncRetryExec<
        Policy,
        BA,
        AA,
        BS,
        OX,
        F,
        NewClock,
        Cn,
    >)
        ensures
            r@ == (Setup {
                policy: self@.policy,
                hooks: self@.hooks,
                op: self@.op,
                clock,
                canceler: self@.canceler,
                timeout: self@.timeout,
            }),
    {
        SyncRetryExec {
            policy: self.policy,
            hooks: self.hooks,
            op: self.op,
            clock,
            canceler: self.canceler,
            timeout: self.timeout,
        }
    }
}

impl<S, W, P, BA, AA, BS, OX, F, Cl, Cn> SyncRetryExec<
    PredicatePolicy<S, W, P>,
    BA,
    AA,
    BS,
    OX,
    F,
    Cl,
    Cn,
> {
    /// This loop with `stop` for its stop strategy.
    pub fn stop<NewStop>(self, stop: NewStop) -> (r: SyncRetryBuilder<
        NewStop,
        W,
        P,
        BA,
        AA,
        BS,
        OX,
        F,
        Cl,
        Cn,
    >)
        ensures
            r@ == (Setup {
                policy: PredicatePolicy {
                    stop,
                    wait: self@.policy.wait,
                    predicate: self@.policy.predicate,
                },
                hooks: self@.hooks,
                op: self@.op,
                clock: self@.clock,
                canceler: self@.canceler,
                timeout: self@.timeout,
            }),
    {
        SyncRetryExec {
            policy: self.policy.stop(stop),
            hooks: self.hooks,
            op: self.op,
            clock: self.clock,
            canceler: self.canceler,
            timeout: self.timeout,
        }
    }

    /// This loop with `wait` for its wait strategy.
    pub fn wait<NewWait>(self, wait: NewWait) -> (r: SyncRetryBuilder<
        S,
        NewWait,
        P,
        BA,
        AA,
        BS,
        OX,
        F,
        Cl,
        Cn,
    >)
        ensures
            r@ == (Setup {
                policy: PredicatePolicy {
                    stop: self@.policy.stop,
                    wait,
                    predicate: self@.policy.predicate,
                },
                hooks: self@.hooks,
                op: self@.op,
                clock: self@.clock,
                canceler: self@.canceler,
                timeout: self@.timeout,
            }),
    {
        SyncRetryExec {
            policy: self.policy.wait(wait),
            hooks: self.hooks,
            op: self.op,
            clock: self.clock,
            canceler: self.canceler,
            timeout: self.timeout,
        }
    }

    /// This loop with outcomes retried while `predicate` says so.
    pub fn when<NewPredicate>(self, predicate: NewPredicate) -> (r: SyncRetryBuilder<
        S,
        W,
        NewPredicate,
        BA,
        AA,
        BS,
        OX,
        F,
        Cl,
        Cn,
    >)
        ensures
            r@ == (Setup {
                policy: PredicatePolicy {
                    stop: self@.policy.stop,
                    wait: self@.policy.wait,
                    predicate,
                },
                hooks: self@.hooks,
                op: self@.op,
                clock: self@.clock,
                canceler: self@.canceler,
                timeout: self@.timeout,
            }),
    {
        SyncRetryExec {
            policy: self.policy.when(predicate),
            hooks: self.hooks,
            op: self.op,
            clock: self.clock,
            canceler: self.canceler,
            timeout: self.timeout,
        }
    }

    /// This loop with outcomes retried until `predicate` is satisfied.
    pub fn until<NewPredicate>(self, predicate: NewPredicate) -> (r: SyncRetryBuilder<
        S,
        W,
        PredicateUntil<NewPredicate>,
        BA,
        AA,
        BS,
        OX,
        F,
        Cl,
        Cn,
    >)
        ensures
            r@.policy.predicate.inner() == predicate,
            r@ == (Setup {
                policy: PredicatePolicy {
                    stop: self@.policy.stop,
                    wait: self@.policy.wait,
                    predicate: r@.policy.predicate,
                },
                hooks: self@.hooks,
                op: self@.op,
                clock: self@.clock,
                canceler: self@.canceler,
                timeout: self@.timeout,
            }),
    {
        SyncRetryExec {
            policy: self.policy.until(predicate),
            hooks: self.hooks,
            op: self.op,
            clock: self.clock,
            canceler: self.canceler,
            timeout: self.timeout,
        }
    }
}

impl<Policy, BA, AA, BS, OX, F, Cl, Cn> Setup<Policy, BA, AA, BS, OX, F, Cl, Cn> where
    Policy: PolicyHandle,
    Policy::Stop: Stop,
    Policy::Wait: Wait,
    Cn: Canceler,
    Cl: SyncClock,
    BA: BeforeAttemptHook,
 {
    /// What stays the same throughout the loop.
    pub open spec fn rules(
        self,
        collect_stats: bool,
    ) -> LoopRules<Policy::Stop, Policy::Wait, Policy::Predicate, Cn> {
        LoopRules {
            policy: self.policy.policy(),
            timeout: self.timeout,
            canceler: self.canceler,
            collect_stats,
        }
    }

    /// What the loop changes: the operation, the clock and the hooks.
    pub open spec fn parts(self) -> (F, Cl, ExecutionHooks<BA, AA, BS, OX>) {
        (self.op, self.clock, self.hooks)
    }

    /// Whether the operation, the predicate and the hooks may be called.
    pub open spec fn ready<T, E>(self) -> bool where
        F: RetryOp<Output = Result<T, E>>,
        Policy::Predicate: Predicate<T, E>,
        AA: AttemptHook<T, E>,
        BS: AttemptHook<T, E>,
        OX: ExitHook<T, E>,
     {
        &&& self.op.ready()
        &&& forall|outcome: Result<T, E>| self.policy.policy().predicate.askable(outcome)
        &&& self.hooks.armed()
    }

    /// Whether the loop may end with `given`.
    pub open spec fn may_end<T, E>(
        self,
        collect_stats: bool,
        given: (Result<T, RetryError<T, E>>, Option<RetryStats>),
    ) -> bool where
        F: RetryOp<Output = Result<T, E>>,
        Policy::Predicate: Predicate<T, E>,
        AA: AttemptHook<T, E>,
        BS: AttemptHook<T, E>,
        OX: ExitHook<T, E>,
     {
        exists|after: (F, Cl, ExecutionHooks<BA, AA, BS, OX>)| #[trigger]
            ends(self.rules(collect_stats), self.parts(), after, given)
    }
}

impl<Policy, BA, AA, BS, OX, F, Cl, Cn, T, E> SyncRetryExec<
    Policy,
    BA,
    AA,
    BS,
    OX,
    F,
    Cl,
    Cn,
> where
    Policy: PolicyHandle,
    Policy::Stop: Stop,
    Policy::Wait: Wait,
    Policy::Predicate: Predicate<T, E>,
    Cn: Canceler,
    Cl: SyncClock,
    BA: BeforeAttemptHook,
    AA: AttemptHook<T, E>,
    BS: AttemptHook<T, E>,
    OX: ExitHook<T, E>,
    F: RetryOp<Output = Result<T, E>>,
 {
    fn execute(self, collect_stats: bool) -> (r: (
        Result<T, RetryError<T, E>>,
        Option<RetryStats>,
    ))
        requires
            self@.ready(),
        ensures
            self@.may_end(collect_stats, r),
            exists|after: (F, Cl, ExecutionHooks<BA, AA, BS, OX>)| #[trigger]
                ends(self@.rules(collect_stats), self@.parts(), after, r) && has_resolved(after.0)
                    && has_resolved(after.1) && has_resolved(after.2),
    {
        let SyncRetryExec { policy, mut hooks, mut op, mut clock, canceler, timeout } = self;
        let given = execute_sync_loop(
            policy.policy_ref(),
            &mut hooks,
            &mut op,
            &mut clock,
            &canceler,
            timeout,
            collect_stats,
        );
        assert(ends(self@.rules(collect_stats), self@.parts(), (op, clock, hooks), given));
        given
    }

    /// Runs the loop.
    ///
    /// The caller gets the first value that the predicate accepts, the first error
    /// that it accepts as a rejection, the last outcome where the stop strategy or
    /// the timeout ends the loop before, or word that the loop was cancelled. Nothing
    /// is done to the operation, the clock and the hooks once the loop has ended.
    pub fn call(self) -> (r: Result<T, RetryError<T, E>>)
        requires
            self@.ready(),
        ensures
            self@.may_end(false, (r, None)),
            exists|after: (F, Cl, ExecutionHooks<BA, AA, BS, OX>)| #[trigger]
                ends(self@.rules(false), self@.parts(), after, (r, None)) && has_resolved(after.0)
                    && has_resolved(after.1) && has_resolved(after.2),
    {
        let given = self.execute(false);
        proof {
            stats_come_when_wanted(self@.rules(false), self@.parts(), given);
        }
        given.0
    }
}

/// A [`SyncRetryExec`] whose call hands its totals back too. Made by
/// [`SyncRetryExec::with_stats`].
pub struct SyncRetryExecWithStats<Policy, BA, AA, BS, OX, F, Cl, Cn = CancelNever> {
    inner: SyncRetryExec<Policy, BA, AA, BS, OX, F, Cl, Cn>,
}

impl<Policy, BA, AA, BS, OX, F, Cl, Cn> SyncRetryExecWithStats<
    Policy,
    BA,
    AA,
    BS,
    OX,
    F,
    Cl,
    Cn,
> {
    /// The loop.
    pub closed spec fn inner(self) -> SyncRetryExec<Policy, BA, AA, BS, OX, F, Cl, Cn> {
        self.inner
    }
}

impl<Policy, BA, AA, BS, OX, F, Cl, Cn, T, E> SyncRetryExecWithStats<
    Policy,
    BA,
    AA,
    BS,
    OX,
    F,
    Cl,
    Cn,
> where
    Policy: PolicyHandle,
    Policy::Stop: Stop,
    Policy::Wait: Wait,
    Policy::Predicate: Predicate<T, E>,
    Cn: Canceler,
    Cl: SyncClock,
    BA: BeforeAttemptHook,
    AA: AttemptHook<T, E>,
    BS: AttemptHook<T, E>,
    OX: ExitHook<T, E>,
    F: RetryOp<Output = Result<T, E>>,
 {
    /// Runs the loop and hands its totals back too.
    pub fn call(self) -> (r: (Result<T, RetryError<T, E>>, RetryStats))
        requires
            self.inner()@.ready(),
        ensures
            self.inner()@.may_end(true, (r.0, Some(r.1))),
            exists|after: (F, Cl, ExecutionHooks<BA, AA, BS, OX>)| #[trigger]
                ends(self.inner()@.rules(true), self.inner()@.parts(), after, (r.0, Some(r.1))) && has_resolved(after.0)
                    && has_resolved(after.1) && has_resolved(after.2),
    {
        let given = self.inner.execute(true);
        proof {
            stats_come_when_wanted(self.inner@.rules(true), self.inner@.parts(), given);
        }
        (given.0, given.1.unwrap())
    }
}

impl<S, W, P> PredicatePolicy<S, W, P> {
    /// A blocking loop over `op` by this policy, which is borrowed.
    pub fn retry<T, E, F>(&self, op: F) -> (r: SyncRetry<
        '_,
        S,
        W,
        P,
        (),
        (),
        (),
        (),
        F,
        SystemClock,
    >) where F: FnMut(RetryState) -> Result<T, E>
        ensures
            r@ == (Setup {
                policy: self,
                hooks: ExecutionHooks {
                    before_attempt: (),
                    after_attempt: (),
                    before_sleep: (),
                    on_exit: (),
                },
                op,
                clock: SystemClock,
                canceler: CancelNever,
                timeout: None,
            }),
    {
        SyncRetryExec::from_policy(self, op)
    }
}

/// A call goes by what the loop was told: its policy, timeout and canceler, over its
/// operation, clock and hooks. Totals are handed back where they were asked for.
pub proof fn call_goes_by_the_setup<Policy, BA, AA, BS, OX, F, Cl, Cn, T, E>(
    made: SyncRetryExec<Policy, BA, AA, BS, OX, F, Cl, Cn>,
    result: Result<T, RetryError<T, E>>,
    counted: SyncRetryExecWithStats<Policy, BA, AA, BS, OX, F, Cl, Cn>,
    both: (Result<T, RetryError<T, E>>, RetryStats),
) where
    Policy: PolicyHandle,
    Policy::Stop: Stop,
    Policy::Wait: Wait,
    Policy::Predicate: Predicate<T, E>,
    Cn: Canceler,
    Cl: SyncClock,
    BA: BeforeAttemptHook,
    AA: AttemptHook<T, E>,
    BS: AttemptHook<T, E>,
    OX: ExitHook<T, E>,
    F: RetryOp<Output = Result<T, E>>,

    requires
        call_ensures(SyncRetryExec::<Policy, BA, AA, BS, OX, F, Cl, Cn>::call, (made,), result),
        call_ensures(
            SyncRetryExecWithStats::<Policy, BA, AA, BS, OX, F, Cl, Cn>::call,
            (counted,),
            both,
        ),
    ensures
        exists|
            rules: LoopRules<Policy::Stop, Policy::Wait, Policy::Predicate, Cn>,
            after: (F, Cl, ExecutionHooks<BA, AA, BS, OX>),
        | #[trigger]
            ends(rules, (made@.op, made@.clock, made@.hooks), after, (result, None))
                && rules.policy == made@.policy.policy() && rules.timeout == made@.timeout
                && rules.canceler == made@.canceler && !rules.collect_stats,
        exists|
            rules: LoopRules<Policy::Stop, Policy::Wait, Policy::Predicate, Cn>,
            after: (F, Cl, ExecutionHooks<BA, AA, BS, OX>),
        | #[trigger]
            ends(
                rules,
                (counted.inner()@.op, counted.inner()@.clock, counted.inner()@.hooks),
                after,
                (both.0, Some(both.1)),
            ) && rules.policy == counted.inner()@.policy.policy() && rules.timeout
                == counted.inner()@.timeout && rules.canceler == counted.inner()@.canceler
                && rules.collect_stats,
{
    let after = choose|after: (F, Cl, ExecutionHooks<BA, AA, BS, OX>)| #[trigger]
        ends(made@.rules(false), made@.parts(), after, (result, None));
    assert(ends(made@.rules(false), (made@.op, made@.clock, made@.hooks), after, (result, None)));
    let inner = counted.inner();
    let then = choose|then: (F, Cl, ExecutionHooks<BA, AA, BS, OX>)| #[trigger]
        ends(inner@.rules(true), inner@.parts(), then, (both.0, Some(both.1)));
    assert(ends(
        inner@.rules(true),
        (inner@.op, inner@.clock, inner@.hooks),
        then,
        (both.0, Some(both.1)),
    ));
}

/// What a loop goes by is chosen one by one: each choice takes the place of the one before
/// it and leaves the others as they were.
pub proof fn choices_are_made_one_by_one<S, W, P, BA, AA, BS, OX, F, Cl, Cn, S2, W2, P2, Cl2, Cn2>(
    made: SyncRetryBuilder<S, W, P, BA, AA, BS, OX, F, Cl, Cn>,
    unclocked: SyncRetryBuilder<S, W, P, BA, AA, BS, OX, F, SystemClock, Cn>,
    stop: S2,
    stopping: SyncRetryBuilder<S2, W, P, BA, AA, BS, OX, F, Cl, Cn>,
    wait: W2,
    waiting: SyncRetryBuilder<S, W2, P, BA, AA, BS, OX, F, Cl, Cn>,
    predicate: P2,
    whenever: SyncRetryBuilder<S, W, P2, BA, AA, BS, OX, F, Cl, Cn>,
    until: SyncRetryBuilder<S, W, PredicateUntil<P2>, BA, AA, BS, OX, F, Cl, Cn>,
    dur: Duration,
    timed: SyncRetryBuilder<S, W, P, BA, AA, BS, OX, F, Cl, Cn>,
    canceler: Cn2,
    cancelled: SyncRetryBuilder<S, W, P, BA, AA, BS, OX, F, Cl, Cn2>,
    clock: Cl2,
    clocked: SyncRetryBuilder<S, W, P, BA, AA, BS, OX, F, Cl2, Cn>,
)
    requires
        call_ensures(
            SyncRetryExec::<PredicatePolicy<S, W, P>, BA, AA, BS, OX, F, Cl, Cn>::stop::<S2>,
            (made, stop),
            stopping,
        ),
        call_ensures(
            SyncRetryExec::<PredicatePolicy<S, W, P>, BA, AA, BS, OX, F, Cl, Cn>::wait::<W2>,
            (made, wait),
            waiting,
        ),
        call_ensures(
            SyncRetryExec::<PredicatePolicy<S, W, P>, BA, AA, BS, OX, F, Cl, Cn>::when::<P2>,
            (made, predicate),
            whenever,
        ),
        call_ensures(
            SyncRetryExec::<PredicatePolicy<S, W, P>, BA, AA, BS, OX, F, Cl, Cn>::until::<P2>,
            (made, predicate),
            until,
        ),
        call_ensures(
            SyncRetryExec::<PredicatePolicy<S, W, P>, BA, AA, BS, OX, F, Cl, Cn>::timeout,
            (made, dur),
            timed,
        ),
        call_ensures(
            SyncRetryExec::<PredicatePolicy<S, W, P>, BA, AA, BS, OX, F, Cl, Cn>::cancel_on::<Cn2>,
            (made, canceler),
            cancelled,
        ),
        call_ensures(
            SyncRetryExec::<
                PredicatePolicy<S, W, P>,
                BA,
                AA,
                BS,
                OX,
                F,
                SystemClock,
                Cn,
            >::clock::<Cl2>,
            (unclocked, clock),
            clocked,
        ),
    ensures
        stopping@.policy.stop == stop,
        stopping@.policy.wait == made@.policy.wait,
        stopping@.policy.predicate == made@.policy.predicate,
        waiting@.policy.wait == wait,
        waiting@.policy.stop == made@.policy.stop,
        waiting@.policy.predicate == made@.policy.predicate,
        whenever@.policy.predicate == predicate,
        whenever@.policy.stop == made@.policy.stop,
        whenever@.policy.wait == made@.policy.wait,
        until@.policy.predicate.inner() == predicate,
        until@.policy.stop == made@.policy.stop,
        until@.policy.wait == made@.policy.wait,
        timed@ == (Setup { timeout: Some(dur), ..made@ }),
        cancelled@.canceler == canceler,
        cancelled@.policy == made@.policy,
        clocked@.clock == clock,
        clocked@.policy == unclocked@.policy,
        stopping@.timeout == made@.timeout && stopping@.hooks == made@.hooks && stopping@.op
            == made@.op && stopping@.clock == made@.clock && stopping@.canceler == made@.canceler,
        waiting@.timeout == made@.timeout && waiting@.hooks == made@.hooks && waiting@.op
            == made@.op && waiting@.clock == made@.clock && waiting@.canceler == made@.canceler,
        whenever@.timeout == made@.timeout && whenever@.hooks == made@.hooks && whenever@.op
            == made@.op && whenever@.clock == made@.clock && whenever@.canceler == made@.canceler,
        until@.timeout == made@.timeout && until@.hooks == made@.hooks && until@.op == made@.op
            && until@.clock == made@.clock && until@.canceler == made@.canceler,
        cancelled@.timeout == made@.timeout && cancelled@.hooks == made@.hooks && cancelled@.op
            == made@.op && cancelled@.clock == made@.clock,
        clocked@.timeout == unclocked@.timeout && clocked@.hooks == unclocked@.hooks && clocked@.op
            == unclocked@.op && clocked@.canceler == unclocked@.canceler,
{
}

/// A hook is added after those there are, and nothing else about the loop changes.
pub proof fn hooks_are_added_alone<Policy, BA, AA, BS, OX, F, Cl, Cn, T, E, HB, HA, HX>(
    made: SyncRetryExec<Policy, BA, AA, BS, OX, F, Cl, Cn>,
    before: HB,
    early: SyncRetryExec<Policy, HookChain<BA, HB>, AA, BS, OX, F, Cl, Cn>,
    after: HA,
    late: SyncRetryExec<Policy, BA, HookChain<AA, HA>, BS, OX, F, Cl, Cn>,
    asleep: SyncRetryExec<Policy, BA, AA, HookChain<BS, HA>, OX, F, Cl, Cn>,
    exit: HX,
    last: SyncRetryExec<Policy, BA, AA, BS, HookChain<OX, HX>, F, Cl, Cn>,
) where
    F: RetryOp<Output = Result<T, E>>,
    HB: FnMut(&RetryState),
    HA: for<'a> FnMut(&AttemptState<'a, T, E>),
    HX: for<'a> FnMut(&ExitState<'a, T, E>),

    requires
        call_ensures(SyncRetryExec::<Policy, BA, AA, BS, OX, F, Cl, Cn>::before_attempt::<HB>, (made, before), early),
        call_ensures(SyncRetryExec::<Policy, BA, AA, BS, OX, F, Cl, Cn>::after_attempt::<T, E, HA>, (made, after), late),
        call_ensures(SyncRetryExec::<Policy, BA, AA, BS, OX, F, Cl, Cn>::before_sleep::<T, E, HA>, (made, after), asleep),
        call_ensures(SyncRetryExec::<Policy, BA, AA, BS, OX, F, Cl, Cn>::on_exit::<T, E, HX>, (made, exit), last),
    ensures
        early@.policy == made@.policy && early@.op == made@.op && early@.clock == made@.clock && early@.canceler == made@.canceler && early@.timeout == made@.timeout,
        late@.policy == made@.policy && late@.op == made@.op && late@.clock == made@.clock && late@.canceler == made@.canceler && late@.timeout == made@.timeout,
        asleep@.policy == made@.policy && asleep@.op == made@.op && asleep@.clock == made@.clock && asleep@.canceler == made@.canceler && asleep@.timeout == made@.timeout,
        last@.policy == made@.policy && last@.op == made@.op && last@.clock == made@.clock && last@.canceler == made@.canceler && last@.timeout == made@.timeout,
        early@.hooks.before_attempt.first() == made@.hooks.before_attempt,
        early@.hooks.before_attempt.second() == before,
        early@.hooks.after_attempt == made@.hooks.after_attempt,
        early@.hooks.before_sleep == made@.hooks.before_sleep,
        early@.hooks.on_exit == made@.hooks.on_exit,
        late@.hooks.after_attempt.first() == made@.hooks.after_attempt,
        late@.hooks.after_attempt.second() == after,
        late@.hooks.before_attempt == made@.hooks.before_attempt,
        late@.hooks.before_sleep == made@.hooks.before_sleep,
        late@.hooks.on_exit == made@.hooks.on_exit,
        asleep@.hooks.before_sleep.first() == made@.hooks.before_sleep,
        asleep@.hooks.before_sleep.second() == after,
        asleep@.hooks.before_attempt == made@.hooks.before_attempt,
        asleep@.hooks.after_attempt == made@.hooks.after_attempt,
        asleep@.hooks.on_exit == made@.hooks.on_exit,
        last@.hooks.on_exit.first() == made@.hooks.on_exit,
        last@.hooks.on_exit.second() == exit,
        last@.hooks.before_attempt == made@.hooks.before_attempt,
        last@.hooks.after_attempt == made@.hooks.after_attempt,
        last@.hooks.before_sleep == made@.hooks.before_sleep,
{
}

/// A loop from a policy goes by it, over the operation it is given, with no hooks, no
/// timeout, and no canceler but the one that never cancels.
pub proof fn loop_goes_by_its_policy<S, W, P, F, T, E>(
    policy: &PredicatePolicy<S, W, P>,
    op: F,
    made: SyncRetry<'_, S, W, P, (), (), (), (), F, SystemClock>,
) where F: FnMut(RetryState) -> Result<T, E>
    requires
        call_ensures(PredicatePolicy::<S, W, P>::retry::<T, E, F>, (policy, op), made),
    ensures
        *made@.policy == *policy,
        made@.op == op,
        made@.timeout is None,
        made@.canceler == CancelNever,
{
}

} // verus!
