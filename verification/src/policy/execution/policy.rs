//! Rules of a loop that goes by a predicate.

use crate::duration::{Duration, NANOS_PER_MILLI};
use crate::engine::{DEFAULT_INITIAL_WAIT_MILLIS, DEFAULT_MAX_ATTEMPTS};
use crate::predicate::{self, PredicateAnyError, PredicateUntil};
use crate::stop::{self, StopAfterAttempts};
use crate::wait::{self, WaitExponential};
use vstd::prelude::*;

verus! {

/// A stop strategy, a wait strategy and a predicate.
#[derive(Clone, Copy, Debug)]
pub struct PredicatePolicy<S = StopAfterAttempts, W = WaitExponential, P = PredicateAnyError> {
    /// When to give up.
    pub stop: S,
    /// How long to wait.
    pub wait: W,
    /// Which outcomes to retry.
    pub predicate: P,
}

impl PredicatePolicy<StopAfterAttempts, WaitExponential, PredicateAnyError> {
    /// Whether this policy makes three attempts, waits 100 ms doubling each time,
    /// and retries every error.
    pub open spec fn is_default(self) -> bool {
        &&& self.stop.max() == DEFAULT_MAX_ATTEMPTS
        &&& self.wait.initial()@ == DEFAULT_INITIAL_WAIT_MILLIS * NANOS_PER_MILLI
        &&& self.wait.factor() == 2
        &&& self.predicate == PredicateAnyError
    }

    /// Three attempts, waits of 100 ms doubling each time, every error retried.
    pub fn new() -> (r: Self)
        ensures
            r.is_default(),
    {
        PredicatePolicy {
            stop: stop::attempts(DEFAULT_MAX_ATTEMPTS),
            wait: wait::exponential(Duration::from_millis(DEFAULT_INITIAL_WAIT_MILLIS)),
            predicate: predicate::any_error(),
        }
    }
}

impl Default for PredicatePolicy<StopAfterAttempts, WaitExponential, PredicateAnyError> {
    fn default() -> (r: Self)
        ensures
            r.is_default(),
    {
        Self::new()
    }
}

impl<S, W, P> PredicatePolicy<S, W, P> {
    /// This policy with `stop` for its stop strategy.
    pub fn stop<NewStop>(self, stop: NewStop) -> (r: PredicatePolicy<NewStop, W, P>)
        ensures
            r == (PredicatePolicy { stop, wait: self.wait, predicate: self.predicate }),
    {
        PredicatePolicy { stop, wait: self.wait, predicate: self.predicate }
    }

    /// This policy with `wait` for its wait strategy.
    pub fn wait<NewWait>(self, wait: NewWait) -> (r: PredicatePolicy<S, NewWait, P>)
        ensures
            r == (PredicatePolicy { stop: self.stop, wait, predicate: self.predicate }),
    {
        PredicatePolicy { stop: self.stop, wait, predicate: self.predicate }
    }

    /// This policy with outcomes retried while `predicate` says so.
    pub fn when<NewPredicate>(
        self,
        predicate: NewPredicate,
    ) -> (r: PredicatePolicy<S, W, NewPredicate>)
        ensures
            r == (PredicatePolicy { stop: self.stop, wait: self.wait, predicate }),
    {
        PredicatePolicy { stop: self.stop, wait: self.wait, predicate }
    }

    /// This policy with outcomes retried until `predicate` is satisfied.
    pub fn until<NewPredicate>(
        self,
        predicate: NewPredicate,
    ) -> (r: PredicatePolicy<S, W, PredicateUntil<NewPredicate>>)
        ensures
            r.stop == self.stop,
            r.wait == self.wait,
            r.predicate.inner() == predicate,
    {
        PredicatePolicy {
            stop: self.stop,
            wait: self.wait,
            predicate: predicate::until(predicate),
        }
    }
}

/// A policy that is owned or borrowed.
pub trait PolicyHandle {
    /// When to give up.
    type Stop;

    /// How long to wait.
    type Wait;

    /// Which outcomes to retry.
    type Predicate;

    /// The policy.
    spec fn policy(&self) -> PredicatePolicy<Self::Stop, Self::Wait, Self::Predicate>;

    /// The policy.
    fn policy_ref(&self) -> (r: &PredicatePolicy<Self::Stop, Self::Wait, Self::Predicate>)
        ensures
            *r == self.policy(),
    ;
}

impl<S, W, P> PolicyHandle for PredicatePolicy<S, W, P> {
    type Stop = S;

    type Wait = W;

    type Predicate = P;

    open spec fn policy(&self) -> PredicatePolicy<S, W, P> {
        *self
    }

    fn policy_ref(&self) -> &PredicatePolicy<S, W, P> {
        self
    }
}

impl<S, W, P> PolicyHandle for &PredicatePolicy<S, W, P> {
    type Stop = S;

    type Wait = W;

    type Predicate = P;

    open spec fn policy(&self) -> PredicatePolicy<S, W, P> {
        **self
    }

    fn policy_ref(&self) -> &PredicatePolicy<S, W, P> {
        *self
    }
}

/// A policy that was told nothing makes three attempts, waits 100 ms and then twice as
/// long each time, and retries every error and no value.
pub proof fn default_policy_makes_three_attempts<T, E>(
    policy: PredicatePolicy<StopAfterAttempts, WaitExponential, PredicateAnyError>,
    state: crate::state::RetryState,
    outcome: Result<T, E>,
)
    requires
        call_ensures(PredicatePolicy::new, (), policy),
    ensures
        crate::stop::Stop::may_stop(&policy.stop, state, true) <==> state.attempt >= 3,
        policy.wait.initial()@ == 100_000_000,
        policy.wait.factor() == 2,
        crate::predicate::Predicate::may_answer(&policy.predicate, outcome, true) <==> outcome
            is Err,
{
}

/// The rules of a policy are chosen one by one: each choice takes the place of the one
/// before it and leaves the others as they were.
pub proof fn rules_are_chosen_one_by_one<S, W, P, S2, W2, P2>(
    policy: PredicatePolicy<S, W, P>,
    stop: S2,
    stopping: PredicatePolicy<S2, W, P>,
    wait: W2,
    waiting: PredicatePolicy<S, W2, P>,
    predicate: P2,
    whenever: PredicatePolicy<S, W, P2>,
    until: PredicatePolicy<S, W, PredicateUntil<P2>>,
)
    requires
        call_ensures(PredicatePolicy::<S, W, P>::stop::<S2>, (policy, stop), stopping),
        call_ensures(PredicatePolicy::<S, W, P>::wait::<W2>, (policy, wait), waiting),
        call_ensures(PredicatePolicy::<S, W, P>::when::<P2>, (policy, predicate), whenever),
        call_ensures(PredicatePolicy::<S, W, P>::until::<P2>, (policy, predicate), until),
    ensures
        stopping.stop == stop && stopping.wait == policy.wait && stopping.predicate
            == policy.predicate,
        waiting.wait == wait && waiting.stop == policy.stop && waiting.predicate
            == policy.predicate,
        whenever.predicate == predicate && whenever.stop == policy.stop && whenever.wait
            == policy.wait,
        until.predicate.inner() == predicate && until.stop == policy.stop && until.wait
            == policy.wait,
{
}

/// A policy serves alike where it is owned and where it is borrowed.
pub proof fn handles_lead_to_the_policy<S, W, P>(policy: PredicatePolicy<S, W, P>)
    ensures
        PolicyHandle::policy(&policy) == policy,
        PolicyHandle::policy(&&policy) == policy,
{
}

} // verus!
