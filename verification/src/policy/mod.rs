//! Rules for retrying, chosen once and used for many operations.

use crate::clock::SystemClock;
use crate::decision::{ClosureClassifier, DefaultClassifier, Until, When};
use crate::duration::Duration;
use crate::engine::async_engine::AsyncRetry;
use crate::engine::hooks::ExecutionHooks;
use crate::engine::run::Rules;
use crate::engine::{default_rules, Retry, SharesRules, DEFAULT_INITIAL_WAIT_MILLIS, DEFAULT_MAX_ATTEMPTS};
use crate::state::RetryState;
use crate::stop::{self, Stop, StopAfterAttempts};
use crate::wait::{self, Wait, WaitExponential};
use core::future::Future;
use vstd::prelude::*;

pub mod execution;
pub mod ext;
pub mod time;

verus! {

/// A stop strategy, a wait strategy, a classifier and a timeout.
///
/// [`retry`](RetryPolicy::retry) and [`retry_async`](RetryPolicy::retry_async)
/// borrow the policy, so it can be used again and again. Clock, hooks and totals
/// are chosen for each call.
#[derive(Clone, Copy, Debug)]
pub struct RetryPolicy<S = StopAfterAttempts, W = WaitExponential, C = DefaultClassifier> {
    stop: S,
    wait: W,
    classifier: C,
    timeout: Option<Duration>,
}

impl RetryPolicy<StopAfterAttempts, WaitExponential, DefaultClassifier> {
    /// Three attempts, waits of 100 ms doubling each time, no timeout, and
    /// outcomes that classify themselves.
    pub fn new() -> (r: Self)
        ensures
            default_rules(r.rules()),
    {
        RetryPolicy {
            stop: stop::attempts(DEFAULT_MAX_ATTEMPTS),
            wait: wait::exponential(Duration::from_millis(DEFAULT_INITIAL_WAIT_MILLIS)),
            classifier: DefaultClassifier,
            timeout: None,
        }
    }
}

impl Default for RetryPolicy<StopAfterAttempts, WaitExponential, DefaultClassifier> {
    fn default() -> (r: Self)
        ensures
            default_rules(r.rules()),
    {
        Self::new()
    }
}

impl<S, W, C> RetryPolicy<S, W, C> {
    /// The rules.
    pub closed spec fn rules(self) -> Rules<C, S, W> {
        Rules {
            classifier: self.classifier,
            stop: self.stop,
            wait: self.wait,
            timeout: self.timeout,
        }
    }

    /// This policy with `stop` for its stop strategy.
    pub fn stop<NewStop>(self, stop: NewStop) -> (r: RetryPolicy<NewStop, W, C>)
        ensures
            r.rules() == (Rules {
                classifier: self.rules().classifier,
                stop,
                wait: self.rules().wait,
                timeout: self.rules().timeout,
            }),
    {
        RetryPolicy {
            stop,
            wait: self.wait,
            classifier: self.classifier,
            timeout: self.timeout,
        }
    }

    /// This policy with `wait` for its wait strategy.
    pub fn wait<NewWait>(self, wait: NewWait) -> (r: RetryPolicy<S, NewWait, C>)
        ensures
            r.rules() == (Rules {
                classifier: self.rules().classifier,
                stop: self.rules().stop,
                wait,
                timeout: self.rules().timeout,
            }),
    {
        RetryPolicy {
            stop: self.stop,
            wait,
            classifier: self.classifier,
            timeout: self.timeout,
        }
    }

    /// This policy with a budget of `dur` for each loop. A loop that is given a
    /// timeout of its own goes by that one instead.
    pub fn timeout(self, dur: Duration) -> (r: Self)
        ensures
            r.rules() == (Rules { timeout: Some(dur), ..self.rules() }),
    {
        RetryPolicy { timeout: Some(dur), ..self }
    }

    /// This policy with outcomes retried while `predicate` says so, and otherwise
    /// settled: a value is returned, an error aborts.
    pub fn when<P>(self, predicate: P) -> (r: RetryPolicy<S, W, When<P>>)
        ensures
            r.rules().classifier.predicate() == predicate,
            r.rules().stop == self.rules().stop,
            r.rules().wait == self.rules().wait,
            r.rules().timeout == self.rules().timeout,
    {
        RetryPolicy {
            stop: self.stop,
            wait: self.wait,
            classifier: When::new(predicate),
            timeout: self.timeout,
        }
    }

    /// This policy with outcomes retried until `predicate` is satisfied, and then
    /// settled: a value is returned, an error aborts.
    pub fn until<P>(self, predicate: P) -> (r: RetryPolicy<S, W, Until<P>>)
        ensures
            r.rules().classifier.predicate() == predicate,
            r.rules().stop == self.rules().stop,
            r.rules().wait == self.rules().wait,
            r.rules().timeout == self.rules().timeout,
    {
        RetryPolicy {
            stop: self.stop,
            wait: self.wait,
            classifier: Until::new(predicate),
            timeout: self.timeout,
        }
    }

    /// This policy with `classifier` for its classifier.
    pub fn decide<NewC>(self, classifier: NewC) -> (r: RetryPolicy<S, W, ClosureClassifier<NewC>>)
        ensures
            r.rules() == (Rules {
                classifier: ClosureClassifier(classifier),
                stop: self.rules().stop,
                wait: self.rules().wait,
                timeout: self.rules().timeout,
            }),
    {
        RetryPolicy {
            stop: self.stop,
            wait: self.wait,
            classifier: ClosureClassifier(classifier),
            timeout: self.timeout,
        }
    }

    /// This policy with its strategies replaced by what `stop` and `wait` make of
    /// them.
    pub fn map_strategies<NewStop, NewWait>(
        self,
        stop: impl FnOnce(S) -> NewStop,
        wait: impl FnOnce(W) -> NewWait,
    ) -> (r: RetryPolicy<NewStop, NewWait, C>)
        requires
            call_requires(stop, (self.rules().stop,)),
            call_requires(wait, (self.rules().wait,)),
        ensures
            call_ensures(stop, (self.rules().stop,), r.rules().stop),
            call_ensures(wait, (self.rules().wait,), r.rules().wait),
            r.rules().classifier == self.rules().classifier,
            r.rules().timeout == self.rules().timeout,
    {
        RetryPolicy {
            stop: stop(self.stop),
            wait: wait(self.wait),
            classifier: self.classifier,
            timeout: self.timeout,
        }
    }

    /// This policy with the types of its strategies erased, so that it fits in a
    /// field. The classifier keeps its type, so the default one still serves
    /// operations of every outcome.
    pub fn boxed_local(
        self,
    ) -> (r: RetryPolicy<Box<dyn Stop + 'static>, Box<dyn Wait + 'static>, C>) where
        S: Stop + 'static,
        W: Wait + 'static,

        ensures
            r.rules().classifier == self.rules().classifier,
            r.rules().timeout == self.rules().timeout,
            ({
                let boxed: Box<dyn Stop + 'static> = Box::new(self.rules().stop);
                r.rules().stop == boxed
            }),
            ({
                let boxed: Box<dyn Wait + 'static> = Box::new(self.rules().wait);
                r.rules().wait == boxed
            }),
    {
        RetryPolicy {
            stop: Box::new(self.stop),
            wait: Box::new(self.wait),
            classifier: self.classifier,
            timeout: self.timeout,
        }
    }

    /// Starts a loop over `op` by the rules of this policy. They stay as they are:
    /// the loop can be given a clock, hooks and a timeout, and no other rules.
    pub fn retry<F, O>(&self, op: F) -> (r: Retry<F, &C, &S, &W, SystemClock, (), (), (), SharesRules>) where
        F: FnMut(RetryState) -> O,

        ensures
            r.rules() == (Rules {
                classifier: &self.rules().classifier,
                stop: &self.rules().stop,
                wait: &self.rules().wait,
                timeout: self.rules().timeout,
            }),
            r.parts() == (
                op,
                SystemClock,
                (ExecutionHooks { before_attempt: (), after_attempt: (), on_exit: () }),
            ),
    {
        Retry::from_parts(op, &self.classifier, &self.stop, &self.wait, self.timeout)
    }

    /// Starts a loop over `op`, which gives futures, by the rules of this policy,
    /// which stay as they are.
    pub fn retry_async<F, Fut, O>(
        &self,
        op: F,
    ) -> (r: AsyncRetry<F, &C, &S, &W, SystemClock, (), (), (), SharesRules>) where
        F: FnMut(RetryState) -> Fut,
        Fut: Future<Output = O>,

        ensures
            r.rules() == (Rules {
                classifier: &self.rules().classifier,
                stop: &self.rules().stop,
                wait: &self.rules().wait,
                timeout: self.rules().timeout,
            }),
            r.parts() == (
                op,
                SystemClock,
                (ExecutionHooks { before_attempt: (), after_attempt: (), on_exit: () }),
            ),
    {
        AsyncRetry::from_parts(op, &self.classifier, &self.stop, &self.wait, self.timeout)
    }
}

/// A policy that was told nothing makes three attempts, waits 100 ms and then twice as
/// long each time, and has no timeout.
pub proof fn default_policy_makes_three_attempts(
    policy: RetryPolicy<StopAfterAttempts, WaitExponential, DefaultClassifier>,
    state: RetryState,
)
    requires
        call_ensures(RetryPolicy::new, (), policy),
    ensures
        policy.rules().stop.may_stop(state, true) <==> state.attempt >= 3,
        policy.rules().wait.initial()@ == 100_000_000,
        policy.rules().wait.factor() == 2,
        policy.rules().timeout is None,
{
}

/// The rules of a policy are chosen one by one: each choice takes the place of the one
/// before it and leaves the others as they were.
pub proof fn rules_are_chosen_one_by_one<S, W, C, S2, W2, D, P>(
    policy: RetryPolicy<S, W, C>,
    stop: S2,
    stopping: RetryPolicy<S2, W, C>,
    wait: W2,
    waiting: RetryPolicy<S, W2, C>,
    dur: Duration,
    timed: RetryPolicy<S, W, C>,
    decider: D,
    deciding: RetryPolicy<S, W, ClosureClassifier<D>>,
    predicate: P,
    whenever: RetryPolicy<S, W, When<P>>,
    until: RetryPolicy<S, W, Until<P>>,
)
    requires
        call_ensures(RetryPolicy::<S, W, C>::stop::<S2>, (policy, stop), stopping),
        call_ensures(RetryPolicy::<S, W, C>::wait::<W2>, (policy, wait), waiting),
        call_ensures(RetryPolicy::<S, W, C>::timeout, (policy, dur), timed),
        call_ensures(RetryPolicy::<S, W, C>::decide::<D>, (policy, decider), deciding),
        call_ensures(RetryPolicy::<S, W, C>::when::<P>, (policy, predicate), whenever),
        call_ensures(RetryPolicy::<S, W, C>::until::<P>, (policy, predicate), until),
    ensures
        stopping.rules().stop == stop,
        stopping.rules().wait == policy.rules().wait,
        stopping.rules().classifier == policy.rules().classifier,
        stopping.rules().timeout == policy.rules().timeout,
        waiting.rules().wait == wait,
        waiting.rules().stop == policy.rules().stop,
        waiting.rules().classifier == policy.rules().classifier,
        waiting.rules().timeout == policy.rules().timeout,
        timed.rules().timeout == Some(dur),
        timed.rules().stop == policy.rules().stop,
        timed.rules().wait == policy.rules().wait,
        timed.rules().classifier == policy.rules().classifier,
        deciding.rules().classifier.0 == decider,
        deciding.rules().stop == policy.rules().stop,
        deciding.rules().wait == policy.rules().wait,
        deciding.rules().timeout == policy.rules().timeout,
        whenever.rules().classifier.predicate() == predicate,
        whenever.rules().stop == policy.rules().stop,
        whenever.rules().wait == policy.rules().wait,
        whenever.rules().timeout == policy.rules().timeout,
        until.rules().classifier.predicate() == predicate,
        until.rules().stop == policy.rules().stop,
        until.rules().wait == policy.rules().wait,
        until.rules().timeout == policy.rules().timeout,
{
}

/// A loop from a policy goes by the rules of the policy, over the operation it is given.
pub proof fn loop_goes_by_its_policy<S, W, C, F, O>(
    policy: RetryPolicy<S, W, C>,
    op: F,
    made: Retry<F, &C, &S, &W, SystemClock, (), (), (), SharesRules>,
) where F: FnMut(RetryState) -> O
    requires
        call_ensures(RetryPolicy::<S, W, C>::retry::<F, O>, (&policy, op), made),
    ensures
        *made.rules().classifier == policy.rules().classifier,
        *made.rules().stop == policy.rules().stop,
        *made.rules().wait == policy.rules().wait,
        made.rules().timeout == policy.rules().timeout,
        made.parts().0 == op,
{
}

/// A driven loop from a policy goes by the rules of the policy, over the operation it is
/// given.
pub proof fn driven_loop_goes_by_its_policy<S, W, C, F, Fut, O>(
    policy: RetryPolicy<S, W, C>,
    op: F,
    made: AsyncRetry<F, &C, &S, &W, SystemClock, (), (), (), SharesRules>,
) where F: FnMut(RetryState) -> Fut, Fut: Future<Output = O>
    requires
        call_ensures(RetryPolicy::<S, W, C>::retry_async::<F, Fut, O>, (&policy, op), made),
    ensures
        *made.rules().classifier == policy.rules().classifier,
        *made.rules().stop == policy.rules().stop,
        *made.rules().wait == policy.rules().wait,
        made.rules().timeout == policy.rules().timeout,
        made.parts().0 == op,
{
}

/// A boxed policy is the policy with its strategies put in boxes.
pub proof fn boxing_keeps_the_rules<S, W, C>(
    policy: RetryPolicy<S, W, C>,
    boxed: RetryPolicy<Box<dyn Stop + 'static>, Box<dyn Wait + 'static>, C>,
) where S: Stop + 'static, W: Wait + 'static
    requires
        call_ensures(RetryPolicy::<S, W, C>::boxed_local, (policy,), boxed),
    ensures
        boxed.rules().classifier == policy.rules().classifier,
        boxed.rules().timeout == policy.rules().timeout,
        ({
            let stop: Box<dyn Stop + 'static> = Box::new(policy.rules().stop);
            boxed.rules().stop == stop
        }),
        ({
            let wait: Box<dyn Wait + 'static> = Box::new(policy.rules().wait);
            boxed.rules().wait == wait
        }),
{
}

} // verus!
