//! What an outcome means for the retry loop.
//!
//! A classifier sorts each outcome into a [`Verdict`]: hand a value back, try
//! again, or give up. [`DefaultClassifier`] asks the outcome itself through
//! [`Outcome`]; [`When`] and [`Until`] go by a predicate on a `Result`;
//! [`ClosureClassifier`] asks a closure.

use crate::predicate::Predicate;
use core::convert::Infallible;
use vstd::prelude::*;

verus! {

/// What a classifier makes of an outcome.
#[derive(Clone, Copy, Debug, PartialEq, Eq)]
pub enum Verdict<R, A, O> {
    /// The loop ends and the caller gets this value.
    Return(R),
    /// The loop tries again; this is the outcome that calls for it.
    Retry(O),
    /// The loop ends and the caller gets this as the cause.
    Abort(A),
}

/// What a classifier that never gives up makes of an outcome.
#[derive(Clone, Copy, Debug, PartialEq, Eq)]
pub enum Decision<R, O> {
    /// The loop ends and the caller gets this value.
    Return(R),
    /// The loop tries again; this is the outcome that calls for it.
    Retry(O),
}

/// What a classifying closure may return.
pub trait IntoDecision<O>: Sized {
    /// The value that a caller may get.
    type R;

    /// The cause that a caller may get.
    type A;

    /// This decision as a verdict.
    spec fn as_verdict(self) -> Verdict<Self::R, Self::A, O>;

    /// This decision as a verdict.
    fn into_verdict(self) -> (r: Verdict<Self::R, Self::A, O>)
        ensures
            r == self.as_verdict(),
    ;
}

impl<R, A, O> IntoDecision<O> for Verdict<R, A, O> {
    type R = R;

    type A = A;

    open spec fn as_verdict(self) -> Verdict<R, A, O> {
        self
    }

    fn into_verdict(self) -> Verdict<R, A, O> {
        self
    }
}

impl<R, O> IntoDecision<O> for Decision<R, O> {
    type R = R;

    type A = Infallible;

    open spec fn as_verdict(self) -> Verdict<R, Infallible, O> {
        match self {
            Decision::Return(value) => Verdict::Return(value),
            Decision::Retry(outcome) => Verdict::Retry(outcome),
        }
    }

    fn into_verdict(self) -> Verdict<R, Infallible, O> {
        match self {
            Decision::Return(value) => Verdict::Return(value),
            Decision::Retry(outcome) => Verdict::Retry(outcome),
        }
    }
}

/// An outcome that classifies itself.
pub trait Outcome: Sized {
    /// The value that a caller may get.
    type Return;

    /// The cause that a caller may get.
    type Abort;

    /// Whether `verdict` is what this outcome may make of itself. A type that
    /// does not say leaves it open.
    open spec fn may_classify(self, verdict: Verdict<Self::Return, Self::Abort, Self>) -> bool {
        true
    }

    /// What this outcome means for the loop.
    fn classify(self) -> (r: Verdict<Self::Return, Self::Abort, Self>)
        ensures
            self.may_classify(r),
    ;
}

/// A value is returned, an error is retried.
impl<T, E> Outcome for Result<T, E> {
    type Return = T;

    type Abort = E;

    open spec fn may_classify(self, verdict: Verdict<T, E, Result<T, E>>) -> bool {
        verdict == match self {
            Ok(value) => Verdict::<T, E, Result<T, E>>::Return(value),
            Err(_) => Verdict::Retry(self),
        }
    }

    fn classify(self) -> Verdict<T, E, Result<T, E>> {
        match self {
            Ok(value) => Verdict::Return(value),
            Err(error) => Verdict::Retry(Err(error)),
        }
    }
}

/// Sorts outcomes into verdicts.
pub trait Decide<O> {
    /// The value that a caller may get.
    type R;

    /// The cause that a caller may get.
    type A;

    /// Whether this classifier may be asked about `outcome`.
    open spec fn askable(&self, outcome: O) -> bool {
        true
    }

    /// Whether `verdict` is what this classifier may make of `outcome`. A type
    /// that does not say leaves it open.
    open spec fn may_decide(&self, outcome: O, verdict: Verdict<Self::R, Self::A, O>) -> bool {
        true
    }

    /// What `outcome` means for the loop.
    fn decide(&self, outcome: O) -> (r: Verdict<Self::R, Self::A, O>)
        requires
            self.askable(outcome),
        ensures
            self.may_decide(outcome, r),
    ;
}

/// A shared borrow of a classifier is a classifier, so that one policy can serve
/// many calls.
impl<O, C: Decide<O>> Decide<O> for &C {
    type R = C::R;

    type A = C::A;

    open spec fn askable(&self, outcome: O) -> bool {
        (**self).askable(outcome)
    }

    open spec fn may_decide(&self, outcome: O, verdict: Verdict<C::R, C::A, O>) -> bool {
        (**self).may_decide(outcome, verdict)
    }

    fn decide(&self, outcome: O) -> Verdict<C::R, C::A, O> {
        (**self).decide(outcome)
    }
}

/// Asks the outcome itself.
#[derive(Clone, Copy, Debug, PartialEq, Eq, Structural)]
pub struct DefaultClassifier;

impl<O: Outcome> Decide<O> for DefaultClassifier {
    type R = O::Return;

    type A = O::Abort;

    open spec fn askable(&self, outcome: O) -> bool {
        true
    }

    open spec fn may_decide(&self, outcome: O, verdict: Verdict<O::Return, O::Abort, O>) -> bool {
        outcome.may_classify(verdict)
    }

    fn decide(&self, outcome: O) -> Verdict<O::Return, O::Abort, O> {
        outcome.classify()
    }
}

/// Asks a closure.
#[derive(Clone, Copy, Debug, PartialEq, Eq)]
pub struct ClosureClassifier<F>(pub F);

impl<O, D, F> Decide<O> for ClosureClassifier<F> where F: Fn(O) -> D, D: IntoDecision<O> {
    type R = D::R;

    type A = D::A;

    open spec fn askable(&self, outcome: O) -> bool {
        call_requires(self.0, (outcome,))
    }

    open spec fn may_decide(&self, outcome: O, verdict: Verdict<D::R, D::A, O>) -> bool {
        exists|decision: D| #[trigger]
            call_ensures(self.0, (outcome,), decision) && verdict == decision.as_verdict()
    }

    fn decide(&self, outcome: O) -> Verdict<D::R, D::A, O> {
        let decision = (self.0)(outcome);
        decision.into_verdict()
    }
}

/// The verdict on a `Result` that is to be retried or, where `retry` is false,
/// settled: a value is returned, an error aborts.
pub open spec fn settled<T, E>(outcome: Result<T, E>, retry: bool) -> Verdict<T, E, Result<T, E>> {
    if retry {
        Verdict::Retry(outcome)
    } else {
        match outcome {
            Ok(value) => Verdict::Return(value),
            Err(error) => Verdict::Abort(error),
        }
    }
}

/// The verdict on a `Result` that is to be retried or settled.
fn settle<T, E>(outcome: Result<T, E>, retry: bool) -> (r: Verdict<T, E, Result<T, E>>)
    ensures
        r == settled(outcome, retry),
{
    if retry {
        Verdict::Retry(outcome)
    } else {
        match outcome {
            Ok(value) => Verdict::Return(value),
            Err(error) => Verdict::Abort(error),
        }
    }
}

/// Retries while a predicate says so, then settles.
#[derive(Clone, Copy, Debug, PartialEq, Eq)]
pub struct When<P> {
    predicate: P,
}

impl<P> When<P> {
    /// The predicate.
    pub closed spec fn predicate(self) -> P {
        self.predicate
    }

    /// A classifier that retries while `predicate` says so.
    pub fn new(predicate: P) -> (r: When<P>)
        ensures
            r.predicate() == predicate,
    {
        When { predicate }
    }
}

impl<T, E, P: Predicate<T, E>> Decide<Result<T, E>> for When<P> {
    type R = T;

    type A = E;

    open spec fn askable(&self, outcome: Result<T, E>) -> bool {
        self.predicate().askable(outcome)
    }

    open spec fn may_decide(
        &self,
        outcome: Result<T, E>,
        verdict: Verdict<T, E, Result<T, E>>,
    ) -> bool {
        exists|retry: bool| #[trigger]
            self.predicate().may_answer(outcome, retry) && verdict == settled(outcome, retry)
    }

    fn decide(&self, outcome: Result<T, E>) -> Verdict<T, E, Result<T, E>> {
        let retry = self.predicate.should_retry(&outcome);
        assert(self.predicate().may_answer(outcome, retry));
        settle(outcome, retry)
    }
}

/// Retries until a predicate is satisfied, then settles.
#[derive(Clone, Copy, Debug, PartialEq, Eq)]
pub struct Until<P> {
    predicate: P,
}

impl<P> Until<P> {
    /// The predicate.
    pub closed spec fn predicate(self) -> P {
        self.predicate
    }

    /// A classifier that retries until `predicate` is satisfied.
    pub fn new(predicate: P) -> (r: Until<P>)
        ensures
            r.predicate() == predicate,
    {
        Until { predicate }
    }
}

impl<T, E, P: Predicate<T, E>> Decide<Result<T, E>> for Until<P> {
    type R = T;

    type A = E;

    open spec fn askable(&self, outcome: Result<T, E>) -> bool {
        self.predicate().askable(outcome)
    }

    open spec fn may_decide(
        &self,
        outcome: Result<T, E>,
        verdict: Verdict<T, E, Result<T, E>>,
    ) -> bool {
        exists|satisfied: bool| #[trigger]
            self.predicate().may_answer(outcome, satisfied) && verdict == settled(
                outcome,
                !satisfied,
            )
    }

    fn decide(&self, outcome: Result<T, E>) -> Verdict<T, E, Result<T, E>> {
        let satisfied = self.predicate.should_retry(&outcome);
        assert(self.predicate().may_answer(outcome, satisfied));
        settle(outcome, !satisfied)
    }
}

/// A `Result` that classifies itself returns its value and asks for a retry of its error.
pub proof fn results_return_values_and_retry_errors<T, E>(
    value: T,
    error: E,
    good: Verdict<T, E, Result<T, E>>,
    bad: Verdict<T, E, Result<T, E>>,
)
    ensures
        DefaultClassifier.may_decide(Ok::<T, E>(value), good) <==> good == Verdict::<
            T,
            E,
            Result<T, E>,
        >::Return(value),
        DefaultClassifier.may_decide(Err::<T, E>(error), bad) <==> bad == Verdict::<
            T,
            E,
            Result<T, E>,
        >::Retry(Err(error)),
{
}

/// A verdict stands as it is, and a decision becomes the verdict of the same name.
pub proof fn decisions_become_their_verdicts<R, A, O>(
    verdict: Verdict<R, A, O>,
    value: R,
    outcome: O,
)
    ensures
        verdict.as_verdict() == verdict,
        Decision::<R, O>::Return(value).as_verdict() == Verdict::<R, Infallible, O>::Return(value),
        Decision::<R, O>::Retry(outcome).as_verdict() == Verdict::<R, Infallible, O>::Retry(
            outcome,
        ),
{
}

} // verus!
