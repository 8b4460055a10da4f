//! Which outcomes call for another attempt.
//!
//! A [`Predicate`] looks at the `Result` of an attempt and says whether to retry
//! it: [`any_error`] retries every `Err`, [`error`] the errors it is told,
//! [`ok`] the values it is told, and [`result`] goes by the whole outcome.
//! [`until`] turns a predicate round. Predicates combine with `|` and `&`, or
//! with [`Predicate::or`] and [`Predicate::and`].

use vstd::prelude::*;

mod composition;
pub mod laws;
mod operators;

pub use composition::{PredicateAll, PredicateAny};

verus! {

/// Says which outcomes call for another attempt.
///
/// The answer may come from a caller's closure, so it is a relation: one
/// predicate may answer differently for the same outcome at different times.
pub trait Predicate<T, E> {
    /// Whether this predicate may be asked about `outcome`.
    open spec fn askable(&self, outcome: Result<T, E>) -> bool {
        true
    }

    /// Whether `retry` is an answer that this predicate may give for `outcome`.
    /// A type that does not say leaves it open.
    open spec fn may_answer(&self, outcome: Result<T, E>, retry: bool) -> bool {
        true
    }

    /// Whether to retry `outcome`.
    fn should_retry(&self, outcome: &Result<T, E>) -> (r: bool)
        requires
            self.askable(*outcome),
        ensures
            self.may_answer(*outcome, r),
    ;

    /// A predicate that retries when this one or `other` does.
    fn or<P>(self, other: P) -> (r: PredicateAny<Self, P>) where Self: Sized
        ensures
            r.left() == self,
            r.right() == other,
    {
        PredicateAny::new(self, other)
    }

    /// A predicate that retries when both this one and `other` do.
    fn and<P>(self, other: P) -> (r: PredicateAll<Self, P>) where Self: Sized
        ensures
            r.left() == self,
            r.right() == other,
    {
        PredicateAll::new(self, other)
    }
}

impl<T, E, F> Predicate<T, E> for F where F: Fn(&Result<T, E>) -> bool {
    open spec fn askable(&self, outcome: Result<T, E>) -> bool {
        call_requires(*self, (&outcome,))
    }

    open spec fn may_answer(&self, outcome: Result<T, E>, retry: bool) -> bool {
        call_ensures(*self, (&outcome,), retry)
    }

    fn should_retry(&self, outcome: &Result<T, E>) -> bool {
        (self)(outcome)
    }
}

/// Retries every error. Made by [`any_error`].
#[derive(Clone, Copy, Debug, PartialEq, Eq, Structural)]
pub struct PredicateAnyError;

/// A predicate that retries every error.
pub fn any_error() -> (r: PredicateAnyError)
    ensures
        r == PredicateAnyError,
{
    PredicateAnyError
}

impl<T, E> Predicate<T, E> for PredicateAnyError {
    open spec fn askable(&self, outcome: Result<T, E>) -> bool {
        true
    }

    open spec fn may_answer(&self, outcome: Result<T, E>, retry: bool) -> bool {
        retry == (outcome is Err)
    }

    fn should_retry(&self, outcome: &Result<T, E>) -> bool {
        outcome.is_err()
    }
}

/// Retries the errors that a closure picks. Made by [`error`].
#[derive(Clone, Copy, Debug)]
pub struct PredicateError<F> {
    matcher: F,
}

impl<F> PredicateError<F> {
    /// The closure.
    pub closed spec fn matcher(self) -> F {
        self.matcher
    }
}

/// A predicate that retries the errors that `matcher` picks, and no value.
pub fn error<F>(matcher: F) -> (r: PredicateError<F>)
    ensures
        r.matcher() == matcher,
{
    PredicateError { matcher }
}

impl<T, E, F> Predicate<T, E> for PredicateError<F> where F: Fn(&E) -> bool {
    open spec fn askable(&self, outcome: Result<T, E>) -> bool {
        outcome matches Err(error) ==> call_requires(self.matcher(), (&error,))
    }

    open spec fn may_answer(&self, outcome: Result<T, E>, retry: bool) -> bool {
        match outcome {
            Ok(_) => !retry,
            Err(error) => call_ensures(self.matcher(), (&error,), retry),
        }
    }

    fn should_retry(&self, outcome: &Result<T, E>) -> bool {
        match outcome {
            Ok(_) => false,
            Err(error) => (self.matcher)(error),
        }
    }
}

/// Retries the outcomes that a closure picks. Made by [`result`].
#[derive(Clone, Copy, Debug)]
pub struct PredicateResult<F> {
    matcher: F,
}

impl<F> PredicateResult<F> {
    /// The closure.
    pub closed spec fn matcher(self) -> F {
        self.matcher
    }
}

/// A predicate that retries the outcomes that `matcher` picks.
pub fn result<F>(matcher: F) -> (r: PredicateResult<F>)
    ensures
        r.matcher() == matcher,
{
    PredicateResult { matcher }
}

impl<T, E, F> Predicate<T, E> for PredicateResult<F> where F: Fn(&Result<T, E>) -> bool {
    open spec fn askable(&self, outcome: Result<T, E>) -> bool {
        call_requires(self.matcher(), (&outcome,))
    }

    open spec fn may_answer(&self, outcome: Result<T, E>, retry: bool) -> bool {
        call_ensures(self.matcher(), (&outcome,), retry)
    }

    fn should_retry(&self, outcome: &Result<T, E>) -> bool {
        (self.matcher)(outcome)
    }
}

/// Retries the values that a closure picks. Made by [`ok`].
#[derive(Clone, Copy, Debug)]
pub struct PredicateOk<F> {
    matcher: F,
}

impl<F> PredicateOk<F> {
    /// The closure.
    pub closed spec fn matcher(self) -> F {
        self.matcher
    }
}

/// A predicate that retries the values that `matcher` picks, and no error.
pub fn ok<F>(matcher: F) -> (r: PredicateOk<F>)
    ensures
        r.matcher() == matcher,
{
    PredicateOk { matcher }
}

impl<T, E, F> Predicate<T, E> for PredicateOk<F> where F: Fn(&T) -> bool {
    open spec fn askable(&self, outcome: Result<T, E>) -> bool {
        outcome matches Ok(value) ==> call_requires(self.matcher(), (&value,))
    }

    open spec fn may_answer(&self, outcome: Result<T, E>, retry: bool) -> bool {
        match outcome {
            Ok(value) => call_ensures(self.matcher(), (&value,), retry),
            Err(_) => !retry,
        }
    }

    fn should_retry(&self, outcome: &Result<T, E>) -> bool {
        match outcome {
            Ok(value) => (self.matcher)(value),
            Err(_) => false,
        }
    }
}

/// Retries what another predicate does not. Made by [`until`].
#[derive(Clone, Copy, Debug)]
pub struct PredicateUntil<P> {
    inner: P,
}

impl<P> PredicateUntil<P> {
    /// The other predicate.
    pub closed spec fn inner(self) -> P {
        self.inner
    }
}

/// A predicate that retries until `inner` is satisfied.
pub fn until<P>(inner: P) -> (r: PredicateUntil<P>)
    ensures
        r.inner() == inner,
{
    PredicateUntil { inner }
}

impl<T, E, P> Predicate<T, E> for PredicateUntil<P> where P: Predicate<T, E> {
    open spec fn askable(&self, outcome: Result<T, E>) -> bool {
        self.inner().askable(outcome)
    }

    open spec fn may_answer(&self, outcome: Result<T, E>, retry: bool) -> bool {
        self.inner().may_answer(outcome, !retry)
    }

    fn should_retry(&self, outcome: &Result<T, E>) -> bool {
        !self.inner.should_retry(outcome)
    }
}

impl<T, E> Predicate<T, E> for Box<dyn Predicate<T, E>> {
    open spec fn askable(&self, outcome: Result<T, E>) -> bool {
        (**self).askable(outcome)
    }

    open spec fn may_answer(&self, outcome: Result<T, E>, retry: bool) -> bool {
        (**self).may_answer(outcome, retry)
    }

    fn should_retry(&self, outcome: &Result<T, E>) -> bool {
        (**self).should_retry(outcome)
    }
}

} // verus!
