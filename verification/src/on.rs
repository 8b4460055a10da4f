//! Predicates named by what they look at.
//!
//! [`any_error`] retries every error, [`error`] and [`ok`] the errors or values
//! they are told, [`result`] goes by the whole outcome, and [`until_ready`] waits
//! for a value: it retries every error and every value that is not ready.

use crate::predicate::Predicate;
use core::ops::{BitAnd, BitOr};
use vstd::prelude::*;

pub use crate::predicate::{PredicateAll, PredicateAny};

verus! {

/// Retries every error. Made by [`any_error`].
#[derive(Clone, Copy, Debug, PartialEq, Eq, Structural)]
pub struct AnyError;

impl AnyError {
    /// A predicate that retries when this one or `rhs` does.
    pub fn or<Rhs>(self, rhs: Rhs) -> (r: PredicateAny<Self, Rhs>)
        ensures
            r.left() == self,
            r.right() == rhs,
    {
        PredicateAny::new(self, rhs)
    }

    /// A predicate that retries when both this one and `rhs` do.
    pub fn and<Rhs>(self, rhs: Rhs) -> (r: PredicateAll<Self, Rhs>)
        ensures
            r.left() == self,
            r.right() == rhs,
    {
        PredicateAll::new(self, rhs)
    }
}

/// A predicate that retries every error.
pub fn any_error() -> (r: AnyError)
    ensures
        r == AnyError,
{
    AnyError
}

impl<T, E> Predicate<T, E> for AnyError {
    open spec fn askable(&self, outcome: Result<T, E>) -> bool {
        true
    }

    open spec fn may_answer(&self, outcome: Result<T, E>, retry: bool) -> bool {
        retry == (outcome is Err)
    }

    fn should_retry(&self, outcome: &Result<T, E>) -> bool {
        outcome.is_err()
    }
}

/// Retries the errors that a closure picks. Made by [`error`].
#[derive(Clone, Copy, Debug)]
pub struct ErrorPredicate<F> {
    matcher: F,
}

impl<F> ErrorPredicate<F> {
    /// The closure.
    pub closed spec fn matcher(self) -> F {
        self.matcher
    }

    /// A predicate that retries when this one or `rhs` does.
    pub fn or<Rhs>(self, rhs: Rhs) -> (r: PredicateAny<Self, Rhs>)
        ensures
            r.left() == self,
            r.right() == rhs,
    {
        PredicateAny::new(self, rhs)
    }

    /// A predicate that retries when both this one and `rhs` do.
    pub fn and<Rhs>(self, rhs: Rhs) -> (r: PredicateAll<Self, Rhs>)
        ensures
            r.left() == self,
            r.right() == rhs,
    {
        PredicateAll::new(self, rhs)
    }
}

/// A predicate that retries the errors that `matcher` picks, and no value.
pub fn error<F>(matcher: F) -> (r: ErrorPredicate<F>)
    ensures
        r.matcher() == matcher,
{
    ErrorPredicate { matcher }
}

impl<T, E, F> Predicate<T, E> for ErrorPredicate<F> where F: Fn(&E) -> bool {
    open spec fn askable(&self, outcome: Result<T, E>) -> bool {
        outcome matches Err(error) ==> call_requires(self.matcher(), (&error,))
    }

    open spec fn may_answer(&self, outcome: Result<T, E>, retry: bool) -> bool {
        match outcome {
            Ok(_) => !retry,
            Err(error) => call_ensures(self.matcher(), (&error,), retry),
        }
    }

    fn should_retry(&self, outcome: &Result<T, E>) -> bool {
        match outcome {
            Ok(_) => false,
            Err(error) => (self.matcher)(error),
        }
    }
}

/// Retries the outcomes that a closure picks. Made by [`result`].
#[derive(Clone, Copy, Debug)]
pub struct ResultPredicate<F> {
    matcher: F,
}

impl<F> ResultPredicate<F> {
    /// The closure.
    pub closed spec fn matcher(self) -> F {
        self.matcher
    }

    /// A predicate that retries when this one or `rhs` does.
    pub fn or<Rhs>(self, rhs: Rhs) -> (r: PredicateAny<Self, Rhs>)
        ensures
            r.left() == self,
            r.right() == rhs,
    {
        PredicateAny::new(self, rhs)
    }

    /// A predicate that retries when both this one and `rhs` do.
    pub fn and<Rhs>(self, rhs: Rhs) -> (r: PredicateAll<Self, Rhs>)
        ensures
            r.left() == self,
            r.right() == rhs,
    {
        PredicateAll::new(self, rhs)
    }
}

/// A predicate that retries the outcomes that `matcher` picks.
pub fn result<F>(matcher: F) -> (r: ResultPredicate<F>)
    ensures
        r.matcher() == matcher,
{
    ResultPredicate { matcher }
}

impl<T, E, F> Predicate<T, E> for ResultPredicate<F> where F: Fn(&Result<T, E>) -> bool {
    open spec fn askable(&self, outcome: Result<T, E>) -> bool {
        call_requires(self.matcher(), (&outcome,))
    }

    open spec fn may_answer(&self, outcome: Result<T, E>, retry: bool) -> bool {
        call_ensures(self.matcher(), (&outcome,), retry)
    }

    fn should_retry(&self, outcome: &Result<T, E>) -> bool {
        (self.matcher)(outcome)
    }
}

/// Retries the values that a closure picks. Made by [`ok`].
#[derive(Clone, Copy, Debug)]
pub struct OkPredicate<F> {
    matcher: F,
}

impl<F> OkPredicate<F> {
    /// The closure.
    pub closed spec fn matcher(self) -> F {
        self.matcher
    }

    /// A predicate that retries when this one or `rhs` does.
    pub fn or<Rhs>(self, rhs: Rhs) -> (r: PredicateAny<Self, Rhs>)
        ensures
            r.left() == self,
            r.right() == rhs,
    {
        PredicateAny::new(self, rhs)
    }

    /// A predicate that retries when both this one and `rhs` do.
    pub fn and<Rhs>(self, rhs: Rhs) -> (r: PredicateAll<Self, Rhs>)
        ensures
            r.left() == self,
            r.right() == rhs,
    {
        PredicateAll::new(self, rhs)
    }
}

/// A predicate that retries the values that `matcher` picks, and no error.
pub fn ok<F>(matcher: F) -> (r: OkPredicate<F>)
    ensures
        r.matcher() == matcher,
{
    OkPredicate { matcher }
}

impl<T, E, F> Predicate<T, E> for OkPredicate<F> where F: Fn(&T) -> bool {
    open spec fn askable(&self, outcome: Result<T, E>) -> bool {
        outcome matches Ok(value) ==> call_requires(self.matcher(), (&value,))
    }

    open spec fn may_answer(&self, outcome: Result<T, E>, retry: bool) -> bool {
        match outcome {
            Ok(value) => call_ensures(self.matcher(), (&value,), retry),
            Err(_) => !retry,
        }
    }

    fn should_retry(&self, outcome: &Result<T, E>) -> bool {
        match outcome {
            Ok(value) => (self.matcher)(value),
            Err(_) => false,
        }
    }
}

/// Retries until a value is ready. Made by [`until_ready`].
#[derive(Clone, Copy, Debug)]
pub struct UntilReadyPredicate<F> {
    is_ready: F,
}

impl<F> UntilReadyPredicate<F> {
    /// The closure.
    pub closed spec fn is_ready(self) -> F {
        self.is_ready
    }
}

/// A predicate that retries every error, and every value of which `is_ready` says no.
pub fn until_ready<F>(is_ready: F) -> (r: UntilReadyPredicate<F>)
    ensures
        r.is_ready() == is_ready,
{
    UntilReadyPredicate { is_ready }
}

impl<T, E, F> Predicate<T, E> for UntilReadyPredicate<F> where F: Fn(&T) -> bool {
    open spec fn askable(&self, outcome: Result<T, E>) -> bool {
        outcome matches Ok(value) ==> call_requires(self.is_ready(), (&value,))
    }

    open spec fn may_answer(&self, outcome: Result<T, E>, retry: bool) -> bool {
        match outcome {
            Ok(value) => call_ensures(self.is_ready(), (&value,), !retry),
            Err(_) => retry,
        }
    }

    fn should_retry(&self, outcome: &Result<T, E>) -> bool {
        match outcome {
            Ok(value) => !(self.is_ready)(value),
            Err(_) => true,
        }
    }
}

impl<Rhs> BitOr<Rhs> for AnyError {
    type Output = PredicateAny<Self, Rhs>;

    fn bitor(self, rhs: Rhs) -> (r: PredicateAny<Self, Rhs>)
        ensures
            r.left() == self,
            r.right() == rhs,
    {
        PredicateAny::new(self, rhs)
    }
}

impl<Rhs> vstd::std_specs::ops::BitOrSpecImpl<Rhs> for AnyError {
    open spec fn obeys_bitor_spec() -> bool {
        true
    }

    open spec fn bitor_req(self, rhs: Rhs) -> bool {
        true
    }

    open spec fn bitor_spec(self, rhs: Rhs) -> PredicateAny<Self, Rhs> {
        PredicateAny::of(self, rhs)
    }
}

impl<Rhs> BitAnd<Rhs> for AnyError {
    type Output = PredicateAll<Self, Rhs>;

    fn bitand(self, rhs: Rhs) -> (r: PredicateAll<Self, Rhs>)
        ensures
            r.left() == self,
            r.right() == rhs,
    {
        PredicateAll::new(self, rhs)
    }
}

impl<Rhs> vstd::std_specs::ops::BitAndSpecImpl<Rhs> for AnyError {
    open spec fn obeys_bitand_spec() -> bool {
        true
    }

    open spec fn bitand_req(self, rhs: Rhs) -> bool {
        true
    }

    open spec fn bitand_spec(self, rhs: Rhs) -> PredicateAll<Self, Rhs> {
        PredicateAll::of(self, rhs)
    }
}

impl<F, Rhs> BitOr<Rhs> for ErrorPredicate<F> {
    type Output = PredicateAny<Self, Rhs>;

    fn bitor(self, rhs: Rhs) -> (r: PredicateAny<Self, Rhs>)
        ensures
            r.left() == self,
            r.right() == rhs,
    {
        PredicateAny::new(self, rhs)
    }
}

impl<F, Rhs> vstd::std_specs::ops::BitOrSpecImpl<Rhs> for ErrorPredicate<F> {
    open spec fn obeys_bitor_spec() -> bool {
        true
    }

    open spec fn bitor_req(self, rhs: Rhs) -> bool {
        true
    }

    open spec fn bitor_spec(self, rhs: Rhs) -> PredicateAny<Self, Rhs> {
        PredicateAny::of(self, rhs)
    }
}

impl<F, Rhs> BitAnd<Rhs> for ErrorPredicate<F> {
    type Output = PredicateAll<Self, Rhs>;

    fn bitand(self, rhs: Rhs) -> (r: PredicateAll<Self, Rhs>)
        ensures
            r.left() == self,
            r.right() == rhs,
    {
        PredicateAll::new(self, rhs)
    }
}

impl<F, Rhs> vstd::std_specs::ops::BitAndSpecImpl<Rhs> for ErrorPredicate<F> {
    open spec fn obeys_bitand_spec() -> bool {
        true
    }

    open spec fn bitand_req(self, rhs: Rhs) -> bool {
        true
    }

    open spec fn bitand_spec(self, rhs: Rhs) -> PredicateAll<Self, Rhs> {
        PredicateAll::of(self, rhs)
    }
}

impl<F, Rhs> BitOr<Rhs> for ResultPredicate<F> {
    type Output = PredicateAny<Self, Rhs>;

    fn bitor(self, rhs: Rhs) -> (r: PredicateAny<Self, Rhs>)
        ensures
            r.left() == self,
            r.right() == rhs,
    {
        PredicateAny::new(self, rhs)
    }
}

impl<F, Rhs> vstd::std_specs::ops::BitOrSpecImpl<Rhs> for ResultPredicate<F> {
    open spec fn obeys_bitor_spec() -> bool {
        true
    }

    open spec fn bitor_req(self, rhs: Rhs) -> bool {
        true
    }

    open spec fn bitor_spec(self, rhs: Rhs) -> PredicateAny<Self, Rhs> {
        PredicateAny::of(self, rhs)
    }
}

impl<F, Rhs> BitAnd<Rhs> for ResultPredicate<F> {
    type Output = PredicateAll<Self, Rhs>;

    fn bitand(self, rhs: Rhs) -> (r: PredicateAll<Self, Rhs>)
        ensures
            r.left() == self,
            r.right() == rhs,
    {
        PredicateAll::new(self, rhs)
    }
}

impl<F, Rhs> vstd::std_specs::ops::BitAndSpecImpl<Rhs> for ResultPredicate<F> {
    open spec fn obeys_bitand_spec() -> bool {
        true
    }

    open spec fn bitand_req(self, rhs: Rhs) -> bool {
        true
    }

    open spec fn bitand_spec(self, rhs: Rhs) -> PredicateAll<Self, Rhs> {
        PredicateAll::of(self, rhs)
    }
}

impl<F, Rhs> BitOr<Rhs> for OkPredicate<F> {
    type Output = PredicateAny<Self, Rhs>;

    fn bitor(self, rhs: Rhs) -> (r: PredicateAny<Self, Rhs>)
        ensures
            r.left() == self,
            r.right() == rhs,
    {
        PredicateAny::new(self, rhs)
    }
}

impl<F, Rhs> vstd::std_specs::ops::BitOrSpecImpl<Rhs> for OkPredicate<F> {
    open spec fn obeys_bitor_spec() -> bool {
        true
    }

    open spec fn bitor_req(self, rhs: Rhs) -> bool {
        true
    }

    open spec fn bitor_spec(self, rhs: Rhs) -> PredicateAny<Self, Rhs> {
        PredicateAny::of(self, rhs)
    }
}

impl<F, Rhs> BitAnd<Rhs> for OkPredicate<F> {
    type Output = PredicateAll<Self, Rhs>;

    fn bitand(self, rhs: Rhs) -> (r: PredicateAll<Self, Rhs>)
        ensures
            r.left() == self,
            r.right() == rhs,
    {
        PredicateAll::new(self, rhs)
    }
}

impl<F, Rhs> vstd::std_specs::ops::BitAndSpecImpl<Rhs> for OkPredicate<F> {
    open spec fn obeys_bitand_spec() -> bool {
        true
    }

    open spec fn bitand_req(self, rhs: Rhs) -> bool {
        true
    }

    open spec fn bitand_spec(self, rhs: Rhs) -> PredicateAll<Self, Rhs> {
        PredicateAll::of(self, rhs)
    }
}

impl<F, Rhs> BitOr<Rhs> for UntilReadyPredicate<F> {
    type Output = PredicateAny<Self, Rhs>;

    fn bitor(self, rhs: Rhs) -> (r: PredicateAny<Self, Rhs>)
        ensures
            r.left() == self,
            r.right() == rhs,
    {
        PredicateAny::new(self, rhs)
    }
}

impl<F, Rhs> vstd::std_specs::ops::BitOrSpecImpl<Rhs> for UntilReadyPredicate<F> {
    open spec fn obeys_bitor_spec() -> bool {
        true
    }

    open spec fn bitor_req(self, rhs: Rhs) -> bool {
        true
    }

    open spec fn bitor_spec(self, rhs: Rhs) -> PredicateAny<Self, Rhs> {
        PredicateAny::of(self, rhs)
    }
}

impl<F, Rhs> BitAnd<Rhs> for UntilReadyPredicate<F> {
    type Output = PredicateAll<Self, Rhs>;

    fn bitand(self, rhs: Rhs) -> (r: PredicateAll<Self, Rhs>)
        ensures
            r.left() == self,
            r.right() == rhs,
    {
        PredicateAll::new(self, rhs)
    }
}

impl<F, Rhs> vstd::std_specs::ops::BitAndSpecImpl<Rhs> for UntilReadyPredicate<F> {
    open spec fn obeys_bitand_spec() -> bool {
        true
    }

    open spec fn bitand_req(self, rhs: Rhs) -> bool {
        true
    }

    open spec fn bitand_spec(self, rhs: Rhs) -> PredicateAll<Self, Rhs> {
        PredicateAll::of(self, rhs)
    }
}

} // verus!
