//! Predicates made of two others.

use super::Predicate;
use vstd::prelude::*;

verus! {

/// Retries when either of two predicates does.
#[derive(Clone, Copy, Debug)]
pub struct PredicateAny<A, B> {
    left: A,
    right: B,
}

impl<A, B> PredicateAny<A, B> {
    /// The predicate that is asked first.
    pub closed spec fn left(self) -> A {
        self.left
    }

    /// The predicate that is asked where the first leaves it open.
    pub closed spec fn right(self) -> B {
        self.right
    }

    /// The composite of `left` and `right`.
    pub closed spec fn of(left: A, right: B) -> PredicateAny<A, B> {
        PredicateAny { left, right }
    }

    /// The composite of `left` and `right`.
    pub fn new(left: A, right: B) -> (r: PredicateAny<A, B>)
        ensures
            r == Self::of(left, right),
            r.left() == left,
            r.right() == right,
    {
        PredicateAny { left, right }
    }

    /// A predicate that retries when this one or `rhs` does.
    pub fn or<Rhs>(self, rhs: Rhs) -> (r: PredicateAny<Self, Rhs>)
        ensures
            r.left() == self,
            r.right() == rhs,
    {
        PredicateAny::new(self, rhs)
    }

    /// A predicate that retries when both this one and `rhs` do.
    pub fn and<Rhs>(self, rhs: Rhs) -> (r: PredicateAll<Self, Rhs>)
        ensures
            r.left() == self,
            r.right() == rhs,
    {
        PredicateAll::new(self, rhs)
    }
}

impl<T, E, A, B> Predicate<T, E> for PredicateAny<A, B> where A: Predicate<T, E>, B: Predicate<T, E> {
    open spec fn askable(&self, outcome: Result<T, E>) -> bool {
        self.left().askable(outcome) && self.right().askable(outcome)
    }

    open spec fn may_answer(&self, outcome: Result<T, E>, retry: bool) -> bool {
        self.left().may_answer(outcome, true) && retry || self.left().may_answer(outcome, false) && self.right().may_answer(outcome, retry)
    }

    fn should_retry(&self, outcome: &Result<T, E>) -> bool {
        self.left.should_retry(outcome) || self.right.should_retry(outcome)
    }
}

/// Retries when both of two predicates do.
#[derive(Clone, Copy, Debug)]
pub struct PredicateAll<A, B> {
    left: A,
    right: B,
}

impl<A, B> PredicateAll<A, B> {
    /// The predicate that is asked first.
    pub closed spec fn left(self) -> A {
        self.left
    }

    /// The predicate that is asked where the first leaves it open.
    pub closed spec fn right(self) -> B {
        self.right
    }

    /// The composite of `left` and `right`.
    pub closed spec fn of(left: A, right: B) -> PredicateAll<A, B> {
        PredicateAll { left, right }
    }

    /// The composite of `left` and `right`.
    pub fn new(left: A, right: B) -> (r: PredicateAll<A, B>)
        ensures
            r == Self::of(left, right),
            r.left() == left,
            r.right() == right,
    {
        PredicateAll { left, right }
    }

    /// A predicate that retries when this one or `rhs` does.
    pub fn or<Rhs>(self, rhs: Rhs) -> (r: PredicateAny<Self, Rhs>)
        ensures
            r.left() == self,
            r.right() == rhs,
    {
        PredicateAny::new(self, rhs)
    }

    /// A predicate that retries when both this one and `rhs` do.
    pub fn and<Rhs>(self, rhs: Rhs) -> (r: PredicateAll<Self, Rhs>)
        ensures
            r.left() == self,
            r.right() == rhs,
    {
        PredicateAll::new(self, rhs)
    }
}

impl<T, E, A, B> Predicate<T, E> for PredicateAll<A, B> where A: Predicate<T, E>, B: Predicate<T, E> {
    open spec fn askable(&self, outcome: Result<T, E>) -> bool {
        self.left().askable(outcome) && self.right().askable(outcome)
    }

    open spec fn may_answer(&self, outcome: Result<T, E>, retry: bool) -> bool {
        self.left().may_answer(outcome, false) && !retry || self.left().may_answer(outcome, true) && self.right().may_answer(outcome, retry)
    }

    fn should_retry(&self, outcome: &Result<T, E>) -> bool {
        self.left.should_retry(outcome) && self.right.should_retry(outcome)
    }
}

} // verus!
