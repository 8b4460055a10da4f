//! When to give up.
//!
//! A [`Stop`] strategy looks at the state of a completed attempt and says
//! whether the retry loop ends there. Strategies combine with `|` and `&`, or
//! with [`Stop::or`] and [`Stop::and`].

use crate::state::RetryState;
use vstd::prelude::*;

mod composition;
pub mod laws;
mod strategies;

pub use composition::{StopAll, StopAny};
pub use strategies::{
    attempts, before_elapsed, elapsed, never, StopAfterAttempts, StopAfterElapsed,
    StopBeforeElapsed, StopNever,
};

verus! {

/// Decides when the retry loop gives up.
pub trait Stop {
    /// Whether `stop` is an answer that this strategy may give after the attempt
    /// that `state` describes. A strategy that goes by the state alone admits one;
    /// a type that does not say leaves it open.
    open spec fn may_stop(&self, state: RetryState, stop: bool) -> bool {
        true
    }

    /// Whether the loop gives up after the attempt that `state` describes.
    fn should_stop(&self, state: &RetryState) -> (r: bool)
        ensures
            self.may_stop(*state, r),
    ;

    /// A strategy that stops when this one or `other` does.
    fn or<S>(self, other: S) -> (r: StopAny<Self, S>) where Self: Sized
        ensures
            r.left() == self,
            r.right() == other,
    {
        StopAny::new(self, other)
    }

    /// A strategy that stops when both this one and `other` do.
    fn and<S>(self, other: S) -> (r: StopAll<Self, S>) where Self: Sized
        ensures
            r.left() == self,
            r.right() == other,
    {
        StopAll::new(self, other)
    }
}

impl<S: Stop + ?Sized> Stop for Box<S> {
    open spec fn may_stop(&self, state: RetryState, stop: bool) -> bool {
        (**self).may_stop(state, stop)
    }

    fn should_stop(&self, state: &RetryState) -> bool {
        (**self).should_stop(state)
    }
}

/// A shared borrow of a strategy is a strategy, so that one policy can serve
/// many calls.
impl<S: Stop + ?Sized> Stop for &S {
    open spec fn may_stop(&self, state: RetryState, stop: bool) -> bool {
        (**self).may_stop(state, stop)
    }

    fn should_stop(&self, state: &RetryState) -> bool {
        (**self).should_stop(state)
    }
}

} // verus!
