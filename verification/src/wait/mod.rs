//! How long to wait between attempts.
//!
//! A [`Wait`] strategy looks at the state of a completed attempt and names the
//! wait before the next one. Strategies add up with `+` or [`Wait::add`], follow
//! one another with [`Wait::chain`], and take a ceiling with [`Wait::cap`].

use crate::duration::Duration;
use crate::state::RetryState;
use vstd::prelude::*;

mod composition;
pub mod jitter;
pub mod laws;
mod operators;
pub mod strategies;

pub use composition::{WaitCapped, WaitChain, WaitCombine};
pub use jitter::{decorrelated_jitter, JitterKind, Jittered, SplitMix64};
pub use strategies::{
    exponential, fixed, linear, saturating_pow, WaitExponential, WaitFixed, WaitLinear,
};

verus! {

/// Names the wait between two attempts.
pub trait Wait {
    /// Whether `delay` is a wait that this strategy may name after the attempt
    /// that `state` describes. A strategy without randomness admits one; a type
    /// that does not say leaves it open.
    open spec fn may_wait(&self, state: RetryState, delay: Duration) -> bool {
        true
    }

    /// The ceiling imposed on this strategy, if one has been.
    open spec fn ceiling(&self) -> Option<Duration> {
        None
    }

    /// The wait before the next attempt.
    fn next_wait(&self, state: &RetryState) -> (r: Duration)
        ensures
            self.may_wait(*state, r),
    ;

    /// The ceiling imposed on this strategy, if one has been.
    ///
    /// This is a bound that [`cap`](Wait::cap) made, not the largest wait that
    /// the strategy happens to name. [`jitter`](Wait::jitter) holds itself to it,
    /// so that a cap stays binding where the concrete type is out of sight.
    fn max_delay(&self) -> (r: Option<Duration>)
        ensures
            r == self.ceiling(),
    ;

    /// This strategy with its waits cut down to at most `max`.
    fn cap(self, max: Duration) -> (r: WaitCapped<Self>) where Self: Sized
        ensures
            r.inner() == self,
            r.max() == max,
    {
        WaitCapped::new(self, max)
    }

    /// This strategy for the first `after` attempts, then `other`.
    fn chain<W2>(self, other: W2, after: u32) -> (r: WaitChain<Self, W2>) where Self: Sized
        ensures
            r.first() == self,
            r.second() == other,
            r.after() == after,
    {
        WaitChain::new(self, other, after)
    }

    /// The sum of this strategy and `other`; the named form of `+`.
    fn add<W2>(self, other: W2) -> (r: WaitCombine<Self, W2>) where Self: Sized
        ensures
            r.left() == self,
            r.right() == other,
    {
        WaitCombine::new(self, other)
    }

    /// This strategy with up to `max_jitter` added at random.
    fn jitter(self, max_jitter: Duration) -> (r: Jittered<Self>) where Self: Sized
        ensures
            r.is_fresh(self, JitterKind::Additive(max_jitter)),
    {
        Jittered::additive(self, max_jitter)
    }

    /// A random wait up to what this strategy names. No more than `u64::MAX`
    /// nanoseconds are ever drawn.
    fn full_jitter(self) -> (r: Jittered<Self>) where Self: Sized
        ensures
            r.is_fresh(self, JitterKind::Full),
    {
        Jittered::full(self)
    }

    /// Half of what this strategy names, with up to the other half added at
    /// random.
    fn equal_jitter(self) -> (r: Jittered<Self>) where Self: Sized
        ensures
            r.is_fresh(self, JitterKind::Equal),
    {
        Jittered::equal(self)
    }
}

impl<W: Wait + ?Sized> Wait for Box<W> {
    open spec fn may_wait(&self, state: RetryState, delay: Duration) -> bool {
        (**self).may_wait(state, delay)
    }

    open spec fn ceiling(&self) -> Option<Duration> {
        (**self).ceiling()
    }

    fn next_wait(&self, state: &RetryState) -> Duration {
        (**self).next_wait(state)
    }

    fn max_delay(&self) -> Option<Duration> {
        (**self).max_delay()
    }
}

/// A shared borrow of a strategy is a strategy, so that one policy can serve
/// many calls.
impl<W: Wait + ?Sized> Wait for &W {
    open spec fn may_wait(&self, state: RetryState, delay: Duration) -> bool {
        (**self).may_wait(state, delay)
    }

    open spec fn ceiling(&self) -> Option<Duration> {
        (**self).ceiling()
    }

    fn next_wait(&self, state: &RetryState) -> Duration {
        (**self).next_wait(state)
    }

    fn max_delay(&self) -> Option<Duration> {
        (**self).max_delay()
    }
}

} // verus!
