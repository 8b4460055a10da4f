//! Wait strategies made of others.

use super::jitter::Jittered;
use super::Wait;
use crate::duration::{lesser, saturated, Duration};
use crate::state::RetryState;
use vstd::prelude::*;

verus! {

/// Cuts the waits of another strategy down to a ceiling. Made by
/// [`Wait::cap`].
#[derive(Clone, Copy, Debug)]
pub struct WaitCapped<W> {
    inner: W,
    max: Duration,
}

impl<W> WaitCapped<W> {
    /// The strategy under the ceiling.
    pub closed spec fn inner(self) -> W {
        self.inner
    }

    /// The ceiling.
    pub closed spec fn max(self) -> Duration {
        self.max
    }

    /// `inner` under the ceiling `max`.
    pub fn new(inner: W, max: Duration) -> (r: WaitCapped<W>)
        ensures
            r.inner() == inner,
            r.max() == max,
    {
        WaitCapped { inner, max }
    }

    /// Adds jitter below the ceiling.
    ///
    /// Additive jitter lengthens waits, so over the ceiling it would break it:
    /// `.cap(max).jitter(j)` therefore means `.jitter(j).cap(max)`.
    pub fn jitter(self, max_jitter: Duration) -> (r: WaitCapped<Jittered<W>>)
        ensures
            r.max() == self.max(),
            r.inner().is_fresh(self.inner(), super::JitterKind::Additive(max_jitter)),
    {
        WaitCapped { inner: Jittered::additive(self.inner, max_jitter), max: self.max }
    }
}

impl<W: Wait> Wait for WaitCapped<W> {
    open spec fn may_wait(&self, state: RetryState, delay: Duration) -> bool {
        exists|uncapped: Duration| #[trigger]
            self.inner().may_wait(state, uncapped) && delay@ == lesser(uncapped@, self.max()@)
    }

    open spec fn ceiling(&self) -> Option<Duration> {
        match self.inner().ceiling() {
            Some(below) if below@ < self.max()@ => Some(below),
            _ => Some(self.max()),
        }
    }

    fn next_wait(&self, state: &RetryState) -> Duration {
        let uncapped = self.inner.next_wait(state);
        assert(self.inner().may_wait(*state, uncapped));
        uncapped.min(self.max)
    }

    fn max_delay(&self) -> Option<Duration> {
        match self.inner.max_delay() {
            Some(below) if below < self.max => Some(below),
            _ => Some(self.max),
        }
    }
}

/// The sum of two strategies. Made by `+` or [`Wait::add`].
#[derive(Clone, Copy, Debug)]
pub struct WaitCombine<A, B> {
    left: A,
    right: B,
}

impl<A, B> WaitCombine<A, B> {
    /// The first summand.
    pub closed spec fn left(self) -> A {
        self.left
    }

    /// The second summand.
    pub closed spec fn right(self) -> B {
        self.right
    }

    /// The sum of `left` and `right`.
    pub closed spec fn of(left: A, right: B) -> WaitCombine<A, B> {
        WaitCombine { left, right }
    }

    /// The sum of `left` and `right`.
    pub fn new(left: A, right: B) -> (r: WaitCombine<A, B>)
        ensures
            r == Self::of(left, right),
            r.left() == left,
            r.right() == right,
    {
        WaitCombine { left, right }
    }
}

impl<A: Wait, B: Wait> Wait for WaitCombine<A, B> {
    open spec fn may_wait(&self, state: RetryState, delay: Duration) -> bool {
        exists|left: Duration, right: Duration|
            #![trigger self.left().may_wait(state, left), self.right().may_wait(state, right)]
            self.left().may_wait(state, left) && self.right().may_wait(state, right) && delay@
                == saturated((left@ + right@) as int)
    }

    /// No cap was put on the sum, whatever its summands carry.
    open spec fn ceiling(&self) -> Option<Duration> {
        None
    }

    fn next_wait(&self, state: &RetryState) -> Duration {
        let left = self.left.next_wait(state);
        let right = self.right.next_wait(state);
        assert(self.left().may_wait(*state, left));
        assert(self.right().may_wait(*state, right));
        left.saturating_add(right)
    }

    fn max_delay(&self) -> Option<Duration> {
        None
    }
}

/// One strategy for the first attempts, another for the rest. Made by
/// [`Wait::chain`].
#[derive(Clone, Copy, Debug)]
pub struct WaitChain<A, B> {
    first: A,
    second: B,
    after: u32,
}

impl<A, B> WaitChain<A, B> {
    /// The strategy of the first attempts.
    pub closed spec fn first(self) -> A {
        self.first
    }

    /// The strategy of the rest.
    pub closed spec fn second(self) -> B {
        self.second
    }

    /// The last attempt of the first strategy.
    pub closed spec fn after(self) -> u32 {
        self.after
    }

    /// `first` up to and including attempt `after`, then `second`.
    pub fn new(first: A, second: B, after: u32) -> (r: WaitChain<A, B>)
        ensures
            r.first() == first,
            r.second() == second,
            r.after() == after,
    {
        WaitChain { first, second, after }
    }
}

impl<A: Wait, B: Wait> Wait for WaitChain<A, B> {
    open spec fn may_wait(&self, state: RetryState, delay: Duration) -> bool {
        if state.attempt <= self.after() {
            self.first().may_wait(state, delay)
        } else {
            self.second().may_wait(state, delay)
        }
    }

    /// No cap was put on the chain, whatever its links carry.
    open spec fn ceiling(&self) -> Option<Duration> {
        None
    }

    fn next_wait(&self, state: &RetryState) -> Duration {
        if state.attempt <= self.after {
            self.first.next_wait(state)
        } else {
            self.second.next_wait(state)
        }
    }

    fn max_delay(&self) -> Option<Duration> {
        None
    }
}

} // verus!
