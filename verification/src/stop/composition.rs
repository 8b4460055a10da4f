//! Stop strategies made of two others.

use super::strategies::{StopAfterAttempts, StopAfterElapsed, StopBeforeElapsed, StopNever};
use super::Stop;
use crate::state::RetryState;
use core::ops::{BitAnd, BitOr};
use vstd::prelude::*;

verus! {

/// Stops when either of two strategies does.
#[derive(Clone, Copy, Debug)]
pub struct StopAny<A, B> {
    left: A,
    right: B,
}

impl<A, B> StopAny<A, B> {
    /// The first strategy.
    pub closed spec fn left(self) -> A {
        self.left
    }

    /// The second strategy.
    pub closed spec fn right(self) -> B {
        self.right
    }

    /// The composite of `left` and `right`.
    pub closed spec fn of(left: A, right: B) -> StopAny<A, B> {
        StopAny { left, right }
    }

    /// The composite of `left` and `right`.
    pub fn new(left: A, right: B) -> (r: StopAny<A, B>)
        ensures
            r == Self::of(left, right),
            r.left() == left,
            r.right() == right,
    {
        StopAny { left, right }
    }
}

impl<A: Stop, B: Stop> Stop for StopAny<A, B> {
    open spec fn may_stop(&self, state: RetryState, stop: bool) -> bool {
        exists|left: bool, right: bool|
            #![trigger self.left().may_stop(state, left), self.right().may_stop(state, right)]
            self.left().may_stop(state, left) && self.right().may_stop(state, right) && stop == (
            left || right)
    }

    /// Asks both strategies every time.
    fn should_stop(&self, state: &RetryState) -> bool {
        let left = self.left.should_stop(state);
        let right = self.right.should_stop(state);
        assert(self.left().may_stop(*state, left));
        assert(self.right().may_stop(*state, right));
        left || right
    }
}

/// Stops when both of two strategies do.
#[derive(Clone, Copy, Debug)]
pub struct StopAll<A, B> {
    left: A,
    right: B,
}

impl<A, B> StopAll<A, B> {
    /// The first strategy.
    pub closed spec fn left(self) -> A {
        self.left
    }

    /// The second strategy.
    pub closed spec fn right(self) -> B {
        self.right
    }

    /// The composite of `left` and `right`.
    pub closed spec fn of(left: A, right: B) -> StopAll<A, B> {
        StopAll { left, right }
    }

    /// The composite of `left` and `right`.
    pub fn new(left: A, right: B) -> (r: StopAll<A, B>)
        ensures
            r == Self::of(left, right),
            r.left() == left,
            r.right() == right,
    {
        StopAll { left, right }
    }
}

impl<A: Stop, B: Stop> Stop for StopAll<A, B> {
    open spec fn may_stop(&self, state: RetryState, stop: bool) -> bool {
        exists|left: bool, right: bool|
            #![trigger self.left().may_stop(state, left), self.right().may_stop(state, right)]
            self.left().may_stop(state, left) && self.right().may_stop(state, right) && stop == (
            left && right)
    }

    /// Asks both strategies every time.
    fn should_stop(&self, state: &RetryState) -> bool {
        let left = self.left.should_stop(state);
        let right = self.right.should_stop(state);
        assert(self.left().may_stop(*state, left));
        assert(self.right().may_stop(*state, right));
        left && right
    }
}

impl<Rhs> BitOr<Rhs> for StopAfterAttempts {
    type Output = StopAny<Self, Rhs>;

    fn bitor(self, rhs: Rhs) -> (r: StopAny<Self, Rhs>)
        ensures
            r.left() == self,
            r.right() == rhs,
    {
        StopAny::new(self, rhs)
    }
}

impl<Rhs> vstd::std_specs::ops::BitOrSpecImpl<Rhs> for StopAfterAttempts {
    open spec fn obeys_bitor_spec() -> bool {
        true
    }

    open spec fn bitor_req(self, rhs: Rhs) -> bool {
        true
    }

    open spec fn bitor_spec(self, rhs: Rhs) -> StopAny<Self, Rhs> {
        StopAny::of(self, rhs)
    }
}

impl<Rhs> BitAnd<Rhs> for StopAfterAttempts {
    type Output = StopAll<Self, Rhs>;

    fn bitand(self, rhs: Rhs) -> (r: StopAll<Self, Rhs>)
        ensures
            r.left() == self,
            r.right() == rhs,
    {
        StopAll::new(self, rhs)
    }
}

impl<Rhs> vstd::std_specs::ops::BitAndSpecImpl<Rhs> for StopAfterAttempts {
    open spec fn obeys_bitand_spec() -> bool {
        true
    }

    open spec fn bitand_req(self, rhs: Rhs) -> bool {
        true
    }

    open spec fn bitand_spec(self, rhs: Rhs) -> StopAll<Self, Rhs> {
        StopAll::of(self, rhs)
    }
}

impl<Rhs> BitOr<Rhs> for StopAfterElapsed {
    type Output = StopAny<Self, Rhs>;

    fn bitor(self, rhs: Rhs) -> (r: StopAny<Self, Rhs>)
        ensures
            r.left() == self,
            r.right() == rhs,
    {
        StopAny::new(self, rhs)
    }
}

impl<Rhs> vstd::std_specs::ops::BitOrSpecImpl<Rhs> for StopAfterElapsed {
    open spec fn obeys_bitor_spec() -> bool {
        true
    }

    open spec fn bitor_req(self, rhs: Rhs) -> bool {
        true
    }

    open spec fn bitor_spec(self, rhs: Rhs) -> StopAny<Self, Rhs> {
        StopAny::of(self, rhs)
    }
}

impl<Rhs> BitAnd<Rhs> for StopAfterElapsed {
    type Output = StopAll<Self, Rhs>;

    fn bitand(self, rhs: Rhs) -> (r: StopAll<Self, Rhs>)
        ensures
            r.left() == self,
            r.right() == rhs,
    {
        StopAll::new(self, rhs)
    }
}

impl<Rhs> vstd::std_specs::ops::BitAndSpecImpl<Rhs> for StopAfterElapsed {
    open spec fn obeys_bitand_spec() -> bool {
        true
    }

    open spec fn bitand_req(self, rhs: Rhs) -> bool {
        true
    }

    open spec fn bitand_spec(self, rhs: Rhs) -> StopAll<Self, Rhs> {
        StopAll::of(self, rhs)
    }
}

impl<Rhs> BitOr<Rhs> for StopBeforeElapsed {
    type Output = StopAny<Self, Rhs>;

    fn bitor(self, rhs: Rhs) -> (r: StopAny<Self, Rhs>)
        ensures
            r.left() == self,
            r.right() == rhs,
    {
        StopAny::new(self, rhs)
    }
}

impl<Rhs> vstd::std_specs::ops::BitOrSpecImpl<Rhs> for StopBeforeElapsed {
    open spec fn obeys_bitor_spec() -> bool {
        true
    }

    open spec fn bitor_req(self, rhs: Rhs) -> bool {
        true
    }

    open spec fn bitor_spec(self, rhs: Rhs) -> StopAny<Self, Rhs> {
        StopAny::of(self, rhs)
    }
}

impl<Rhs> BitAnd<Rhs> for StopBeforeElapsed {
    type Output = StopAll<Self, Rhs>;

    fn bitand(self, rhs: Rhs) -> (r: StopAll<Self, Rhs>)
        ensures
            r.left() == self,
            r.right() == rhs,
    {
        StopAll::new(self, rhs)
    }
}

impl<Rhs> vstd::std_specs::ops::BitAndSpecImpl<Rhs> for StopBeforeElapsed {
    open spec fn obeys_bitand_spec() -> bool {
        true
    }

    open spec fn bitand_req(self, rhs: Rhs) -> bool {
        true
    }

    open spec fn bitand_spec(self, rhs: Rhs) -> StopAll<Self, Rhs> {
        StopAll::of(self, rhs)
    }
}

impl<Rhs> BitOr<Rhs> for StopNever {
    type Output = StopAny<Self, Rhs>;

    fn bitor(self, rhs: Rhs) -> (r: StopAny<Self, Rhs>)
        ensures
            r.left() == self,
            r.right() == rhs,
    {
        StopAny::new(self, rhs)
    }
}

impl<Rhs> vstd::std_specs::ops::BitOrSpecImpl<Rhs> for StopNever {
    open spec fn obeys_bitor_spec() -> bool {
        true
    }

    open spec fn bitor_req(self, rhs: Rhs) -> bool {
        true
    }

    open spec fn bitor_spec(self, rhs: Rhs) -> StopAny<Self, Rhs> {
        StopAny::of(self, rhs)
    }
}

impl<Rhs> BitAnd<Rhs> for StopNever {
    type Output = StopAll<Self, Rhs>;

    fn bitand(self, rhs: Rhs) -> (r: StopAll<Self, Rhs>)
        ensures
            r.left() == self,
            r.right() == rhs,
    {
        StopAll::new(self, rhs)
    }
}

impl<Rhs> vstd::std_specs::ops::BitAndSpecImpl<Rhs> for StopNever {
    open spec fn obeys_bitand_spec() -> bool {
        true
    }

    open spec fn bitand_req(self, rhs: Rhs) -> bool {
        true
    }

    open spec fn bitand_spec(self, rhs: Rhs) -> StopAll<Self, Rhs> {
        StopAll::of(self, rhs)
    }
}

impl<A, B, Rhs> BitOr<Rhs> for StopAny<A, B> {
    type Output = StopAny<Self, Rhs>;

    fn bitor(self, rhs: Rhs) -> (r: StopAny<Self, Rhs>)
        ensures
            r.left() == self,
            r.right() == rhs,
    {
        StopAny::new(self, rhs)
    }
}

impl<A, B, Rhs> vstd::std_specs::ops::BitOrSpecImpl<Rhs> for StopAny<A, B> {
    open spec fn obeys_bitor_spec() -> bool {
        true
    }

    open spec fn bitor_req(self, rhs: Rhs) -> bool {
        true
    }

    open spec fn bitor_spec(self, rhs: Rhs) -> StopAny<Self, Rhs> {
        StopAny::of(self, rhs)
    }
}

impl<A, B, Rhs> BitAnd<Rhs> for StopAny<A, B> {
    type Output = StopAll<Self, Rhs>;

    fn bitand(self, rhs: Rhs) -> (r: StopAll<Self, Rhs>)
        ensures
            r.left() == self,
            r.right() == rhs,
    {
        StopAll::new(self, rhs)
    }
}

impl<A, B, Rhs> vstd::std_specs::ops::BitAndSpecImpl<Rhs> for StopAny<A, B> {
    open spec fn obeys_bitand_spec() -> bool {
        true
    }

    open spec fn bitand_req(self, rhs: Rhs) -> bool {
        true
    }

    open spec fn bitand_spec(self, rhs: Rhs) -> StopAll<Self, Rhs> {
        StopAll::of(self, rhs)
    }
}

impl<A, B, Rhs> BitOr<Rhs> for StopAll<A, B> {
    type Output = StopAny<Self, Rhs>;

    fn bitor(self, rhs: Rhs) -> (r: StopAny<Self, Rhs>)
        ensures
            r.left() == self,
            r.right() == rhs,
    {
        StopAny::new(self, rhs)
    }
}

impl<A, B, Rhs> vstd::std_specs::ops::BitOrSpecImpl<Rhs> for StopAll<A, B> {
    open spec fn obeys_bitor_spec() -> bool {
        true
    }

    open spec fn bitor_req(self, rhs: Rhs) -> bool {
        true
    }

    open spec fn bitor_spec(self, rhs: Rhs) -> StopAny<Self, Rhs> {
        StopAny::of(self, rhs)
    }
}

impl<A, B, Rhs> BitAnd<Rhs> for StopAll<A, B> {
    type Output = StopAll<Self, Rhs>;

    fn bitand(self, rhs: Rhs) -> (r: StopAll<Self, Rhs>)
        ensures
            r.left() == self,
            r.right() == rhs,
    {
        StopAll::new(self, rhs)
    }
}

impl<A, B, Rhs> vstd::std_specs::ops::BitAndSpecImpl<Rhs> for StopAll<A, B> {
    open spec fn obeys_bitand_spec() -> bool {
        true
    }

    open spec fn bitand_req(self, rhs: Rhs) -> bool {
        true
    }

    open spec fn bitand_spec(self, rhs: Rhs) -> StopAll<Self, Rhs> {
        StopAll::of(self, rhs)
    }
}

} // verus!
