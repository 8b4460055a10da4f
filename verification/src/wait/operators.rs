//! The `+` operator on wait strategies.

use super::composition::{WaitCapped, WaitChain, WaitCombine};
use super::jitter::Jittered;
use super::strategies::{WaitExponential, WaitFixed, WaitLinear};
use core::ops::Add;
use vstd::prelude::*;

verus! {

impl<Rhs> Add<Rhs> for WaitFixed {
    type Output = WaitCombine<Self, Rhs>;

    fn add(self, rhs: Rhs) -> (r: WaitCombine<Self, Rhs>)
        ensures
            r.left() == self,
            r.right() == rhs,
    {
        WaitCombine::new(self, rhs)
    }
}

impl<Rhs> vstd::std_specs::ops::AddSpecImpl<Rhs> for WaitFixed {
    open spec fn obeys_add_spec() -> bool {
        true
    }

    open spec fn add_req(self, rhs: Rhs) -> bool {
        true
    }

    open spec fn add_spec(self, rhs: Rhs) -> WaitCombine<Self, Rhs> {
        WaitCombine::of(self, rhs)
    }
}

impl<Rhs> Add<Rhs> for WaitLinear {
    type Output = WaitCombine<Self, Rhs>;

    fn add(self, rhs: Rhs) -> (r: WaitCombine<Self, Rhs>)
        ensures
            r.left() == self,
            r.right() == rhs,
    {
        WaitCombine::new(self, rhs)
    }
}

impl<Rhs> vstd::std_specs::ops::AddSpecImpl<Rhs> for WaitLinear {
    open spec fn obeys_add_spec() -> bool {
        true
    }

    open spec fn add_req(self, rhs: Rhs) -> bool {
        true
    }

    open spec fn add_spec(self, rhs: Rhs) -> WaitCombine<Self, Rhs> {
        WaitCombine::of(self, rhs)
    }
}

impl<Rhs> Add<Rhs> for WaitExponential {
    type Output = WaitCombine<Self, Rhs>;

    fn add(self, rhs: Rhs) -> (r: WaitCombine<Self, Rhs>)
        ensures
            r.left() == self,
            r.right() == rhs,
    {
        WaitCombine::new(self, rhs)
    }
}

impl<Rhs> vstd::std_specs::ops::AddSpecImpl<Rhs> for WaitExponential {
    open spec fn obeys_add_spec() -> bool {
        true
    }

    open spec fn add_req(self, rhs: Rhs) -> bool {
        true
    }

    open spec fn add_spec(self, rhs: Rhs) -> WaitCombine<Self, Rhs> {
        WaitCombine::of(self, rhs)
    }
}

impl<A, B, Rhs> Add<Rhs> for WaitCombine<A, B> {
    type Output = WaitCombine<Self, Rhs>;

    fn add(self, rhs: Rhs) -> (r: WaitCombine<Self, Rhs>)
        ensures
            r.left() == self,
            r.right() == rhs,
    {
        WaitCombine::new(self, rhs)
    }
}

impl<A, B, Rhs> vstd::std_specs::ops::AddSpecImpl<Rhs> for WaitCombine<A, B> {
    open spec fn obeys_add_spec() -> bool {
        true
    }

    open spec fn add_req(self, rhs: Rhs) -> bool {
        true
    }

    open spec fn add_spec(self, rhs: Rhs) -> WaitCombine<Self, Rhs> {
        WaitCombine::of(self, rhs)
    }
}

impl<A, B, Rhs> Add<Rhs> for WaitChain<A, B> {
    type Output = WaitCombine<Self, Rhs>;

    fn add(self, rhs: Rhs) -> (r: WaitCombine<Self, Rhs>)
        ensures
            r.left() == self,
            r.right() == rhs,
    {
        WaitCombine::new(self, rhs)
    }
}

impl<A, B, Rhs> vstd::std_specs::ops::AddSpecImpl<Rhs> for WaitChain<A, B> {
    open spec fn obeys_add_spec() -> bool {
        true
    }

    open spec fn add_req(self, rhs: Rhs) -> bool {
        true
    }

    open spec fn add_spec(self, rhs: Rhs) -> WaitCombine<Self, Rhs> {
        WaitCombine::of(self, rhs)
    }
}

impl<W, Rhs> Add<Rhs> for WaitCapped<W> {
    type Output = WaitCombine<Self, Rhs>;

    fn add(self, rhs: Rhs) -> (r: WaitCombine<Self, Rhs>)
        ensures
            r.left() == self,
            r.right() == rhs,
    {
        WaitCombine::new(self, rhs)
    }
}

impl<W, Rhs> vstd::std_specs::ops::AddSpecImpl<Rhs> for WaitCapped<W> {
    open spec fn obeys_add_spec() -> bool {
        true
    }

    open spec fn add_req(self, rhs: Rhs) -> bool {
        true
    }

    open spec fn add_spec(self, rhs: Rhs) -> WaitCombine<Self, Rhs> {
        WaitCombine::of(self, rhs)
    }
}

impl<W, Rhs> Add<Rhs> for Jittered<W> {
    type Output = WaitCombine<Self, Rhs>;

    fn add(self, rhs: Rhs) -> (r: WaitCombine<Self, Rhs>)
        ensures
            r.left() == self,
            r.right() == rhs,
    {
        WaitCombine::new(self, rhs)
    }
}

impl<W, Rhs> vstd::std_specs::ops::AddSpecImpl<Rhs> for Jittered<W> {
    open spec fn obeys_add_spec() -> bool {
        true
    }

    open spec fn add_req(self, rhs: Rhs) -> bool {
        true
    }

    open spec fn add_spec(self, rhs: Rhs) -> WaitCombine<Self, Rhs> {
        WaitCombine::of(self, rhs)
    }
}

} // verus!
