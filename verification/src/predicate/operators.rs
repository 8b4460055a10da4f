//! The `|` and `&` operators on predicates.

use super::composition::{PredicateAll, PredicateAny};
use super::{PredicateAnyError, PredicateError, PredicateOk, PredicateResult, PredicateUntil};
use core::ops::{BitAnd, BitOr};
use vstd::prelude::*;

verus! {

impl<Rhs> BitOr<Rhs> for PredicateAnyError {
    type Output = PredicateAny<Self, Rhs>;

    fn bitor(self, rhs: Rhs) -> (r: PredicateAny<Self, Rhs>)
        ensures
            r.left() == self,
            r.right() == rhs,
    {
        PredicateAny::new(self, rhs)
    }
}

impl<Rhs> vstd::std_specs::ops::BitOrSpecImpl<Rhs> for PredicateAnyError {
    open spec fn obeys_bitor_spec() -> bool {
        true
    }

    open spec fn bitor_req(self, rhs: Rhs) -> bool {
        true
    }

    open spec fn bitor_spec(self, rhs: Rhs) -> PredicateAny<Self, Rhs> {
        PredicateAny::of(self, rhs)
    }
}

impl<Rhs> BitAnd<Rhs> for PredicateAnyError {
    type Output = PredicateAll<Self, Rhs>;

    fn bitand(self, rhs: Rhs) -> (r: PredicateAll<Self, Rhs>)
        ensures
            r.left() == self,
            r.right() == rhs,
    {
        PredicateAll::new(self, rhs)
    }
}

impl<Rhs> vstd::std_specs::ops::BitAndSpecImpl<Rhs> for PredicateAnyError {
    open spec fn obeys_bitand_spec() -> bool {
        true
    }

    open spec fn bitand_req(self, rhs: Rhs) -> bool {
        true
    }

    open spec fn bitand_spec(self, rhs: Rhs) -> PredicateAll<Self, Rhs> {
        PredicateAll::of(self, rhs)
    }
}

impl<F, Rhs> BitOr<Rhs> for PredicateError<F> {
    type Output = PredicateAny<Self, Rhs>;

    fn bitor(self, rhs: Rhs) -> (r: PredicateAny<Self, Rhs>)
        ensures
            r.left() == self,
            r.right() == rhs,
    {
        PredicateAny::new(self, rhs)
    }
}

impl<F, Rhs> vstd::std_specs::ops::BitOrSpecImpl<Rhs> for PredicateError<F> {
    open spec fn obeys_bitor_spec() -> bool {
        true
    }

    open spec fn bitor_req(self, rhs: Rhs) -> bool {
        true
    }

    open spec fn bitor_spec(self, rhs: Rhs) -> PredicateAny<Self, Rhs> {
        PredicateAny::of(self, rhs)
    }
}

impl<F, Rhs> BitAnd<Rhs> for PredicateError<F> {
    type Output = PredicateAll<Self, Rhs>;

    fn bitand(self, rhs: Rhs) -> (r: PredicateAll<Self, Rhs>)
        ensures
            r.left() == self,
            r.right() == rhs,
    {
        PredicateAll::new(self, rhs)
    }
}

impl<F, Rhs> vstd::std_specs::ops::BitAndSpecImpl<Rhs> for PredicateError<F> {
    open spec fn obeys_bitand_spec() -> bool {
        true
    }

    open spec fn bitand_req(self, rhs: Rhs) -> bool {
        true
    }

    open spec fn bitand_spec(self, rhs: Rhs) -> PredicateAll<Self, Rhs> {
        PredicateAll::of(self, rhs)
    }
}

impl<F, Rhs> BitOr<Rhs> for PredicateResult<F> {
    type Output = PredicateAny<Self, Rhs>;

    fn bitor(self, rhs: Rhs) -> (r: PredicateAny<Self, Rhs>)
        ensures
            r.left() == self,
            r.right() == rhs,
    {
        PredicateAny::new(self, rhs)
    }
}

impl<F, Rhs> vstd::std_specs::ops::BitOrSpecImpl<Rhs> for PredicateResult<F> {
    open spec fn obeys_bitor_spec() -> bool {
        true
    }

    open spec fn bitor_req(self, rhs: Rhs) -> bool {
        true
    }

    open spec fn bitor_spec(self, rhs: Rhs) -> PredicateAny<Self, Rhs> {
        PredicateAny::of(self, rhs)
    }
}

impl<F, Rhs> BitAnd<Rhs> for PredicateResult<F> {
    type Output = PredicateAll<Self, Rhs>;

    fn bitand(self, rhs: Rhs) -> (r: PredicateAll<Self, Rhs>)
        ensures
            r.left() == self,
            r.right() == rhs,
    {
        PredicateAll::new(self, rhs)
    }
}

impl<F, Rhs> vstd::std_specs::ops::BitAndSpecImpl<Rhs> for PredicateResult<F> {
    open spec fn obeys_bitand_spec() -> bool {
        true
    }

    open spec fn bitand_req(self, rhs: Rhs) -> bool {
        true
    }

    open spec fn bitand_spec(self, rhs: Rhs) -> PredicateAll<Self, Rhs> {
        PredicateAll::of(self, rhs)
    }
}

impl<F, Rhs> BitOr<Rhs> for PredicateOk<F> {
    type Output = PredicateAny<Self, Rhs>;

    fn bitor(self, rhs: Rhs) -> (r: PredicateAny<Self, Rhs>)
        ensures
            r.left() == self,
            r.right() == rhs,
    {
        PredicateAny::new(self, rhs)
    }
}

impl<F, Rhs> vstd::std_specs::ops::BitOrSpecImpl<Rhs> for PredicateOk<F> {
    open spec fn obeys_bitor_spec() -> bool {
        true
    }

    open spec fn bitor_req(self, rhs: Rhs) -> bool {
        true
    }

    open spec fn bitor_spec(self, rhs: Rhs) -> PredicateAny<Self, Rhs> {
        PredicateAny::of(self, rhs)
    }
}

impl<F, Rhs> BitAnd<Rhs> for PredicateOk<F> {
    type Output = PredicateAll<Self, Rhs>;

    fn bitand(self, rhs: Rhs) -> (r: PredicateAll<Self, Rhs>)
        ensures
            r.left() == self,
            r.right() == rhs,
    {
        PredicateAll::new(self, rhs)
    }
}

impl<F, Rhs> vstd::std_specs::ops::BitAndSpecImpl<Rhs> for PredicateOk<F> {
    open spec fn obeys_bitand_spec() -> bool {
        true
    }

    open spec fn bitand_req(self, rhs: Rhs) -> bool {
        true
    }

    open spec fn bitand_spec(self, rhs: Rhs) -> PredicateAll<Self, Rhs> {
        PredicateAll::of(self, rhs)
    }
}

impl<A, B, Rhs> BitOr<Rhs> for PredicateAny<A, B> {
    type Output = PredicateAny<Self, Rhs>;

    fn bitor(self, rhs: Rhs) -> (r: PredicateAny<Self, Rhs>)
        ensures
            r.left() == self,
            r.right() == rhs,
    {
        PredicateAny::new(self, rhs)
    }
}

impl<A, B, Rhs> vstd::std_specs::ops::BitOrSpecImpl<Rhs> for PredicateAny<A, B> {
    open spec fn obeys_bitor_spec() -> bool {
        true
    }

    open spec fn bitor_req(self, rhs: Rhs) -> bool {
        true
    }

    open spec fn bitor_spec(self, rhs: Rhs) -> PredicateAny<Self, Rhs> {
        PredicateAny::of(self, rhs)
    }
}

impl<A, B, Rhs> BitAnd<Rhs> for PredicateAny<A, B> {
    type Output = PredicateAll<Self, Rhs>;

    fn bitand(self, rhs: Rhs) -> (r: PredicateAll<Self, Rhs>)
        ensures
            r.left() == self,
            r.right() == rhs,
    {
        PredicateAll::new(self, rhs)
    }
}

impl<A, B, Rhs> vstd::std_specs::ops::BitAndSpecImpl<Rhs> for PredicateAny<A, B> {
    open spec fn obeys_bitand_spec() -> bool {
        true
    }

    open spec fn bitand_req(self, rhs: Rhs) -> bool {
        true
    }

    open spec fn bitand_spec(self, rhs: Rhs) -> PredicateAll<Self, Rhs> {
        PredicateAll::of(self, rhs)
    }
}

impl<A, B, Rhs> BitOr<Rhs> for PredicateAll<A, B> {
    type Output = PredicateAny<Self, Rhs>;

    fn bitor(self, rhs: Rhs) -> (r: PredicateAny<Self, Rhs>)
        ensures
            r.left() == self,
            r.right() == rhs,
    {
        PredicateAny::new(self, rhs)
    }
}

impl<A, B, Rhs> vstd::std_specs::ops::BitOrSpecImpl<Rhs> for PredicateAll<A, B> {
    open spec fn obeys_bitor_spec() -> bool {
        true
    }

    open spec fn bitor_req(self, rhs: Rhs) -> bool {
        true
    }

    open spec fn bitor_spec(self, rhs: Rhs) -> PredicateAny<Self, Rhs> {
        PredicateAny::of(self, rhs)
    }
}

impl<A, B, Rhs> BitAnd<Rhs> for PredicateAll<A, B> {
    type Output = PredicateAll<Self, Rhs>;

    fn bitand(self, rhs: Rhs) -> (r: PredicateAll<Self, Rhs>)
        ensures
            r.left() == self,
            r.right() == rhs,
    {
        PredicateAll::new(self, rhs)
    }
}

impl<A, B, Rhs> vstd::std_specs::ops::BitAndSpecImpl<Rhs> for PredicateAll<A, B> {
    open spec fn obeys_bitand_spec() -> bool {
        true
    }

    open spec fn bitand_req(self, rhs: Rhs) -> bool {
        true
    }

    open spec fn bitand_spec(self, rhs: Rhs) -> PredicateAll<Self, Rhs> {
        PredicateAll::of(self, rhs)
    }
}

impl<P, Rhs> BitOr<Rhs> for PredicateUntil<P> {
    type Output = PredicateAny<Self, Rhs>;

    fn bitor(self, rhs: Rhs) -> (r: PredicateAny<Self, Rhs>)
        ensures
            r.left() == self,
            r.right() == rhs,
    {
        PredicateAny::new(self, rhs)
    }
}

impl<P, Rhs> vstd::std_specs::ops::BitOrSpecImpl<Rhs> for PredicateUntil<P> {
    open spec fn obeys_bitor_spec() -> bool {
        true
    }

    open spec fn bitor_req(self, rhs: Rhs) -> bool {
        true
    }

    open spec fn bitor_spec(self, rhs: Rhs) -> PredicateAny<Self, Rhs> {
        PredicateAny::of(self, rhs)
    }
}

impl<P, Rhs> BitAnd<Rhs> for PredicateUntil<P> {
    type Output = PredicateAll<Self, Rhs>;

    fn bitand(self, rhs: Rhs) -> (r: PredicateAll<Self, Rhs>)
        ensures
            r.left() == self,
            r.right() == rhs,
    {
        PredicateAll::new(self, rhs)
    }
}

impl<P, Rhs> vstd::std_specs::ops::BitAndSpecImpl<Rhs> for PredicateUntil<P> {
    open spec fn obeys_bitand_spec() -> bool {
        true
    }

    open spec fn bitand_req(self, rhs: Rhs) -> bool {
        true
    }

    open spec fn bitand_spec(self, rhs: Rhs) -> PredicateAll<Self, Rhs> {
        PredicateAll::of(self, rhs)
    }
}

} // verus!
