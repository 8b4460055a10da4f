//! Operations that are retried.

use crate::state::RetryState;
use vstd::prelude::*;

verus! {

/// An operation that a loop can call again and again.
pub trait RetryOp: Sized {
    /// What a call gives.
    type Output;

    /// Whether this operation may be called, now and after every call.
    open spec fn ready(&self) -> bool {
        true
    }

    /// Whether a call with `state` may give `output` and leave the operation as
    /// `post`. A type that does not say leaves it open.
    open spec fn yields(&self, state: RetryState, output: Self::Output, post: Self) -> bool {
        true
    }

    /// Calls the operation.
    fn call_op(&mut self, state: RetryState) -> (r: Self::Output)
        requires
            old(self).ready(),
        ensures
            old(self).yields(state, r, *final(self)),
            final(self).ready(),
    ;
}

/// Calls `op` once `done` is at hand.
pub fn call_after<F: RetryOp, X>(op: &mut F, done: &X, state: RetryState) -> (r: F::Output)
    requires
        old(op).ready(),
    ensures
        old(op).yields(state, r, *final(op)),
        final(op).ready(),
{
    op.call_op(state)
}

/// Whether `op` was called with `state` and gave `output` once `done` was at hand. What
/// comes of other work is at hand only when that work is over, so this says in which order
/// the two went.
pub open spec fn called_after<F: RetryOp, X>(
    op: F,
    done: X,
    state: RetryState,
    output: F::Output,
) -> bool {
    exists|lent: &mut F| #[trigger]
        call_ensures(call_after::<F, X>, (lent, &done, state), output) && *lent == op
}

impl<F, O> RetryOp for F where F: FnMut(RetryState) -> O {
    type Output = O;

    open spec fn ready(&self) -> bool {
        forall|state: RetryState| call_requires(*self, (state,))
    }

    open spec fn yields(&self, state: RetryState, output: O, post: Self) -> bool {
        call_ensures(*self, (state,), output) && post == *self
    }

    fn call_op(&mut self, state: RetryState) -> O {
        (self)(state)
    }
}

/// An operation that does not look at the state.
pub struct StatelessOp<F>(pub F);

impl<F, O> RetryOp for StatelessOp<F> where F: FnMut() -> O {
    type Output = O;

    open spec fn ready(&self) -> bool {
        call_requires(self.0, ())
    }

    open spec fn yields(&self, state: RetryState, output: O, post: Self) -> bool {
        call_ensures(self.0, (), output) && post == *self
    }

    fn call_op(&mut self, state: RetryState) -> O {
        (self.0)()
    }
}

/// An operation called after something is called with that at hand.
pub proof fn what_comes_after_is_called_after<F: RetryOp, X>(
    op: F,
    done: X,
    state: RetryState,
    output: F::Output,
)
    requires
        called_after(op, done, state, output),
    ensures
        exists|lent: &mut F| #[trigger]
            call_ensures(call_after::<F, X>, (lent, &done, state), output) && *lent == op,
{
}

} // verus!
