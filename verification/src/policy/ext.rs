//! Loops that go by a predicate, started from a closure.

use super::execution::async_exec::{AsyncRetryBuilder, AsyncRetryExec, NoAsyncSleep};
use super::execution::hooks::ExecutionHooks;
use super::execution::policy::PredicatePolicy;
use super::execution::sync_exec::{SyncRetryBuilder, SyncRetryExec};
use crate::cancel::CancelNever;
use crate::clock::SystemClock;
use crate::engine::op::StatelessOp;
use crate::predicate::PredicateAnyError;
use crate::stop::StopAfterAttempts;
use crate::wait::WaitExponential;
use core::future::Future;
use vstd::prelude::*;

verus! {

/// A blocking loop over a closure that takes nothing, with everything else as it
/// is by default.
pub type DefaultSyncRetryBuilder<F> = SyncRetryBuilder<
    StopAfterAttempts,
    WaitExponential,
    PredicateAnyError,
    (),
    (),
    (),
    (),
    StatelessOp<F>,
    SystemClock,
>;

/// A loop over a closure that takes nothing and gives futures, with everything
/// else as it is by default.
pub type DefaultAsyncRetryBuilder<F> = AsyncRetryBuilder<
    StopAfterAttempts,
    WaitExponential,
    PredicateAnyError,
    (),
    (),
    (),
    (),
    StatelessOp<F>,
    NoAsyncSleep,
    SystemClock,
>;

/// No hooks.
pub open spec fn no_hooks() -> ExecutionHooks<(), (), (), ()> {
    ExecutionHooks { before_attempt: (), after_attempt: (), before_sleep: (), on_exit: () }
}

/// Starts a blocking loop from a closure that takes nothing.
pub trait RetryExt<T, E>: FnMut() -> Result<T, E> + Sized {
    /// Starts a loop over this closure: three attempts, waits of 100 ms doubling
    /// each time, every error retried.
    fn retry(self) -> (r: DefaultSyncRetryBuilder<Self>)
        ensures
            r@.policy.is_default(),
            r@.hooks == no_hooks(),
            r@.op == StatelessOp(self),
            r@.clock == SystemClock,
            r@.canceler == CancelNever,
            r@.timeout is None,
    ;
}

impl<T, E, F> RetryExt<T, E> for F where F: FnMut() -> Result<T, E> {
    fn retry(self) -> DefaultSyncRetryBuilder<Self> {
        SyncRetryExec::from_policy(PredicatePolicy::new(), StatelessOp(self))
    }
}

/// Starts a loop from a closure that takes nothing and gives a future.
pub trait AsyncRetryExt<T, E, Fut>: FnMut() -> Fut + Sized where
    Fut: Future<Output = Result<T, E>>,
 {
    /// Starts a loop over this closure: three attempts, waits of 100 ms doubling
    /// each time, every error retried.
    fn retry_async(self) -> (r: DefaultAsyncRetryBuilder<Self>)
        ensures
            r@.policy.is_default(),
            r@.hooks == no_hooks(),
            r@.op == StatelessOp(self),
            r@.sleeper == NoAsyncSleep,
            r@.clock == SystemClock,
            r@.canceler == CancelNever,
            r@.timeout is None,
    ;
}

impl<T, E, Fut, F> AsyncRetryExt<T, E, Fut> for F where
    F: FnMut() -> Fut,
    Fut: Future<Output = Result<T, E>>,
 {
    fn retry_async(self) -> DefaultAsyncRetryBuilder<Self> {
        AsyncRetryExec::from_policy(PredicatePolicy::new(), StatelessOp(self))
    }
}

/// A closure starts a loop over itself that makes three attempts, waits 100 ms and then
/// twice as long each time, retries every error, and has no timeout and no canceler but the
/// one that never cancels; blocking or driven.
pub proof fn extensions_start_the_default_loop<T, E, F, G, Fut>(
    op: F,
    made: DefaultSyncRetryBuilder<F>,
    future_op: G,
    driven: DefaultAsyncRetryBuilder<G>,
    state: crate::state::RetryState,
) where F: FnMut() -> Result<T, E>, G: FnMut() -> Fut, Fut: Future<Output = Result<T, E>>
    requires
        call_ensures(<F as RetryExt<T, E>>::retry, (op,), made),
        call_ensures(<G as AsyncRetryExt<T, E, Fut>>::retry_async, (future_op,), driven),
    ensures
        crate::stop::Stop::may_stop(&made@.policy.stop, state, true) <==> state.attempt >= 3,
        made@.policy.wait.initial()@ == 100_000_000,
        made@.policy.wait.factor() == 2,
        made@.op.0 == op,
        made@.timeout is None,
        made@.canceler == CancelNever,
        crate::stop::Stop::may_stop(&driven@.policy.stop, state, true) <==> state.attempt >= 3,
        driven@.policy.wait.initial()@ == 100_000_000,
        driven@.policy.wait.factor() == 2,
        driven@.op.0 == future_op,
        driven@.timeout is None,
        driven@.canceler == CancelNever,
{
}

} // verus!
