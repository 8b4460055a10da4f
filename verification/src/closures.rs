//! What becomes of closures that are handed to the library.
//!
//! The type of a closure does not tell a proof what the closure returns, so an
//! operation or a strategy made of one is not known by its closure at once. Each
//! function here settles that for one sort of them, whatever the closure: a caller
//! that has handed one in calls the function, and knows the operation or the strategy
//! by its closure from there on.

use crate::clock::{Clock, ClockFn};
use crate::decision::{settled, ClosureClassifier, Decide, IntoDecision, Until, Verdict, When};
use crate::duration::Duration;
use crate::engine::async_engine::AsyncRetryOp;
use crate::engine::hooks::{
    attempt_told_after, before_told_after, exit_told_after, AttemptHook, BeforeAttemptHook,
    ExitHook, HookChain,
};
use crate::engine::op::{RetryOp, StatelessOp};
use crate::engine::state::{AttemptState, Exit};
use crate::on::{ErrorPredicate, OkPredicate, ResultPredicate, UntilReadyPredicate};
use crate::policy::execution::hooks::{
    attempt_told_after as policy_attempt_told_after, exit_told_after as policy_exit_told_after,
    AttemptHook as PolicyAttemptHook, ExitHook as PolicyExitHook, HookChain as PolicyHookChain,
};
use crate::policy::execution::state::{AttemptState as PolicyAttempt, ExitState};
use crate::predicate::{
    Predicate, PredicateAll, PredicateAny, PredicateError, PredicateOk, PredicateResult,
    PredicateUntil,
};
use crate::state::RetryState;
use core::future::Future;
use vstd::prelude::*;

verus! {

/// A closure that is an operation is called with the state of the attempt.
pub proof fn op_yields<O, F: FnMut(RetryState) -> O>(op: F)
    ensures
        RetryOp::ready(&op) == forall|state: RetryState| call_requires(op, (state,)),
        forall|state: RetryState, output: O, post: F| #[trigger]
            RetryOp::yields(&op, state, output, post) == (call_ensures(op, (state,), output)
                && post == op),
{
}

/// A closure that takes nothing and is an operation is called with nothing.
pub proof fn stateless_op_yields<O, F: FnMut() -> O>(op: StatelessOp<F>)
    ensures
        RetryOp::ready(&op) == call_requires(op.0, ()),
        forall|state: RetryState, output: O, post: StatelessOp<F>| #[trigger]
            RetryOp::yields(&op, state, output, post) == (call_ensures(op.0, (), output) && post
                == op),
{
}

/// A closure that gives futures and is an operation is called with the state of the
/// attempt.
pub proof fn async_op_makes<O, Fut: Future<Output = O>, F: FnMut(RetryState) -> Fut>(op: F)
    ensures
        AsyncRetryOp::ready(&op) == forall|state: RetryState| call_requires(op, (state,)),
        forall|state: RetryState, future: Fut, post: F| #[trigger]
            AsyncRetryOp::makes(&op, state, future, post) == (call_ensures(op, (state,), future)
                && post == op),
{
}

/// A closure that takes nothing, gives futures and is an operation is called with nothing.
pub proof fn stateless_async_op_makes<O, Fut: Future<Output = O>, F: FnMut() -> Fut>(
    op: StatelessOp<F>,
)
    ensures
        AsyncRetryOp::ready(&op) == call_requires(op.0, ()),
        forall|state: RetryState, future: Fut, post: StatelessOp<F>| #[trigger]
            AsyncRetryOp::makes(&op, state, future, post) == (call_ensures(op.0, (), future)
                && post == op),
{
}

/// A closure that is a predicate is asked about the whole outcome.
pub proof fn closure_answers<T, E, F: Fn(&Result<T, E>) -> bool>(predicate: F)
    ensures
        forall|outcome: Result<T, E>| #[trigger]
            predicate.askable(outcome) == call_requires(predicate, (&outcome,)),
        forall|outcome: Result<T, E>, retry: bool| #[trigger]
            predicate.may_answer(outcome, retry) == call_ensures(predicate, (&outcome,), retry),
{
}

/// `predicate::error(f)` asks `f` about errors and retries no value.
pub proof fn error_answers<T, E, F: Fn(&E) -> bool>(predicate: PredicateError<F>)
    ensures
        forall|outcome: Result<T, E>| #[trigger]
            predicate.askable(outcome) == (outcome matches Err(error) ==> call_requires(
                predicate.matcher(),
                (&error,),
            )),
        forall|outcome: Result<T, E>, retry: bool| #[trigger]
            predicate.may_answer(outcome, retry) == match outcome {
                Ok(_) => !retry,
                Err(error) => call_ensures(predicate.matcher(), (&error,), retry),
            },
{
}

/// `predicate::result(f)` asks `f` about the whole outcome.
pub proof fn result_answers<T, E, F: Fn(&Result<T, E>) -> bool>(predicate: PredicateResult<F>)
    ensures
        forall|outcome: Result<T, E>| #[trigger]
            predicate.askable(outcome) == call_requires(predicate.matcher(), (&outcome,)),
        forall|outcome: Result<T, E>, retry: bool| #[trigger]
            predicate.may_answer(outcome, retry) == call_ensures(
                predicate.matcher(),
                (&outcome,),
                retry,
            ),
{
}

/// `predicate::ok(f)` asks `f` about values and retries no error.
pub proof fn ok_answers<T, E, F: Fn(&T) -> bool>(predicate: PredicateOk<F>)
    ensures
        forall|outcome: Result<T, E>| #[trigger]
            predicate.askable(outcome) == (outcome matches Ok(value) ==> call_requires(
                predicate.matcher(),
                (&value,),
            )),
        forall|outcome: Result<T, E>, retry: bool| #[trigger]
            predicate.may_answer(outcome, retry) == match outcome {
                Ok(value) => call_ensures(predicate.matcher(), (&value,), retry),
                Err(_) => !retry,
            },
{
}

/// `on::error(f)` asks `f` about errors and retries no value.
pub proof fn on_error_answers<T, E, F: Fn(&E) -> bool>(predicate: ErrorPredicate<F>)
    ensures
        forall|outcome: Result<T, E>| #[trigger]
            predicate.askable(outcome) == (outcome matches Err(error) ==> call_requires(
                predicate.matcher(),
                (&error,),
            )),
        forall|outcome: Result<T, E>, retry: bool| #[trigger]
            predicate.may_answer(outcome, retry) == match outcome {
                Ok(_) => !retry,
                Err(error) => call_ensures(predicate.matcher(), (&error,), retry),
            },
{
}

/// `on::result(f)` asks `f` about the whole outcome.
pub proof fn on_result_answers<T, E, F: Fn(&Result<T, E>) -> bool>(predicate: ResultPredicate<F>)
    ensures
        forall|outcome: Result<T, E>| #[trigger]
            predicate.askable(outcome) == call_requires(predicate.matcher(), (&outcome,)),
        forall|outcome: Result<T, E>, retry: bool| #[trigger]
            predicate.may_answer(outcome, retry) == call_ensures(
                predicate.matcher(),
                (&outcome,),
                retry,
            ),
{
}

/// `on::ok(f)` asks `f` about values and retries no error.
pub proof fn on_ok_answers<T, E, F: Fn(&T) -> bool>(predicate: OkPredicate<F>)
    ensures
        forall|outcome: Result<T, E>| #[trigger]
            predicate.askable(outcome) == (outcome matches Ok(value) ==> call_requires(
                predicate.matcher(),
                (&value,),
            )),
        forall|outcome: Result<T, E>, retry: bool| #[trigger]
            predicate.may_answer(outcome, retry) == match outcome {
                Ok(value) => call_ensures(predicate.matcher(), (&value,), retry),
                Err(_) => !retry,
            },
{
}

/// `on::until_ready(f)` asks `f` about values, retries those that are not ready, and
/// retries every error.
pub proof fn until_ready_answers<T, E, F: Fn(&T) -> bool>(predicate: UntilReadyPredicate<F>)
    ensures
        forall|outcome: Result<T, E>| #[trigger]
            predicate.askable(outcome) == (outcome matches Ok(value) ==> call_requires(
                predicate.is_ready(),
                (&value,),
            )),
        forall|outcome: Result<T, E>, retry: bool| #[trigger]
            predicate.may_answer(outcome, retry) == match outcome {
                Ok(value) => call_ensures(predicate.is_ready(), (&value,), !retry),
                Err(_) => retry,
            },
{
}

/// `until(p)` asks `p` and answers the opposite.
pub proof fn until_answers<T, E, P: Predicate<T, E>>(predicate: PredicateUntil<P>)
    ensures
        forall|outcome: Result<T, E>| #[trigger]
            predicate.askable(outcome) == predicate.inner().askable(outcome),
        forall|outcome: Result<T, E>, retry: bool| #[trigger]
            predicate.may_answer(outcome, retry) == predicate.inner().may_answer(outcome, !retry),
{
}

/// `a | b` asks `a`, and `b` where `a` says no.
pub proof fn any_answers<T, E, A: Predicate<T, E>, B: Predicate<T, E>>(
    predicate: PredicateAny<A, B>,
)
    ensures
        forall|outcome: Result<T, E>| #[trigger]
            predicate.askable(outcome) == (predicate.left().askable(outcome)
                && predicate.right().askable(outcome)),
        forall|outcome: Result<T, E>, retry: bool| #[trigger]
            predicate.may_answer(outcome, retry) == (predicate.left().may_answer(outcome, true)
                && retry || predicate.left().may_answer(outcome, false)
                && predicate.right().may_answer(outcome, retry)),
{
}

/// `a & b` asks `a`, and `b` where `a` says yes.
pub proof fn all_answers<T, E, A: Predicate<T, E>, B: Predicate<T, E>>(
    predicate: PredicateAll<A, B>,
)
    ensures
        forall|outcome: Result<T, E>| #[trigger]
            predicate.askable(outcome) == (predicate.left().askable(outcome)
                && predicate.right().askable(outcome)),
        forall|outcome: Result<T, E>, retry: bool| #[trigger]
            predicate.may_answer(outcome, retry) == (predicate.left().may_answer(outcome, false)
                && !retry || predicate.left().may_answer(outcome, true)
                && predicate.right().may_answer(outcome, retry)),
{
}

/// A loop with `.decide(f)` goes by the verdict that `f` returns.
pub proof fn closure_decides<O, D: IntoDecision<O>, F: Fn(O) -> D>(classifier: ClosureClassifier<F>)
    ensures
        forall|outcome: O| #[trigger]
            classifier.askable(outcome) == call_requires(classifier.0, (outcome,)),
        forall|outcome: O, verdict: Verdict<D::R, D::A, O>| #[trigger]
            classifier.may_decide(outcome, verdict) == exists|decision: D| #[trigger]
                call_ensures(classifier.0, (outcome,), decision) && verdict
                    == decision.as_verdict(),
{
}

/// A loop with `.when(p)` settles what `p` would not retry.
pub proof fn when_decides<T, E, P: Predicate<T, E>>(classifier: When<P>)
    ensures
        forall|outcome: Result<T, E>| #[trigger]
            classifier.askable(outcome) == classifier.predicate().askable(outcome),
        forall|outcome: Result<T, E>, verdict: Verdict<T, E, Result<T, E>>| #[trigger]
            classifier.may_decide(outcome, verdict) == exists|retry: bool| #[trigger]
                classifier.predicate().may_answer(outcome, retry) && verdict == settled(
                    outcome,
                    retry,
                ),
{
}

/// A loop with `.until(p)` settles what satisfies `p`.
pub proof fn until_decides<T, E, P: Predicate<T, E>>(classifier: Until<P>)
    ensures
        forall|outcome: Result<T, E>| #[trigger]
            classifier.askable(outcome) == classifier.predicate().askable(outcome),
        forall|outcome: Result<T, E>, verdict: Verdict<T, E, Result<T, E>>| #[trigger]
            classifier.may_decide(outcome, verdict) == exists|satisfied: bool| #[trigger]
                classifier.predicate().may_answer(outcome, satisfied) && verdict == settled(
                    outcome,
                    !satisfied,
                ),
{
}

/// A loop from a shared policy goes by the classifier of the policy.
pub proof fn shared_decides<O, R, A, C: Decide<O, R = R, A = A>>(classifier: &C)
    ensures
        forall|outcome: O| #[trigger]
            Decide::<O>::askable(&classifier, outcome) == Decide::<O>::askable(classifier, outcome),
        forall|outcome: O, verdict: Verdict<R, A, O>| #[trigger]
            Decide::<O>::may_decide(&classifier, outcome, verdict) == Decide::<O>::may_decide(
                classifier,
                outcome,
                verdict,
            ),
{
}

/// A clock made of a closure reads what the closure gives.
pub proof fn closure_reads<K: Fn() -> Duration>(clock: ClockFn<K>)
    ensures
        forall|post: ClockFn<K>, now: Duration| #[trigger]
            clock.reads(post, now) == (post == clock && call_ensures(clock.read(), (), now)),
{
}

/// A closure before each attempt is called with the state of the attempt.
pub proof fn before_attempt_fires<F: FnMut(&RetryState)>(hook: F)
    ensures
        BeforeAttemptHook::armed(&hook) == forall|state: &RetryState|
            call_requires(hook, (state,)),
        forall|state: RetryState, post: F| #[trigger]
            BeforeAttemptHook::fires(&hook, state, post) == (call_ensures(
                hook,
                (&state,),
                (),
            ) && post == hook),
{
}

/// Two hooks before each attempt of a loop by verdicts are both called, in the
/// order they were added.
pub proof fn before_attempts_fire<First: BeforeAttemptHook, Second: BeforeAttemptHook>(
    chain: HookChain<First, Second>,
)
    ensures
        BeforeAttemptHook::armed(&chain) == (BeforeAttemptHook::armed(&chain.first())
            && BeforeAttemptHook::armed(&chain.second())),
        forall|state: RetryState, post: HookChain<First, Second>| #[trigger]
            BeforeAttemptHook::fires(&chain, state, post) == (
            BeforeAttemptHook::fires(&chain.first(), state, post.first())
                && BeforeAttemptHook::fires(&chain.second(), state, post.second())
                && before_told_after(chain.second(), post.first(), state)),
{
}

/// A closure after each attempt of a loop by verdicts is called with the state of the
/// attempt.
pub proof fn after_attempt_fires<O, F: for<'a> FnMut(&AttemptState<'a, O>)>(hook: F)
    ensures
        AttemptHook::<O>::armed(&hook) == forall|state: &AttemptState<O>|
            call_requires(hook, (state,)),
        forall|state: AttemptState<O>, post: F| #[trigger]
            AttemptHook::<O>::fires(&hook, state, post) == (call_ensures(
                hook,
                (&state,),
                (),
            ) && post == hook),
{
}

/// Two hooks after each attempt of a loop by verdicts are both called, in the
/// order they were added.
pub proof fn after_attempts_fire<O, First: AttemptHook<O>, Second: AttemptHook<O>>(
    chain: HookChain<First, Second>,
)
    ensures
        AttemptHook::<O>::armed(&chain) == (AttemptHook::<O>::armed(&chain.first())
            && AttemptHook::<O>::armed(&chain.second())),
        forall|state: AttemptState<O>, post: HookChain<First, Second>| #[trigger]
            AttemptHook::<O>::fires(&chain, state, post) == (
            AttemptHook::<O>::fires(&chain.first(), state, post.first())
                && AttemptHook::<O>::fires(&chain.second(), state, post.second())
                && attempt_told_after(chain.second(), post.first(), state)),
{
}

/// A closure at the end of a loop by verdicts is called with how it ended.
pub proof fn exit_fires<R, A, O, F: for<'a> FnMut(&Exit<'a, R, A, O>)>(hook: F)
    ensures
        ExitHook::<R, A, O>::armed(&hook) == forall|exit: &Exit<R, A, O>|
            call_requires(hook, (exit,)),
        forall|exit: Exit<R, A, O>, post: F| #[trigger]
            ExitHook::<R, A, O>::fires(&hook, exit, post) == (call_ensures(
                hook,
                (&exit,),
                (),
            ) && post == hook),
{
}

/// Two hooks at the end of a loop by verdicts are both called, in the
/// order they were added.
pub proof fn exits_fire<R, A, O, First: ExitHook<R, A, O>, Second: ExitHook<R, A, O>>(
    chain: HookChain<First, Second>,
)
    ensures
        ExitHook::<R, A, O>::armed(&chain) == (ExitHook::<R, A, O>::armed(&chain.first())
            && ExitHook::<R, A, O>::armed(&chain.second())),
        forall|exit: Exit<R, A, O>, post: HookChain<First, Second>| #[trigger]
            ExitHook::<R, A, O>::fires(&chain, exit, post) == (
            ExitHook::<R, A, O>::fires(&chain.first(), exit, post.first())
                && ExitHook::<R, A, O>::fires(&chain.second(), exit, post.second())
                && exit_told_after(chain.second(), post.first(), exit)),
{
}

/// Two hooks before each attempt of a loop by a predicate are both called, in the
/// order they were added.
pub proof fn policy_before_attempts_fire<First: BeforeAttemptHook, Second: BeforeAttemptHook>(
    chain: PolicyHookChain<First, Second>,
)
    ensures
        BeforeAttemptHook::armed(&chain) == (BeforeAttemptHook::armed(&chain.first())
            && BeforeAttemptHook::armed(&chain.second())),
        forall|state: RetryState, post: PolicyHookChain<First, Second>| #[trigger]
            BeforeAttemptHook::fires(&chain, state, post) == (
            BeforeAttemptHook::fires(&chain.first(), state, post.first())
                && BeforeAttemptHook::fires(&chain.second(), state, post.second())
                && before_told_after(chain.second(), post.first(), state)),
{
}

/// A closure after each attempt of a loop by a predicate, or before each of its waits, is
/// called with the state of the attempt.
pub proof fn policy_attempt_fires<T, E, F: for<'a> FnMut(&PolicyAttempt<'a, T, E>)>(hook: F)
    ensures
        PolicyAttemptHook::<T, E>::armed(&hook) == forall|state: &PolicyAttempt<T, E>|
            call_requires(hook, (state,)),
        forall|state: PolicyAttempt<T, E>, post: F| #[trigger]
            PolicyAttemptHook::<T, E>::fires(&hook, state, post) == (call_ensures(
                hook,
                (&state,),
                (),
            ) && post == hook),
{
}

/// Two such hooks of a loop by a predicate are both called, in the
/// order they were added.
pub proof fn policy_attempts_fire<T, E, First: PolicyAttemptHook<T, E>, Second: PolicyAttemptHook<T, E>>(
    chain: PolicyHookChain<First, Second>,
)
    ensures
        PolicyAttemptHook::<T, E>::armed(&chain) == (PolicyAttemptHook::<T, E>::armed(&chain.first())
            && PolicyAttemptHook::<T, E>::armed(&chain.second())),
        forall|state: PolicyAttempt<T, E>, post: PolicyHookChain<First, Second>| #[trigger]
            PolicyAttemptHook::<T, E>::fires(&chain, state, post) == (
            PolicyAttemptHook::<T, E>::fires(&chain.first(), state, post.first())
                && PolicyAttemptHook::<T, E>::fires(&chain.second(), state, post.second())
                && policy_attempt_told_after(chain.second(), post.first(), state)),
{
}

/// A closure at the end of a loop by a predicate is called with how it ended.
pub proof fn policy_exit_fires<T, E, F: for<'a> FnMut(&ExitState<'a, T, E>)>(hook: F)
    ensures
        PolicyExitHook::<T, E>::armed(&hook) == forall|exit: &ExitState<T, E>|
            call_requires(hook, (exit,)),
        forall|exit: ExitState<T, E>, post: F| #[trigger]
            PolicyExitHook::<T, E>::fires(&hook, exit, post) == (call_ensures(
                hook,
                (&exit,),
                (),
            ) && post == hook),
{
}

/// Two hooks at the end of a loop by a predicate are both called, in the
/// order they were added.
pub proof fn policy_exits_fire<T, E, First: PolicyExitHook<T, E>, Second: PolicyExitHook<T, E>>(
    chain: PolicyHookChain<First, Second>,
)
    ensures
        PolicyExitHook::<T, E>::armed(&chain) == (PolicyExitHook::<T, E>::armed(&chain.first())
            && PolicyExitHook::<T, E>::armed(&chain.second())),
        forall|exit: ExitState<T, E>, post: PolicyHookChain<First, Second>| #[trigger]
            PolicyExitHook::<T, E>::fires(&chain, exit, post) == (
            PolicyExitHook::<T, E>::fires(&chain.first(), exit, post.first())
                && PolicyExitHook::<T, E>::fires(&chain.second(), exit, post.second())
                && policy_exit_told_after(chain.second(), post.first(), exit)),
{
}

} // verus!
