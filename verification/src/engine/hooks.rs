//! Callbacks around attempts.
//!
//! A hook changes only itself: the loops hand it a borrow of what there is to
//! see. What a hook does is a relation between the hook before and after a call,
//! so that the contracts of the loops can say which hooks were called with what.

use super::state::{AttemptState, Exit};
use crate::state::RetryState;
use vstd::prelude::*;

verus! {

/// Two hooks in one: the first is called, then the second.
///
/// Both are called once and with the same, the second when the call of the first is over.
#[derive(Clone, Copy, Debug)]
pub struct HookChain<First, Second> {
    first: First,
    second: Second,
}

impl<First, Second> HookChain<First, Second> {
    /// The hook that is called first.
    pub closed spec fn first(self) -> First {
        self.first
    }

    /// The hook that is called second.
    pub closed spec fn second(self) -> Second {
        self.second
    }

    /// `first` followed by `second`.
    pub fn new(first: First, second: Second) -> (r: HookChain<First, Second>)
        ensures
            r.first() == first,
            r.second() == second,
    {
        HookChain { first, second }
    }
}

/// A callback before each attempt.
pub trait BeforeAttemptHook: Sized {
    /// Whether this hook may be called, now and after every call.
    open spec fn armed(&self) -> bool {
        true
    }

    /// Whether a call with `state` may leave the hook as `post`. A type that does
    /// not say leaves it open.
    open spec fn fires(&self, state: RetryState, post: Self) -> bool {
        true
    }

    /// Tells the hook that the attempt of `state` is about to start.
    fn call(&mut self, state: &RetryState)
        requires
            old(self).armed(),
        ensures
            old(self).fires(*state, *final(self)),
            final(self).armed(),
    ;
}

/// Calls `hook` once `done` is at hand.
pub fn tell_before_after<H: BeforeAttemptHook, X>(hook: &mut H, done: &X, state: &RetryState)
    requires
        old(hook).armed(),
    ensures
        old(hook).fires(*state, *final(hook)),
        final(hook).armed(),
{
    hook.call(state)
}

/// Whether `hook` was called with `state` once `done` was at hand. What a hook is left as is
/// at hand only when its call is over, so this says in which order two hooks went.
pub open spec fn before_told_after<H: BeforeAttemptHook, X>(hook: H, done: X, state: RetryState) -> bool {
    exists|lent: &mut H| #[trigger]
        call_ensures(tell_before_after::<H, X>, (lent, &done, &state), ()) && *lent == hook
}

impl BeforeAttemptHook for () {
    open spec fn armed(&self) -> bool {
        true
    }

    open spec fn fires(&self, state: RetryState, post: Self) -> bool {
        true
    }

    fn call(&mut self, state: &RetryState) {
    }
}

impl<F> BeforeAttemptHook for F where F: FnMut(&RetryState) {
    open spec fn armed(&self) -> bool {
        forall|state: &RetryState| call_requires(*self, (state,))
    }

    open spec fn fires(&self, state: RetryState, post: Self) -> bool {
        call_ensures(*self, (&state,), ()) && post == *self
    }

    fn call(&mut self, state: &RetryState) {
        (self)(state)
    }
}

impl<First, Second> BeforeAttemptHook for HookChain<First, Second> where
    First: BeforeAttemptHook,
    Second: BeforeAttemptHook,
 {
    open spec fn armed(&self) -> bool {
        self.first().armed() && self.second().armed()
    }

    open spec fn fires(&self, state: RetryState, post: Self) -> bool {
        &&& self.first().fires(state, post.first())
        &&& self.second().fires(state, post.second())
        &&& before_told_after(self.second(), post.first(), state)
    }

    fn call(&mut self, state: &RetryState) {
        self.first.call(state);
        tell_before_after(&mut self.second, &self.first, state);
    }
}

/// A callback after each attempt, before its outcome is classified.
pub trait AttemptHook<O>: Sized {
    /// Whether this hook may be called, now and after every call.
    open spec fn armed(&self) -> bool {
        true
    }

    /// Whether a call with `state` may leave the hook as `post`. A type that does
    /// not say leaves it open.
    open spec fn fires(&self, state: AttemptState<'_, O>, post: Self) -> bool {
        true
    }

    /// Tells the hook that the attempt of `state` has completed.
    fn call(&mut self, state: &AttemptState<'_, O>)
        requires
            old(self).armed(),
        ensures
            old(self).fires(*state, *final(self)),
            final(self).armed(),
    ;
}

/// Calls `hook` once `done` is at hand.
pub fn tell_attempt_after<O, H: AttemptHook<O>, X>(hook: &mut H, done: &X, state: &AttemptState<'_, O>)
    requires
        old(hook).armed(),
    ensures
        old(hook).fires(*state, *final(hook)),
        final(hook).armed(),
{
    hook.call(state)
}

/// Whether `hook` was called with `state` once `done` was at hand. What a hook is left as is
/// at hand only when its call is over, so this says in which order two hooks went.
pub open spec fn attempt_told_after<O, H: AttemptHook<O>, X>(hook: H, done: X, state: AttemptState<'_, O>) -> bool {
    exists|lent: &mut H| #[trigger]
        call_ensures(tell_attempt_after::<O, H, X>, (lent, &done, &state), ()) && *lent == hook
}

impl<O> AttemptHook<O> for () {
    open spec fn armed(&self) -> bool {
        true
    }

    open spec fn fires(&self, state: AttemptState<'_, O>, post: Self) -> bool {
        true
    }

    fn call(&mut self, state: &AttemptState<'_, O>) {
    }
}

impl<O, F> AttemptHook<O> for F where F: for<'a> FnMut(&AttemptState<'a, O>) {
    open spec fn armed(&self) -> bool {
        forall|state: &AttemptState<O>| call_requires(*self, (state,))
    }

    open spec fn fires(&self, state: AttemptState<'_, O>, post: Self) -> bool {
        call_ensures(*self, (&state,), ()) && post == *self
    }

    fn call(&mut self, state: &AttemptState<'_, O>) {
        (self)(state)
    }
}

impl<O, First, Second> AttemptHook<O> for HookChain<First, Second> where
    First: AttemptHook<O>,
    Second: AttemptHook<O>,
 {
    open spec fn armed(&self) -> bool {
        self.first().armed() && self.second().armed()
    }

    open spec fn fires(&self, state: AttemptState<'_, O>, post: Self) -> bool {
        &&& self.first().fires(state, post.first())
        &&& self.second().fires(state, post.second())
        &&& attempt_told_after(self.second(), post.first(), state)
    }

    fn call(&mut self, state: &AttemptState<'_, O>) {
        self.first.call(state);
        tell_attempt_after(&mut self.second, &self.first, state);
    }
}

/// A callback when the loop ends.
pub trait ExitHook<R, A, O>: Sized {
    /// Whether this hook may be called, now and after every call.
    open spec fn armed(&self) -> bool {
        true
    }

    /// Whether a call with `exit` may leave the hook as `post`. A type that does
    /// not say leaves it open.
    open spec fn fires(&self, exit: Exit<'_, R, A, O>, post: Self) -> bool {
        true
    }

    /// Tells the hook that the loop has ended with `exit`.
    fn call(&mut self, exit: &Exit<'_, R, A, O>)
        requires
            old(self).armed(),
        ensures
            old(self).fires(*exit, *final(self)),
            final(self).armed(),
    ;
}

/// Calls `hook` once `done` is at hand.
pub fn tell_exit_after<R, A, O, H: ExitHook<R, A, O>, X>(hook: &mut H, done: &X, exit: &Exit<'_, R, A, O>)
    requires
        old(hook).armed(),
    ensures
        old(hook).fires(*exit, *final(hook)),
        final(hook).armed(),
{
    hook.call(exit)
}

/// Whether `hook` was called with `exit` once `done` was at hand. What a hook is left as is
/// at hand only when its call is over, so this says in which order two hooks went.
pub open spec fn exit_told_after<R, A, O, H: ExitHook<R, A, O>, X>(hook: H, done: X, exit: Exit<'_, R, A, O>) -> bool {
    exists|lent: &mut H| #[trigger]
        call_ensures(tell_exit_after::<R, A, O, H, X>, (lent, &done, &exit), ()) && *lent == hook
}

impl<R, A, O> ExitHook<R, A, O> for () {
    open spec fn armed(&self) -> bool {
        true
    }

    open spec fn fires(&self, exit: Exit<'_, R, A, O>, post: Self) -> bool {
        true
    }

    fn call(&mut self, exit: &Exit<'_, R, A, O>) {
    }
}

impl<R, A, O, F> ExitHook<R, A, O> for F where F: for<'a> FnMut(&Exit<'a, R, A, O>) {
    open spec fn armed(&self) -> bool {
        forall|exit: &Exit<R, A, O>| call_requires(*self, (exit,))
    }

    open spec fn fires(&self, exit: Exit<'_, R, A, O>, post: Self) -> bool {
        call_ensures(*self, (&exit,), ()) && post == *self
    }

    fn call(&mut self, exit: &Exit<'_, R, A, O>) {
        (self)(exit)
    }
}

impl<R, A, O, First, Second> ExitHook<R, A, O> for HookChain<First, Second> where
    First: ExitHook<R, A, O>,
    Second: ExitHook<R, A, O>,
 {
    open spec fn armed(&self) -> bool {
        self.first().armed() && self.second().armed()
    }

    open spec fn fires(&self, exit: Exit<'_, R, A, O>, post: Self) -> bool {
        &&& self.first().fires(exit, post.first())
        &&& self.second().fires(exit, post.second())
        &&& exit_told_after(self.second(), post.first(), exit)
    }

    fn call(&mut self, exit: &Exit<'_, R, A, O>) {
        self.first.call(exit);
        tell_exit_after(&mut self.second, &self.first, exit);
    }
}

/// The hooks of a loop.
#[derive(Clone, Copy, Debug)]
pub struct ExecutionHooks<BA, AA, OX> {
    /// Called before each attempt.
    pub before_attempt: BA,
    /// Called after each attempt.
    pub after_attempt: AA,
    /// Called when the loop ends.
    pub on_exit: OX,
}

impl ExecutionHooks<(), (), ()> {
    /// No hooks.
    pub fn new() -> (r: ExecutionHooks<(), (), ()>)
        ensures
            r == (ExecutionHooks { before_attempt: (), after_attempt: (), on_exit: () }),
    {
        ExecutionHooks { before_attempt: (), after_attempt: (), on_exit: () }
    }
}

impl<BA, AA, OX> ExecutionHooks<BA, AA, OX> {
    /// These hooks with `hook` called after the before-attempt hook they have.
    pub fn chain_before_attempt<Hook>(self, hook: Hook) -> (r: ExecutionHooks<HookChain<BA, Hook>, AA, OX>)
        ensures
            r.before_attempt.first() == self.before_attempt,
            r.before_attempt.second() == hook,
            r.after_attempt == self.after_attempt,
            r.on_exit == self.on_exit,
    {
        ExecutionHooks {
            before_attempt: HookChain::new(self.before_attempt, hook),
            after_attempt: self.after_attempt,
            on_exit: self.on_exit,
        }
    }

    /// These hooks with `hook` called after the after-attempt hook they have.
    pub fn chain_after_attempt<Hook>(self, hook: Hook) -> (r: ExecutionHooks<BA, HookChain<AA, Hook>, OX>)
        ensures
            r.after_attempt.first() == self.after_attempt,
            r.after_attempt.second() == hook,
            r.before_attempt == self.before_attempt,
            r.on_exit == self.on_exit,
    {
        ExecutionHooks {
            before_attempt: self.before_attempt,
            after_attempt: HookChain::new(self.after_attempt, hook),
            on_exit: self.on_exit,
        }
    }

    /// These hooks with `hook` called after the on-exit hook they have.
    pub fn chain_on_exit<Hook>(self, hook: Hook) -> (r: ExecutionHooks<BA, AA, HookChain<OX, Hook>>)
        ensures
            r.on_exit.first() == self.on_exit,
            r.on_exit.second() == hook,
            r.before_attempt == self.before_attempt,
            r.after_attempt == self.after_attempt,
    {
        ExecutionHooks {
            before_attempt: self.before_attempt,
            after_attempt: self.after_attempt,
            on_exit: HookChain::new(self.on_exit, hook),
        }
    }
}

/// A hook told after something is called with that at hand.
pub proof fn what_comes_after_is_called_after<O, R, A, B, H, J, X>(
    before: B,
    state: RetryState,
    hook: H,
    attempt: AttemptState<'_, O>,
    last: J,
    exit: Exit<'_, R, A, O>,
    done: X,
) where B: BeforeAttemptHook, H: AttemptHook<O>, J: ExitHook<R, A, O>
    requires
        before_told_after(before, done, state),
        attempt_told_after(hook, done, attempt),
        exit_told_after(last, done, exit),
    ensures
        exists|lent: &mut B| #[trigger]
            call_ensures(tell_before_after::<B, X>, (lent, &done, &state), ()) && *lent == before,
        exists|lent: &mut H| #[trigger]
            call_ensures(tell_attempt_after::<O, H, X>, (lent, &done, &attempt), ()) && *lent
                == hook,
        exists|lent: &mut J| #[trigger]
            call_ensures(tell_exit_after::<R, A, O, J, X>, (lent, &done, &exit), ()) && *lent
                == last,
{
}

} // verus!
