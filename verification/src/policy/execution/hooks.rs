//! Callbacks around the attempts of a loop that goes by a predicate.

use super::state::{AttemptState, ExitState};
use crate::engine::hooks::{before_told_after, tell_before_after};
use crate::state::RetryState;
use vstd::prelude::*;

pub use crate::engine::hooks::BeforeAttemptHook;

verus! {

/// Two hooks in one: the first is called, then the second.
///
/// Both are called once and with the same, the second when the call of the first is over.
#[derive(Clone, Copy, Debug)]
pub struct HookChain<First, Second> {
    first: First,
    second: Second,
}

impl<First, Second> HookChain<First, Second> {
    /// The hook that is called first.
    pub closed spec fn first(self) -> First {
        self.first
    }

    /// The hook that is called second.
    pub closed spec fn second(self) -> Second {
        self.second
    }

    /// `first` followed by `second`.
    pub fn new(first: First, second: Second) -> (r: HookChain<First, Second>)
        ensures
            r.first() == first,
            r.second() == second,
    {
        HookChain { first, second }
    }
}

impl<First, Second> BeforeAttemptHook for HookChain<First, Second> where
    First: BeforeAttemptHook,
    Second: BeforeAttemptHook,
 {
    open spec fn armed(&self) -> bool {
        self.first().armed() && self.second().armed()
    }

    open spec fn fires(&self, state: RetryState, post: Self) -> bool {
        &&& self.first().fires(state, post.first())
        &&& self.second().fires(state, post.second())
        &&& before_told_after(self.second(), post.first(), state)
    }

    fn call(&mut self, state: &RetryState) {
        self.first.call(state);
        tell_before_after(&mut self.second, &self.first, state);
    }
}

/// A callback after each attempt, or before each wait.
pub trait AttemptHook<T, E>: Sized {
    /// Whether this hook may be called, now and after every call.
    open spec fn armed(&self) -> bool {
        true
    }

    /// Whether a call with `state` may leave the hook as `post`. A type that does
    /// not say leaves it open.
    open spec fn fires(&self, state: AttemptState<'_, T, E>, post: Self) -> bool {
        true
    }

    /// Tells the hook what became of the attempt of `state`.
    fn call(&mut self, state: &AttemptState<'_, T, E>)
        requires
            old(self).armed(),
        ensures
            old(self).fires(*state, *final(self)),
            final(self).armed(),
    ;
}

/// Calls `hook` once `done` is at hand.
pub fn tell_attempt_after<T, E, H: AttemptHook<T, E>, X>(hook: &mut H, done: &X, state: &AttemptState<'_, T, E>)
    requires
        old(hook).armed(),
    ensures
        old(hook).fires(*state, *final(hook)),
        final(hook).armed(),
{
    hook.call(state)
}

/// Whether `hook` was called with `state` once `done` was at hand. What a hook is left as is
/// at hand only when its call is over, so this says in which order two hooks went.
pub open spec fn attempt_told_after<T, E, H: AttemptHook<T, E>, X>(hook: H, done: X, state: AttemptState<'_, T, E>) -> bool {
    exists|lent: &mut H| #[trigger]
        call_ensures(tell_attempt_after::<T, E, H, X>, (lent, &done, &state), ()) && *lent == hook
}

impl<T, E> AttemptHook<T, E> for () {
    open spec fn armed(&self) -> bool {
        true
    }

    open spec fn fires(&self, state: AttemptState<'_, T, E>, post: Self) -> bool {
        true
    }

    fn call(&mut self, state: &AttemptState<'_, T, E>) {
    }
}

impl<T, E, F> AttemptHook<T, E> for F where F: for<'a> FnMut(&AttemptState<'a, T, E>) {
    open spec fn armed(&self) -> bool {
        forall|state: &AttemptState<T, E>| call_requires(*self, (state,))
    }

    open spec fn fires(&self, state: AttemptState<'_, T, E>, post: Self) -> bool {
        call_ensures(*self, (&state,), ()) && post == *self
    }

    fn call(&mut self, state: &AttemptState<'_, T, E>) {
        (self)(state)
    }
}

impl<T, E, First, Second> AttemptHook<T, E> for HookChain<First, Second> where
    First: AttemptHook<T, E>,
    Second: AttemptHook<T, E>,
 {
    open spec fn armed(&self) -> bool {
        self.first().armed() && self.second().armed()
    }

    open spec fn fires(&self, state: AttemptState<'_, T, E>, post: Self) -> bool {
        &&& self.first().fires(state, post.first())
        &&& self.second().fires(state, post.second())
        &&& attempt_told_after(self.second(), post.first(), state)
    }

    fn call(&mut self, state: &AttemptState<'_, T, E>) {
        self.first.call(state);
        tell_attempt_after(&mut self.second, &self.first, state);
    }
}

/// A callback when the loop ends.
pub trait ExitHook<T, E>: Sized {
    /// Whether this hook may be called, now and after every call.
    open spec fn armed(&self) -> bool {
        true
    }

    /// Whether a call with `exit` may leave the hook as `post`. A type that does
    /// not say leaves it open.
    open spec fn fires(&self, exit: ExitState<'_, T, E>, post: Self) -> bool {
        true
    }

    /// Tells the hook that the loop has ended with `exit`.
    fn call(&mut self, exit: &ExitState<'_, T, E>)
        requires
            old(self).armed(),
        ensures
            old(self).fires(*exit, *final(self)),
            final(self).armed(),
    ;
}

/// Calls `hook` once `done` is at hand.
pub fn tell_exit_after<T, E, H: ExitHook<T, E>, X>(hook: &mut H, done: &X, exit: &ExitState<'_, T, E>)
    requires
        old(hook).armed(),
    ensures
        old(hook).fires(*exit, *final(hook)),
        final(hook).armed(),
{
    hook.call(exit)
}

/// Whether `hook` was called with `exit` once `done` was at hand. What a hook is left as is
/// at hand only when its call is over, so this says in which order two hooks went.
pub open spec fn exit_told_after<T, E, H: ExitHook<T, E>, X>(hook: H, done: X, exit: ExitState<'_, T, E>) -> bool {
    exists|lent: &mut H| #[trigger]
        call_ensures(tell_exit_after::<T, E, H, X>, (lent, &done, &exit), ()) && *lent == hook
}

impl<T, E> ExitHook<T, E> for () {
    open spec fn armed(&self) -> bool {
        true
    }

    open spec fn fires(&self, exit: ExitState<'_, T, E>, post: Self) -> bool {
        true
    }

    fn call(&mut self, exit: &ExitState<'_, T, E>) {
    }
}

impl<T, E, F> ExitHook<T, E> for F where F: for<'a> FnMut(&ExitState<'a, T, E>) {
    open spec fn armed(&self) -> bool {
        forall|exit: &ExitState<T, E>| call_requires(*self, (exit,))
    }

    open spec fn fires(&self, exit: ExitState<'_, T, E>, post: Self) -> bool {
        call_ensures(*self, (&exit,), ()) && post == *self
    }

    fn call(&mut self, exit: &ExitState<'_, T, E>) {
        (self)(exit)
    }
}

impl<T, E, First, Second> ExitHook<T, E> for HookChain<First, Second> where
    First: ExitHook<T, E>,
    Second: ExitHook<T, E>,
 {
    open spec fn armed(&self) -> bool {
        self.first().armed() && self.second().armed()
    }

    open spec fn fires(&self, exit: ExitState<'_, T, E>, post: Self) -> bool {
        &&& self.first().fires(exit, post.first())
        &&& self.second().fires(exit, post.second())
        &&& exit_told_after(self.second(), post.first(), exit)
    }

    fn call(&mut self, exit: &ExitState<'_, T, E>) {
        self.first.call(exit);
        tell_exit_after(&mut self.second, &self.first, exit);
    }
}

/// The hooks of a loop.
#[derive(Clone, Copy, Debug)]
pub struct ExecutionHooks<BA, AA, BS, OX> {
    /// Called before each attempt.
    pub before_attempt: BA,
    /// Called after each attempt.
    pub after_attempt: AA,
    /// Called before each wait.
    pub before_sleep: BS,
    /// Called when the loop ends.
    pub on_exit: OX,
}

impl ExecutionHooks<(), (), (), ()> {
    /// No hooks.
    pub fn new() -> (r: ExecutionHooks<(), (), (), ()>)
        ensures
            r == (ExecutionHooks {
                before_attempt: (),
                after_attempt: (),
                before_sleep: (),
                on_exit: (),
            }),
    {
        ExecutionHooks { before_attempt: (), after_attempt: (), before_sleep: (), on_exit: () }
    }
}

impl<BA, AA, BS, OX> ExecutionHooks<BA, AA, BS, OX> {
    /// These hooks with `hook` called after the before-attempt hook they have.
    pub fn chain_before_attempt<Hook>(self, hook: Hook) -> (r: ExecutionHooks<HookChain<BA, Hook>, AA, BS, OX>)
        ensures
            r.before_attempt.first() == self.before_attempt,
            r.before_attempt.second() == hook,
            r.after_attempt == self.after_attempt,
            r.before_sleep == self.before_sleep,
            r.on_exit == self.on_exit,
    {
        ExecutionHooks {
            before_attempt: HookChain::new(self.before_attempt, hook),
            after_attempt: self.after_attempt,
            before_sleep: self.before_sleep,
            on_exit: self.on_exit,
        }
    }

    /// These hooks with `hook` called after the after-attempt hook they have.
    pub fn chain_after_attempt<Hook>(self, hook: Hook) -> (r: ExecutionHooks<BA, HookChain<AA, Hook>, BS, OX>)
        ensures
            r.after_attempt.first() == self.after_attempt,
            r.after_attempt.second() == hook,
            r.before_attempt == self.before_attempt,
            r.before_sleep == self.before_sleep,
            r.on_exit == self.on_exit,
    {
        ExecutionHooks {
            before_attempt: self.before_attempt,
            after_attempt: HookChain::new(self.after_attempt, hook),
            before_sleep: self.before_sleep,
            on_exit: self.on_exit,
        }
    }

    /// These hooks with `hook` called after the before-sleep hook they have.
    pub fn chain_before_sleep<Hook>(self, hook: Hook) -> (r: ExecutionHooks<BA, AA, HookChain<BS, Hook>, OX>)
        ensures
            r.before_sleep.first() == self.before_sleep,
            r.before_sleep.second() == hook,
            r.before_attempt == self.before_attempt,
            r.after_attempt == self.after_attempt,
            r.on_exit == self.on_exit,
    {
        ExecutionHooks {
            before_attempt: self.before_attempt,
            after_attempt: self.after_attempt,
            before_sleep: HookChain::new(self.before_sleep, hook),
            on_exit: self.on_exit,
        }
    }

    /// These hooks with `hook` called after the on-exit hook they have.
    pub fn chain_on_exit<Hook>(self, hook: Hook) -> (r: ExecutionHooks<BA, AA, BS, HookChain<OX, Hook>>)
        ensures
            r.on_exit.first() == self.on_exit,
            r.on_exit.second() == hook,
            r.before_attempt == self.before_attempt,
            r.after_attempt == self.after_attempt,
            r.before_sleep == self.before_sleep,
    {
        ExecutionHooks {
            before_attempt: self.before_attempt,
            after_attempt: self.after_attempt,
            before_sleep: self.before_sleep,
            on_exit: HookChain::new(self.on_exit, hook),
        }
    }

    /// Whether every hook that looks at attempts may be called.
    pub open spec fn armed<T, E>(self) -> bool where
        BA: BeforeAttemptHook,
        AA: AttemptHook<T, E>,
        BS: AttemptHook<T, E>,
        OX: ExitHook<T, E>,
     {
        &&& self.before_attempt.armed()
        &&& self.after_attempt.armed()
        &&& self.before_sleep.armed()
        &&& self.on_exit.armed()
    }
}

/// A hook told after something is called with that at hand.
pub proof fn what_comes_after_is_called_after<T, E, H, J, X>(
    hook: H,
    attempt: AttemptState<'_, T, E>,
    last: J,
    exit: ExitState<'_, T, E>,
    done: X,
) where H: AttemptHook<T, E>, J: ExitHook<T, E>
    requires
        attempt_told_after(hook, done, attempt),
        exit_told_after(last, done, exit),
    ensures
        exists|lent: &mut H| #[trigger]
            call_ensures(tell_attempt_after::<T, E, H, X>, (lent, &done, &attempt), ()) && *lent
                == hook,
        exists|lent: &mut J| #[trigger]
            call_ensures(tell_exit_after::<T, E, J, X>, (lent, &done, &exit), ()) && *lent == last,
{
}

} // verus!
