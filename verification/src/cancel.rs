//! Cancelling a loop from outside.
//!
//! A [`Canceler`] is asked at checkpoints: before each attempt and after each
//! wait. An `AtomicBool` is one, and so is a `CancellationToken` of tokio-util.

use core::sync::atomic::{AtomicBool, Ordering};
use std::sync::Arc;
use tokio_util::sync::CancellationToken;
use vstd::prelude::*;

verus! {

/// Says whether a loop has been cancelled.
///
/// Someone else cancels, at any time, so two questions in a row may get
/// different answers.
pub trait Canceler {
    /// Whether `cancelled` is an answer that this canceler may give. A type that
    /// does not say leaves it open.
    open spec fn may_say(&self, cancelled: bool) -> bool {
        true
    }

    /// Whether the loop has been cancelled.
    fn is_cancelled(&self) -> (r: bool)
        ensures
            self.may_say(r),
    ;
}

/// Asks `canceler` once `done` is at hand.
pub fn ask_after<C: Canceler, X>(canceler: &C, done: &X) -> (r: bool)
    ensures
        canceler.may_say(r),
{
    canceler.is_cancelled()
}

/// Whether `canceler` gave `answer` once `done` was at hand. What comes of other work is at
/// hand only when that work is over, so this says when the canceler was asked.
pub open spec fn said_after<C: Canceler, X>(canceler: C, done: X, answer: bool) -> bool {
    call_ensures(ask_after::<C, X>, (&canceler, &done), answer)
}

/// Never cancels.
#[derive(Clone, Copy, Debug, PartialEq, Eq, Hash, Structural)]
pub struct CancelNever;

impl Default for CancelNever {
    fn default() -> (r: CancelNever)
        ensures
            r == CancelNever,
    {
        CancelNever
    }
}

/// A canceler that never cancels.
pub fn never() -> (r: CancelNever)
    ensures
        r == CancelNever,
{
    CancelNever
}

impl Canceler for CancelNever {
    open spec fn may_say(&self, cancelled: bool) -> bool {
        !cancelled
    }

    fn is_cancelled(&self) -> bool {
        false
    }
}

/// Cancelled while the flag is set.
impl Canceler for &AtomicBool {
    /// The answer is one that an acquiring load of the flag gives.
    open spec fn may_say(&self, cancelled: bool) -> bool {
        call_ensures(AtomicBool::load, (*self, Ordering::Acquire), cancelled)
    }

    fn is_cancelled(&self) -> bool {
        self.load(Ordering::Acquire)
    }
}

/// Cancelled while the flag is set.
impl Canceler for Arc<AtomicBool> {
    /// The answer is one that an acquiring load of the flag gives.
    open spec fn may_say(&self, cancelled: bool) -> bool {
        call_ensures(AtomicBool::load, (&**self, Ordering::Acquire), cancelled)
    }

    fn is_cancelled(&self) -> bool {
        self.load(Ordering::Acquire)
    }
}

/// `tokio_util::sync::CancellationToken`: a token that is cancelled from
/// elsewhere.
#[verifier::external_type_specification]
#[verifier::external_body]
pub struct ExCancellationToken(CancellationToken);

/// `CancellationToken::is_cancelled` reads whether the token has been cancelled.
/// That depends on what other owners of the token do, so nothing is claimed of
/// the answer.
#[verifier::external_body]
fn read_token(token: &CancellationToken) -> bool {
    token.is_cancelled()
}

/// Cancelled once the token is.
impl Canceler for CancellationToken {
    /// The answer is one that a reading of this token gives.
    closed spec fn may_say(&self, cancelled: bool) -> bool {
        call_ensures(read_token, (self,), cancelled)
    }

    fn is_cancelled(&self) -> bool {
        read_token(self)
    }
}

/// A canceler for a loop that is driven by an executor and asks only at
/// checkpoints, not in the middle of a wait.
#[derive(Clone, Copy, Debug, PartialEq, Eq, Hash)]
pub struct PolledCanceler<C>(pub C);

impl<C: Canceler> Canceler for PolledCanceler<C> {
    open spec fn may_say(&self, cancelled: bool) -> bool {
        self.0.may_say(cancelled)
    }

    fn is_cancelled(&self) -> bool {
        self.0.is_cancelled()
    }
}

/// A polled canceler may give an answer exactly where the one in it may: over one that
/// never cancels it never cancels, and over one that always does it always does.
pub proof fn polled_says_what_is_said<C: Canceler>(canceler: C, answer: bool)
    ensures
        PolledCanceler(canceler).may_say(answer) == canceler.may_say(answer),
{
}

/// `never()` never cancels a loop.
pub proof fn never_says_no(canceler: CancelNever, answer: bool)
    requires
        call_ensures(never, (), canceler),
        call_ensures(<CancelNever as Canceler>::is_cancelled, (&canceler,), answer),
    ensures
        !answer,
{
}

/// A flag cancels by what it holds, and a shared flag by what the flag in it holds.
pub proof fn flag_says_what_it_holds(flag: &AtomicBool, shared: Arc<AtomicBool>, answer: bool)
    ensures
        flag.may_say(answer) == call_ensures(AtomicBool::load, (flag, Ordering::Acquire), answer),
        shared.may_say(answer) == call_ensures(
            AtomicBool::load,
            (&*shared, Ordering::Acquire),
            answer,
        ),
{
}

/// A token cancels by what a reading of it tells.
proof fn token_says_what_is_read(token: CancellationToken, answer: bool)
    ensures
        token.may_say(answer) <==> call_ensures(read_token, (&token,), answer),
{
}

/// An answer after something is given to a question asked with that at hand.
pub proof fn what_comes_after_is_asked_after<C: Canceler, X>(canceler: C, done: X, answer: bool)
    requires
        said_after(canceler, done, answer),
    ensures
        call_ensures(ask_after::<C, X>, (&canceler, &done), answer),
        canceler.may_say(answer),
{
}

} // verus!
