//! What the hooks of the engine see.

use crate::duration::Duration;
use vstd::prelude::*;

verus! {

/// Why the retry loop ended.
#[derive(Clone, Copy, Debug, PartialEq, Eq, Hash, Structural)]
pub enum StopReason {
    /// The classifier handed a value back.
    Returned,
    /// The classifier gave up.
    Aborted,
    /// The stop strategy or the timeout ended the loop while the classifier
    /// still wanted to retry.
    Exhausted,
}

impl StopReason {
    /// The reason in words.
    pub open spec fn words(self) -> Seq<char> {
        match self {
            StopReason::Returned => "returned"@,
            StopReason::Aborted => "aborted"@,
            StopReason::Exhausted => "retries exhausted"@,
        }
    }

    /// The reason in words.
    pub fn as_str(&self) -> (r: &'static str)
        ensures
            r@ == self.words(),
    {
        match self {
            StopReason::Returned => "returned",
            StopReason::Aborted => "aborted",
            StopReason::Exhausted => "retries exhausted",
        }
    }
}

/// What an after-attempt hook sees, once for every attempt.
///
/// The hook runs before the classifier, so it sees every outcome as it came,
/// the last one too.
#[derive(Clone, Copy, Debug)]
pub struct AttemptState<'a, O> {
    /// The attempt that just completed, counted from 1.
    pub attempt: u32,
    /// Time since the first attempt began.
    pub elapsed: Duration,
    /// The outcome, before it is classified.
    pub outcome: &'a O,
}

impl<'a, O> AttemptState<'a, O> {
    /// The state of attempt `attempt` with its outcome.
    pub fn new(attempt: u32, elapsed: Duration, outcome: &'a O) -> (r: AttemptState<'a, O>)
        requires
            attempt >= 1,
        ensures
            r == (AttemptState { attempt, elapsed, outcome }),
    {
        AttemptState { attempt, elapsed, outcome }
    }
}

/// What an on-exit hook sees: a borrow of exactly what the caller receives, and
/// the counters of the last attempt.
#[derive(Clone, Copy, Debug)]
pub enum Exit<'a, R, A, O> {
    /// The caller receives a value.
    Returned {
        /// Attempts made.
        attempt: u32,
        /// Time since the first attempt began.
        elapsed: Duration,
        /// The value.
        value: &'a R,
    },
    /// The caller receives the cause of an abort.
    Aborted {
        /// Attempts made.
        attempt: u32,
        /// Time since the first attempt began.
        elapsed: Duration,
        /// The cause.
        last: &'a A,
    },
    /// The caller receives the last outcome.
    Exhausted {
        /// Attempts made.
        attempt: u32,
        /// Time since the first attempt began.
        elapsed: Duration,
        /// The last outcome.
        last: &'a O,
    },
}

impl<R, A, O> Exit<'_, R, A, O> {
    /// Attempts made.
    pub fn attempt(&self) -> (r: u32)
        ensures
            r == match *self {
                Exit::Returned { attempt, .. } => attempt,
                Exit::Aborted { attempt, .. } => attempt,
                Exit::Exhausted { attempt, .. } => attempt,
            },
    {
        match self {
            Exit::Returned { attempt, .. } => *attempt,
            Exit::Aborted { attempt, .. } => *attempt,
            Exit::Exhausted { attempt, .. } => *attempt,
        }
    }

    /// Time since the first attempt began.
    pub fn elapsed(&self) -> (r: Duration)
        ensures
            r == match *self {
                Exit::Returned { elapsed, .. } => elapsed,
                Exit::Aborted { elapsed, .. } => elapsed,
                Exit::Exhausted { elapsed, .. } => elapsed,
            },
    {
        match self {
            Exit::Returned { elapsed, .. } => *elapsed,
            Exit::Aborted { elapsed, .. } => *elapsed,
            Exit::Exhausted { elapsed, .. } => *elapsed,
        }
    }

    /// Why the loop ended.
    pub open spec fn reason(self) -> StopReason {
        match self {
            Exit::Returned { .. } => StopReason::Returned,
            Exit::Aborted { .. } => StopReason::Aborted,
            Exit::Exhausted { .. } => StopReason::Exhausted,
        }
    }

    /// Why the loop ended.
    pub fn stop_reason(&self) -> (r: StopReason)
        ensures
            r == self.reason(),
    {
        match self {
            Exit::Returned { .. } => StopReason::Returned,
            Exit::Aborted { .. } => StopReason::Aborted,
            Exit::Exhausted { .. } => StopReason::Exhausted,
        }
    }
}

/// What ended a loop tells the attempt and the time it was given, and its own reason.
pub proof fn exits_tell_what_they_hold<R, A, O>(
    exit: Exit<'_, R, A, O>,
    made: u32,
    since: Duration,
    reason: StopReason,
    words: &'static str,
)
    requires
        call_ensures(Exit::<R, A, O>::attempt, (&exit,), made),
        call_ensures(Exit::<R, A, O>::elapsed, (&exit,), since),
        call_ensures(Exit::<R, A, O>::stop_reason, (&exit,), reason),
        call_ensures(StopReason::as_str, (&reason,), words),
    ensures
        exit matches Exit::Returned { attempt, elapsed, .. } ==> made == attempt && since
            == elapsed,
        exit matches Exit::Aborted { attempt, elapsed, .. } ==> made == attempt && since == elapsed,
        exit matches Exit::Exhausted { attempt, elapsed, .. } ==> made == attempt && since
            == elapsed,
        reason == StopReason::Returned <==> exit is Returned,
        reason == StopReason::Aborted <==> exit is Aborted,
        reason == StopReason::Exhausted <==> exit is Exhausted,
        exit is Returned ==> words@ == "returned"@,
        exit is Aborted ==> words@ == "aborted"@,
        exit is Exhausted ==> words@ == "retries exhausted"@,
{
}

} // verus!
