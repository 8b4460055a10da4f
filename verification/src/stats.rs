//! Totals of a loop that goes by a predicate.

use crate::duration::Duration;
use vstd::prelude::*;

verus! {

/// Why a loop that goes by a predicate ended.
#[derive(Clone, Copy, Debug, PartialEq, Eq, Hash, Structural)]
pub enum StopReason {
    /// The predicate accepted a value.
    Succeeded,
    /// The predicate accepted an error, which is not worth a retry.
    Rejected,
    /// The stop strategy or the timeout ended the loop while the predicate still
    /// wanted to retry.
    Exhausted,
    /// The loop was cancelled.
    Cancelled,
}

impl StopReason {
    /// The reason in words.
    pub open spec fn words(self) -> Seq<char> {
        match self {
            StopReason::Succeeded => "succeeded"@,
            StopReason::Rejected => "rejected"@,
            StopReason::Exhausted => "retries exhausted"@,
            StopReason::Cancelled => "cancelled"@,
        }
    }

    /// The reason in words.
    pub fn as_str(&self) -> (r: &'static str)
        ensures
            r@ == self.words(),
    {
        match self {
            StopReason::Succeeded => "succeeded",
            StopReason::Rejected => "rejected",
            StopReason::Exhausted => "retries exhausted",
            StopReason::Cancelled => "cancelled",
        }
    }
}

/// Totals of a finished loop.
#[derive(Clone, Copy, Debug, PartialEq, Eq, Structural)]
pub struct RetryStats {
    /// Attempts completed.
    pub attempts: u32,
    /// Time since the loop began, where there is a clock.
    pub total_elapsed: Option<Duration>,
    /// Time asked for in waits between attempts.
    pub total_wait: Duration,
    /// Why the loop ended.
    pub stop_reason: StopReason,
}

} // verus!
