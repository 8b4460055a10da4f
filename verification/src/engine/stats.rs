//! What a finished loop amounts to.

use super::state::StopReason;
use crate::duration::Duration;
use vstd::prelude::*;

verus! {

/// Totals of a finished loop.
#[derive(Clone, Copy, Debug, PartialEq, Eq, Structural)]
pub struct RetryStats {
    /// Attempts made, the last one included.
    pub attempts: u32,
    /// Time from the first attempt to the end of the last.
    pub total_elapsed: Duration,
    /// Time asked for in waits between attempts.
    pub total_wait: Duration,
    /// Why the loop ended.
    pub stop_reason: StopReason,
}

} // verus!
