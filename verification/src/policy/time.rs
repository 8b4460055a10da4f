//! Elapsed time where there may be no clock.

use crate::duration::{saturated, Duration};
use vstd::prelude::*;

verus! {

/// Time since a loop began, where a clock is there to tell it.
///
/// Making one records nothing: the loop begins at [`start`](ElapsedTracker::start),
/// so time between choosing the rules and running them is not counted.
#[derive(Clone, Copy, Debug, PartialEq, Eq, Structural)]
pub struct ElapsedTracker {
    baseline: Option<Duration>,
}

impl ElapsedTracker {
    /// The reading at which the loop began, once it has.
    pub closed spec fn baseline(self) -> Option<Duration> {
        self.baseline
    }

    /// Whether `elapsed` is the time since the loop began when the clock reads
    /// `now`. There is none without a clock, nor before the loop has begun.
    pub open spec fn tells(self, now: Option<Duration>, elapsed: Option<Duration>) -> bool {
        match (self.baseline(), now) {
            (Some(origin), Some(reading)) => elapsed matches Some(since) && since@ == saturated(
                reading@ - origin@,
            ),
            _ => elapsed is None,
        }
    }

    /// Whether this is `before` once the loop has been told to begin at the
    /// reading `now`.
    pub open spec fn is_started(self, before: ElapsedTracker, now: Option<Duration>) -> bool {
        self.baseline() == match before.baseline() {
            Some(origin) => Some(origin),
            None => now,
        }
    }

    /// A loop that has not begun.
    pub fn new() -> (r: ElapsedTracker)
        ensures
            r.baseline() is None,
    {
        ElapsedTracker { baseline: None }
    }

    /// Lets the loop begin at the reading `now`. Only the first call counts.
    /// Without a clock the loop never begins to count.
    pub fn start(&mut self, now: Option<Duration>)
        ensures
            final(self).is_started(*old(self), now),
    {
        if self.baseline.is_none() {
            self.baseline = now;
        }
    }

    /// The time since the loop began when the clock reads `now`.
    pub fn elapsed(&self, now: Option<Duration>) -> (r: Option<Duration>)
        ensures
            self.tells(now, r),
    {
        match self.baseline {
            Some(origin) => match now {
                Some(reading) => Some(reading.saturating_sub(origin)),
                None => None,
            },
            None => None,
        }
    }
}

/// Only the first start counts: a loop told to begin a second time counts from the
/// reading it was given first.
pub proof fn first_start_counts(
    fresh: ElapsedTracker,
    once: ElapsedTracker,
    twice: ElapsedTracker,
    first: Duration,
    second: Option<Duration>,
)
    requires
        fresh.baseline() is None,
        once.is_started(fresh, Some(first)),
        twice.is_started(once, second),
    ensures
        twice.baseline() == Some(first),
{
}

/// Elapsed time is the way from the first reading to the present one. There is none
/// without both.
pub proof fn elapsed_is_the_way_from_the_first_reading(
    tracker: ElapsedTracker,
    first: Duration,
    now: Duration,
    since: Option<Duration>,
    unread: Option<Duration>,
    fresh: ElapsedTracker,
    unstarted: Option<Duration>,
)
    requires
        tracker.baseline() == Some(first),
        call_ensures(ElapsedTracker::new, (), fresh),
        now@ <= crate::duration::MAX_NANOS,
        call_ensures(ElapsedTracker::elapsed, (&tracker, Some(now)), since),
        call_ensures(ElapsedTracker::elapsed, (&tracker, None), unread),
        call_ensures(ElapsedTracker::elapsed, (&fresh, Some(now)), unstarted),
    ensures
        since is Some,
        now@ >= first@ ==> since->0@ + first@ == now@,
        now@ < first@ ==> since->0@ == 0,
        unread is None,
        unstarted is None,
{
}

/// A loop begins at the first reading it is given, where there is one.
pub proof fn tracker_begins_at_the_first_reading(
    tracker: &mut ElapsedTracker,
    now: Option<Duration>,
)
    requires
        call_ensures(ElapsedTracker::start, (tracker, now), ()),
    ensures
        old(tracker).baseline() is None ==> final(tracker).baseline() == now,
        old(tracker).baseline() is Some ==> final(tracker).baseline() == old(tracker).baseline(),
{
}

} // verus!
