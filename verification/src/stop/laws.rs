//! What holds of stop strategies as a whole.

use super::{
    attempts, before_elapsed, elapsed, never, Stop, StopAfterAttempts, StopAfterElapsed, StopAll,
    StopAny, StopBeforeElapsed, StopNever,
};
use crate::duration::{Duration, MAX_NANOS};
use crate::state::RetryState;
use vstd::prelude::*;

verus! {

/// Whether a strategy can give no other answer than `stop`.
pub open spec fn must_answer<S: Stop>(strategy: S, state: RetryState, stop: bool) -> bool {
    forall|answer: bool| #[trigger] strategy.may_stop(state, answer) ==> answer == stop
}

/// `a | b` stops as soon as one of the two does, and goes on only while both go on.
pub proof fn either_stops_the_pair<A: Stop, B: Stop>(any: StopAny<A, B>, state: RetryState)
    ensures
        must_answer(any.left(), state, true) ==> must_answer(any, state, true),
        must_answer(any.right(), state, true) ==> must_answer(any, state, true),
        must_answer(any.left(), state, false) && must_answer(any.right(), state, false)
            ==> must_answer(any, state, false),
{
}

/// `a & b` stops only when both of the two do, and goes on while one goes on.
pub proof fn both_stop_the_pair<A: Stop, B: Stop>(all: StopAll<A, B>, state: RetryState)
    ensures
        must_answer(all.left(), state, false) ==> must_answer(all, state, false),
        must_answer(all.right(), state, false) ==> must_answer(all, state, false),
        must_answer(all.left(), state, true) && must_answer(all.right(), state, true)
            ==> must_answer(all, state, true),
{
}

/// `a | b` answers as `b | a` does.
pub proof fn or_commutes<A: Stop, B: Stop>(
    ab: StopAny<A, B>,
    ba: StopAny<B, A>,
    state: RetryState,
    stop: bool,
)
    requires
        ab.left() == ba.right(),
        ab.right() == ba.left(),
    ensures
        ab.may_stop(state, stop) == ba.may_stop(state, stop),
{
}

/// `a & b` answers as `b & a` does.
pub proof fn and_commutes<A: Stop, B: Stop>(
    ab: StopAll<A, B>,
    ba: StopAll<B, A>,
    state: RetryState,
    stop: bool,
)
    requires
        ab.left() == ba.right(),
        ab.right() == ba.left(),
    ensures
        ab.may_stop(state, stop) == ba.may_stop(state, stop),
{
}

/// `(a | b) | c` answers as `a | (b | c)` does.
pub proof fn or_associates<A: Stop, B: Stop, C: Stop>(
    left: StopAny<StopAny<A, B>, C>,
    right: StopAny<A, StopAny<B, C>>,
    state: RetryState,
    stop: bool,
)
    requires
        left.left().left() == right.left(),
        left.left().right() == right.right().left(),
        left.right() == right.right().right(),
    ensures
        left.may_stop(state, stop) == right.may_stop(state, stop),
{
    let (a, b, c) = (right.left(), right.right().left(), right.right().right());
    if left.may_stop(state, stop) {
        let (ab, z) = choose|ab: bool, z: bool|
            #![trigger left.left().may_stop(state, ab), left.right().may_stop(state, z)]
            left.left().may_stop(state, ab) && left.right().may_stop(state, z) && stop == (ab || z);
        let (x, y) = choose|x: bool, y: bool|
            #![trigger a.may_stop(state, x), b.may_stop(state, y)]
            a.may_stop(state, x) && b.may_stop(state, y) && ab == (x || y);
        assert(right.right().may_stop(state, y || z)) by {
            assert(b.may_stop(state, y) && c.may_stop(state, z));
        }
        assert(right.left().may_stop(state, x));
    }
    if right.may_stop(state, stop) {
        let (x, bc) = choose|x: bool, bc: bool|
            #![trigger right.left().may_stop(state, x), right.right().may_stop(state, bc)]
            right.left().may_stop(state, x) && right.right().may_stop(state, bc) && stop == (x
                || bc);
        let (y, z) = choose|y: bool, z: bool|
            #![trigger b.may_stop(state, y), c.may_stop(state, z)]
            b.may_stop(state, y) && c.may_stop(state, z) && bc == (y || z);
        assert(left.left().may_stop(state, x || y)) by {
            assert(a.may_stop(state, x) && b.may_stop(state, y));
        }
        assert(left.right().may_stop(state, z));
    }
}

/// `(a & b) & c` answers as `a & (b & c)` does.
pub proof fn and_associates<A: Stop, B: Stop, C: Stop>(
    left: StopAll<StopAll<A, B>, C>,
    right: StopAll<A, StopAll<B, C>>,
    state: RetryState,
    stop: bool,
)
    requires
        left.left().left() == right.left(),
        left.left().right() == right.right().left(),
        left.right() == right.right().right(),
    ensures
        left.may_stop(state, stop) == right.may_stop(state, stop),
{
    let (a, b, c) = (right.left(), right.right().left(), right.right().right());
    if left.may_stop(state, stop) {
        let (ab, z) = choose|ab: bool, z: bool|
            #![trigger left.left().may_stop(state, ab), left.right().may_stop(state, z)]
            left.left().may_stop(state, ab) && left.right().may_stop(state, z) && stop == (ab && z);
        let (x, y) = choose|x: bool, y: bool|
            #![trigger a.may_stop(state, x), b.may_stop(state, y)]
            a.may_stop(state, x) && b.may_stop(state, y) && ab == (x && y);
        assert(right.right().may_stop(state, y && z)) by {
            assert(b.may_stop(state, y) && c.may_stop(state, z));
        }
        assert(right.left().may_stop(state, x));
    }
    if right.may_stop(state, stop) {
        let (x, bc) = choose|x: bool, bc: bool|
            #![trigger right.left().may_stop(state, x), right.right().may_stop(state, bc)]
            right.left().may_stop(state, x) && right.right().may_stop(state, bc) && stop == (x
                && bc);
        let (y, z) = choose|y: bool, z: bool|
            #![trigger b.may_stop(state, y), c.may_stop(state, z)]
            b.may_stop(state, y) && c.may_stop(state, z) && bc == (y && z);
        assert(left.left().may_stop(state, x && y)) by {
            assert(a.may_stop(state, x) && b.may_stop(state, y));
        }
        assert(left.right().may_stop(state, z));
    }
}

/// `s | never()` answers as `s` does.
pub proof fn or_never_changes_nothing<S: Stop>(
    any: StopAny<S, StopNever>,
    state: RetryState,
    stop: bool,
)
    ensures
        any.may_stop(state, stop) == any.left().may_stop(state, stop),
{
    assert(any.right().may_stop(state, false));
    if any.left().may_stop(state, stop) {
        assert(any.left().may_stop(state, stop) && any.right().may_stop(state, false));
    }
}

/// `s & never()` never stops.
pub proof fn and_never_never_stops<S: Stop>(all: StopAll<S, StopNever>, state: RetryState)
    ensures
        must_answer(all, state, false),
{
}

/// A strategy by attempts answers one thing in each state, and once it stops it
/// stops after every later attempt.
pub proof fn attempts_stop_for_good(strategy: StopAfterAttempts, early: RetryState, late: RetryState)
    requires
        early.attempt <= late.attempt,
        strategy.may_stop(early, true),
    ensures
        must_answer(strategy, early, true),
        must_answer(strategy, late, true),
{
}

/// A strategy by elapsed time answers one thing in each state, and once it stops
/// it stops at every later time. Where no clock tells the time, it never stops.
pub proof fn elapsed_stops_for_good(strategy: StopAfterElapsed, early: RetryState, late: RetryState)
    requires
        early.elapsed@ <= late.elapsed@,
    ensures
        strategy.may_stop(early, true) ==> must_answer(strategy, early, true),
        strategy.may_stop(early, true) && late.clocked ==> must_answer(strategy, late, true),
        !late.clocked ==> must_answer(strategy, late, false),
{
}

/// A strategy in a box answers as it does outside, also where its type was erased.
pub proof fn boxed_stops_alike<S: Stop + ?Sized>(strategy: Box<S>)
    ensures
        forall|state: RetryState, stop: bool| #[trigger]
            strategy.may_stop(state, stop) == (*strategy).may_stop(state, stop),
{
}

/// A borrowed strategy answers as its owner's does, also where its type was erased.
pub proof fn borrowed_stops_alike<S: Stop + ?Sized>(strategy: &S)
    ensures
        forall|state: RetryState, stop: bool| #[trigger]
            Stop::may_stop(&strategy, state, stop) == Stop::may_stop(strategy, state, stop),
{
}

/// `attempts(max)` lets exactly the attempts before number `max` be followed by another.
pub proof fn attempts_allow_so_many(
    max: u32,
    strategy: StopAfterAttempts,
    state: RetryState,
    stop: bool,
)
    requires
        call_ensures(attempts, (max,), strategy),
        call_ensures(<StopAfterAttempts as Stop>::should_stop, (&strategy, &state), stop),
    ensures
        state.attempt < max ==> !stop,
        state.attempt >= max ==> stop,
{
}

/// `elapsed(deadline)` stops from the deadline on and not before, whatever the attempt and
/// the waits, and never where no clock tells the time.
pub proof fn elapsed_stops_from_the_deadline(
    deadline: Duration,
    strategy: StopAfterElapsed,
    state: RetryState,
    stop: bool,
)
    requires
        call_ensures(elapsed, (deadline,), strategy),
        call_ensures(<StopAfterElapsed as Stop>::should_stop, (&strategy, &state), stop),
    ensures
        state.elapsed@ < deadline@ ==> !stop,
        state.clocked && state.elapsed@ >= deadline@ ==> stop,
        !state.clocked ==> !stop,
{
}

/// `before_elapsed(deadline)` stops exactly where `elapsed(deadline)` would stop once the
/// coming wait is over: where a state has a coming wait, the two agree on that state and
/// on the one with the wait added to its elapsed time.
pub proof fn before_elapsed_looks_ahead(
    deadline: Duration,
    ahead: StopBeforeElapsed,
    behind: StopAfterElapsed,
    state: RetryState,
    coming: Duration,
    later: RetryState,
    stop_ahead: bool,
    stop_behind: bool,
)
    requires
        call_ensures(before_elapsed, (deadline,), ahead),
        call_ensures(elapsed, (deadline,), behind),
        state.next_delay == Some(coming),
        later.clocked == state.clocked,
        later.elapsed@ == state.elapsed@ + coming@,
        later.elapsed@ <= MAX_NANOS,
        call_ensures(<StopBeforeElapsed as Stop>::should_stop, (&ahead, &state), stop_ahead),
        call_ensures(<StopAfterElapsed as Stop>::should_stop, (&behind, &later), stop_behind),
    ensures
        stop_ahead == stop_behind,
{
}

/// `before_elapsed(deadline)` lets a retry follow only where elapsed time and the coming
/// wait together stay short of the deadline, and wherever they do.
pub proof fn before_elapsed_keeps_the_deadline(
    deadline: Duration,
    strategy: StopBeforeElapsed,
    state: RetryState,
    stop: bool,
)
    requires
        deadline@ <= MAX_NANOS,
        call_ensures(before_elapsed, (deadline,), strategy),
        call_ensures(<StopBeforeElapsed as Stop>::should_stop, (&strategy, &state), stop),
    ensures
        !state.clocked ==> !stop,
        state.clocked ==> (state.next_delay matches Some(coming) ==> stop == (state.elapsed@
            + coming@ >= deadline@)),
        state.clocked && state.next_delay is None ==> stop == (state.elapsed@ >= deadline@),
{
}

/// `never()` lets every attempt be followed by another.
pub proof fn never_allows_all(strategy: StopNever, state: RetryState, stop: bool)
    requires
        call_ensures(never, (), strategy),
        call_ensures(<StopNever as Stop>::should_stop, (&strategy, &state), stop),
    ensures
        !stop,
{
}

/// `a | b` goes on only on the word of both, and stops on the word of one, whatever the
/// other says.
pub proof fn any_goes_by_both_answers<A: Stop, B: Stop>(
    a: A,
    b: B,
    any: StopAny<A, B>,
    state: RetryState,
)
    requires
        call_ensures(StopAny::<A, B>::new, (a, b), any),
    ensures
        any.may_stop(state, false) == (a.may_stop(state, false) && b.may_stop(state, false)),
        any.may_stop(state, true) == (a.may_stop(state, true) && (b.may_stop(state, true)
            || b.may_stop(state, false)) || a.may_stop(state, false) && b.may_stop(state, true)),
{
}

/// `a & b` stops only on the word of both, and goes on on the word of one, whatever the
/// other says.
pub proof fn all_goes_by_both_answers<A: Stop, B: Stop>(
    a: A,
    b: B,
    all: StopAll<A, B>,
    state: RetryState,
)
    requires
        call_ensures(StopAll::<A, B>::new, (a, b), all),
    ensures
        all.may_stop(state, true) == (a.may_stop(state, true) && b.may_stop(state, true)),
        all.may_stop(state, false) == (a.may_stop(state, false) && (b.may_stop(state, true)
            || b.may_stop(state, false)) || a.may_stop(state, true) && b.may_stop(state, false)),
{
}

} // verus!
