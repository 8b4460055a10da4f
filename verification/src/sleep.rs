//! Spans of time for the timers of others.

use crate::duration::Duration;
use embassy_time::Duration as EmbassySpan;
use vstd::prelude::*;

verus! {

/// Microseconds in one second.
pub const MICROS_PER_SEC: u128 = 1_000_000;

/// Ticks that cover `micros` microseconds at `tick_hz` ticks per second, rounded
/// up to a whole tick and cut off at `u64::MAX`.
pub open spec fn ticks_covering(micros: nat, tick_hz: u64) -> u64 {
    let ticks = (micros * tick_hz + MICROS_PER_SEC - 1) / (MICROS_PER_SEC as int);
    if ticks <= u64::MAX {
        ticks as u64
    } else {
        u64::MAX
    }
}

/// Ticks that cover `dur` at `tick_hz` ticks per second. A part of a microsecond
/// does not count.
pub fn embassy_ticks(dur: Duration, tick_hz: u64) -> (r: u64)
    ensures
        r == ticks_covering(dur@ / 1_000, tick_hz),
{
    let micros: u128 = dur.as_micros();
    let product: u128 = match micros.checked_mul(tick_hz as u128) {
        Some(product) => product,
        None => return u64::MAX,
    };
    let whole: u128 = product / MICROS_PER_SEC;
    let ticks: u128 = if product % MICROS_PER_SEC == 0 {
        whole
    } else {
        whole + 1
    };
    if ticks <= u64::MAX as u128 {
        ticks as u64
    } else {
        u64::MAX
    }
}

/// `embassy_time::Duration`: a span in ticks of the embassy timebase.
#[verifier::external_type_specification]
#[verifier::external_body]
pub struct ExEmbassySpan(EmbassySpan);

/// The span that `embassy_time::Duration::from_ticks` makes of `ticks`.
pub uninterp spec fn embassy_span(ticks: u64) -> EmbassySpan;

/// `embassy_time::Duration::from_ticks` makes a span of as many ticks as it is
/// given. Its result is a function of that number alone.
#[verifier::external_body]
fn embassy_from_ticks(ticks: u64) -> (r: EmbassySpan)
    ensures
        r == embassy_span(ticks),
{
    EmbassySpan::from_ticks(ticks)
}

/// `embassy_time::TICK_HZ` is the ticks per second of the embassy timebase. The
/// `std` feature of the crate sets it to one million.
#[verifier::external_body]
fn embassy_tick_hz() -> (r: u64)
    ensures
        r == 1_000_000,
{
    embassy_time::TICK_HZ
}

/// `dur` as a span for embassy timers: rounded up to a whole tick, and as long as
/// embassy can count where `dur` is longer.
pub fn to_embassy_duration(dur: Duration) -> (r: EmbassySpan)
    ensures
        r == embassy_span(ticks_covering(dur@ / 1_000, 1_000_000)),
{
    embassy_from_ticks(embassy_ticks(dur, embassy_tick_hz()))
}

/// The ticks for a span cover its whole microseconds and no tick more: one less would fall
/// short. Where no count of ticks is enough, it is the highest there is.
pub proof fn ticks_cover_and_no_more(dur: Duration, tick_hz: u64, ticks: u64)
    requires
        call_ensures(embassy_ticks, (dur, tick_hz), ticks),
    ensures
        ticks < u64::MAX ==> ticks * 1_000_000 >= (dur@ / 1_000) * tick_hz,
        (ticks - 1) * 1_000_000 < (dur@ / 1_000) * tick_hz || ticks == 0,
{
    let want = (dur@ / 1_000) * tick_hz;
    assert(want >= 0) by (nonlinear_arith)
        requires
            want == (dur@ / 1_000) * tick_hz,
    ;
}

/// A span for embassy timers has the ticks that cover the span at a million a second,
/// which is one for each microsecond.
pub proof fn embassy_counts_microseconds(dur: Duration, span: EmbassySpan)
    requires
        dur@ / 1_000 <= u64::MAX,
        call_ensures(to_embassy_duration, (dur,), span),
    ensures
        span == embassy_span((dur@ / 1_000) as u64),
{
}

} // verus!
