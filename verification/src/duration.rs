//! Spans of time.
//!
//! A [`Duration`] counts whole nanoseconds from zero up to
//! [`MAX_NANOS`], which is `u64::MAX` seconds and 999_999_999 nanoseconds.
//! Its view is that count, and every operation is stated over the view.

use core::cmp::Ordering;
use core::ops::Add;
use vstd::prelude::*;

verus! {

/// Nanoseconds in the longest representable span.
pub const MAX_NANOS: u128 = 18_446_744_073_709_551_615_999_999_999;

/// Nanoseconds in one second.
pub const NANOS_PER_SEC: u128 = 1_000_000_000;

/// Nanoseconds in one millisecond.
pub const NANOS_PER_MILLI: u128 = 1_000_000;

/// Nanoseconds in one microsecond.
pub const NANOS_PER_MICRO: u128 = 1_000;

/// `nanos`, or the longest representable span when `nanos` is beyond it.
pub open spec fn saturated(nanos: int) -> nat {
    if nanos <= 0 {
        0
    } else if nanos <= MAX_NANOS {
        nanos as nat
    } else {
        MAX_NANOS as nat
    }
}

/// The smaller of two counts.
pub open spec fn lesser(a: nat, b: nat) -> nat {
    if a <= b {
        a
    } else {
        b
    }
}

/// A span of time in whole nanoseconds.
#[derive(Clone, Copy, Debug, PartialEq, Eq, Ord, Hash, Structural)]
pub struct Duration {
    nanos: u128,
}

impl View for Duration {
    type V = nat;

    closed spec fn view(&self) -> nat {
        self.nanos as nat
    }
}

/// Two spans with the same count of nanoseconds are the same span.
pub broadcast proof fn duration_ext(a: Duration, b: Duration)
    requires
        #[trigger] a@ == #[trigger] b@,
    ensures
        a == b,
{
}

/// The empty span has no nanoseconds.
pub broadcast proof fn empty_span()
    ensures
        #[trigger] Duration::empty()@ == 0,
{
}

impl PartialOrd for Duration {
    fn partial_cmp(&self, other: &Self) -> (r: Option<Ordering>) {
        if self.nanos < other.nanos {
            Some(Ordering::Less)
        } else if self.nanos == other.nanos {
            Some(Ordering::Equal)
        } else {
            Some(Ordering::Greater)
        }
    }
}

impl vstd::std_specs::cmp::PartialOrdSpecImpl for Duration {
    open spec fn obeys_partial_cmp_spec() -> bool {
        true
    }

    open spec fn partial_cmp_spec(&self, other: &Self) -> Option<Ordering> {
        if self@ < other@ {
            Some(Ordering::Less)
        } else if self@ == other@ {
            Some(Ordering::Equal)
        } else {
            Some(Ordering::Greater)
        }
    }
}

impl Duration {
    #[verifier::type_invariant]
    spec fn within_range(self) -> bool {
        self.nanos <= MAX_NANOS
    }

    /// The empty span.
    pub closed spec fn empty() -> Duration {
        Duration { nanos: 0 }
    }

    /// The empty span.
    pub fn zero() -> (r: Duration)
        ensures
            r == Self::empty(),
            r@ == 0,
    {
        Duration { nanos: 0 }
    }

    /// The longest representable span.
    pub fn longest() -> (r: Duration)
        ensures
            r@ == MAX_NANOS,
    {
        Duration { nanos: MAX_NANOS }
    }

    /// A span of `secs` seconds.
    pub fn from_secs(secs: u64) -> (r: Duration)
        ensures
            r@ == secs * NANOS_PER_SEC,
    {
        Duration { nanos: secs as u128 * NANOS_PER_SEC }
    }

    /// A span of `millis` milliseconds.
    pub fn from_millis(millis: u64) -> (r: Duration)
        ensures
            r@ == millis * NANOS_PER_MILLI,
    {
        Duration { nanos: millis as u128 * NANOS_PER_MILLI }
    }

    /// A span of `micros` microseconds.
    pub fn from_micros(micros: u64) -> (r: Duration)
        ensures
            r@ == micros * NANOS_PER_MICRO,
    {
        Duration { nanos: micros as u128 * NANOS_PER_MICRO }
    }

    /// A span of `nanos` nanoseconds.
    pub fn from_nanos(nanos: u64) -> (r: Duration)
        ensures
            r@ == nanos,
    {
        Duration { nanos: nanos as u128 }
    }

    /// The span of `nanos` nanoseconds, cut off at the longest representable one.
    pub fn from_nanos_saturating(nanos: u128) -> (r: Duration)
        ensures
            r@ == saturated(nanos as int),
    {
        if nanos <= MAX_NANOS {
            Duration { nanos }
        } else {
            Duration { nanos: MAX_NANOS }
        }
    }

    /// Whole seconds in this span.
    pub fn as_secs(&self) -> (r: u64)
        ensures
            r == self@ / (NANOS_PER_SEC as nat),
    {
        proof {
            use_type_invariant(self);
        }
        (self.nanos / NANOS_PER_SEC) as u64
    }

    /// Nanoseconds of this span past its last whole second.
    pub fn subsec_nanos(&self) -> (r: u32)
        ensures
            r == self@ % (NANOS_PER_SEC as nat),
    {
        (self.nanos % NANOS_PER_SEC) as u32
    }

    /// Whole milliseconds in this span.
    pub fn as_millis(&self) -> (r: u128)
        ensures
            r == self@ / (NANOS_PER_MILLI as nat),
    {
        self.nanos / NANOS_PER_MILLI
    }

    /// Whole microseconds in this span.
    pub fn as_micros(&self) -> (r: u128)
        ensures
            r == self@ / (NANOS_PER_MICRO as nat),
    {
        self.nanos / NANOS_PER_MICRO
    }

    /// Nanoseconds in this span.
    pub fn as_nanos(&self) -> (r: u128)
        ensures
            r == self@,
            r <= MAX_NANOS,
    {
        proof {
            use_type_invariant(self);
        }
        self.nanos
    }

    /// Whether this is the empty span.
    pub fn is_zero(&self) -> (r: bool)
        ensures
            r == (self@ == 0),
    {
        self.nanos == 0
    }

    /// The sum of two spans, cut off at the longest representable one.
    pub fn saturating_add(self, rhs: Duration) -> (r: Duration)
        ensures
            r@ == saturated((self@ + rhs@) as int),
    {
        proof {
            use_type_invariant(&self);
            use_type_invariant(&rhs);
        }
        Duration::from_nanos_saturating(self.nanos + rhs.nanos)
    }

    /// What is left of this span once `rhs` is taken off, down to zero.
    pub fn saturating_sub(self, rhs: Duration) -> (r: Duration)
        ensures
            r@ == saturated(self@ - rhs@),
    {
        proof {
            use_type_invariant(&self);
        }
        if self.nanos >= rhs.nanos {
            Duration { nanos: self.nanos - rhs.nanos }
        } else {
            Duration::zero()
        }
    }

    /// This span `factor` times over, cut off at the longest representable one.
    pub fn saturating_mul(self, factor: u32) -> (r: Duration)
        ensures
            r@ == saturated(self@ * (factor as int)),
    {
        proof {
            use_type_invariant(&self);
            assert(0 <= self.nanos * factor <= MAX_NANOS * u32::MAX) by (nonlinear_arith)
                requires
                    self.nanos <= MAX_NANOS,
                    factor <= u32::MAX,
            ;
        }
        Duration::from_nanos_saturating(self.nanos * factor as u128)
    }

    /// Half of this span, rounded down to a nanosecond.
    pub fn half(self) -> (r: Duration)
        ensures
            r@ == self@ / 2,
    {
        proof {
            use_type_invariant(&self);
        }
        Duration { nanos: self.nanos / 2 }
    }

    /// The shorter of two spans.
    pub fn min(self, other: Duration) -> (r: Duration)
        ensures
            r@ == lesser(self@, other@),
            r == self || r == other,
    {
        if self.nanos <= other.nanos {
            self
        } else {
            other
        }
    }

    /// The longer of two spans.
    pub fn max(self, other: Duration) -> (r: Duration)
        ensures
            r@ == if self@ >= other@ { self@ } else { other@ },
            r == self || r == other,
    {
        if self.nanos >= other.nanos {
            self
        } else {
            other
        }
    }
}

impl Default for Duration {
    /// The empty span.
    fn default() -> (r: Duration)
        ensures
            r@ == 0,
    {
        Duration::zero()
    }
}

impl Add for Duration {
    type Output = Duration;

    /// The sum of two spans that together stay representable.
    fn add(self, rhs: Duration) -> (r: Duration)
        ensures
            r@ == self@ + rhs@,
    {
        proof {
            use_type_invariant(&self);
            use_type_invariant(&rhs);
        }
        Duration { nanos: self.nanos + rhs.nanos }
    }
}

impl vstd::std_specs::ops::AddSpecImpl for Duration {
    open spec fn obeys_add_spec() -> bool {
        true
    }

    open spec fn add_req(self, rhs: Duration) -> bool {
        self@ + rhs@ <= MAX_NANOS
    }

    closed spec fn add_spec(self, rhs: Duration) -> Duration {
        Duration { nanos: (self.nanos + rhs.nanos) as u128 }
    }
}

/// Adding spans is exact for as long as the sum is representable, and gives the longest
/// span where it is not.
pub proof fn sums_are_exact_or_longest(a: Duration, b: Duration, sum: Duration)
    requires
        call_ensures(Duration::saturating_add, (a, b), sum),
    ensures
        a@ + b@ <= MAX_NANOS ==> sum@ == a@ + b@,
        a@ + b@ > MAX_NANOS ==> sum@ == MAX_NANOS,
{
}

/// What is left of a span makes it up again with what was taken off. Nothing is left where
/// more is taken off than there is.
pub proof fn what_is_left_makes_up_the_whole(whole: Duration, part: Duration, left: Duration)
    requires
        whole@ <= MAX_NANOS,
        call_ensures(Duration::saturating_sub, (whole, part), left),
    ensures
        part@ <= whole@ ==> left@ + part@ == whole@,
        part@ > whole@ ==> left@ == 0,
{
}

/// Multiplying is adding again and again, up to the longest span.
pub proof fn multiples_add_up(
    span: Duration,
    factor: u32,
    fewer: Duration,
    more: Duration,
    none: Duration,
)
    requires
        factor < u32::MAX,
        call_ensures(Duration::saturating_mul, (span, 0u32), none),
        call_ensures(Duration::saturating_mul, (span, factor), fewer),
        call_ensures(Duration::saturating_mul, (span, (factor + 1) as u32), more),
    ensures
        none@ == 0,
        fewer@ + span@ <= MAX_NANOS ==> more@ == fewer@ + span@,
        fewer@ + span@ > MAX_NANOS ==> more@ == MAX_NANOS,
{
    let (s, f) = (span@ as int, factor as int);
    assert(s * (f + 1) == s * f + s) by (nonlinear_arith);
    assert(s * f >= 0) by (nonlinear_arith)
        requires
            s >= 0,
            f >= 0,
    ;
}

/// Two halves make up a span, but for a nanosecond where it has an odd one.
pub proof fn halves_make_up_the_whole(whole: Duration, half: Duration)
    requires
        call_ensures(Duration::half, (whole,), half),
    ensures
        half@ + half@ <= whole@ <= half@ + half@ + 1,
{
}

/// The shorter and the longer of two spans are the two, in order.
pub proof fn shorter_and_longer_are_the_two(
    a: Duration,
    b: Duration,
    shorter: Duration,
    longer: Duration,
)
    requires
        call_ensures(Duration::min, (a, b), shorter),
        call_ensures(Duration::max, (a, b), longer),
    ensures
        shorter@ <= longer@,
        shorter@ + longer@ == a@ + b@,
        shorter == a || shorter == b,
        longer == a || longer == b,
{
}

/// Units are a thousand apart, down from a second: a span made of a count of one has that
/// count of it.
pub proof fn units_are_a_thousand_apart(
    n: u64,
    secs: Duration,
    millis: Duration,
    micros: Duration,
    nanos: Duration,
)
    requires
        call_ensures(Duration::from_secs, (n,), secs),
        call_ensures(Duration::from_millis, (n,), millis),
        call_ensures(Duration::from_micros, (n,), micros),
        call_ensures(Duration::from_nanos, (n,), nanos),
    ensures
        nanos@ == n,
        micros@ == nanos@ * 1_000,
        millis@ == micros@ * 1_000,
        secs@ == millis@ * 1_000,
{
}

/// A span is its whole seconds and the nanoseconds past them, and its whole milliseconds
/// and microseconds come within one of it.
pub proof fn parts_make_up_the_span(
    span: Duration,
    secs: u64,
    past: u32,
    millis: u128,
    micros: u128,
    nanos: u128,
    empty: bool,
)
    requires
        call_ensures(Duration::as_secs, (&span,), secs),
        call_ensures(Duration::subsec_nanos, (&span,), past),
        call_ensures(Duration::as_millis, (&span,), millis),
        call_ensures(Duration::as_micros, (&span,), micros),
        call_ensures(Duration::as_nanos, (&span,), nanos),
        call_ensures(Duration::is_zero, (&span,), empty),
    ensures
        nanos == span@,
        secs * 1_000_000_000 + past == span@,
        past < 1_000_000_000,
        millis * 1_000_000 <= span@ < (millis + 1) * 1_000_000,
        micros * 1_000 <= span@ < (micros + 1) * 1_000,
        empty == (span@ == 0),
{
}

/// The ends of the range are reached and not passed, and nothing in between is changed.
pub proof fn range_is_cut_at_its_end(
    nanos: u128,
    span: Duration,
    shortest: Duration,
    longest: Duration,
)
    requires
        call_ensures(Duration::from_nanos_saturating, (nanos,), span),
        call_ensures(Duration::zero, (), shortest),
        call_ensures(Duration::longest, (), longest),
    ensures
        shortest@ == 0,
        longest@ == u64::MAX * 1_000_000_000 + 999_999_999,
        nanos <= longest@ ==> span@ == nanos,
        nanos > longest@ ==> span@ == longest@,
{
}

/// Spans are ordered as their nanoseconds are.
pub proof fn order_is_that_of_nanoseconds(a: Duration, b: Duration)
    ensures
        vstd::std_specs::cmp::PartialOrdSpec::partial_cmp_spec(&a, &b) == Some(Ordering::Less)
            <==> a@ < b@,
        vstd::std_specs::cmp::PartialOrdSpec::partial_cmp_spec(&a, &b) == Some(Ordering::Greater)
            <==> a@ > b@,
        vstd::std_specs::cmp::PartialOrdSpec::partial_cmp_spec(&a, &b) == Some(Ordering::Equal)
            <==> a == b,
{
}

} // verus!
