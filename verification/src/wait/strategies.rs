//! Wait strategies that name one wait for each attempt.

use super::Wait;
use crate::duration::{saturated, Duration, MAX_NANOS};
use crate::state::RetryState;
use vstd::arithmetic::power::{lemma_pow0, lemma_pow_increases, pow};
use vstd::prelude::*;

verus! {

/// The base of [`exponential`] unless [`WaitExponential::base`] changes it.
pub const DEFAULT_EXPONENTIAL_BASE: u32 = 2;

/// Attempts before attempt `attempt`.
pub open spec fn retries_before(attempt: u32) -> nat {
    if attempt == 0 {
        0
    } else {
        (attempt - 1) as nat
    }
}

/// The same wait every time. Made by [`fixed`].
#[derive(Clone, Copy, Debug, PartialEq, Eq, Structural)]
pub struct WaitFixed {
    duration: Duration,
}

impl WaitFixed {
    /// The wait.
    pub closed spec fn duration(self) -> Duration {
        self.duration
    }
}

/// A strategy that waits `dur` every time.
pub fn fixed(dur: Duration) -> (r: WaitFixed)
    ensures
        r.duration() == dur,
{
    WaitFixed { duration: dur }
}

impl Wait for WaitFixed {
    open spec fn may_wait(&self, state: RetryState, delay: Duration) -> bool {
        delay == self.duration()
    }

    open spec fn ceiling(&self) -> Option<Duration> {
        None
    }

    fn next_wait(&self, state: &RetryState) -> Duration {
        self.duration
    }

    fn max_delay(&self) -> Option<Duration> {
        None
    }
}

/// A wait that grows by a constant. Made by [`linear`].
#[derive(Clone, Copy, Debug, PartialEq, Eq, Structural)]
pub struct WaitLinear {
    initial: Duration,
    increment: Duration,
}

impl WaitLinear {
    /// The wait after the first attempt.
    pub closed spec fn initial(self) -> Duration {
        self.initial
    }

    /// What each further attempt adds.
    pub closed spec fn increment(self) -> Duration {
        self.increment
    }
}

/// A strategy that waits `initial + (n - 1) * increment` after attempt `n`.
pub fn linear(initial: Duration, increment: Duration) -> (r: WaitLinear)
    ensures
        r.initial() == initial,
        r.increment() == increment,
{
    WaitLinear { initial, increment }
}

impl Wait for WaitLinear {
    open spec fn may_wait(&self, state: RetryState, delay: Duration) -> bool {
        delay@ == saturated(
            (self.initial()@ + retries_before(state.attempt) * self.increment()@) as int,
        )
    }

    open spec fn ceiling(&self) -> Option<Duration> {
        None
    }

    fn next_wait(&self, state: &RetryState) -> Duration {
        let multiplier: u32 = state.attempt.saturating_sub(1);
        let step = self.increment.saturating_mul(multiplier);
        proof {
            assert(self.increment@ * (multiplier as int) == multiplier * self.increment@)
                by (nonlinear_arith);
            assert(0 <= multiplier * self.increment@) by (nonlinear_arith);
        }
        self.initial.saturating_add(step)
    }

    fn max_delay(&self) -> Option<Duration> {
        None
    }
}

/// A wait that grows by a constant factor. Made by [`exponential`].
#[derive(Clone, Copy, Debug, PartialEq, Eq, Structural)]
pub struct WaitExponential {
    initial: Duration,
    base: u32,
}

impl WaitExponential {
    /// The wait after the first attempt.
    pub closed spec fn initial(self) -> Duration {
        self.initial
    }

    /// The factor.
    pub closed spec fn factor(self) -> u32 {
        self.base
    }

    /// This strategy with `base` for its factor, or 1 where `base` is 0. A factor
    /// of 1 waits `initial` every time.
    pub fn base(self, base: u32) -> (r: WaitExponential)
        ensures
            r.initial() == self.initial(),
            r.factor() == if base == 0 { 1 } else { base },
    {
        WaitExponential { initial: self.initial, base: if base == 0 { 1 } else { base } }
    }
}

/// A strategy that waits `initial * 2^(n - 1)` after attempt `n`.
pub fn exponential(initial: Duration) -> (r: WaitExponential)
    ensures
        r.initial() == initial,
        r.factor() == DEFAULT_EXPONENTIAL_BASE,
{
    WaitExponential { initial, base: DEFAULT_EXPONENTIAL_BASE }
}

/// `base` to the power `exponent`, exactly where that is at most the longest
/// representable span, and anything above that span where it is not.
pub fn saturating_pow(base: u32, exponent: u32) -> (r: u128)
    ensures
        pow(base as int, exponent as nat) <= MAX_NANOS ==> r == pow(base as int, exponent as nat),
        pow(base as int, exponent as nat) > MAX_NANOS ==> r > MAX_NANOS,
{
    if exponent == 0 {
        proof {
            lemma_pow0(base as int);
        }
        return 1;
    }
    if base == 0 {
        proof {
            reveal(pow);
        }
        return 0;
    }
    if base == 1 {
        proof {
            lemma_one_pow(exponent as nat);
        }
        return 1;
    }
    let mut result: u128 = 1;
    let mut done: u32 = 0;
    proof {
        lemma_pow0(base as int);
    }
    while done < exponent && result <= MAX_NANOS
        invariant
            base >= 2,
            done <= exponent,
            result == pow(base as int, done as nat),
            result <= MAX_NANOS * u32::MAX,
        decreases exponent - done,
    {
        proof {
            assert(result * base <= MAX_NANOS * u32::MAX) by (nonlinear_arith)
                requires
                    0 <= result <= MAX_NANOS,
                    0 <= base <= u32::MAX,
            ;
            assert(pow(base as int, (done + 1) as nat) == base * pow(base as int, done as nat)) by {
                reveal(pow);
            }
            assert(result * base == base * result) by (nonlinear_arith);
        }
        result = result * base as u128;
        done = done + 1;
    }
    proof {
        lemma_pow_increases(base as nat, done as nat, exponent as nat);
    }
    result
}

/// Every power of one is one.
pub(super) proof fn lemma_one_pow(e: nat)
    ensures
        pow(1, e) == 1,
    decreases e,
{
    reveal(pow);
    if e > 0 {
        lemma_one_pow((e - 1) as nat);
    }
}

impl Wait for WaitExponential {
    open spec fn may_wait(&self, state: RetryState, delay: Duration) -> bool {
        delay@ == saturated(
            self.initial()@ * pow(self.factor() as int, retries_before(state.attempt)),
        )
    }

    open spec fn ceiling(&self) -> Option<Duration> {
        None
    }

    fn next_wait(&self, state: &RetryState) -> Duration {
        let exponent: u32 = state.attempt.saturating_sub(1);
        let multiplier: u128 = saturating_pow(self.base, exponent);
        let nanos: u128 = self.initial.as_nanos();
        proof {
            let power = pow(self.base as int, exponent as nat);
            assert(exponent as nat == retries_before(state.attempt));
            if nanos == 0 {
                assert(nanos * power == 0) by (nonlinear_arith)
                    requires
                        nanos == 0,
                ;
                assert(nanos * multiplier == 0) by (nonlinear_arith)
                    requires
                        nanos == 0,
                ;
            } else if power > MAX_NANOS {
                assert(nanos * power > MAX_NANOS) by (nonlinear_arith)
                    requires
                        power > MAX_NANOS,
                        nanos > 0,
                ;
                assert(nanos * multiplier > MAX_NANOS) by (nonlinear_arith)
                    requires
                        multiplier > MAX_NANOS,
                        nanos > 0,
                ;
            }
        }
        match nanos.checked_mul(multiplier) {
            Some(product) => Duration::from_nanos_saturating(product),
            None => Duration::longest(),
        }
    }

    fn max_delay(&self) -> Option<Duration> {
        None
    }
}

} // verus!
