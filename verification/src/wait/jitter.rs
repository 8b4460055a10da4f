//! Randomised waits.
//!
//! Jitter spreads the retries of independent callers apart. Its randomness is a
//! SplitMix64 stream: a counter that moves by a constant, and a mixing function
//! that turns each count into a draw. The functions that use a draw take it as
//! an argument and are exact; a [`Jittered`] strategy makes the draw itself.

use super::strategies::{fixed, WaitFixed};
use super::Wait;
use crate::duration::{lesser, saturated, Duration};
use crate::state::RetryState;
use core::sync::atomic::{AtomicU64, Ordering};
use std::collections::hash_map::RandomState;
use std::hash::BuildHasher;
use vstd::arithmetic::div_mod::{
    lemma_add_mod_noop_right, lemma_fundamental_div_mod, lemma_mod_equivalence,
    lemma_mul_mod_noop_left, lemma_mul_mod_noop_right, lemma_small_mod,
};
use vstd::prelude::*;

verus! {

/// The seed of a strategy that was given none.
pub const DEFAULT_JITTER_SEED: u64 = 0x5A5A_5A5A_5A5A_5A5A;

/// What the counter of a stream moves by.
pub const GAMMA: u64 = 0x9e37_79b9_7f4a_7c15;

const MIX_FIRST: u64 = 0xbf58_476d_1ce4_e5b9;

const MIX_SECOND: u64 = 0x94d0_49bb_1331_11eb;

/// The draw that belongs to a count of the stream.
pub closed spec fn mixed(count: u64) -> u64 {
    let a: u64 = (count ^ (count >> 30u64)).wrapping_mul(MIX_FIRST);
    let b: u64 = (a ^ (a >> 27u64)).wrapping_mul(MIX_SECOND);
    b ^ (b >> 31u64)
}

/// The draw that belongs to a count of the stream.
pub fn mix(count: u64) -> (r: u64)
    ensures
        r == mixed(count),
{
    let a: u64 = (count ^ (count >> 30)).wrapping_mul(MIX_FIRST);
    let b: u64 = (a ^ (a >> 27)).wrapping_mul(MIX_SECOND);
    b ^ (b >> 31)
}

/// How far a stream has moved after its first `n` draws and one more.
pub open spec fn count_at(start: u64, n: nat) -> u64 {
    ((start + (n + 1) * GAMMA) % 0x1_0000_0000_0000_0000) as u64
}

/// Draw `n` of the stream that starts at `start`, counted from 0.
pub open spec fn stream(start: u64, n: nat) -> u64 {
    mixed(count_at(start, n))
}

/// Draw `n` of the stream that starts at `start`, counted from 0.
pub fn draw_at(start: u64, n: u64) -> (r: u64)
    ensures
        r == stream(start, n as nat),
{
    let moved: u64 = n.wrapping_add(1).wrapping_mul(GAMMA);
    let count: u64 = start.wrapping_add(moved);
    proof {
        lemma_moved(start, n, moved, count);
    }
    mix(count)
}

proof fn lemma_moved(start: u64, n: u64, moved: u64, count: u64)
    requires
        moved == n.wrapping_add(1).wrapping_mul(GAMMA),
        count == start.wrapping_add(moved),
    ensures
        count == count_at(start, n as nat),
{
    let m: int = 0x1_0000_0000_0000_0000;
    let next: int = (n + 1) as int;
    let g: int = GAMMA as int;
    assert(n.wrapping_add(1) == next % m);
    lemma_mul_mod_noop_left(next, g, m);
    assert(moved == (next * g) % m);
    lemma_add_mod_noop_right(start as int, next * g, m);
    assert(count == (start + moved) % m);
}

/// Counts that are multiplied by an odd constant stay apart: `inverse` undoes
/// `factor`.
proof fn lemma_multiplying_keeps_apart(a: u64, b: u64, factor: u64, inverse: u64)
    requires
        (factor * inverse) % 0x1_0000_0000_0000_0000 == 1,
        a.wrapping_mul(factor) == b.wrapping_mul(factor),
    ensures
        a == b,
{
    let m: int = 0x1_0000_0000_0000_0000;
    lemma_undone(a as int, factor as int, inverse as int, m);
    lemma_undone(b as int, factor as int, inverse as int, m);
}

proof fn lemma_undone(x: int, factor: int, inverse: int, m: int)
    requires
        0 <= x < m,
        m > 1,
        (factor * inverse) % m == 1,
    ensures
        (((x * factor) % m) * inverse) % m == x,
{
    lemma_mul_mod_noop_left(x * factor, inverse, m);
    assert((x * factor) * inverse == x * (factor * inverse)) by (nonlinear_arith);
    lemma_mul_mod_noop_right(x, factor * inverse, m);
    lemma_small_mod(x as nat, m as nat);
}

/// Mixing is one to one: different counts give different draws.
pub proof fn mixing_is_one_to_one(a: u64, b: u64)
    requires
        mixed(a) == mixed(b),
    ensures
        a == b,
{
    let a_first: u64 = a ^ (a >> 30u64);
    let b_first: u64 = b ^ (b >> 30u64);
    let a_next: u64 = a_first.wrapping_mul(MIX_FIRST);
    let b_next: u64 = b_first.wrapping_mul(MIX_FIRST);
    let a_second: u64 = a_next ^ (a_next >> 27u64);
    let b_second: u64 = b_next ^ (b_next >> 27u64);
    let a_last: u64 = a_second.wrapping_mul(MIX_SECOND);
    let b_last: u64 = b_second.wrapping_mul(MIX_SECOND);
    assert(a_last ^ (a_last >> 31u64) == b_last ^ (b_last >> 31u64) ==> a_last == b_last)
        by (bit_vector);
    lemma_multiplying_keeps_apart(a_second, b_second, MIX_SECOND, 0x3196_42b2_d24d_8ec3);
    assert(a_next ^ (a_next >> 27u64) == b_next ^ (b_next >> 27u64) ==> a_next == b_next)
        by (bit_vector);
    lemma_multiplying_keeps_apart(a_first, b_first, MIX_FIRST, 0x96de_1b17_3f11_9089);
    assert(a ^ (a >> 30u64) == b ^ (b >> 30u64) ==> a == b) by (bit_vector);
}

/// A stream gives a new draw each time: no draw comes again before the stream has
/// given all there are.
#[verifier::spinoff_prover]
#[verifier::rlimit(60)]
pub proof fn draws_do_not_repeat(start: u64, i: u64, j: u64)
    requires
        stream(start, i as nat) == stream(start, j as nat),
    ensures
        i == j,
{
    let m: int = 0x1_0000_0000_0000_0000;
    let g: int = GAMMA as int;
    mixing_is_one_to_one(count_at(start, i as nat), count_at(start, j as nat));
    let here: int = start + (i + 1) * g;
    let there: int = start + (j + 1) * g;
    lemma_mod_equivalence(here, there, m);
    assert(here - there == (i - j) * g) by (nonlinear_arith)
        requires
            here == start + (i + 1) * g,
            there == start + (j + 1) * g,
    ;
    let apart: int = i - j;
    let inverse: int = 0xf1de_83e1_9937_733d;
    lemma_mul_mod_noop_left(apart * g, inverse, m);
    assert((apart * g) * inverse == apart * (g * inverse)) by (nonlinear_arith);
    lemma_mul_mod_noop_right(apart, g * inverse, m);
    assert(apart % m == 0);
    lemma_fundamental_div_mod(apart, m);
    assert(apart == 0) by (nonlinear_arith)
        requires
            -m < apart < m,
            apart == m * (apart / m),
            m > 0,
    ;
}

/// Streams that start apart have different first draws.
pub proof fn first_draws_tell_starts_apart(a: u64, b: u64)
    requires
        stream(a, 0) == stream(b, 0),
    ensures
        a == b,
{
    let m: int = 0x1_0000_0000_0000_0000;
    mixing_is_one_to_one(count_at(a, 0), count_at(b, 0));
    lemma_mod_equivalence(a + GAMMA, b + GAMMA, m);
    let apart: int = a - b;
    assert(apart % m == 0);
    lemma_fundamental_div_mod(apart, m);
    assert(apart == 0) by (nonlinear_arith)
        requires
            -m < apart < m,
            apart == m * (apart / m),
            m > 0,
    ;
}

/// `draw` brought into `0..=max`.
pub open spec fn bounded(draw: u64, max: u64) -> u64 {
    if max == u64::MAX {
        draw
    } else {
        (draw as int % (max + 1)) as u64
    }
}

/// `draw` brought into `0..=max`.
pub fn bound(draw: u64, max: u64) -> (r: u64)
    ensures
        r == bounded(draw, max),
        r <= max,
{
    if max == u64::MAX {
        draw
    } else {
        draw % (max + 1)
    }
}

/// The span of `lower` nanoseconds lengthened by as much as `draw` says, up to
/// `upper`. No more than `u64::MAX` nanoseconds are added.
pub open spec fn spread(lower: nat, upper: nat, draw: u64) -> nat {
    if upper <= lower {
        lower
    } else {
        saturated(lower + bounded(draw, lesser((upper - lower) as nat, u64::MAX as nat) as u64))
    }
}

/// A SplitMix64 stream of draws, shared by everyone who borrows it.
///
/// How many draws were taken is an atomic, so concurrent callers take turns on one
/// stream and each gets a draw of its own. Which one a call gets is therefore not
/// part of any contract here; that it is a draw of this stream is.
#[derive(Debug)]
pub struct SplitMix64 {
    start: u64,
    taken: AtomicU64,
}

impl SplitMix64 {
    /// Where the stream starts.
    pub closed spec fn start(self) -> u64 {
        self.start
    }

    /// Whether this stream was made with no draw taken.
    pub closed spec fn is_unused(self) -> bool {
        call_ensures(AtomicU64::new, (0u64,), self.taken)
    }

    /// Whether this stream was made with as many draws taken as `other` may have
    /// been found to have.
    pub closed spec fn goes_on_from(self, other: SplitMix64) -> bool {
        exists|taken: u64| #[trigger]
            call_ensures(AtomicU64::load, (&other.taken, Ordering::Relaxed), taken)
                && call_ensures(AtomicU64::new, (taken,), self.taken)
    }

    /// A stream that starts at `seed`.
    pub fn new(seed: u64) -> (r: SplitMix64)
        ensures
            r.start() == seed,
            r.is_unused(),
    {
        SplitMix64 { start: seed, taken: AtomicU64::new(0) }
    }

    /// Whether a draw of this stream may be number `n`: counting one more as taken
    /// may give `n` for those taken before.
    pub closed spec fn may_take(self, n: u64) -> bool {
        call_ensures(AtomicU64::fetch_add, (&self.taken, 1u64, Ordering::Relaxed), n)
    }

    /// Counts a draw as taken and returns how many were taken before.
    fn advance(&self) -> (r: u64)
        ensures
            self.may_take(r),
    {
        self.taken.fetch_add(1, Ordering::Relaxed)
    }

    /// The next draw.
    pub fn next_u64(&self) -> (r: u64)
        ensures
            exists|n: u64| #[trigger] self.may_take(n) && r == stream(self.start(), n as nat),
    {
        let n: u64 = self.advance();
        draw_at(self.start, n)
    }
}

impl Clone for SplitMix64 {
    /// A stream that goes on from where this one stands.
    fn clone(&self) -> (r: SplitMix64)
        ensures
            r.start() == self.start(),
            r.goes_on_from(*self),
    {
        let taken: u64 = self.taken.load(Ordering::Relaxed);
        SplitMix64 { start: self.start, taken: AtomicU64::new(taken) }
    }
}

/// `RandomState::new`: keys for hashing that std draws at random, apart from
/// those of every earlier call. Nothing is claimed of them.
#[verifier::external_body]
fn fresh_hash_keys() -> RandomState {
    RandomState::new()
}

/// `BuildHasher::hash_one` on the unit value: what `keys` hash it to. Nothing is
/// claimed of it, as the keys are random.
#[verifier::external_body]
fn hash_of_unit(keys: &RandomState) -> u64 {
    keys.hash_one(())
}

/// Whether `nonce` is what keys drawn afresh may hash the unit value to.
pub closed spec fn may_be_nonce(nonce: u64) -> bool {
    exists|keys: RandomState| #[trigger]
        call_ensures(fresh_hash_keys, (), keys) && call_ensures(hash_of_unit, (&keys,), nonce)
}

/// A nonce left to chance, so that instances draw apart: what fresh keys hash the
/// unit value to.
fn next_jitter_nonce() -> (r: u64)
    ensures
        may_be_nonce(r),
{
    let keys = fresh_hash_keys();
    let nonce: u64 = hash_of_unit(&keys);
    assert(call_ensures(fresh_hash_keys, (), keys));
    nonce
}

/// The nonce that belongs to a seed: the first draw of the stream that starts
/// there.
pub open spec fn nonce_of(seed: u64) -> u64 {
    stream(seed, 0)
}

/// The nonce that belongs to a seed, so that a seed alone settles a stream.
pub fn derive_nonce(seed: u64) -> (r: u64)
    ensures
        r == nonce_of(seed),
{
    draw_at(seed, 0)
}

/// The span from `lower` to `upper` that belongs to `draw`, or `lower` where
/// `upper` is not above it.
pub fn spread_by(lower: Duration, upper: Duration, draw: u64) -> (r: Duration)
    ensures
        r@ == spread(lower@, upper@, draw),
{
    let low: u128 = lower.as_nanos();
    let high: u128 = upper.as_nanos();
    if high <= low {
        return lower;
    }
    let range: u128 = high - low;
    let max: u64 = if range < u64::MAX as u128 {
        range as u64
    } else {
        u64::MAX
    };
    lower.saturating_add(Duration::from_nanos(bound(draw, max)))
}

/// How a strategy turns the wait of another into a random one.
#[derive(Clone, Copy, Debug, PartialEq, Eq, Structural)]
pub enum JitterKind {
    /// The wait plus up to this much.
    Additive(Duration),
    /// Anything from nothing to the wait.
    Full,
    /// Half the wait plus up to half the wait.
    Equal,
    /// Anything from the wait to three times the wait that came before.
    Decorrelated,
}

/// The wait of `base` nanoseconds as `kind` randomises it with `draw`, before
/// any ceiling.
pub open spec fn jittered(
    kind: JitterKind,
    base: nat,
    previous_delay: Option<Duration>,
    draw: u64,
) -> nat {
    match kind {
        JitterKind::Additive(max) => saturated((base + spread(0, max@, draw)) as int),
        JitterKind::Full => spread(0, base, draw),
        JitterKind::Equal => saturated((base / 2 + spread(0, base / 2, draw)) as int),
        JitterKind::Decorrelated => {
            let before = match previous_delay {
                Some(delay) => delay@,
                None => base,
            };
            spread(base, saturated((before * 3) as int), draw)
        },
    }
}

/// Whether a wait of `base` nanoseconds leaves `kind` anything to draw for.
pub open spec fn takes_draw(kind: JitterKind, base: nat, previous_delay: Option<Duration>) -> bool {
    match kind {
        JitterKind::Additive(max) => max@ > 0,
        JitterKind::Full => base > 0,
        JitterKind::Equal => base >= 2,
        JitterKind::Decorrelated => match previous_delay {
            Some(delay) => saturated((delay@ * 3) as int) > base,
            None => saturated((base * 3) as int) > base,
        },
    }
}

/// `nanos` cut down to `ceiling`, where there is one.
pub open spec fn under(ceiling: Option<Duration>, nanos: nat) -> nat {
    match ceiling {
        Some(max) => lesser(nanos, max@),
        None => nanos,
    }
}

/// Randomises the waits of another strategy.
///
/// Where a cap was put on that strategy, the randomised waits stay under it.
/// Every instance gets a nonce of its own, so that independent loops draw apart.
/// [`with_seed`](Jittered::with_seed) settles seed and nonce, and with them the
/// stream.
#[derive(Debug)]
pub struct Jittered<W> {
    inner: W,
    kind: JitterKind,
    seed: u64,
    nonce: u64,
    rng: SplitMix64,
}

impl<W> Jittered<W> {
    #[verifier::type_invariant]
    spec fn on_its_stream(self) -> bool {
        self.rng.start() == self.seed ^ self.nonce
    }

    /// The strategy that is randomised.
    pub closed spec fn inner(self) -> W {
        self.inner
    }

    /// How it is randomised.
    pub closed spec fn kind(self) -> JitterKind {
        self.kind
    }

    /// The seed.
    pub closed spec fn seed(self) -> u64 {
        self.seed
    }

    /// The nonce, which tells strategies of one seed apart.
    pub closed spec fn nonce(self) -> u64 {
        self.nonce
    }

    /// Where the stream of this strategy starts.
    pub open spec fn start(self) -> u64 {
        self.seed() ^ self.nonce()
    }

    /// Whether this was made with no draw taken.
    pub closed spec fn is_unused(self) -> bool {
        self.rng.is_unused()
    }

    /// Whether a draw of this strategy may be number `n` of its stream.
    pub closed spec fn may_draw(self, n: u64) -> bool {
        self.rng.may_take(n)
    }

    /// Whether this randomises `inner` by `kind`, with the default seed, a nonce left
    /// to chance, and no draw taken.
    pub open spec fn is_fresh(self, inner: W, kind: JitterKind) -> bool {
        &&& self.inner() == inner
        &&& self.kind() == kind
        &&& self.seed() == DEFAULT_JITTER_SEED
        &&& may_be_nonce(self.nonce())
        &&& self.is_unused()
    }

    fn seeded(inner: W, kind: JitterKind, seed: u64, nonce: u64) -> (r: Jittered<W>)
        ensures
            r.inner() == inner,
            r.kind() == kind,
            r.seed() == seed,
            r.nonce() == nonce,
            r.is_unused(),
    {
        Jittered { inner, kind, seed, nonce, rng: SplitMix64::new(seed ^ nonce) }
    }

    fn fresh(inner: W, kind: JitterKind) -> (r: Jittered<W>)
        ensures
            r.is_fresh(inner, kind),
    {
        Self::seeded(inner, kind, DEFAULT_JITTER_SEED, next_jitter_nonce())
    }

    /// `inner` with up to `max_jitter` added.
    pub fn additive(inner: W, max_jitter: Duration) -> (r: Jittered<W>)
        ensures
            r.is_fresh(inner, JitterKind::Additive(max_jitter)),
    {
        Self::fresh(inner, JitterKind::Additive(max_jitter))
    }

    /// Anything up to `inner`.
    pub fn full(inner: W) -> (r: Jittered<W>)
        ensures
            r.is_fresh(inner, JitterKind::Full),
    {
        Self::fresh(inner, JitterKind::Full)
    }

    /// Half of `inner`, with up to the other half added.
    pub fn equal(inner: W) -> (r: Jittered<W>)
        ensures
            r.is_fresh(inner, JitterKind::Equal),
    {
        Self::fresh(inner, JitterKind::Equal)
    }

    /// Anything from `inner` to three times the wait that came before.
    pub fn decorrelated(inner: W) -> (r: Jittered<W>)
        ensures
            r.is_fresh(inner, JitterKind::Decorrelated),
    {
        Self::fresh(inner, JitterKind::Decorrelated)
    }

    /// This strategy restarted on the stream of `seed`. The nonce is derived
    /// from the seed, so the seed alone settles the stream; call
    /// [`with_nonce`](Jittered::with_nonce) afterwards to tell instances of one
    /// seed apart.
    pub fn with_seed(self, seed: u64) -> (r: Jittered<W>)
        ensures
            r.inner() == self.inner(),
            r.kind() == self.kind(),
            r.seed() == seed,
            r.nonce() == nonce_of(seed),
            r.is_unused(),
    {
        Self::seeded(self.inner, self.kind, seed, derive_nonce(seed))
    }

    /// This strategy restarted on the stream of its seed and `nonce`.
    pub fn with_nonce(self, nonce: u64) -> (r: Jittered<W>)
        ensures
            r.inner() == self.inner(),
            r.kind() == self.kind(),
            r.seed() == self.seed(),
            r.nonce() == nonce,
            r.is_unused(),
    {
        Self::seeded(self.inner, self.kind, self.seed, nonce)
    }
}

/// A copy gets a nonce of its own, so that it draws apart from this instance.
impl<W: Clone> Clone for Jittered<W> {
    fn clone(&self) -> (r: Jittered<W>)
        ensures
            cloned(self.inner(), r.inner()),
            r.kind() == self.kind(),
            r.seed() == self.seed(),
            may_be_nonce(r.nonce()),
            r.is_unused(),
    {
        Self::seeded(self.inner.clone(), self.kind, self.seed, next_jitter_nonce())
    }
}

/// The wait `base` as `kind` randomises it with `draw`, cut down to `ceiling`.
pub fn jitter_by(
    kind: JitterKind,
    base: Duration,
    previous_delay: Option<Duration>,
    ceiling: Option<Duration>,
    draw: u64,
) -> (r: Duration)
    ensures
        r@ == under(ceiling, jittered(kind, base@, previous_delay, draw)),
{
    let zero = Duration::zero();
    let free = match kind {
        JitterKind::Additive(max) => base.saturating_add(spread_by(zero, max, draw)),
        JitterKind::Full => spread_by(zero, base, draw),
        JitterKind::Equal => {
            let half = base.half();
            half.saturating_add(spread_by(zero, half, draw))
        },
        JitterKind::Decorrelated => {
            let before = match previous_delay {
                Some(delay) => delay,
                None => base,
            };
            spread_by(base, before.saturating_mul(3), draw)
        },
    };
    match ceiling {
        Some(max) => free.min(max),
        None => free,
    }
}

/// Whether `kind` leaves anything to draw for. Where it does not, every draw
/// gives the same wait, and none is made.
pub fn wants_draw(kind: JitterKind, base: Duration, previous_delay: Option<Duration>) -> (r: bool)
    ensures
        r == takes_draw(kind, base@, previous_delay),
{
    match kind {
        JitterKind::Additive(max) => !max.is_zero(),
        JitterKind::Full => !base.is_zero(),
        JitterKind::Equal => !base.half().is_zero(),
        JitterKind::Decorrelated => {
            let before = match previous_delay {
                Some(delay) => delay,
                None => base,
            };
            before.saturating_mul(3) > base
        },
    }
}

/// Where `kind` leaves nothing to draw for, every draw gives the same wait.
pub proof fn undrawn_is_settled(
    kind: JitterKind,
    base: nat,
    previous_delay: Option<Duration>,
    a: u64,
    b: u64,
)
    requires
        !takes_draw(kind, base, previous_delay),
    ensures
        jittered(kind, base, previous_delay, a) == jittered(kind, base, previous_delay, b),
{
}

impl<W: Wait> Jittered<W> {
    /// Whether draw `n` makes `delay` of the wait `base` that the randomised strategy
    /// may name.
    pub open spec fn gives(self, state: RetryState, base: Duration, n: nat, delay: Duration) -> bool {
        &&& self.inner().may_wait(state, base)
        &&& delay@ == under(
            self.inner().ceiling(),
            jittered(self.kind(), base@, state.previous_delay, stream(self.start(), n)),
        )
    }

    /// The wait that draw `n` makes of `base`.
    fn settle(&self, state: &RetryState, base: Duration, n: u64) -> (r: Duration)
        requires
            self.inner().may_wait(*state, base),
        ensures
            self.gives(*state, base, n as nat, r),
    {
        proof {
            use_type_invariant(self);
        }
        let ceiling = self.inner.max_delay();
        let draw: u64 = draw_at(self.rng.start, n);
        jitter_by(self.kind, base, state.previous_delay, ceiling, draw)
    }

    /// The wait that draw `n` of the stream gives, whatever draws were taken.
    pub fn wait_at(&self, state: &RetryState, n: u64) -> (r: Duration)
        ensures
            exists|base: Duration| #[trigger] self.gives(*state, base, n as nat, r),
    {
        let base = self.inner.next_wait(state);
        self.settle(state, base, n)
    }
}

impl<W: Wait> Wait for Jittered<W> {
    open spec fn may_wait(&self, state: RetryState, delay: Duration) -> bool {
        exists|base: Duration, n: u64| #[trigger]
            self.gives(state, base, n as nat, delay) && (takes_draw(
                self.kind(),
                base@,
                state.previous_delay,
            ) ==> self.may_draw(n))
    }

    open spec fn ceiling(&self) -> Option<Duration> {
        self.inner().ceiling()
    }

    fn next_wait(&self, state: &RetryState) -> Duration {
        let base = self.inner.next_wait(state);
        let n: u64 = if wants_draw(self.kind, base, state.previous_delay) {
            self.rng.advance()
        } else {
            0
        };
        let delay = self.settle(state, base, n);
        assert(self.gives(*state, base, n as nat, delay));
        delay
    }

    fn max_delay(&self) -> Option<Duration> {
        self.inner.max_delay()
    }
}

/// A strategy that waits anything from `base` to three times the wait that came
/// before, or to three times `base` after the first attempt.
pub fn decorrelated_jitter(base: Duration) -> (r: Jittered<WaitFixed>)
    ensures
        r.kind() == JitterKind::Decorrelated,
        r.inner().duration() == base,
        r.seed() == DEFAULT_JITTER_SEED,
        may_be_nonce(r.nonce()),
        r.is_unused(),
{
    Jittered::decorrelated(fixed(base))
}

/// Mixing is the finaliser of SplitMix64: two rounds of folding the high bits in and
/// multiplying, and one last fold.
pub proof fn mixing_folds_and_multiplies(z: u64, r: u64, first: u64, second: u64)
    requires
        call_ensures(mix, (z,), r),
        first == (z ^ (z >> 30u64)).wrapping_mul(0xbf58_476d_1ce4_e5b9),
        second == (first ^ (first >> 27u64)).wrapping_mul(0x94d0_49bb_1331_11eb),
    ensures
        r == second ^ (second >> 31u64),
{
}

/// A draw is numbered by the count that the stream's counter gives up when it is counted
/// on by one; a new stream starts counting from nothing, and a copy from what the counter
/// of the other is read to be. A randomised strategy draws from its own stream.
proof fn draws_are_numbered_by_the_counter<W>(
    rng: SplitMix64,
    copy: SplitMix64,
    jitter: Jittered<W>,
    n: u64,
)
    ensures
        rng.may_take(n) <==> call_ensures(
            AtomicU64::fetch_add,
            (&rng.taken, 1u64, Ordering::Relaxed),
            n,
        ),
        rng.is_unused() <==> call_ensures(AtomicU64::new, (0u64,), rng.taken),
        copy.goes_on_from(rng) <==> exists|taken: u64| #[trigger]
            call_ensures(AtomicU64::load, (&rng.taken, Ordering::Relaxed), taken) && call_ensures(
                AtomicU64::new,
                (taken,),
                copy.taken,
            ),
        jitter.may_draw(n) <==> jitter.rng.may_take(n),
        jitter.is_unused() <==> jitter.rng.is_unused(),
{
}

/// A nonce left to chance is what fresh keys hash the unit value to, and nothing else.
proof fn chance_nonces_are_hashes(nonce: u64)
    ensures
        may_be_nonce(nonce) <==> exists|keys: RandomState| #[trigger]
            call_ensures(fresh_hash_keys, (), keys) && call_ensures(hash_of_unit, (&keys,), nonce),
{
}

/// Every randomised strategy that was given no nonce, and every copy of one, has a nonce
/// left to chance and no draw taken.
pub proof fn instances_get_nonces_of_their_own<W: Clone>(
    wait: W,
    max: Duration,
    additive: Jittered<W>,
    full: Jittered<W>,
    equal: Jittered<W>,
    decorrelated: Jittered<W>,
    jitter: Jittered<W>,
    copy: Jittered<W>,
)
    requires
        call_ensures(Jittered::<W>::additive, (wait, max), additive),
        call_ensures(Jittered::<W>::full, (wait,), full),
        call_ensures(Jittered::<W>::equal, (wait,), equal),
        call_ensures(Jittered::<W>::decorrelated, (wait,), decorrelated),
        call_ensures(<Jittered<W> as Clone>::clone, (&jitter,), copy),
    ensures
        may_be_nonce(additive.nonce()) && additive.is_unused(),
        may_be_nonce(full.nonce()) && full.is_unused(),
        may_be_nonce(equal.nonce()) && equal.is_unused(),
        may_be_nonce(decorrelated.nonce()) && decorrelated.is_unused(),
        may_be_nonce(copy.nonce()) && copy.is_unused(),
        additive.inner() == wait && additive.kind() == JitterKind::Additive(max),
        full.inner() == wait && full.kind() == JitterKind::Full,
        equal.inner() == wait && equal.kind() == JitterKind::Equal,
        decorrelated.inner() == wait && decorrelated.kind() == JitterKind::Decorrelated,
        cloned(jitter.inner(), copy.inner()) && copy.kind() == jitter.kind(),
        copy.seed() == jitter.seed(),
        additive.seed() == DEFAULT_JITTER_SEED && full.seed() == DEFAULT_JITTER_SEED,
        equal.seed() == DEFAULT_JITTER_SEED && decorrelated.seed() == DEFAULT_JITTER_SEED,
{
}

} // verus!
