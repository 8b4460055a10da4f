//! What holds of wait strategies as a whole.

use super::jitter::{
    bound, bounded, decorrelated_jitter, derive_nonce, draw_at, first_draws_tell_starts_apart, jitter_by,
    jittered, mix, nonce_of, spread, spread_by, stream, takes_draw, under, wants_draw, JitterKind,
    Jittered, SplitMix64, DEFAULT_JITTER_SEED, GAMMA,
};
use super::strategies::{
    exponential, fixed, linear, retries_before, saturating_pow, WaitExponential, WaitFixed,
    WaitLinear,
};
use super::{Wait, WaitCapped, WaitChain, WaitCombine};
use crate::duration::{duration_ext, lesser, saturated, Duration, MAX_NANOS};
use crate::state::RetryState;
use vstd::arithmetic::power::{lemma_pow_increases, lemma_pow_positive, pow};
use vstd::prelude::*;

verus! {

/// A capped strategy never waits longer than its cap.
pub proof fn cap_binds<W: Wait>(capped: WaitCapped<W>, state: RetryState, delay: Duration)
    requires
        capped.may_wait(state, delay),
    ensures
        delay@ <= capped.max()@,
{
}

/// `.cap(a).cap(b)` waits as `.cap(b).cap(a)` does.
pub proof fn caps_commute<W: Wait>(
    ab: WaitCapped<WaitCapped<W>>,
    ba: WaitCapped<WaitCapped<W>>,
    state: RetryState,
    delay: Duration,
)
    requires
        ab.inner().inner() == ba.inner().inner(),
        ab.inner().max() == ba.max(),
        ab.max() == ba.inner().max(),
        ab.may_wait(state, delay),
    ensures
        ba.may_wait(state, delay),
{
    let once = choose|once: Duration| #[trigger]
        ab.inner().may_wait(state, once) && delay@ == lesser(once@, ab.max()@);
    let named = choose|named: Duration| #[trigger]
        ab.inner().inner().may_wait(state, named) && once@ == lesser(named@, ab.inner().max()@);
    let other = if named@ <= ba.inner().max()@ {
        named
    } else {
        ba.inner().max()
    };
    assert(ba.inner().inner().may_wait(state, named));
    assert(ba.inner().may_wait(state, other));
}

/// Jitter over a capped strategy stays under the cap, whatever is drawn.
pub proof fn jitter_stays_under_the_cap<W: Wait>(
    jitter: Jittered<W>,
    state: RetryState,
    delay: Duration,
)
    requires
        jitter.may_wait(state, delay),
    ensures
        jitter.ceiling() matches Some(max) ==> delay@ <= max@,
{
}

/// A ceiling once imposed stays in sight: capping a strategy leaves it a ceiling
/// no higher than the cap and no higher than the one it had.
pub proof fn cap_lowers_the_ceiling<W: Wait>(capped: WaitCapped<W>)
    ensures
        capped.ceiling() matches Some(max) && max@ <= capped.max()@,
        capped.inner().ceiling() matches Some(below) ==> capped.ceiling()->0@ <= below@,
{
}

/// Where each kind of jitter lands, whatever is drawn.
pub proof fn jitter_bounds(
    kind: JitterKind,
    base: nat,
    previous_delay: Option<Duration>,
    draw: u64,
)
    ensures
        ({
            let wait = jittered(kind, base, previous_delay, draw);
            match kind {
                JitterKind::Additive(max) => {
                    saturated(base as int) <= wait <= saturated((base + max@) as int)
                },
                JitterKind::Full => wait <= base,
                JitterKind::Equal => saturated((base / 2) as int) <= wait <= base,
                JitterKind::Decorrelated => {
                    let before = match previous_delay {
                        Some(delay) => delay@,
                        None => base,
                    };
                    &&& base <= wait
                    &&& wait <= base || wait <= saturated((before * 3) as int)
                },
            }
        }),
{
    match kind {
        JitterKind::Additive(max) => spread_bounds(0, max@, draw),
        JitterKind::Full => spread_bounds(0, base, draw),
        JitterKind::Equal => spread_bounds(0, base / 2, draw),
        JitterKind::Decorrelated => {
            let before = match previous_delay {
                Some(delay) => delay@,
                None => base,
            };
            spread_bounds(base, saturated((before * 3) as int), draw);
        },
    }
}

proof fn spread_bounds(lower: nat, upper: nat, draw: u64)
    ensures
        upper <= lower ==> spread(lower, upper, draw) == lower,
        lower < upper ==> saturated(lower as int) <= spread(lower, upper, draw) <= upper,
        lower < upper && upper <= MAX_NANOS ==> lower <= spread(
            lower,
            upper,
            draw,
        ),
{
    if lower < upper {
        let max = lesser((upper - lower) as nat, u64::MAX as nat) as u64;
        assert(bounded(draw, max) <= max);
    }
}

/// Additive jitter over a strategy without a ceiling adds between nothing and its
/// maximum.
pub proof fn additive_jitter_adds<W: Wait>(
    jitter: Jittered<W>,
    state: RetryState,
    delay: Duration,
    max: Duration,
)
    requires
        jitter.kind() == JitterKind::Additive(max),
        jitter.ceiling() is None,
        jitter.may_wait(state, delay),
    ensures
        exists|base: Duration| #[trigger]
            jitter.inner().may_wait(state, base) && saturated(base@ as int) <= delay@ <= saturated(
                (base@ + max@) as int,
            ),
{
    let (base, draw) = witness(jitter, state, delay);
    jitter_bounds(jitter.kind(), base@, state.previous_delay, draw);
}

/// Full jitter never waits longer than the strategy it randomises.
pub proof fn full_jitter_shortens<W: Wait>(
    jitter: Jittered<W>,
    state: RetryState,
    delay: Duration,
)
    requires
        jitter.kind() == JitterKind::Full,
        jitter.may_wait(state, delay),
    ensures
        exists|base: Duration| #[trigger]
            jitter.inner().may_wait(state, base) && delay@ <= base@,
{
    let (base, draw) = witness(jitter, state, delay);
    jitter_bounds(jitter.kind(), base@, state.previous_delay, draw);
}

/// Equal jitter over a strategy without a ceiling keeps at least half of what
/// that strategy names, and never waits longer.
pub proof fn equal_jitter_keeps_half<W: Wait>(
    jitter: Jittered<W>,
    state: RetryState,
    delay: Duration,
)
    requires
        jitter.kind() == JitterKind::Equal,
        jitter.ceiling() is None,
        jitter.may_wait(state, delay),
    ensures
        exists|base: Duration| #[trigger]
            jitter.inner().may_wait(state, base) && saturated((base@ / 2) as int) <= delay@
                <= base@,
{
    let (base, draw) = witness(jitter, state, delay);
    jitter_bounds(jitter.kind(), base@, state.previous_delay, draw);
}

/// Decorrelated jitter over a strategy without a ceiling waits at least what that
/// strategy names, and at most that or three times the wait that came before.
pub proof fn decorrelated_jitter_feeds_back<W: Wait>(
    jitter: Jittered<W>,
    state: RetryState,
    delay: Duration,
)
    requires
        jitter.kind() == JitterKind::Decorrelated,
        jitter.ceiling() is None,
        jitter.may_wait(state, delay),
    ensures
        exists|base: Duration| #[trigger]
            jitter.inner().may_wait(state, base) && base@ <= delay@ && {
                let before = match state.previous_delay {
                    Some(previous) => previous@,
                    None => base@,
                };
                delay@ <= base@ || delay@ <= saturated((before * 3) as int)
            },
{
    let (base, draw) = witness(jitter, state, delay);
    jitter_bounds(jitter.kind(), base@, state.previous_delay, draw);
}

proof fn witness<W: Wait>(jitter: Jittered<W>, state: RetryState, delay: Duration) -> (r: (
    Duration,
    u64,
))
    requires
        jitter.may_wait(state, delay),
    ensures
        jitter.inner().may_wait(state, r.0),
        delay@ == under(
            jitter.ceiling(),
            jittered(jitter.kind(), r.0@, state.previous_delay, r.1),
        ),
{
    let (base, n) = choose|base: Duration, n: u64| #[trigger]
        jitter.gives(state, base, n as nat, delay) && (takes_draw(
            jitter.kind(),
            base@,
            state.previous_delay,
        ) ==> jitter.may_draw(n));
    (base, stream(jitter.start(), n as nat))
}

/// Whether a strategy names one wait for each state.
pub open spec fn names_one<W: Wait>(wait: W) -> bool {
    forall|state: RetryState, a: Duration, b: Duration| #[trigger]
        wait.may_wait(state, a) && #[trigger] wait.may_wait(state, b) ==> a@ == b@
}

/// Draws that a strategy takes for the first `i` of `states`, where the strategy it
/// randomises names one wait for each state.
pub open spec fn taken_for<W: Wait>(jitter: Jittered<W>, states: Seq<RetryState>, i: nat) -> nat
    decreases i,
{
    if i == 0 {
        0
    } else {
        let state = states[i - 1];
        let base = choose|base: Duration| jitter.inner().may_wait(state, base);
        taken_for(jitter, states, (i - 1) as nat) + if takes_draw(
            jitter.kind(),
            base@,
            state.previous_delay,
        ) {
            1nat
        } else {
            0
        }
    }
}

/// Whether a strategy that no draw was taken from gives `delays` for `states`, asked
/// one after the other: each wait goes by the next draw of the stream.
pub open spec fn gives_in_order<W: Wait>(
    jitter: Jittered<W>,
    states: Seq<RetryState>,
    delays: Seq<Duration>,
) -> bool {
    &&& delays.len() == states.len()
    &&& forall|i: int|
        0 <= i < states.len() ==> exists|base: Duration| #[trigger]
            jitter.gives(
                states[i],
                base,
                taken_for(jitter, states, i as nat),
                #[trigger] delays[i],
            )
}

/// Strategies that randomise alike and start at one place of the stream give the
/// same waits in the same order.
pub proof fn one_start_gives_one_sequence<W: Wait>(
    x: Jittered<W>,
    y: Jittered<W>,
    states: Seq<RetryState>,
    x_delays: Seq<Duration>,
    y_delays: Seq<Duration>,
)
    requires
        x.inner() == y.inner(),
        x.kind() == y.kind(),
        x.start() == y.start(),
        names_one(x.inner()),
        gives_in_order(x, states, x_delays),
        gives_in_order(y, states, y_delays),
    ensures
        x_delays == y_delays,
{
    assert forall|i: int| 0 <= i < states.len() implies x_delays[i] == y_delays[i] by {
        taken_alike(x, y, states, i as nat);
        let n = taken_for(x, states, i as nat);
        let a = choose|a: Duration| #[trigger] x.gives(states[i], a, n, x_delays[i]);
        let b = choose|b: Duration| #[trigger] y.gives(states[i], b, n, y_delays[i]);
        assert(x.inner().may_wait(states[i], a) && x.inner().may_wait(states[i], b));
        duration_ext(x_delays[i], y_delays[i]);
    }
    assert(x_delays =~= y_delays);
}

proof fn taken_alike<W: Wait>(x: Jittered<W>, y: Jittered<W>, states: Seq<RetryState>, i: nat)
    requires
        x.inner() == y.inner(),
        x.kind() == y.kind(),
    ensures
        taken_for(x, states, i) == taken_for(y, states, i),
    decreases i,
{
    if i > 0 {
        taken_alike(x, y, states, (i - 1) as nat);
    }
}

/// A seed alone settles the waits: strategies that randomise alike, whatever seed,
/// nonce and draws they had, give the same waits in the same order once both are
/// restarted with one seed.
pub proof fn seed_settles_the_waits<W: Wait>(
    x: Jittered<W>,
    y: Jittered<W>,
    seed: u64,
    states: Seq<RetryState>,
    x_delays: Seq<Duration>,
    y_delays: Seq<Duration>,
)
    requires
        x.inner() == y.inner(),
        x.kind() == y.kind(),
        x.seed() == seed && x.nonce() == nonce_of(seed),
        y.seed() == seed && y.nonce() == nonce_of(seed),
        names_one(x.inner()),
        gives_in_order(x, states, x_delays),
        gives_in_order(y, states, y_delays),
    ensures
        x_delays == y_delays,
{
    one_start_gives_one_sequence(x, y, states, x_delays, y_delays);
}

/// Nonces tell strategies of one seed apart: with full jitter over the whole range of
/// a draw, the first waits are the same exactly where the nonces are, and then so are
/// all the others.
pub proof fn nonces_draw_apart(
    x: Jittered<WaitFixed>,
    y: Jittered<WaitFixed>,
    states: Seq<RetryState>,
    x_delays: Seq<Duration>,
    y_delays: Seq<Duration>,
)
    requires
        x.inner() == y.inner(),
        x.inner().duration()@ == u64::MAX,
        x.kind() == JitterKind::Full,
        y.kind() == JitterKind::Full,
        x.seed() == y.seed(),
        states.len() > 0,
        gives_in_order(x, states, x_delays),
        gives_in_order(y, states, y_delays),
    ensures
        x_delays[0] == y_delays[0] <==> x.nonce() == y.nonce(),
        x.nonce() == y.nonce() ==> x_delays == y_delays,
{
    let (seed, a, b) = (x.seed(), x.nonce(), y.nonce());
    if a == b {
        one_start_gives_one_sequence(x, y, states, x_delays, y_delays);
    }
    assert(x_delays[0]@ == stream(x.start(), 0)) by {
        let n = taken_for(x, states, 0int as nat);
        let base = choose|base: Duration| #[trigger] x.gives(states[0], base, n, x_delays[0]);
        assert(x.gives(states[0], base, n, x_delays[0]));
    }
    assert(y_delays[0]@ == stream(y.start(), 0)) by {
        let n = taken_for(y, states, 0int as nat);
        let base = choose|base: Duration| #[trigger] y.gives(states[0], base, n, y_delays[0]);
        assert(y.gives(states[0], base, n, y_delays[0]));
    }
    if x_delays[0] == y_delays[0] {
        first_draws_tell_starts_apart(x.start(), y.start());
        assert(seed ^ a == seed ^ b ==> a == b) by (bit_vector);
    }
}

/// `a + b` waits as `b + a` does.
pub proof fn sum_commutes<A: Wait, B: Wait>(
    ab: WaitCombine<A, B>,
    ba: WaitCombine<B, A>,
    state: RetryState,
    delay: Duration,
)
    requires
        ab.left() == ba.right(),
        ab.right() == ba.left(),
    ensures
        ab.may_wait(state, delay) == ba.may_wait(state, delay),
{
}

/// A chain waits as its first strategy up to and including the attempt it was
/// told, and as its second after that.
pub proof fn chain_switches_once<A: Wait, B: Wait>(
    chain: WaitChain<A, B>,
    state: RetryState,
    delay: Duration,
)
    ensures
        state.attempt <= chain.after() ==> chain.may_wait(state, delay) == chain.first().may_wait(
            state,
            delay,
        ),
        state.attempt > chain.after() ==> chain.may_wait(state, delay) == chain.second().may_wait(
            state,
            delay,
        ),
{
}

/// A linear strategy never waits less after a later attempt.
pub proof fn linear_never_shrinks(
    wait: WaitLinear,
    early: RetryState,
    late: RetryState,
    early_delay: Duration,
    late_delay: Duration,
)
    requires
        early.attempt <= late.attempt,
        wait.may_wait(early, early_delay),
        wait.may_wait(late, late_delay),
    ensures
        early_delay@ <= late_delay@,
{
    assert(retries_before(early.attempt) * wait.increment()@ <= retries_before(late.attempt)
        * wait.increment()@) by (nonlinear_arith)
        requires
            retries_before(early.attempt) <= retries_before(late.attempt),
    ;
}

/// An exponential strategy never waits less after a later attempt.
pub proof fn exponential_never_shrinks(
    wait: WaitExponential,
    early: RetryState,
    late: RetryState,
    early_delay: Duration,
    late_delay: Duration,
)
    requires
        wait.factor() >= 1,
        early.attempt <= late.attempt,
        wait.may_wait(early, early_delay),
        wait.may_wait(late, late_delay),
    ensures
        early_delay@ <= late_delay@,
{
    let factor = wait.factor() as nat;
    lemma_pow_increases(factor, retries_before(early.attempt), retries_before(late.attempt));
    let small = pow(factor as int, retries_before(early.attempt));
    let large = pow(factor as int, retries_before(late.attempt));
    let initial = wait.initial()@;
    assert(initial * small <= initial * large) by (nonlinear_arith)
        requires
            small <= large,
            initial >= 0,
    ;
}

/// Each wait of an exponential strategy is the one before times its factor, up to
/// the longest representable span.
pub proof fn exponential_multiplies(
    wait: WaitExponential,
    early: RetryState,
    late: RetryState,
    early_delay: Duration,
    late_delay: Duration,
)
    requires
        wait.factor() >= 1,
        early.attempt >= 1,
        late.attempt == early.attempt + 1,
        wait.may_wait(early, early_delay),
        wait.may_wait(late, late_delay),
    ensures
        late_delay@ == saturated(early_delay@ * wait.factor()),
{
    let factor = wait.factor() as int;
    let n = retries_before(early.attempt);
    let initial = wait.initial()@ as int;
    lemma_pow_positive(factor, n);
    let power = pow(factor, n);
    assert(pow(factor, n + 1) == factor * power) by {
        reveal(pow);
    }
    assert(initial * (factor * power) == (initial * power) * factor) by (nonlinear_arith);
    assert(0 <= initial * power) by (nonlinear_arith)
        requires
            initial >= 0,
            power > 0,
    ;
    let here = initial * power;
    let max = MAX_NANOS as int;
    if here > max {
        assert(here * factor > max && max * factor >= max) by (nonlinear_arith)
            requires
                here > max,
                factor >= 1,
                max > 0,
        ;
    }
}

/// A factor of 1 waits the same every time.
pub proof fn factor_one_is_fixed(
    wait: WaitExponential,
    state: RetryState,
    delay: Duration,
)
    requires
        wait.factor() == 1,
        wait.may_wait(state, delay),
    ensures
        delay@ == saturated(wait.initial()@ as int),
{
    super::strategies::lemma_one_pow(retries_before(state.attempt));
}

/// A strategy in a box waits as it does outside, also where its type was erased.
pub proof fn boxed_waits_alike<W: Wait + ?Sized>(strategy: Box<W>)
    ensures
        strategy.ceiling() == (*strategy).ceiling(),
        forall|state: RetryState, delay: Duration| #[trigger]
            strategy.may_wait(state, delay) == (*strategy).may_wait(state, delay),
{
}

/// A borrowed strategy waits as its owner's does, also where its type was erased.
pub proof fn borrowed_waits_alike<W: Wait + ?Sized>(strategy: &W)
    ensures
        Wait::ceiling(&strategy) == Wait::ceiling(strategy),
        forall|state: RetryState, delay: Duration| #[trigger]
            Wait::may_wait(&strategy, state, delay) == Wait::may_wait(strategy, state, delay),
{
}

/// `fixed(dur)` waits `dur` after every attempt.
pub proof fn fixed_waits_the_same(dur: Duration, wait: WaitFixed, state: RetryState, delay: Duration)
    requires
        call_ensures(fixed, (dur,), wait),
        call_ensures(<WaitFixed as Wait>::next_wait, (&wait, &state), delay),
    ensures
        delay == dur,
{
}

/// `linear(initial, increment)` waits `initial` after the first attempt, and after each
/// further attempt `increment` more than after the one before, up to the longest
/// representable span.
pub proof fn linear_adds_each_time(
    initial: Duration,
    increment: Duration,
    wait: WaitLinear,
    early: RetryState,
    late: RetryState,
    early_delay: Duration,
    late_delay: Duration,
)
    requires
        initial@ <= MAX_NANOS,
        call_ensures(linear, (initial, increment), wait),
        early.attempt >= 1,
        late.attempt == early.attempt + 1,
        call_ensures(<WaitLinear as Wait>::next_wait, (&wait, &early), early_delay),
        call_ensures(<WaitLinear as Wait>::next_wait, (&wait, &late), late_delay),
    ensures
        early.attempt == 1 ==> early_delay@ == initial@,
        early_delay@ + increment@ <= MAX_NANOS ==> late_delay@ == early_delay@ + increment@,
        early_delay@ + increment@ > MAX_NANOS ==> late_delay@ == MAX_NANOS,
{
    let n = retries_before(early.attempt);
    assert((n + 1) * increment@ == n * increment@ + increment@) by (nonlinear_arith);
    assert(0 * increment@ == 0);
    assert(n * increment@ >= 0) by (nonlinear_arith);
}

/// `exponential(initial)` waits `initial` after the first attempt, and after each further
/// attempt twice as long as after the one before, up to the longest representable span.
pub proof fn exponential_doubles_each_time(
    initial: Duration,
    wait: WaitExponential,
    early: RetryState,
    late: RetryState,
    early_delay: Duration,
    late_delay: Duration,
)
    requires
        initial@ <= MAX_NANOS,
        call_ensures(exponential, (initial,), wait),
        early.attempt >= 1,
        late.attempt == early.attempt + 1,
        call_ensures(<WaitExponential as Wait>::next_wait, (&wait, &early), early_delay),
        call_ensures(<WaitExponential as Wait>::next_wait, (&wait, &late), late_delay),
    ensures
        early.attempt == 1 ==> early_delay@ == initial@,
        early_delay@ * 2 <= MAX_NANOS ==> late_delay@ == early_delay@ * 2,
        early_delay@ * 2 > MAX_NANOS ==> late_delay@ == MAX_NANOS,
{
    exponential_multiplies(wait, early, late, early_delay, late_delay);
    vstd::arithmetic::power::lemma_pow0(2);
}

/// `.base(base)` changes the factor of an exponential strategy and nothing else: it waits
/// as long as before after the first attempt, and after each further attempt `base` times
/// as long as after the one before, up to the longest representable span. A base of 0
/// counts as 1.
pub proof fn base_is_the_factor(
    initial: Duration,
    base: u32,
    doubling: WaitExponential,
    wait: WaitExponential,
    early: RetryState,
    late: RetryState,
    early_delay: Duration,
    late_delay: Duration,
)
    requires
        initial@ <= MAX_NANOS,
        call_ensures(exponential, (initial,), doubling),
        call_ensures(WaitExponential::base, (doubling, base), wait),
        early.attempt >= 1,
        late.attempt == early.attempt + 1,
        call_ensures(<WaitExponential as Wait>::next_wait, (&wait, &early), early_delay),
        call_ensures(<WaitExponential as Wait>::next_wait, (&wait, &late), late_delay),
    ensures
        early.attempt == 1 ==> early_delay@ == initial@,
        base == 0 ==> late_delay@ == early_delay@,
        base >= 1 && early_delay@ * base <= MAX_NANOS ==> late_delay@ == early_delay@ * base,
        base >= 1 && early_delay@ * base > MAX_NANOS ==> late_delay@ == MAX_NANOS,
{
    exponential_multiplies(wait, early, late, early_delay, late_delay);
    vstd::arithmetic::power::lemma_pow0(wait.factor() as int);
    if base == 0 {
        assert(early_delay@ * wait.factor() == early_delay@);
    }
}

/// Powers multiply up: a power of nothing is 1, and each further one is the one before
/// times the base, for as long as they stay representable.
pub proof fn powers_multiply_up(base: u32, exponent: u32, less: u128, more: u128)
    requires
        exponent < u32::MAX,
        call_ensures(saturating_pow, (base, exponent), less),
        call_ensures(saturating_pow, (base, (exponent + 1) as u32), more),
    ensures
        exponent == 0 ==> less == 1,
        base >= 1 && less <= MAX_NANOS && less * base <= MAX_NANOS ==> more == less * base,
        base >= 1 && less <= MAX_NANOS && less * base > MAX_NANOS ==> more > MAX_NANOS,
        base >= 1 && less > MAX_NANOS ==> more > MAX_NANOS,
        base == 0 ==> more == 0,
{
    let (b, e) = (base as int, exponent as nat);
    vstd::arithmetic::power::lemma_pow0(b);
    assert(pow(b, e + 1) == b * pow(b, e)) by {
        reveal(pow);
    }
    assert(b * pow(b, e) == pow(b, e) * b) by (nonlinear_arith);
    if base >= 1 {
        lemma_pow_increases(base as nat, e, e + 1);
    } else {
        assert(b * pow(b, e) == 0) by (nonlinear_arith)
            requires
                b == 0,
        ;
    }
}

/// A cap lets waits up to it through as they are and cuts every longer one to itself.
/// A capped strategy waits in no other way.
pub proof fn cap_cuts_only_what_is_longer<W: Wait>(
    wait: W,
    max: Duration,
    capped: WaitCapped<W>,
    state: RetryState,
)
    requires
        call_ensures(WaitCapped::<W>::new, (wait, max), capped),
    ensures
        forall|delay: Duration|
            delay@ < max@ ==> #[trigger] capped.may_wait(state, delay) == wait.may_wait(
                state,
                delay,
            ),
        capped.may_wait(state, max) == exists|longer: Duration| #[trigger]
            wait.may_wait(state, longer) && longer@ >= max@,
        forall|delay: Duration| delay@ > max@ ==> !#[trigger] capped.may_wait(state, delay),
{
    assert forall|delay: Duration|
        delay@ < max@ implies #[trigger] capped.may_wait(state, delay) == wait.may_wait(
        state,
        delay,
    ) by {
        if capped.may_wait(state, delay) {
            let uncapped = choose|uncapped: Duration| #[trigger]
                wait.may_wait(state, uncapped) && delay@ == lesser(uncapped@, max@);
            duration_ext(uncapped, delay);
        }
    }
}

/// A cap is the ceiling of what it caps, unless that had a lower one.
pub proof fn ceiling_is_the_lowest_cap<W: Wait>(wait: W, max: Duration, capped: WaitCapped<W>)
    requires
        call_ensures(WaitCapped::<W>::new, (wait, max), capped),
    ensures
        wait.ceiling() is None ==> capped.ceiling() == Some(max),
        wait.ceiling() matches Some(below) ==> (below@ < max@ ==> capped.ceiling() == Some(below)),
        wait.ceiling() matches Some(below) ==> (below@ >= max@ ==> capped.ceiling() == Some(max)),
{
}

/// Only a cap imposes a ceiling: the other strategies have none, whatever they are made
/// of, but for jitter, which keeps the ceiling of what it randomises.
pub proof fn only_caps_impose_ceilings<A: Wait, B: Wait>(
    same: WaitFixed,
    growing: WaitLinear,
    multiplying: WaitExponential,
    sum: WaitCombine<A, B>,
    chain: WaitChain<A, B>,
    jitter: Jittered<A>,
)
    ensures
        same.ceiling() is None,
        growing.ceiling() is None,
        multiplying.ceiling() is None,
        sum.ceiling() is None,
        chain.ceiling() is None,
        jitter.ceiling() == jitter.inner().ceiling(),
{
}

/// A sum waits for what its summands name, one after the other, up to the longest
/// representable span, and in no other way.
pub proof fn sum_waits_for_both<A: Wait, B: Wait>(
    a: A,
    b: B,
    sum: WaitCombine<A, B>,
    state: RetryState,
    delay: Duration,
)
    requires
        call_ensures(WaitCombine::<A, B>::new, (a, b), sum),
    ensures
        sum.may_wait(state, delay) == exists|x: Duration, y: Duration|
            #![trigger a.may_wait(state, x), b.may_wait(state, y)]
            {
                &&& a.may_wait(state, x)
                &&& b.may_wait(state, y)
                &&& x@ + y@ <= MAX_NANOS ==> delay@ == x@ + y@
                &&& x@ + y@ > MAX_NANOS ==> delay@ == MAX_NANOS
            },
{
}

/// `a.chain(b, after)` waits as `a` does through attempt `after`, and as `b` does later.
pub proof fn chain_hands_over<A: Wait, B: Wait>(
    a: A,
    b: B,
    after: u32,
    chain: WaitChain<A, B>,
    state: RetryState,
    delay: Duration,
)
    requires
        call_ensures(WaitChain::<A, B>::new, (a, b, after), chain),
    ensures
        state.attempt <= after ==> chain.may_wait(state, delay) == a.may_wait(state, delay),
        state.attempt > after ==> chain.may_wait(state, delay) == b.may_wait(state, delay),
{
}

/// Full jitter runs through all waits up to the base: a draw up to the base is the wait in
/// nanoseconds, and draws that lie the base and one apart give the same wait. A base that
/// no draw exceeds leaves every draw as it is.
pub proof fn full_jitter_runs_through_the_base(
    base: Duration,
    previous: Option<Duration>,
    draw: u64,
    other: u64,
    delay: Duration,
    other_delay: Duration,
)
    requires
        base@ <= MAX_NANOS,
        call_ensures(jitter_by, (JitterKind::Full, base, previous, None, draw), delay),
        call_ensures(jitter_by, (JitterKind::Full, base, previous, None, other), other_delay),
    ensures
        draw <= base@ ==> delay@ == draw,
        other == draw + base@ + 1 ==> other_delay == delay,
{
    if other == draw + base@ + 1 {
        let m = base@ + 1;
        vstd::arithmetic::div_mod::lemma_mod_add_multiples_vanish(draw as int, m as int);
        assert(other as int == m + draw);
        duration_ext(delay, other_delay);
    }
    if base@ == 0 {
    } else if draw <= base@ {
        vstd::arithmetic::div_mod::lemma_small_mod(draw as nat, base@ + 1);
    }
}

/// Additive jitter adds what full jitter would make of its maximum with the same draw, up
/// to the longest representable span.
pub proof fn additive_jitter_adds_full_jitter(
    base: Duration,
    max: Duration,
    previous: Option<Duration>,
    draw: u64,
    delay: Duration,
    added: Duration,
)
    requires
        base@ <= MAX_NANOS,
        max@ <= MAX_NANOS,
        call_ensures(jitter_by, (JitterKind::Additive(max), base, previous, None, draw), delay),
        call_ensures(jitter_by, (JitterKind::Full, max, previous, None, draw), added),
    ensures
        base@ + added@ <= MAX_NANOS ==> delay@ == base@ + added@,
        base@ + added@ > MAX_NANOS ==> delay@ == MAX_NANOS,
{
}

/// Equal jitter keeps half of the base and adds what full jitter would make of that half
/// with the same draw.
pub proof fn equal_jitter_adds_full_jitter_to_half(
    base: Duration,
    half: Duration,
    previous: Option<Duration>,
    draw: u64,
    delay: Duration,
    added: Duration,
)
    requires
        base@ <= MAX_NANOS,
        base@ == half@ + half@ || base@ == half@ + half@ + 1,
        call_ensures(jitter_by, (JitterKind::Equal, base, previous, None, draw), delay),
        call_ensures(jitter_by, (JitterKind::Full, half, previous, None, draw), added),
    ensures
        delay@ == half@ + added@,
{
    spread_bounds(0, half@, draw);
    assert(base@ / 2 == half@);
}

/// Decorrelated jitter starts from the base and adds what full jitter would make, with the
/// same draw, of the way from there to three times the wait before, or to three times the
/// base where none came before. Where that lies no further, it waits the base.
pub proof fn decorrelated_jitter_adds_full_jitter_to_base(
    base: Duration,
    previous: Option<Duration>,
    before: Duration,
    range: Duration,
    draw: u64,
    delay: Duration,
    added: Duration,
)
    requires
        base@ <= MAX_NANOS,
        before == match previous {
            Some(wait) => wait,
            None => base,
        },
        call_ensures(jitter_by, (JitterKind::Decorrelated, base, previous, None, draw), delay),
        call_ensures(jitter_by, (JitterKind::Full, range, previous, None, draw), added),
    ensures
        before@ * 3 <= base@ ==> delay@ == base@,
        base@ < before@ * 3 <= MAX_NANOS && base@ + range@ == before@ * 3 ==> delay@ == base@
            + added@,
        before@ * 3 > MAX_NANOS && base@ + range@ == MAX_NANOS ==> delay@ == base@ + added@,
{
    spread_bounds(0, range@, draw);
}

/// A ceiling cuts every jittered wait that is longer to itself and leaves the others as
/// they are.
pub proof fn ceiling_cuts_jitter(
    kind: JitterKind,
    base: Duration,
    previous: Option<Duration>,
    ceiling: Duration,
    draw: u64,
    free: Duration,
    cut: Duration,
)
    requires
        call_ensures(jitter_by, (kind, base, previous, None, draw), free),
        call_ensures(jitter_by, (kind, base, previous, Some(ceiling), draw), cut),
    ensures
        free@ <= ceiling@ ==> cut == free,
        free@ > ceiling@ ==> cut == ceiling,
{
    if free@ <= ceiling@ {
        duration_ext(cut, free);
    } else {
        duration_ext(cut, ceiling);
    }
}

/// A draw is left out only where it could make no difference: then any two draws give the
/// same wait. Where one is taken, there are draws that give different waits.
pub proof fn draws_are_taken_where_they_matter(
    kind: JitterKind,
    base: Duration,
    previous: Option<Duration>,
    wanted: bool,
    nought: Duration,
    one: Duration,
    draw: u64,
    other: Duration,
)
    requires
        base@ < MAX_NANOS,
        kind matches JitterKind::Additive(max) ==> max@ <= MAX_NANOS,
        call_ensures(wants_draw, (kind, base, previous), wanted),
        call_ensures(jitter_by, (kind, base, previous, None, 0u64), nought),
        call_ensures(jitter_by, (kind, base, previous, None, 1u64), one),
        call_ensures(jitter_by, (kind, base, previous, None, draw), other),
    ensures
        !wanted ==> other == nought,
        wanted ==> one@ == nought@ + 1,
{
    if !wanted {
        duration_ext(other, nought);
    } else {
        let before = match previous {
            Some(wait) => wait@,
            None => base@,
        };
        let (lower, upper) = match kind {
            JitterKind::Additive(max) => (0, max@),
            JitterKind::Full => (0, base@),
            JitterKind::Equal => (0, base@ / 2),
            JitterKind::Decorrelated => (base@, saturated((before * 3) as int)),
        };
        spread_of_the_first_draws(lower, upper);
    }
}

proof fn spread_of_the_first_draws(lower: nat, upper: nat)
    requires
        lower < upper,
        lower < MAX_NANOS,
    ensures
        spread(lower, upper, 0) == lower,
        spread(lower, upper, 1) == lower + 1,
{
    let max = lesser((upper - lower) as nat, u64::MAX as nat) as u64;
    if max < u64::MAX {
        vstd::arithmetic::div_mod::lemma_small_mod(0, (max + 1) as nat);
        vstd::arithmetic::div_mod::lemma_small_mod(1, (max + 1) as nat);
    }
}

/// The stream steps on by one constant: draw `n + 1` of a stream is draw `n` of the stream
/// that starts one step later, and the first draw is the step mixed.
pub proof fn stream_steps_on(
    start: u64,
    later: u64,
    n: u64,
    first: u64,
    mixed_step: u64,
    here: u64,
    next: u64,
)
    requires
        n < u64::MAX,
        later as int == (start + 0x9e37_79b9_7f4a_7c15) % 0x1_0000_0000_0000_0000,
        call_ensures(draw_at, (start, 0u64), first),
        call_ensures(mix, (later,), mixed_step),
        call_ensures(draw_at, (later, n), here),
        call_ensures(draw_at, (start, (n + 1) as u64), next),
    ensures
        first == mixed_step,
        next == here,
{
    let m: int = 0x1_0000_0000_0000_0000;
    let g = GAMMA as int;
    assert((n + 2) * g == (n + 1) * g + g) by (nonlinear_arith);
    vstd::arithmetic::div_mod::lemma_add_mod_noop_right((n + 1) * g, start + g, m);
}

/// The nonce that a seed settles is the first draw of the seed's own stream.
pub proof fn derived_nonce_is_the_first_draw(seed: u64, nonce: u64, draw: u64)
    requires
        call_ensures(derive_nonce, (seed,), nonce),
        call_ensures(draw_at, (seed, 0u64), draw),
    ensures
        nonce == draw,
{
}

/// A randomised strategy waits what its sort of jitter makes of a wait that the strategy
/// in it names, with one draw of the stream that starts at its seed and nonce, under the
/// ceiling of that strategy.
pub proof fn jittered_waits_by_a_draw<W: Wait>(
    jitter: Jittered<W>,
    state: RetryState,
    delay: Duration,
)
    requires
        jitter.may_wait(state, delay),
    ensures
        exists|base: Duration, n: u64, draw: u64|
            #![trigger jitter.inner().may_wait(state, base), stream(jitter.seed() ^ jitter.nonce(), n as nat), jittered(jitter.kind(), base@, state.previous_delay, draw)]
            {
                &&& jitter.inner().may_wait(state, base)
                &&& draw == stream(jitter.seed() ^ jitter.nonce(), n as nat)
                &&& forall|made: Duration| #[trigger]
                    call_ensures(
                        jitter_by,
                        (
                            jitter.kind(),
                            base,
                            state.previous_delay,
                            jitter.inner().ceiling(),
                            draw,
                        ),
                        made,
                    ) ==> made == delay
                &&& forall|same: u64| #[trigger]
                    call_ensures(draw_at, ((jitter.seed() ^ jitter.nonce()) as u64, n), same)
                        ==> same == draw
                &&& forall|wanted: bool| #[trigger]
                    call_ensures(wants_draw, (jitter.kind(), base, state.previous_delay), wanted)
                        ==> wanted ==> jitter.may_draw(n)
            },
{
    let (base, n) = choose|base: Duration, n: u64| #[trigger]
        jitter.gives(state, base, n as nat, delay) && (takes_draw(
            jitter.kind(),
            base@,
            state.previous_delay,
        ) ==> jitter.may_draw(n));
    let draw = stream(jitter.start(), n as nat);
    assert(jitter.inner().may_wait(state, base));
    assert forall|made: Duration| #[trigger]
        call_ensures(
            jitter_by,
            (jitter.kind(), base, state.previous_delay, jitter.inner().ceiling(), draw),
            made,
        ) implies made == delay by {
        duration_ext(made, delay);
    }
    let value = jittered(jitter.kind(), base@, state.previous_delay, draw);
}

/// Caps and jitter are put on the strategy they are called on, with what they are given.
pub proof fn decorations_keep_the_strategy<W: Wait>(
    wait: W,
    max: Duration,
    capped: WaitCapped<W>,
    additive: Jittered<W>,
    full: Jittered<W>,
    equal: Jittered<W>,
)
    requires
        call_ensures(<W as Wait>::cap, (wait, max), capped),
        call_ensures(<W as Wait>::jitter, (wait, max), additive),
        call_ensures(<W as Wait>::full_jitter, (wait,), full),
        call_ensures(<W as Wait>::equal_jitter, (wait,), equal),
    ensures
        capped.inner() == wait,
        capped.max() == max,
        additive.inner() == wait,
        additive.kind() == JitterKind::Additive(max),
        full.inner() == wait,
        full.kind() == JitterKind::Full,
        equal.inner() == wait,
        equal.kind() == JitterKind::Equal,
        additive.seed() == full.seed(),
        full.seed() == equal.seed(),
        equal.seed() == DEFAULT_JITTER_SEED,
{
}

/// `.cap(max).jitter(j)` is `.jitter(j).cap(max)`.
pub proof fn jitter_goes_below_the_cap<W: Wait>(
    capped: WaitCapped<W>,
    max_jitter: Duration,
    jittered: WaitCapped<Jittered<W>>,
)
    requires
        call_ensures(WaitCapped::<W>::jitter, (capped, max_jitter), jittered),
    ensures
        jittered.max() == capped.max(),
        jittered.inner().inner() == capped.inner(),
        jittered.inner().kind() == JitterKind::Additive(max_jitter),
        jittered.inner().seed() == DEFAULT_JITTER_SEED,
{
}

/// `decorrelated_jitter(base)` randomises a fixed wait of `base` by the wait before.
pub proof fn decorrelated_jitter_starts_from_its_base(base: Duration, jitter: Jittered<WaitFixed>)
    requires
        call_ensures(decorrelated_jitter, (base,), jitter),
    ensures
        jitter.kind() == JitterKind::Decorrelated,
        jitter.inner().duration() == base,
        jitter.seed() == DEFAULT_JITTER_SEED,
{
}

/// A seed settles the nonce too, and a nonce leaves the seed. Neither changes what is
/// randomised or how.
pub proof fn seeds_and_nonces_are_taken<W>(
    jitter: Jittered<W>,
    seed: u64,
    nonce: u64,
    seeded: Jittered<W>,
    derived: u64,
    apart: Jittered<W>,
)
    requires
        call_ensures(Jittered::<W>::with_seed, (jitter, seed), seeded),
        call_ensures(derive_nonce, (seed,), derived),
        call_ensures(Jittered::<W>::with_nonce, (jitter, nonce), apart),
    ensures
        seeded.seed() == seed,
        seeded.nonce() == derived,
        seeded.inner() == jitter.inner(),
        seeded.kind() == jitter.kind(),
        apart.seed() == jitter.seed(),
        apart.nonce() == nonce,
        apart.inner() == jitter.inner(),
        apart.kind() == jitter.kind(),
{
}

/// The wait of a numbered draw is what jitter makes, with that draw of the stream, of a
/// wait that the randomised strategy names.
pub proof fn numbered_wait_goes_by_its_draw<W: Wait>(
    jitter: Jittered<W>,
    state: RetryState,
    n: u64,
    draw: u64,
    delay: Duration,
)
    requires
        call_ensures(Jittered::<W>::wait_at, (&jitter, &state, n), delay),
        call_ensures(draw_at, ((jitter.seed() ^ jitter.nonce()) as u64, n), draw),
    ensures
        exists|base: Duration| #[trigger]
            jitter.inner().may_wait(state, base) && forall|made: Duration| #[trigger]
                call_ensures(
                    jitter_by,
                    (jitter.kind(), base, state.previous_delay, jitter.inner().ceiling(), draw),
                    made,
                ) ==> made == delay,
{
    let base = choose|base: Duration| #[trigger] jitter.gives(state, base, n as nat, delay);
    assert(jitter.inner().may_wait(state, base));
    assert forall|made: Duration| #[trigger]
        call_ensures(
            jitter_by,
            (jitter.kind(), base, state.previous_delay, jitter.inner().ceiling(), draw),
            made,
        ) implies made == delay by {
        duration_ext(made, delay);
    }
}

/// A generator draws from the stream that starts at its seed.
pub proof fn generator_draws_from_its_stream(seed: u64, rng: SplitMix64, draw: u64)
    requires
        call_ensures(SplitMix64::new, (seed,), rng),
        call_ensures(SplitMix64::next_u64, (&rng,), draw),
    ensures
        exists|n: u64| #[trigger]
            rng.may_take(n) && forall|same: u64| #[trigger]
                call_ensures(draw_at, (seed, n), same) ==> same == draw,
{
    let n = choose|n: u64| #[trigger] rng.may_take(n) && draw == stream(rng.start(), n as nat);
    assert(rng.may_take(n));
}

/// A bounded draw stays within its bound, is the draw itself where that does, and comes
/// round again once past the bound.
pub proof fn bounded_draws_come_round(draw: u64, other: u64, max: u64, near: u64, far: u64)
    requires
        call_ensures(bound, (draw, max), near),
        call_ensures(bound, (other, max), far),
    ensures
        near <= max,
        draw <= max ==> near == draw,
        other == draw + max + 1 ==> far == near,
{
    if max < u64::MAX {
        if draw <= max {
            vstd::arithmetic::div_mod::lemma_small_mod(draw as nat, (max + 1) as nat);
        }
        if other == draw + max + 1 {
            let m = max + 1;
            vstd::arithmetic::div_mod::lemma_mod_add_multiples_vanish(draw as int, m);
        }
    }
}

/// A spread starts at its lower end and adds what full jitter would make of the way to its
/// upper end. There is no way where the upper end is not above.
pub proof fn spread_adds_full_jitter(
    lower: Duration,
    upper: Duration,
    range: Duration,
    draw: u64,
    spread_out: Duration,
    added: Duration,
)
    requires
        lower@ <= MAX_NANOS,
        upper@ <= MAX_NANOS,
        call_ensures(spread_by, (lower, upper, draw), spread_out),
        call_ensures(jitter_by, (JitterKind::Full, range, None, None, draw), added),
    ensures
        upper@ <= lower@ ==> spread_out@ == lower@,
        lower@ + range@ == upper@ ==> spread_out@ == lower@ + added@,
{
    spread_bounds(0, range@, draw);
    spread_bounds(lower@, upper@, draw);
}

} // verus!
