use relentless::wait;
use relentless::wait::jitter::{
    bound, derive_nonce, draw_at, jitter_by, mix, spread_by, wants_draw, DEFAULT_JITTER_SEED, GAMMA,
};
use relentless::wait::{decorrelated_jitter, JitterKind, Jittered, SplitMix64};
use relentless::{Duration, RetryState, Wait};

fn ms(millis: u64) -> Duration {
    Duration::from_millis(millis)
}

fn at(attempt: u32) -> RetryState {
    RetryState::for_attempt(attempt)
}

#[test]
fn stream_is_split_mix() {
    // The first draws of SplitMix64 with seed 1234567.
    let rng = SplitMix64::new(1_234_567);
    let draws = [rng.next_u64(), rng.next_u64(), rng.next_u64()];
    assert_eq!(
        draws,
        [
            6_457_827_717_110_365_317,
            3_203_168_211_198_807_973,
            9_817_491_932_198_370_423,
        ]
    );
    assert_eq!(draws[0], draw_at(1_234_567, 0));
    assert_eq!(draws[2], draw_at(1_234_567, 2));
    assert_eq!(mix(1_234_567u64.wrapping_add(GAMMA)), draws[0]);
    let copy = rng.clone();
    assert_eq!(copy.next_u64(), rng.next_u64());
}

#[test]
fn bound_reduces_a_draw() {
    assert_eq!(bound(17, 9), 7);
    assert_eq!(bound(17, u64::MAX), 17);
    assert_eq!(bound(17, 0), 0);
}

#[test]
fn spread_stays_between_its_ends() {
    assert_eq!(spread_by(ms(5), ms(3), 99), ms(5));
    assert_eq!(spread_by(Duration::zero(), Duration::from_nanos(9), 17), Duration::from_nanos(7));
    let top = spread_by(Duration::zero(), Duration::longest(), u64::MAX);
    assert_eq!(top, Duration::from_nanos(u64::MAX));
}

#[test]
fn each_kind_has_its_formula() {
    let base = Duration::from_nanos(100);
    let draw: u64 = 1_007;
    assert_eq!(
        jitter_by(JitterKind::Additive(Duration::from_nanos(9)), base, None, None, draw),
        Duration::from_nanos(107)
    );
    assert_eq!(
        jitter_by(JitterKind::Full, base, None, None, draw),
        Duration::from_nanos(1_007 % 101)
    );
    assert_eq!(
        jitter_by(JitterKind::Equal, base, None, None, draw),
        Duration::from_nanos(50 + 1_007 % 51)
    );
    assert_eq!(
        jitter_by(JitterKind::Decorrelated, base, None, None, draw),
        Duration::from_nanos(100 + 1_007 % 201)
    );
    assert_eq!(
        jitter_by(JitterKind::Decorrelated, base, Some(Duration::from_nanos(200)), None, draw),
        Duration::from_nanos(100 + 1_007 % 501)
    );
    assert_eq!(
        jitter_by(JitterKind::Decorrelated, base, Some(Duration::from_nanos(10)), None, draw),
        base
    );
    assert_eq!(
        jitter_by(
            JitterKind::Additive(Duration::from_nanos(9)),
            base,
            None,
            Some(Duration::from_nanos(103)),
            draw
        ),
        Duration::from_nanos(103)
    );
}

#[test]
fn nothing_is_drawn_for_nothing() {
    let base = Duration::from_nanos(1);
    assert!(!wants_draw(JitterKind::Additive(Duration::zero()), base, None));
    assert!(wants_draw(JitterKind::Additive(base), base, None));
    assert!(!wants_draw(JitterKind::Full, Duration::zero(), None));
    assert!(wants_draw(JitterKind::Full, base, None));
    assert!(!wants_draw(JitterKind::Equal, base, None));
    assert!(wants_draw(JitterKind::Equal, Duration::from_nanos(2), None));
    assert!(wants_draw(JitterKind::Decorrelated, base, None));
    assert!(!wants_draw(JitterKind::Decorrelated, base, Some(Duration::zero())));
}

#[test]
fn additive_jitter_adds_up_to_its_maximum() {
    let strategy = wait::fixed(ms(50)).jitter(ms(10));
    for n in 1..50 {
        let next = strategy.next_wait(&at(n));
        assert!(next >= ms(50));
        assert!(next <= ms(60));
    }
}

#[test]
fn full_jitter_stays_below_the_base() {
    let strategy = wait::fixed(ms(100)).full_jitter();
    for n in 1..50 {
        assert!(strategy.next_wait(&at(n)) <= ms(100));
    }
}

#[test]
fn equal_jitter_keeps_half() {
    let strategy = wait::fixed(ms(100)).equal_jitter();
    for n in 1..50 {
        let next = strategy.next_wait(&at(n));
        assert!(next >= ms(50));
        assert!(next <= ms(100));
    }
}

#[test]
fn decorrelated_jitter_feeds_the_last_wait_back() {
    let strategy = decorrelated_jitter(ms(10));
    for n in 1..50 {
        let first = strategy.next_wait(&at(1));
        assert!(first >= ms(10) && first <= ms(30));
        let next = strategy.next_wait(&at(n).with_previous_delay(Some(ms(40))));
        assert!(next >= ms(10) && next <= ms(120));
    }
}

#[test]
fn jitter_stays_under_a_cap_on_either_side() {
    let outside = wait::fixed(ms(100)).jitter(ms(50)).cap(ms(110));
    let inside = wait::fixed(ms(100)).cap(ms(110)).jitter(ms(50));
    let erased: Box<dyn Wait> = Box::new(wait::fixed(ms(100)).cap(ms(110)));
    let over_erased = erased.jitter(ms(50));
    for n in 1..50 {
        assert!(outside.next_wait(&at(n)) <= ms(110));
        assert!(inside.next_wait(&at(n)) <= ms(110));
        let next = over_erased.next_wait(&at(n));
        assert!(next >= ms(100) && next <= ms(110));
    }
    assert_eq!(over_erased.max_delay(), Some(ms(110)));
}

fn draws(strategy: &Jittered<wait::WaitFixed>) -> Vec<Duration> {
    let mut all = Vec::new();
    for n in 1..6 {
        all.push(strategy.next_wait(&at(n)));
    }
    all
}

#[test]
fn seed_settles_the_stream() {
    let a = wait::fixed(ms(100)).full_jitter().with_seed(42);
    let b = wait::fixed(ms(100)).full_jitter().with_nonce(7).with_seed(42);
    assert_eq!(draws(&a), draws(&b));
    let c = wait::fixed(ms(100)).full_jitter().with_seed(42).with_nonce(1);
    let d = wait::fixed(ms(100)).full_jitter().with_seed(42).with_nonce(2);
    assert_ne!(draws(&c), draws(&d));
}

#[test]
fn seeded_waits_are_the_draws_of_the_stream() {
    let strategy = wait::fixed(ms(100)).full_jitter().with_seed(42);
    let start = 42 ^ derive_nonce(42);
    let expected: Vec<Duration> = (0..5)
        .map(|n: u64| Duration::from_nanos(draw_at(start, n) % 100_000_001))
        .collect();
    assert_eq!(draws(&strategy), expected);
    assert_eq!(derive_nonce(42), draw_at(42, 0));
}

#[test]
fn instances_and_copies_draw_apart() {
    assert_eq!(DEFAULT_JITTER_SEED, 0x5A5A_5A5A_5A5A_5A5A);
    let a = wait::fixed(ms(100)).full_jitter();
    let b = wait::fixed(ms(100)).full_jitter();
    assert_ne!(draws(&a), draws(&b));
    let c = wait::fixed(ms(100)).full_jitter().with_seed(3);
    let d = c.clone();
    assert_ne!(draws(&c), draws(&d));
}

#[test]
fn numbered_waits_are_the_waits_in_order() {
    let strategy = wait::fixed(ms(100)).equal_jitter().with_seed(9);
    for n in 0..5u64 {
        let state = at(n as u32 + 1);
        let numbered = strategy.wait_at(&state, n);
        assert_eq!(strategy.next_wait(&state), numbered);
        let start = 9 ^ derive_nonce(9);
        let half: u64 = 50_000_000;
        let expected = half + draw_at(start, n) % (half + 1);
        assert_eq!(numbered, Duration::from_nanos(expected));
    }
    // Asking for a numbered wait takes no draw.
    let again = wait::fixed(ms(100)).equal_jitter().with_seed(9);
    assert_eq!(again.wait_at(&at(1), 3), again.wait_at(&at(1), 3));
    assert_eq!(again.next_wait(&at(1)), again.wait_at(&at(1), 0));
}

#[test]
fn first_waits_tell_nonces_apart() {
    let longest = Duration::from_nanos(u64::MAX);
    let first = |nonce: u64| {
        wait::fixed(longest).full_jitter().with_seed(5).with_nonce(nonce).next_wait(&at(1))
    };
    for a in 0..20u64 {
        for b in 0..20u64 {
            assert_eq!(first(a) == first(b), a == b);
        }
    }
    assert_eq!(first(3), Duration::from_nanos(draw_at(5 ^ 3, 0)));
    let x = wait::fixed(longest).full_jitter().with_seed(5).with_nonce(3);
    let y = wait::fixed(longest).full_jitter().with_seed(5).with_nonce(3);
    assert_eq!(draws(&x), draws(&y));
}

#[test]
fn mixing_and_draws_do_not_repeat() {
    assert_eq!(mix(0), 0);
    let mut seen = Vec::new();
    for n in 0..200u64 {
        let draw = draw_at(77, n);
        assert!(!seen.contains(&draw));
        seen.push(draw);
    }
    let mut mixed = Vec::new();
    for n in 0..200u64 {
        let m = mix(n);
        assert!(!mixed.contains(&m));
        mixed.push(m);
    }
}
