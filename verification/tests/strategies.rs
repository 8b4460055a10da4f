use relentless::stop::{StopAll, StopAny};
use relentless::wait::strategies::{saturating_pow, DEFAULT_EXPONENTIAL_BASE};
use relentless::wait::{WaitCapped, WaitChain, WaitCombine};
use relentless::{stop, wait};
use relentless::{Duration, RetryState, Stop, Wait};

fn ms(millis: u64) -> Duration {
    Duration::from_millis(millis)
}

fn at(attempt: u32) -> RetryState {
    RetryState::for_attempt(attempt)
}

fn after(attempt: u32, elapsed: Duration) -> RetryState {
    RetryState::for_attempt(attempt).with_elapsed(elapsed)
}

#[test]
fn attempts_stops_at_the_maximum_and_after() {
    let strategy = stop::attempts(3);
    assert!(!strategy.should_stop(&at(1)));
    assert!(!strategy.should_stop(&at(2)));
    assert!(strategy.should_stop(&at(3)));
    assert!(strategy.should_stop(&at(4)));
}

#[test]
fn elapsed_stops_at_the_deadline() {
    let strategy = stop::elapsed(ms(10));
    assert!(!strategy.should_stop(&after(9, ms(9))));
    assert!(strategy.should_stop(&after(1, ms(10))));
    assert!(strategy.should_stop(&after(1, ms(11))));
}

#[test]
fn before_elapsed_counts_the_coming_wait() {
    let strategy = stop::before_elapsed(ms(10));
    assert!(!strategy.should_stop(&after(1, ms(4)).with_next_delay(Some(ms(5)))));
    assert!(strategy.should_stop(&after(1, ms(5)).with_next_delay(Some(ms(5)))));
    assert!(!strategy.should_stop(&after(1, ms(9))));
    assert!(strategy.should_stop(&after(1, ms(1)).with_next_delay(Some(Duration::longest()))));
}

#[test]
fn never_never_stops() {
    assert!(!stop::never().should_stop(&after(u32::MAX, Duration::longest())));
}

#[test]
fn stop_strategies_combine_with_operators() {
    let any = stop::attempts(3) | stop::elapsed(ms(10));
    assert!(any.should_stop(&after(3, ms(0))));
    assert!(any.should_stop(&after(1, ms(10))));
    assert!(!any.should_stop(&after(2, ms(9))));
    let all = stop::attempts(3) & stop::elapsed(ms(10));
    assert!(!all.should_stop(&after(3, ms(0))));
    assert!(!all.should_stop(&after(1, ms(10))));
    assert!(all.should_stop(&after(3, ms(10))));
}

#[test]
fn stop_strategies_combine_with_methods() {
    let any: StopAny<_, _> = stop::never().or(stop::attempts(2));
    assert!(any.should_stop(&at(2)));
    assert!(!any.should_stop(&at(1)));
    let all: StopAll<_, _> = stop::never().and(stop::attempts(2));
    assert!(!all.should_stop(&at(2)));
}

#[test]
fn or_commutes_and_associates() {
    let states = [after(1, ms(0)), after(1, ms(10)), after(3, ms(0)), after(3, ms(10))];
    for state in states {
        let ab = stop::attempts(3) | stop::elapsed(ms(10));
        let ba = stop::elapsed(ms(10)) | stop::attempts(3);
        assert_eq!(ab.should_stop(&state), ba.should_stop(&state));
        let left = (stop::attempts(3) | stop::never()) | stop::elapsed(ms(10));
        let right = stop::attempts(3) | (stop::never() | stop::elapsed(ms(10)));
        assert_eq!(left.should_stop(&state), right.should_stop(&state));
        let both = (stop::attempts(3) & stop::never()) & stop::elapsed(ms(10));
        assert!(!both.should_stop(&state));
    }
}

#[test]
fn boxed_and_borrowed_strategies_answer_alike() {
    let boxed: Box<dyn Stop> = Box::new(stop::attempts(2));
    assert!(boxed.should_stop(&at(2)));
    assert!(!boxed.should_stop(&at(1)));
    let plain = stop::attempts(2);
    assert!((&plain).should_stop(&at(2)));
    let boxed: Box<dyn Wait> = Box::new(wait::fixed(ms(3)).cap(ms(2)));
    assert_eq!(boxed.next_wait(&at(1)), ms(2));
    assert_eq!(boxed.max_delay(), Some(ms(2)));
    let plain = wait::fixed(ms(3));
    assert_eq!((&plain).next_wait(&at(1)), ms(3));
}

#[test]
fn fixed_waits_the_same_every_time() {
    let strategy = wait::fixed(ms(50));
    assert_eq!(strategy.next_wait(&at(1)), ms(50));
    assert_eq!(strategy.next_wait(&at(9)), ms(50));
    assert_eq!(strategy.max_delay(), None);
}

#[test]
fn linear_adds_the_increment() {
    let strategy = wait::linear(ms(100), ms(50));
    assert_eq!(strategy.next_wait(&at(1)), ms(100));
    assert_eq!(strategy.next_wait(&at(2)), ms(150));
    assert_eq!(strategy.next_wait(&at(5)), ms(300));
    let huge = wait::linear(Duration::zero(), Duration::longest());
    assert_eq!(huge.next_wait(&at(1)), Duration::zero());
    assert_eq!(huge.next_wait(&at(3)), Duration::longest());
}

#[test]
fn exponential_multiplies_by_the_base() {
    let strategy = wait::exponential(ms(100));
    assert_eq!(DEFAULT_EXPONENTIAL_BASE, 2);
    assert_eq!(strategy.next_wait(&at(1)), ms(100));
    assert_eq!(strategy.next_wait(&at(2)), ms(200));
    assert_eq!(strategy.next_wait(&at(5)), ms(1_600));
    let tripling = strategy.base(3);
    assert_eq!(tripling.next_wait(&at(4)), ms(2_700));
    let still = strategy.base(1);
    assert_eq!(still.next_wait(&at(40)), ms(100));
    assert_eq!(strategy.base(0).next_wait(&at(40)), ms(100));
    assert_eq!(strategy.next_wait(&at(u32::MAX)), Duration::longest());
    assert_eq!(wait::exponential(Duration::zero()).next_wait(&at(u32::MAX)), Duration::zero());
}

#[test]
fn power_saturates() {
    assert_eq!(saturating_pow(2, 0), 1);
    assert_eq!(saturating_pow(2, 10), 1_024);
    assert_eq!(saturating_pow(1, u32::MAX), 1);
    assert_eq!(saturating_pow(0, 3), 0);
    assert!(saturating_pow(2, u32::MAX) > Duration::longest().as_nanos());
}

#[test]
fn cap_cuts_waits_down() {
    let strategy: WaitCapped<_> = wait::exponential(ms(100)).cap(ms(250));
    assert_eq!(strategy.next_wait(&at(1)), ms(100));
    assert_eq!(strategy.next_wait(&at(2)), ms(200));
    assert_eq!(strategy.next_wait(&at(3)), ms(250));
    assert_eq!(strategy.max_delay(), Some(ms(250)));
    let twice = wait::fixed(ms(100)).cap(ms(30)).cap(ms(50));
    let turned = wait::fixed(ms(100)).cap(ms(50)).cap(ms(30));
    assert_eq!(twice.next_wait(&at(1)), ms(30));
    assert_eq!(turned.next_wait(&at(1)), ms(30));
    assert_eq!(twice.max_delay(), Some(ms(30)));
    assert_eq!(turned.max_delay(), Some(ms(30)));
}

#[test]
fn sum_adds_up() {
    let strategy: WaitCombine<_, _> = wait::fixed(ms(50)) + wait::exponential(ms(100));
    assert_eq!(strategy.next_wait(&at(1)), ms(150));
    assert_eq!(strategy.next_wait(&at(2)), ms(250));
    let turned = wait::exponential(ms(100)) + wait::fixed(ms(50));
    assert_eq!(turned.next_wait(&at(2)), ms(250));
    let named = Wait::add(wait::fixed(ms(1)), wait::fixed(ms(2)));
    assert_eq!(named.next_wait(&at(1)), ms(3));
    let full = wait::fixed(Duration::longest()) + wait::fixed(ms(1));
    assert_eq!(full.next_wait(&at(1)), Duration::longest());
    assert_eq!((wait::fixed(ms(1)).cap(ms(1)) + wait::fixed(ms(1))).max_delay(), None);
}

#[test]
fn chain_switches_after_the_given_attempt() {
    let strategy: WaitChain<_, _> = wait::fixed(ms(20)).chain(wait::fixed(ms(50)), 2);
    assert_eq!(strategy.next_wait(&at(1)), ms(20));
    assert_eq!(strategy.next_wait(&at(2)), ms(20));
    assert_eq!(strategy.next_wait(&at(3)), ms(50));
    assert_eq!(strategy.max_delay(), None);
}

struct CustomWait(Duration);

impl Wait for CustomWait {
    fn next_wait(&self, _state: &RetryState) -> Duration {
        self.0
    }

    fn max_delay(&self) -> Option<Duration> {
        None
    }
}

#[test]
fn custom_wait_takes_every_combinator() {
    let strategy = CustomWait(ms(20))
        .cap(ms(15))
        .chain(wait::fixed(ms(50)), 2);
    assert_eq!(strategy.next_wait(&at(3)), ms(50));
    assert_eq!(strategy.next_wait(&at(2)), ms(15));
}

#[test]
fn durations_count_nanoseconds() {
    assert_eq!(Duration::from_secs(2), ms(2_000));
    assert_eq!(ms(2), Duration::from_micros(2_000));
    assert_eq!(Duration::from_micros(2), Duration::from_nanos(2_000));
    assert_eq!(Duration::from_nanos(1_500_000_007).as_secs(), 1);
    assert_eq!(Duration::from_nanos(1_500_000_007).subsec_nanos(), 500_000_007);
    assert_eq!(ms(1_500).as_millis(), 1_500);
    assert_eq!(ms(1).as_micros(), 1_000);
    assert_eq!(ms(1).as_nanos(), 1_000_000);
    assert_eq!(Duration::longest().as_secs(), u64::MAX);
    assert_eq!(Duration::longest().subsec_nanos(), 999_999_999);
    assert_eq!(Duration::from_nanos_saturating(u128::MAX), Duration::longest());
    assert_eq!(Duration::default(), Duration::zero());
    assert!(Duration::zero().is_zero());
    assert!(!Duration::from_nanos(1).is_zero());
}

#[test]
fn durations_saturate() {
    assert_eq!(Duration::longest().saturating_add(ms(1)), Duration::longest());
    assert_eq!(ms(1).saturating_sub(ms(2)), Duration::zero());
    assert_eq!(ms(3).saturating_sub(ms(1)), ms(2));
    assert_eq!(ms(3).saturating_mul(3), ms(9));
    assert_eq!(Duration::longest().saturating_mul(2), Duration::longest());
    assert_eq!(Duration::from_nanos(5).half(), Duration::from_nanos(2));
    assert_eq!(ms(1).min(ms(2)), ms(1));
    assert_eq!(ms(1).max(ms(2)), ms(2));
    assert!(ms(1) < ms(2));
    assert_eq!(ms(1) + ms(2), ms(3));
}

#[test]
fn no_strategy_stops_by_time_without_a_clock() {
    let unknown = at(5).with_elapsed_if_known(None);
    assert!(!unknown.clocked);
    assert_eq!(unknown.elapsed, Duration::zero());
    assert!(!stop::elapsed(Duration::zero()).should_stop(&unknown));
    assert!(stop::elapsed(Duration::zero()).should_stop(&at(5)));
    let coming = unknown.with_next_delay(Some(Duration::longest()));
    assert!(!stop::before_elapsed(ms(10)).should_stop(&coming));
    assert!((stop::attempts(5) | stop::elapsed(ms(1))).should_stop(&unknown));
    let known = unknown.with_elapsed_if_known(Some(ms(3)));
    assert_eq!(known, after(5, ms(3)));
    assert!(stop::elapsed(ms(3)).should_stop(&known));
}
