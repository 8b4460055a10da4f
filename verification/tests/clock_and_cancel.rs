use core::sync::atomic::{AtomicBool, Ordering};
use relentless::cancel::{never, CancelNever, Canceler, PolledCanceler};
use relentless::clock::{Clock, ClockFn, SyncClock, VirtualClock, VirtualWait};
use relentless::engine::elapsed::Elapsed;
use relentless::policy::time::ElapsedTracker;
use relentless::Duration;
use std::sync::Arc;
use tokio_util::sync::CancellationToken;

fn ms(millis: u64) -> Duration {
    Duration::from_millis(millis)
}

#[test]
fn virtual_clock_moves_only_when_told() {
    let mut clock = VirtualClock::new();
    assert_eq!(clock.now(), Duration::zero());
    clock.wait(ms(5));
    assert_eq!(clock.now(), ms(5));
    clock.advance(ms(2));
    assert_eq!(clock.now(), ms(7));
    clock.wait(ms(1));
    assert_eq!(clock.waits(), vec![ms(5), ms(1)]);
    let kept = clock.waits();
    clock.wait(Duration::longest());
    assert_eq!(clock.now(), Duration::longest());
    assert_eq!(kept.len(), 2);
    assert_eq!(VirtualClock::default().now(), Duration::zero());
}

#[test]
fn borrowed_clock_is_a_clock() {
    let mut clock = VirtualClock::new();
    {
        let mut borrowed = &mut clock;
        SyncClock::wait(&mut borrowed, ms(3));
        assert_eq!(Clock::now(&mut borrowed), ms(3));
    }
    assert_eq!(clock.waits(), vec![ms(3)]);
}

#[test]
fn virtual_wait_takes_effect_once_when_polled() {
    let mut clock = VirtualClock::new();
    let mut pause = VirtualWait::new(ms(4));
    assert_eq!(clock.now(), Duration::zero());
    pause.poll(&mut clock);
    assert_eq!(clock.now(), ms(4));
    pause.poll(&mut clock);
    assert_eq!(clock.now(), ms(4));
    assert_eq!(clock.waits(), vec![ms(4)]);
}

#[test]
fn closure_is_a_clock() {
    let mut clock = ClockFn::new(|| ms(9));
    assert_eq!(clock.now(), ms(9));
}

#[test]
fn elapsed_is_held_to_its_highest_reading() {
    let mut clock = VirtualClock::new();
    clock.advance(ms(10));
    let mut elapsed = Elapsed::start(&mut clock);
    assert_eq!(elapsed.read(&mut clock), Duration::zero());
    clock.advance(ms(6));
    assert_eq!(elapsed.read(&mut clock), ms(6));
    assert_eq!(elapsed.observe(ms(3)), ms(6));
    assert_eq!(elapsed.observe(ms(20)), ms(10));
}

#[test]
fn tracker_counts_from_its_first_start() {
    let mut tracker = ElapsedTracker::new();
    assert_eq!(tracker.elapsed(Some(ms(5))), None);
    tracker.start(Some(ms(10)));
    tracker.start(Some(ms(30)));
    assert_eq!(tracker.elapsed(Some(ms(35))), Some(ms(25)));
    assert_eq!(tracker.elapsed(Some(ms(5))), Some(Duration::zero()));
    assert_eq!(tracker.elapsed(None), None);
    let mut clockless = ElapsedTracker::new();
    clockless.start(None);
    assert_eq!(clockless.elapsed(Some(ms(35))), None);
}

#[test]
fn never_says_no() {
    assert!(!never().is_cancelled());
    assert_eq!(never(), CancelNever);
    assert_eq!(CancelNever::default(), CancelNever);
}

#[test]
fn flags_cancel_while_set() {
    let flag = AtomicBool::new(false);
    let canceler = &flag;
    assert!(!canceler.is_cancelled());
    flag.store(true, Ordering::Release);
    assert!(canceler.is_cancelled());
    let shared = Arc::new(AtomicBool::new(false));
    assert!(!shared.is_cancelled());
    shared.store(true, Ordering::Release);
    assert!(Canceler::is_cancelled(&shared));
    assert!(PolledCanceler(shared).is_cancelled());
}

#[test]
fn token_cancels_once_cancelled() {
    let token = CancellationToken::new();
    assert!(!Canceler::is_cancelled(&token));
    token.clone().cancel();
    assert!(Canceler::is_cancelled(&token));
}
