use core::cell::Cell;
use core::future::Future;
use core::sync::atomic::{AtomicBool, Ordering};
use core::task::{Context, Poll, Waker};
use relentless::cancel::Canceler;
use relentless::clock::{Clock, SyncClock, VirtualClock};
use relentless::error::RetryError;
use relentless::policy::execution::async_exec::AsyncRetryCall;
use relentless::policy::execution::async_loop::{AsyncPhase, PollAction, PollEvent};
use relentless::policy::execution::common::{transition_from_outcome, AttemptTransition};
use relentless::policy::execution::hooks::{
    AttemptHook, BeforeAttemptHook, ExecutionHooks, ExitHook,
};
use relentless::policy::execution::policy::{PolicyHandle, PredicatePolicy};
use relentless::policy::execution::state::{AttemptState, ExitState};
use relentless::policy::execution::sync_exec::SyncRetryExec;
use relentless::policy::ext::{AsyncRetryExt, RetryExt};
use relentless::stats::{RetryStats, StopReason};
use relentless::{predicate, stop, wait};
use relentless::{AsyncRetryOp, Duration, Predicate, RetryState, Stop, Wait};
use std::sync::Arc;
use std::task::Wake;

fn ms(millis: u64) -> Duration {
    Duration::from_millis(millis)
}

type IntResult = Result<i32, &'static str>;

#[test]
fn defaults_make_three_attempts() {
    let mut clock = VirtualClock::new();
    let (result, stats) = (|| Err::<i32, &str>("boom"))
        .retry()
        .clock(&mut clock)
        .with_stats()
        .call();
    assert_eq!(result, Err(RetryError::Exhausted { last: Err("boom") }));
    assert_eq!(
        stats,
        RetryStats {
            attempts: 3,
            total_elapsed: Some(ms(300)),
            total_wait: ms(300),
            stop_reason: StopReason::Exhausted,
        }
    );
    assert_eq!(clock.waits(), vec![ms(100), ms(200)]);
}

#[test]
fn accepted_value_is_a_plain_ok() {
    let policy = PredicatePolicy::new();
    let result = policy
        .retry(|state: RetryState| {
            if state.attempt >= 2 {
                Ok::<u32, &str>(state.attempt)
            } else {
                Err("not yet")
            }
        })
        .clock(VirtualClock::new())
        .call();
    assert_eq!(result, Ok(2));
}

#[test]
fn accepted_error_is_a_rejection() {
    let (result, stats) = (|| Err::<i32, &str>("hard"))
        .retry()
        .when(predicate::error(|e: &&str| *e == "soft"))
        .clock(VirtualClock::new())
        .with_stats()
        .call();
    assert_eq!(result, Err(RetryError::Rejected { last: "hard" }));
    assert_eq!(stats.stop_reason, StopReason::Rejected);
    assert_eq!(stats.attempts, 1);
}

#[test]
fn probing_for_an_error_finds_it_as_a_rejection() {
    let attempts = Cell::new(0);
    let probe = (|| {
        attempts.set(attempts.get() + 1);
        if attempts.get() >= 3 {
            Err("crash")
        } else {
            Ok(())
        }
    })
    .retry()
    .until(predicate::result(|o: &Result<(), &str>| o.is_err()))
    .stop(stop::attempts(10))
    .clock(VirtualClock::new())
    .call();
    assert_eq!(probe, Err(RetryError::Rejected { last: "crash" }));
}

#[test]
fn polling_can_exhaust_on_a_value() {
    let result = (|| Ok::<i32, &str>(0))
        .retry()
        .until(predicate::ok(|v: &i32| *v == 1))
        .wait(wait::fixed(ms(1)))
        .stop(stop::attempts(2))
        .clock(VirtualClock::new())
        .call();
    assert_eq!(result, Err(RetryError::Exhausted { last: Ok(0) }));
}

#[test]
fn timeout_clamps_waits_and_stops() {
    let mut clock = VirtualClock::new();
    let (result, stats) = (|| Err::<i32, &str>("x"))
        .retry()
        .stop(stop::never())
        .wait(wait::fixed(ms(10)))
        .timeout(ms(25))
        .clock(&mut clock)
        .with_stats()
        .call();
    assert_eq!(result, Err(RetryError::Exhausted { last: Err("x") }));
    assert_eq!(clock.waits(), vec![ms(10), ms(10), ms(5)]);
    assert_eq!(stats.attempts, 4);
    assert_eq!(stats.total_wait, ms(25));
}

#[test]
fn stop_strategy_sees_the_coming_wait() {
    let mut clock = VirtualClock::new();
    let _ = (|| Err::<i32, &str>("x"))
        .retry()
        .stop(stop::before_elapsed(ms(25)))
        .wait(wait::fixed(ms(10)))
        .clock(&mut clock)
        .call();
    assert_eq!(clock.waits(), vec![ms(10), ms(10)]);
}

#[test]
fn hooks_see_every_step_in_order() {
    let seen: Cell<Vec<String>> = Cell::new(Vec::new());
    let note = |what: String| {
        let mut all = seen.take();
        all.push(what);
        seen.set(all);
    };
    let policy = PredicatePolicy::new()
        .stop(stop::attempts(2))
        .wait(wait::fixed(ms(4)));
    let result = policy
        .retry(|state: RetryState| {
            note(format!("operation {}", state.attempt));
            Err::<i32, &str>("x")
        })
        .before_attempt(|s: &RetryState| {
            note(format!("before {} {:?}", s.attempt, s.previous_delay.map(|d| d.as_millis())))
        })
        .after_attempt(|s: &AttemptState<i32, &str>| {
            note(format!("after {} {:?}", s.attempt, s.next_delay.map(|d| d.as_millis())))
        })
        .before_sleep(|s: &AttemptState<i32, &str>| {
            note(format!("sleep {} {:?}", s.attempt, s.next_delay.map(|d| d.as_millis())))
        })
        .on_exit(|s: &ExitState<i32, &str>| {
            note(format!("exit {} {} {:?}", s.attempt, s.stop_reason.as_str(), s.outcome))
        })
        .on_exit(|_: &ExitState<i32, &str>| note(String::from("exit again")))
        .clock(VirtualClock::new())
        .call();
    assert_eq!(result, Err(RetryError::Exhausted { last: Err("x") }));
    assert_eq!(
        seen.take(),
        vec![
            "before 1 None",
            "operation 1",
            "after 1 Some(4)",
            "sleep 1 Some(4)",
            "before 2 Some(4)",
            "operation 2",
            "after 2 None",
            "exit 2 retries exhausted Some(Err(\"x\"))",
            "exit again",
        ]
    );
}

#[test]
fn cancelled_before_the_first_attempt() {
    let flag = AtomicBool::new(true);
    let exits = Cell::new(0);
    let calls = Cell::new(0);
    let (result, stats) = (|| {
        calls.set(calls.get() + 1);
        Err::<i32, &str>("x")
    })
    .retry()
    .cancel_on(&flag)
    .on_exit(|s: &ExitState<i32, &str>| {
        assert_eq!(s.attempt, 0);
        assert_eq!(s.outcome, None);
        exits.set(exits.get() + 1);
    })
    .clock(VirtualClock::new())
    .with_stats()
    .call();
    assert_eq!(result, Err(RetryError::Cancelled { last: None }));
    assert_eq!(stats.attempts, 0);
    assert_eq!(stats.stop_reason, StopReason::Cancelled);
    assert_eq!(calls.get(), 0);
    assert_eq!(exits.get(), 1);
}

/// A clock on which a wait sets a flag.
struct FlagOnWait<'a> {
    clock: VirtualClock,
    flag: &'a AtomicBool,
}

impl Clock for FlagOnWait<'_> {
    fn now(&mut self) -> Duration {
        self.clock.now()
    }
}

impl SyncClock for FlagOnWait<'_> {
    fn wait(&mut self, dur: Duration) {
        self.clock.wait(dur);
        self.flag.store(true, Ordering::Release);
    }
}

#[test]
fn cancelled_during_a_wait() {
    let flag = AtomicBool::new(false);
    let clock = FlagOnWait {
        clock: VirtualClock::new(),
        flag: &flag,
    };
    let (result, stats) = (|| Err::<i32, &str>("x"))
        .retry()
        .cancel_on(&flag)
        .clock(clock)
        .with_stats()
        .call();
    assert_eq!(result, Err(RetryError::Cancelled { last: Some(Err("x")) }));
    assert_eq!(stats.attempts, 1);
    assert_eq!(stats.total_wait, ms(100));
}

#[test]
fn owned_policy_can_be_changed_on_the_way() {
    let result = SyncRetryExec::from_policy(PredicatePolicy::default(), |_: RetryState| {
        Ok::<i32, &str>(3)
    })
    .stop(stop::attempts(2))
    .wait(wait::fixed(ms(1)))
    .when(predicate::ok(|v: &i32| *v == 3))
    .clock(VirtualClock::new())
    .call();
    assert_eq!(result, Err(RetryError::Exhausted { last: Ok(3) }));
}

struct NoopWake;

impl Wake for NoopWake {
    fn wake(self: Arc<Self>) {}
}

fn block_on<Fut: Future>(future: Fut) -> Fut::Output {
    let mut future = Box::pin(future);
    let waker = Waker::from(Arc::new(NoopWake));
    let mut cx = Context::from_waker(&waker);
    loop {
        if let Poll::Ready(output) = Future::poll(future.as_mut(), &mut cx) {
            return output;
        }
    }
}

/// Drives a loop to its end. A wait is polled once before it is over.
fn drive<Policy, BA, AA, BS, OX, F, Sl, Cn, T, E>(
    call: AsyncRetryCall<Policy, BA, AA, BS, OX, F, Sl, &mut VirtualClock, Cn, T, E>,
) -> (Result<T, RetryError<T, E>>, Option<RetryStats>)
where
    Policy: PolicyHandle,
    Policy::Stop: Stop,
    Policy::Wait: Wait,
    Policy::Predicate: Predicate<T, E>,
    BA: BeforeAttemptHook,
    AA: AttemptHook<T, E>,
    BS: AttemptHook<T, E>,
    OX: ExitHook<T, E>,
    F: AsyncRetryOp<Output = Result<T, E>>,
    Cn: Canceler,
    Sl: FnMut(Duration),
{
    let AsyncRetryCall {
        mut op,
        mut sleeper,
        mut clock,
        mut engine,
    } = call;
    let origin = clock.now();
    engine.start(origin);
    let mut event = PollEvent::Resumed;
    let mut pending = None;
    loop {
        match engine.poll_step(event, &mut clock) {
            PollAction::Call(state) => {
                assert_eq!(engine.phase(), AsyncPhase::PollingOperation);
                event = PollEvent::Completed(block_on(op.call_op(state)));
            }
            PollAction::Sleep(dur) => {
                assert_eq!(engine.phase(), AsyncPhase::Sleeping);
                pending = Some(dur);
                event = PollEvent::StillSleeping;
            }
            PollAction::Pending => {
                if let Some(dur) = pending.take() {
                    sleeper(dur);
                    SyncClock::wait(&mut clock, dur);
                }
                event = PollEvent::Slept;
            }
            PollAction::Resume => {
                assert_eq!(engine.phase(), AsyncPhase::ReadyToStartAttempt);
                event = PollEvent::Resumed;
            }
            PollAction::Finish { result, stats } => {
                assert_eq!(engine.phase(), AsyncPhase::Finished);
                return (result, stats);
            }
        }
    }
}

#[test]
fn driven_loop_matches_the_blocking_loop() {
    let policy = PredicatePolicy::new()
        .stop(stop::attempts(4))
        .wait(wait::exponential(ms(10)));
    let mut blocking_clock = VirtualClock::new();
    let (blocking, blocking_stats) = policy
        .retry(|state: RetryState| Err::<u32, u32>(state.attempt))
        .timeout(ms(45))
        .clock(&mut blocking_clock)
        .with_stats()
        .call();
    let slept = Cell::new(0);
    let mut driven_clock = VirtualClock::new();
    let (driven, driven_stats) = drive(
        policy
            .retry_async(|state: RetryState| async move { Err::<u32, u32>(state.attempt) })
            .timeout(ms(45))
            .elapsed_clock(&mut driven_clock)
            .sleep(|_: Duration| slept.set(slept.get() + 1))
            .with_stats()
            .call(),
    );
    assert_eq!(driven, blocking);
    assert_eq!(driven_stats, Some(blocking_stats));
    assert_eq!(driven_clock.waits(), blocking_clock.waits());
    assert_eq!(driven_clock.waits(), vec![ms(10), ms(20), ms(15)]);
    assert_eq!(slept.get(), 3);
}

#[test]
fn driven_loop_starts_from_a_closure() {
    let count = Cell::new(0);
    let mut clock = VirtualClock::new();
    let (result, stats) = drive(
        (|| {
            count.set(count.get() + 1);
            let n = count.get();
            async move { Ok::<i32, &str>(n) }
        })
        .retry_async()
        .until(predicate::ok(|v: &i32| *v >= 2))
        .wait(wait::fixed(Duration::zero()))
        .elapsed_clock(&mut clock)
        .sleep(|_: Duration| panic!("an empty wait is not made"))
        .call(),
    );
    assert_eq!(result, Ok(2));
    assert_eq!(stats, None);
}

#[test]
fn driven_loop_is_cancelled_while_it_waits() {
    let flag = AtomicBool::new(false);
    let exit = Cell::new(None);
    let mut clock = VirtualClock::new();
    let (result, stats) = drive(
        (|| {
            flag.store(true, Ordering::Release);
            async { Err::<i32, &str>("x") }
        })
        .retry_async()
        .cancel_on(&flag)
        .on_exit(|s: &ExitState<i32, &str>| exit.set(Some((s.attempt, s.stop_reason))))
        .elapsed_clock(&mut clock)
        .sleep(|_: Duration| panic!("the wait is cancelled before it is over"))
        .with_stats()
        .call(),
    );
    assert_eq!(result, Err(RetryError::Cancelled { last: Some(Err("x")) }));
    assert_eq!(exit.get(), Some((1, StopReason::Cancelled)));
    let stats = stats.unwrap();
    assert_eq!(stats.attempts, 1);
    assert_eq!(stats.total_wait, ms(100));
}

#[test]
fn driven_loop_is_cancelled_before_it_begins() {
    let flag = Arc::new(AtomicBool::new(true));
    let mut clock = VirtualClock::new();
    let (result, stats) = drive(
        (|| async { Err::<i32, &str>("x") })
            .retry_async()
            .cancel_on(flag)
            .elapsed_clock(&mut clock)
            .sleep(|_: Duration| {})
            .with_stats()
            .call(),
    );
    assert_eq!(result, Err(RetryError::Cancelled { last: None }));
    assert_eq!(stats.unwrap().attempts, 0);
}

#[test]
fn driven_loop_is_cancelled_after_its_wait() {
    let flag = AtomicBool::new(false);
    let mut clock = VirtualClock::new();
    let (result, stats) = drive(
        (|| async { Err::<i32, &str>("x") })
            .retry_async()
            .cancel_on(&flag)
            .elapsed_clock(&mut clock)
            .sleep(|_: Duration| flag.store(true, Ordering::Release))
            .with_stats()
            .call(),
    );
    let expected: Result<i32, RetryError<i32, &str>> =
        Err(RetryError::Cancelled { last: Some(Err("x")) });
    assert_eq!(result, expected);
    assert_eq!(stats.unwrap().attempts, 1);
    let same: IntResult = Err("x");
    assert_eq!(result.unwrap_err().into_last(), Some(same));
}

#[test]
fn closure_tells_the_time_for_a_driven_loop() {
    let AsyncRetryCall { mut engine, mut clock, .. } = (|| async { Err::<i32, &str>("x") })
        .retry_async()
        .elapsed_clock_fn(|| ms(50))
        .call();
    engine.start(ms(20));
    engine.start(ms(40));
    match engine.poll_step(PollEvent::Resumed, &mut clock) {
        PollAction::Call(state) => assert_eq!(state.elapsed, ms(30)),
        _ => panic!("an attempt starts first"),
    }
}

#[test]
fn before_elapsed_counts_the_coming_wait_by_predicate() {
    let mut clock = VirtualClock::new();
    let result = (|| Err::<i32, &str>("no"))
        .retry()
        .wait(wait::fixed(ms(60)))
        .stop(stop::before_elapsed(ms(100)))
        .clock(&mut clock)
        .call();
    assert_eq!(result, Err(RetryError::Exhausted { last: Err("no") }));
    assert_eq!(clock.waits(), vec![ms(60)]);
}

#[test]
fn unknown_time_stops_nothing() {
    let decide = |elapsed: Option<Duration>| {
        let mut hooks = ExecutionHooks::new();
        let outcome: IntResult = Err("no");
        transition_from_outcome(
            &stop::before_elapsed(ms(50)),
            &wait::fixed(ms(60)),
            &predicate::any_error(),
            &mut hooks,
            outcome,
            1,
            elapsed,
            None,
            ms(0),
            true,
            Some(ms(0)),
        )
    };
    assert!(matches!(
        decide(None),
        AttemptTransition::Sleep { next_delay, last_result: Err("no") } if next_delay == ms(60)
    ));
    assert!(!matches!(decide(Some(ms(0))), AttemptTransition::Sleep { .. }));
}
