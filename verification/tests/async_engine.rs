use core::cell::Cell;
use core::future::Future;
use core::task::{Context, Poll, Waker};
use relentless::clock::{Clock, VirtualClock, VirtualWait};
use relentless::decision::Decide;
use relentless::engine::async_engine::{Action, AsyncRun, DropStats, Event, Phase};
use relentless::engine::hooks::{AttemptHook, BeforeAttemptHook, ExitHook};
use relentless::{predicate, retry, retry_async, stop, wait};
use relentless::{
    AsyncRetryExt, AsyncRetryOp, Decision, Duration, Exit, RetryError, RetryPolicy, RetryState,
    RetryStats, Stop, StopReason, Verdict, Wait,
};
use std::sync::Arc;
use std::task::Wake;

struct NoopWake;

impl Wake for NoopWake {
    fn wake(self: Arc<Self>) {}
}

/// Polls a future to completion under a waker that does nothing.
fn block_on<Fut: Future>(future: Fut) -> Fut::Output {
    let mut future = Box::pin(future);
    let waker = Waker::from(Arc::new(NoopWake));
    let mut cx = Context::from_waker(&waker);
    loop {
        if let Poll::Ready(output) = Future::poll(future.as_mut(), &mut cx) {
            return output;
        }
    }
}

/// Drives a loop to its end: polls each attempt's future, and lets each wait pass
/// on the virtual clock.
fn drive<F, C, S, W, BA, AA, OX, O>(
    parts: (F, &mut VirtualClock, AsyncRun<C, S, W, BA, AA, OX>),
) -> (Result<C::R, RetryError<C::A, O>>, RetryStats)
where
    F: AsyncRetryOp<Output = O>,
    C: Decide<O>,
    S: Stop,
    W: Wait,
    BA: BeforeAttemptHook,
    AA: AttemptHook<O>,
    OX: ExitHook<C::R, C::A, O>,
{
    let (mut op, clock, mut run) = parts;
    assert!(!run.is_started());
    run.start(clock.now());
    assert!(run.is_started());
    let mut event = Event::Resumed;
    loop {
        match run.poll(event, clock.now()) {
            Action::Call(state) => {
                assert_eq!(run.phase(), Phase::Polling);
                event = Event::Completed(block_on(op.call_op(state)));
            }
            Action::Sleep(dur) => {
                assert_eq!(run.phase(), Phase::Sleeping);
                let mut pause = VirtualWait::new(dur);
                pause.poll(clock);
                pause.poll(clock);
                event = Event::Slept;
            }
            Action::Resume => {
                assert_eq!(run.phase(), Phase::ReadyToStart);
                event = Event::Resumed;
            }
            Action::Finish { result, stats } => {
                assert_eq!(run.phase(), Phase::Done);
                return (result, stats);
            }
        }
    }
}

fn drive_call<F, C, S, W, BA, AA, OX, O>(
    call: DropStats<(F, &mut VirtualClock, AsyncRun<C, S, W, BA, AA, OX>)>,
) -> Result<C::R, RetryError<C::A, O>>
where
    F: AsyncRetryOp<Output = O>,
    C: Decide<O>,
    S: Stop,
    W: Wait,
    BA: BeforeAttemptHook,
    AA: AttemptHook<O>,
    OX: ExitHook<C::R, C::A, O>,
{
    drive(call.inner).0
}

type IntResult = Result<i32, &'static str>;
const ARBITRARY_ATTEMPTS: u32 = 5;

#[test]
fn async_retry_ext_starts_from_a_no_arg_closure() {
    let counter = Cell::new(0);
    let mut clock = VirtualClock::new();
    let result = drive_call(
        (|| {
            let n = counter.get() + 1;
            counter.set(n);
            async move {
                if n >= 2 {
                    Ok::<i32, &str>(5)
                } else {
                    Err("x")
                }
            }
        })
        .retry_async()
        .stop(stop::attempts(ARBITRARY_ATTEMPTS))
        .wait(wait::fixed(Duration::zero()))
        .clock(&mut clock)
        .call(),
    );

    assert_eq!(result, Ok(5));
    assert_eq!(counter.get(), 2);
}

#[test]
fn async_default_path_retries_then_returns_ok() {
    let counter = Cell::new(0);
    let mut clock = VirtualClock::new();
    let result = drive_call(
        retry_async(|_| {
            let n = counter.get() + 1;
            counter.set(n);
            async move {
                if n >= 2 {
                    Ok::<i32, &str>(7)
                } else {
                    Err("x")
                }
            }
        })
        .stop(stop::attempts(ARBITRARY_ATTEMPTS))
        .wait(wait::fixed(Duration::zero()))
        .clock(&mut clock)
        .call(),
    );

    assert_eq!(result, Ok(7));
    assert_eq!(counter.get(), 2);
}

#[test]
fn async_decide_infers_through_fut_output() {
    // Inline classifier with no annotations: the parameter is typed through the
    // output of the future.
    let mut clock = VirtualClock::new();
    let result = drive_call(
        retry_async(|_| async { Err::<i32, &str>("fatal") })
            .decide(|o| match o {
                Ok(v) => Verdict::Return(v),
                Err("fatal") => Verdict::Abort("boom"),
                Err(_) => Verdict::Retry(o),
            })
            .stop(stop::attempts(ARBITRARY_ATTEMPTS))
            .wait(wait::fixed(Duration::zero()))
            .clock(&mut clock)
            .call(),
    );

    assert_eq!(result, Err(RetryError::Aborted { last: "boom" }));
}

#[test]
fn async_decide_returns_sought_error_through_ok() {
    let counter = Cell::new(0);
    let mut clock = VirtualClock::new();
    let result = drive_call(
        retry_async(|_| {
            let n = counter.get() + 1;
            counter.set(n);
            async move {
                if n >= 3 {
                    Err("crash")
                } else {
                    Ok(())
                }
            }
        })
        .decide(|o| match o {
            Err(e) => Decision::Return(e),
            Ok(()) => Decision::Retry(o),
        })
        .stop(stop::attempts(10))
        .wait(wait::fixed(Duration::zero()))
        .clock(&mut clock)
        .call(),
    );

    assert_eq!(result, Ok("crash"));
    assert_eq!(counter.get(), 3);
}

#[test]
fn async_until_polls_a_result() {
    let counter = Cell::new(0);
    let mut clock = VirtualClock::new();
    let result = drive_call(
        retry_async(|_| {
            let n = counter.get() + 1;
            counter.set(n);
            async move { Ok::<i32, &str>(n) }
        })
        .until(predicate::ok(|v: &i32| *v >= 3))
        .stop(stop::attempts(ARBITRARY_ATTEMPTS))
        .wait(wait::fixed(Duration::zero()))
        .clock(&mut clock)
        .call(),
    );

    assert_eq!(result, Ok(3));
    assert_eq!(counter.get(), 3);
}

#[test]
fn async_with_stats_and_on_exit_match_the_sync_engine() {
    let reason = Cell::new(None);
    let mut clock = VirtualClock::new();
    let (result, stats) = drive(
        retry_async(|_| async { Err::<i32, &str>("boom") })
            .on_exit(|e: &Exit<i32, &str, IntResult>| reason.set(Some(e.stop_reason())))
            .stop(stop::attempts(3))
            .wait(wait::fixed(Duration::from_millis(5)))
            .clock(&mut clock)
            .with_stats()
            .call(),
    );

    assert_eq!(result, Err(RetryError::Exhausted { last: Err("boom") }));
    assert_eq!(stats.attempts, 3);
    assert_eq!(stats.total_wait, Duration::from_millis(10));
    assert_eq!(reason.get(), Some(StopReason::Exhausted));
}

#[test]
fn driven_and_blocking_loop_agree() {
    let seen_driven = Cell::new(Vec::new());
    let seen_blocking = Cell::new(Vec::new());
    let note = |cell: &Cell<Vec<RetryState>>, state: &RetryState| {
        let mut all = cell.take();
        all.push(*state);
        cell.set(all);
    };
    let mut driven_clock = VirtualClock::new();
    let driven = drive(
        retry_async(|state: RetryState| async move { Err::<u32, u32>(state.attempt) })
            .before_attempt(|state: &RetryState| note(&seen_driven, state))
            .stop(stop::attempts(4))
            .wait(wait::exponential(Duration::from_millis(10)))
            .timeout(Duration::from_millis(45))
            .clock(&mut driven_clock)
            .with_stats()
            .call(),
    );
    let mut blocking_clock = VirtualClock::new();
    let blocking = retry(|state: RetryState| Err::<u32, u32>(state.attempt))
        .before_attempt(|state: &RetryState| note(&seen_blocking, state))
        .stop(stop::attempts(4))
        .wait(wait::exponential(Duration::from_millis(10)))
        .timeout(Duration::from_millis(45))
        .clock(&mut blocking_clock)
        .with_stats()
        .call();

    assert_eq!(driven, blocking);
    assert_eq!(driven.0, Err(RetryError::Exhausted { last: Err(4) }));
    assert_eq!(driven_clock.waits(), blocking_clock.waits());
    assert_eq!(
        driven_clock.waits(),
        vec![
            Duration::from_millis(10),
            Duration::from_millis(20),
            Duration::from_millis(15),
        ]
    );
    let states = seen_driven.take();
    assert_eq!(states, seen_blocking.take());
    assert_eq!(states.len(), 4);
    assert_eq!(states[3].previous_delay, Some(Duration::from_millis(15)));
    assert_eq!(states[3].elapsed, Duration::from_millis(45));
}

#[test]
fn start_counts_only_once() {
    let (mut op, _clock, mut run) = retry_async(|_| async { Err::<i32, &str>("x") })
        .stop(stop::attempts(1))
        .clock(VirtualClock::new())
        .with_stats()
        .call();
    run.start(Duration::from_millis(100));
    run.start(Duration::from_millis(400));
    let state = match run.poll(Event::<IntResult>::Resumed, Duration::from_millis(130)) {
        Action::Call(state) => state,
        _ => panic!("an attempt starts first"),
    };
    assert_eq!(state.elapsed, Duration::from_millis(30));
    let outcome = block_on(op.call_op(state));
    // The clock goes back; elapsed time does not.
    match run.poll(Event::Completed(outcome), Duration::from_millis(110)) {
        Action::Finish { stats, .. } => {
            assert_eq!(stats.total_elapsed, Duration::from_millis(30));
        }
        _ => panic!("one attempt is all there is"),
    }
}

#[test]
fn policy_starts_driven_loops() {
    let policy = RetryPolicy::new()
        .stop(stop::attempts(2))
        .wait(wait::fixed(Duration::from_millis(7)));
    let mut clock = VirtualClock::new();
    let first = drive_call(
        policy
            .retry_async(|_| async { Err::<i32, &str>("down") })
            .clock(&mut clock)
            .call(),
    );
    let second = drive_call(
        policy
            .retry_async(|_| async { Ok::<i32, &str>(1) })
            .clock(&mut clock)
            .call(),
    );
    assert_eq!(first, Err(RetryError::Exhausted { last: Err("down") }));
    assert_eq!(second, Ok(1));
    assert_eq!(clock.waits(), vec![Duration::from_millis(7)]);
}
