use core::cell::Cell;
use relentless::clock::VirtualClock;
use relentless::{predicate, retry, stop, wait};
use relentless::{
    Duration, Exit, OwnsRules, Retry, RetryError, RetryExt, RetryPolicy, RetryState, SharesRules,
    Stop, StopReason, Verdict, Wait,
};

fn ms(millis: u64) -> Duration {
    Duration::from_millis(millis)
}

#[test]
fn defaults_make_three_attempts_with_doubling_waits() {
    let mut clock = VirtualClock::new();
    let (result, stats) = retry(|_| Err::<(), &str>("boom"))
        .clock(&mut clock)
        .with_stats()
        .call();
    assert_eq!(result, Err(RetryError::Exhausted { last: Err("boom") }));
    assert_eq!(stats.attempts, 3);
    assert_eq!(stats.total_wait, ms(300));
    assert_eq!(stats.total_elapsed, ms(300));
    assert_eq!(stats.stop_reason, StopReason::Exhausted);
    assert_eq!(clock.waits(), vec![ms(100), ms(200)]);
}

#[test]
fn extension_trait_retries_by_default() {
    let result = (|| Ok::<i32, &str>(42))
        .retry()
        .clock(VirtualClock::new())
        .call();
    assert_eq!(result, Ok(42));
}

#[test]
fn operation_sees_the_state() {
    let result = retry(|state: RetryState| {
        if state.attempt >= 2 {
            Ok(state.attempt)
        } else {
            Err("not yet")
        }
    })
    .clock(VirtualClock::new())
    .call();
    assert_eq!(result, Ok(2));
}

#[test]
fn customised_loop_exhausts() {
    let result = retry(|_| Err::<(), &str>("boom"))
        .when(predicate::error(|e: &&str| *e == "boom"))
        .wait(wait::exponential(ms(100)).full_jitter().cap(ms(5_000)))
        .stop(stop::attempts(3))
        .clock(VirtualClock::new())
        .call();
    assert!(result.is_err());
}

#[test]
fn policy_serves_many_operations() {
    let policy = RetryPolicy::new()
        .wait(wait::fixed(ms(50)) + wait::exponential(ms(100)))
        .stop(stop::attempts(5) | stop::elapsed(Duration::from_secs(30)));
    let a = policy
        .retry(|_| Ok::<_, &str>("a"))
        .clock(VirtualClock::new())
        .call();
    let mut clock = VirtualClock::new();
    let b = policy
        .retry(|_| Err::<i32, &str>("b"))
        .clock(&mut clock)
        .call();
    assert_eq!(a, Ok("a"));
    assert_eq!(b, Err(RetryError::Exhausted { last: Err("b") }));
    assert_eq!(clock.waits(), vec![ms(150), ms(250), ms(450), ms(850)]);
}

#[test]
fn policy_polls_until_done() {
    let count = Cell::new(0);
    let result = RetryPolicy::new()
        .until(predicate::ok(|s: &i32| *s == 2))
        .retry(|_| {
            count.set(count.get() + 1);
            Ok::<_, &str>(count.get())
        })
        .clock(VirtualClock::new())
        .call();
    assert_eq!(result, Ok(2));
}

#[test]
fn policy_that_polls_can_exhaust_on_a_value() {
    let result = RetryPolicy::new()
        .until(predicate::ok(|s: &i32| *s == 2))
        .stop(stop::attempts(2))
        .retry(|_| Ok::<i32, &str>(0))
        .clock(VirtualClock::new())
        .call();
    assert_eq!(result, Err(RetryError::Exhausted { last: Ok(0) }));
}

#[test]
fn policy_when_and_decide() {
    let picky = RetryPolicy::default().when(predicate::error(|e: &&str| *e == "soft"));
    let result = picky
        .retry(|_| Err::<i32, &str>("hard"))
        .clock(VirtualClock::new())
        .call();
    assert_eq!(result, Err(RetryError::Aborted { last: "hard" }));
    let decided = RetryPolicy::new().decide(|o: Result<i32, &'static str>| match o {
        Ok(v) => Verdict::Abort(v),
        Err(e) => Verdict::<&str, i32, Result<i32, &'static str>>::Return(e),
    });
    let result = decided
        .retry(|_| Err::<i32, &str>("sought"))
        .clock(VirtualClock::new())
        .call();
    assert_eq!(result, Ok("sought"));
}

#[test]
fn policy_timeout_gives_way_to_the_loops_own() {
    let policy = RetryPolicy::new()
        .stop(stop::never())
        .wait(wait::fixed(ms(10)))
        .timeout(ms(15));
    let mut clock = VirtualClock::new();
    let (_, stats) = policy
        .retry(|_| Err::<i32, &str>("x"))
        .clock(&mut clock)
        .with_stats()
        .call();
    assert_eq!(clock.waits(), vec![ms(10), ms(5)]);
    assert_eq!(stats.attempts, 3);
    assert_eq!(stats.total_elapsed, ms(15));
    let mut clock = VirtualClock::new();
    let (_, stats) = policy
        .retry(|_| Err::<i32, &str>("x"))
        .timeout(ms(25))
        .clock(&mut clock)
        .with_stats()
        .call();
    assert_eq!(clock.waits(), vec![ms(10), ms(10), ms(5)]);
    assert_eq!(stats.total_wait, ms(25));
}

#[test]
fn boxed_policy_keeps_its_rules() {
    let boxed: RetryPolicy<Box<dyn Stop>, Box<dyn Wait>, _> = RetryPolicy::new()
        .stop(stop::attempts(2))
        .wait(wait::fixed(ms(3)))
        .boxed_local();
    let mut clock = VirtualClock::new();
    let number = boxed
        .retry(|_| Err::<i32, &str>("x"))
        .clock(&mut clock)
        .call();
    let text = boxed
        .retry(|_| Ok::<&str, i32>("fine"))
        .clock(&mut clock)
        .call();
    assert_eq!(number, Err(RetryError::Exhausted { last: Err("x") }));
    assert_eq!(text, Ok("fine"));
    assert_eq!(clock.waits(), vec![ms(3)]);
}

#[test]
fn strategies_can_be_mapped() {
    let policy = RetryPolicy::new()
        .stop(stop::attempts(9))
        .wait(wait::fixed(ms(3)))
        .map_strategies(|s| s | stop::elapsed(ms(3)), |w| w + wait::fixed(ms(1)));
    let mut clock = VirtualClock::new();
    let _ = policy
        .retry(|_| Err::<i32, &str>("x"))
        .clock(&mut clock)
        .call();
    assert_eq!(clock.waits(), vec![ms(4)]);
}

#[test]
fn hooks_are_called_in_the_order_they_were_given() {
    let seen = Cell::new(Vec::new());
    let note = |what: &'static str| {
        let mut all = seen.take();
        all.push(what);
        seen.set(all);
    };
    let result = retry(|_| {
        note("operation");
        Ok::<i32, &str>(1)
    })
    .before_attempt(|_| note("before one"))
    .before_attempt(|_| note("before two"))
    .after_attempt(|_| note("after one"))
    .after_attempt(|_| note("after two"))
    .on_exit(|_: &Exit<i32, &str, Result<i32, &str>>| note("exit one"))
    .on_exit(|_: &Exit<i32, &str, Result<i32, &str>>| note("exit two"))
    .clock(VirtualClock::new())
    .call();
    assert_eq!(result, Ok(1));
    assert_eq!(
        seen.take(),
        vec![
            "before one",
            "before two",
            "operation",
            "after one",
            "after two",
            "exit one",
            "exit two",
        ]
    );
}

#[test]
fn zero_waits_are_not_made() {
    let mut clock = VirtualClock::new();
    let (_, stats) = retry(|_| Err::<i32, &str>("x"))
        .wait(wait::fixed(Duration::zero()))
        .stop(stop::attempts(4))
        .clock(&mut clock)
        .with_stats()
        .call();
    assert_eq!(stats.attempts, 4);
    assert_eq!(clock.waits(), vec![]);
}

#[test]
fn value_at_once_waits_for_nothing() {
    let mut clock = VirtualClock::new();
    let (result, stats) = retry(|_| Ok::<i32, &str>(1))
        .clock(&mut clock)
        .with_stats()
        .call();
    assert_eq!(result, Ok(1));
    assert_eq!(stats.attempts, 1);
    assert_eq!(stats.total_wait, Duration::zero());
    assert_eq!(stats.stop_reason, StopReason::Returned);
}

#[test]
fn previous_delay_reaches_the_wait_strategy() {
    let mut clock = VirtualClock::new();
    let _ = retry(|_| Err::<i32, &str>("x"))
        .wait(wait::decorrelated_jitter(ms(10)).cap(ms(1_000)))
        .stop(stop::attempts(20))
        .clock(&mut clock)
        .call();
    let waits = clock.waits();
    assert_eq!(waits.len(), 19);
    assert!(waits[0] >= ms(10) && waits[0] <= ms(30));
    for pair in waits.windows(2) {
        assert!(pair[1] >= ms(10));
        assert!(pair[1] <= pair[0].saturating_mul(3).max(ms(10)).min(ms(1_000)));
    }
}

fn shares<F, C, S, W, Cl, BA, AA, OX>(_: &Retry<F, C, S, W, Cl, BA, AA, OX, SharesRules>) {}

fn owns<F, C, S, W, Cl, BA, AA, OX>(_: &Retry<F, C, S, W, Cl, BA, AA, OX, OwnsRules>) {}

#[test]
fn loop_from_a_policy_shares_its_rules() {
    let policy = RetryPolicy::new()
        .wait(wait::fixed(ms(40)))
        .stop(stop::attempts(4));
    let seen = Cell::new(0);
    let mut clock = VirtualClock::new();
    let shared = policy
        .retry(|_| Err::<i32, &str>("no"))
        .timeout(ms(100))
        .before_attempt(|_: &RetryState| seen.set(seen.get() + 1))
        .clock(&mut clock);
    shares(&shared);
    let (result, stats) = shared.with_stats().call();
    assert_eq!(result, Err(RetryError::Exhausted { last: Err("no") }));
    assert_eq!(stats.attempts, seen.get());
    assert_eq!(clock.waits(), vec![ms(40), ms(40), ms(20)]);
    // The policy is as it was.
    let mut second = VirtualClock::new();
    let result = policy
        .retry(|_| Err::<i32, &str>("no"))
        .clock(&mut second)
        .call();
    assert_eq!(result, Err(RetryError::Exhausted { last: Err("no") }));
    assert_eq!(second.waits(), vec![ms(40), ms(40), ms(40)]);

    let owned = retry(|_| Err::<i32, &str>("no")).stop(stop::attempts(1));
    owns(&owned);
}

#[test]
fn before_elapsed_counts_no_coming_wait_by_verdicts() {
    let mut clock = VirtualClock::new();
    let result = retry(|_| Err::<i32, &str>("no"))
        .wait(wait::fixed(ms(60)))
        .stop(stop::before_elapsed(ms(100)))
        .clock(&mut clock)
        .call();
    assert_eq!(result, Err(RetryError::Exhausted { last: Err("no") }));
    assert_eq!(clock.waits(), vec![ms(60), ms(60)]);
}

#[test]
fn timeout_holds_from_any_start_of_the_clock() {
    let mut clock = VirtualClock::new();
    clock.advance(ms(1_000));
    let first = retry(|_| Err::<i32, &str>("no"))
        .wait(wait::fixed(ms(7)))
        .stop(stop::attempts(2))
        .clock(&mut clock)
        .call();
    assert_eq!(first, Err(RetryError::Exhausted { last: Err("no") }));
    let seen = Cell::new(ms(0));
    let (result, stats) = retry(|state: RetryState| {
        seen.set(state.elapsed);
        Err::<i32, &str>("no")
    })
    .wait(wait::fixed(ms(40)))
    .stop(stop::never())
    .timeout(ms(100))
    .clock(&mut clock)
    .with_stats()
    .call();
    assert_eq!(result, Err(RetryError::Exhausted { last: Err("no") }));
    // What was waited before is still there, and the last wait is cut to what is left.
    assert_eq!(clock.waits(), vec![ms(7), ms(40), ms(40), ms(20)]);
    assert_eq!(stats.total_wait, ms(100));
    assert_eq!(stats.total_elapsed, ms(100));
    // One last attempt sees the whole timeout elapsed.
    assert_eq!(seen.get(), ms(100));
    assert_eq!(stats.attempts, 4);
    // A value at the last attempt is returned all the same.
    let late = retry(|state: RetryState| {
        if state.elapsed >= ms(100) {
            Ok::<u32, &str>(state.attempt)
        } else {
            Err("early")
        }
    })
    .wait(wait::fixed(ms(100)))
    .timeout(ms(100))
    .clock(VirtualClock::new())
    .call();
    assert_eq!(late, Ok(2));
}

#[test]
fn hooks_and_operation_see_the_same_state() {
    let first = Cell::new(Vec::new());
    let second = Cell::new(Vec::new());
    let called = Cell::new(Vec::new());
    let note = |cell: &Cell<Vec<RetryState>>, state: RetryState| {
        let mut all = cell.take();
        all.push(state);
        cell.set(all);
    };
    let result = retry(|state: RetryState| {
        note(&called, state);
        Err::<i32, &str>("no")
    })
    .before_attempt(|state: &RetryState| note(&first, *state))
    .before_attempt(|state: &RetryState| note(&second, *state))
    .clock(VirtualClock::new())
    .call();
    assert!(result.is_err());
    let (first, second, called) = (first.take(), second.take(), called.take());
    let attempts: Vec<u32> = called.iter().map(|state| state.attempt).collect();
    assert_eq!(attempts, vec![1, 2, 3]);
    assert_eq!(first, called);
    assert_eq!(second, called);
}
