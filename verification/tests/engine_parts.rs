use relentless::decision::DefaultClassifier;
use relentless::engine::hooks::ExecutionHooks;
use relentless::engine::step::{step, Step};
use relentless::{stop, wait};
use relentless::{AttemptState, Decide, Duration, RetryError, StopReason, Verdict};


type Failure = RetryError<&'static str, Result<i32, &'static str>>;

#[test]
fn stop_reason_matches_the_variant() {
    let aborted: Failure = RetryError::Aborted { last: "x" };
    let exhausted: Failure = RetryError::Exhausted { last: Err("y") };
    assert_eq!(aborted.stop_reason(), StopReason::Aborted);
    assert_eq!(exhausted.stop_reason(), StopReason::Exhausted);
}

#[test]
fn last_retains_the_outcome_only_on_exhausted() {
    let exhausted: Failure = RetryError::Exhausted { last: Ok(3) };
    let aborted: Failure = RetryError::Aborted { last: "boom" };
    assert_eq!(exhausted.last(), Some(&Ok(3)));
    assert_eq!(aborted.last(), None);
}

#[test]
fn last_error_collapses_to_the_error() {
    let aborted: Failure = RetryError::Aborted { last: "boom" };
    let exhausted_err: Failure = RetryError::Exhausted { last: Err("net") };
    let exhausted_ok: Failure = RetryError::Exhausted { last: Ok(1) };
    assert_eq!(aborted.last_error(), Some(&"boom"));
    assert_eq!(exhausted_err.last_error(), Some(&"net"));
    assert_eq!(exhausted_ok.last_error(), None);
}

#[test]
fn display_reports_the_terminal_reason() {
    let aborted: Failure = RetryError::Aborted { last: "boom" };
    let exhausted: Failure = RetryError::Exhausted { last: Err("net") };
    assert_eq!(aborted.message(), "aborted: boom");
    assert_eq!(exhausted.message(), "retries exhausted: net");
}


#[test]
fn attempt_state_exposes_attempt_elapsed_and_outcome() {
    let outcome: Result<(), &str> = Err("network timeout");
    let state = AttemptState::new(1, Duration::zero(), &outcome);

    assert_eq!(state.attempt, 1);
    assert_eq!(state.elapsed, Duration::zero());
    assert_eq!(state.outcome.unwrap_err(), "network timeout");
}



fn delay() -> Duration {
    Duration::from_millis(10)
}
type Res = Result<i32, &'static str>;

fn no_hooks() -> ExecutionHooks<(), (), ()> {
    ExecutionHooks::new()
}

// A classifier that fails every outcome fatally, to reach the `Abort` arm
// the default `Result` classifier never takes.
struct AlwaysAbort;
impl Decide<Res> for AlwaysAbort {
    type R = i32;
    type A = &'static str;
    fn decide(&self, outcome: Res) -> Verdict<i32, &'static str, Res> {
        Verdict::Abort(outcome.unwrap_err())
    }
}

#[test]
fn return_terminates_with_returned_stats() {
    let mut hooks = no_hooks();
    let step = step(
        1,
        Duration::zero(),
        None,
        Duration::zero(),
        Ok::<i32, &str>(5),
        &DefaultClassifier,
        &stop::attempts(3),
        &wait::fixed(delay()),
        None,
        &mut hooks,
    );
    match step {
        Step::Done { result, stats } => {
            assert_eq!(result.unwrap(), 5);
            assert_eq!(stats.stop_reason, StopReason::Returned);
            assert_eq!(stats.attempts, 1);
            assert_eq!(stats.total_wait, Duration::zero());
        }
        Step::Continue { .. } => panic!("expected Done, got Continue"),
    }
}

#[test]
fn abort_terminates_with_aborted_stats() {
    let mut hooks = no_hooks();
    let step = step(
        2,
        delay(),
        Some(delay()),
        delay(),
        Err::<i32, &str>("fatal"),
        &AlwaysAbort,
        &stop::attempts(5),
        &wait::fixed(delay()),
        None,
        &mut hooks,
    );
    match step {
        Step::Done { result, stats } => {
            assert_eq!(result.unwrap_err(), RetryError::Aborted { last: "fatal" });
            assert_eq!(stats.stop_reason, StopReason::Aborted);
            assert_eq!(stats.attempts, 2);
            // No new wait on a terminal attempt.
            assert_eq!(stats.total_wait, delay());
        }
        Step::Continue { .. } => panic!("expected Done, got Continue"),
    }
}

#[test]
fn retry_continues_and_adds_delay_to_total_wait() {
    let mut hooks = no_hooks();
    let step = step(
        2,
        Duration::zero(),
        Some(delay()),
        delay(),
        Err::<i32, &str>("again"),
        &DefaultClassifier,
        &stop::attempts(5),
        &wait::fixed(delay()),
        None,
        &mut hooks,
    );
    match step {
        Step::Continue { delay: wait, total_wait } => {
            assert_eq!(wait, delay());
            assert_eq!(total_wait, delay() + delay());
        }
        Step::Done { .. } => panic!("expected Continue, got Done"),
    }
}

#[test]
fn retry_exhausts_when_stop_fires() {
    let mut hooks = no_hooks();
    let step = step(
        1,
        Duration::zero(),
        None,
        Duration::zero(),
        Err::<i32, &str>("last"),
        &DefaultClassifier,
        &stop::attempts(1),
        &wait::fixed(delay()),
        None,
        &mut hooks,
    );
    match step {
        Step::Done { result, stats } => {
            assert_eq!(
                result.unwrap_err(),
                RetryError::Exhausted { last: Err("last") }
            );
            assert_eq!(stats.stop_reason, StopReason::Exhausted);
            assert_eq!(stats.total_wait, Duration::zero());
        }
        Step::Continue { .. } => panic!("expected Done, got Continue"),
    }
}

#[test]
fn retry_clamps_delay_to_remaining_timeout_budget() {
    let mut hooks = no_hooks();
    let elapsed = Duration::from_millis(5);
    let step = step(
        1,
        elapsed,
        None,
        Duration::zero(),
        Err::<i32, &str>("again"),
        &DefaultClassifier,
        &stop::attempts(5),
        &wait::fixed(delay()), // 10ms, larger than the 3ms budget below
        Some(Duration::from_millis(8)),
        &mut hooks,
    );
    match step {
        Step::Continue { delay: wait, total_wait } => {
            assert_eq!(wait, Duration::from_millis(3));
            assert_eq!(total_wait, Duration::from_millis(3));
        }
        Step::Done { .. } => panic!("expected Continue, got Done"),
    }
}
