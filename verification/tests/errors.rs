use relentless::error::RetryError;
use relentless::stats::StopReason;

type Failure = RetryError<i32, &'static str>;

#[test]
fn reason_matches_the_variant() {
    let exhausted: Failure = RetryError::Exhausted { last: Ok(1) };
    let rejected: Failure = RetryError::Rejected { last: "no" };
    let cancelled: Failure = RetryError::Cancelled { last: None };
    assert_eq!(exhausted.stop_reason(), StopReason::Exhausted);
    assert_eq!(rejected.stop_reason(), StopReason::Rejected);
    assert_eq!(cancelled.stop_reason(), StopReason::Cancelled);
}

#[test]
fn last_keeps_whole_outcomes() {
    let exhausted: Failure = RetryError::Exhausted { last: Ok(1) };
    let rejected: Failure = RetryError::Rejected { last: "no" };
    let cancelled: Failure = RetryError::Cancelled { last: Some(Err("mid")) };
    let early: Failure = RetryError::Cancelled { last: None };
    assert_eq!(exhausted.last(), Some(&Ok(1)));
    assert_eq!(rejected.last(), None);
    assert_eq!(cancelled.last(), Some(&Err("mid")));
    assert_eq!(early.last(), None);
    assert_eq!(exhausted.into_last(), Some(Ok(1)));
    assert_eq!(rejected.into_last(), None);
    assert_eq!(cancelled.into_last(), Some(Err("mid")));
    assert_eq!(early.into_last(), None);
}

#[test]
fn last_error_is_the_error() {
    let value: Failure = RetryError::Exhausted { last: Ok(1) };
    let exhausted: Failure = RetryError::Exhausted { last: Err("end") };
    let rejected: Failure = RetryError::Rejected { last: "no" };
    let cancelled: Failure = RetryError::Cancelled { last: Some(Err("mid")) };
    let polled: Failure = RetryError::Cancelled { last: Some(Ok(2)) };
    assert_eq!(value.last_error(), None);
    assert_eq!(exhausted.last_error(), Some(&"end"));
    assert_eq!(rejected.last_error(), Some(&"no"));
    assert_eq!(cancelled.last_error(), Some(&"mid"));
    assert_eq!(polled.last_error(), None);
    assert_eq!(value.into_last_error(), None);
    assert_eq!(exhausted.into_last_error(), Some("end"));
    assert_eq!(rejected.into_last_error(), Some("no"));
    assert_eq!(cancelled.into_last_error(), Some("mid"));
}

#[test]
fn message_names_the_reason_and_the_error() {
    let value: Failure = RetryError::Exhausted { last: Ok(1) };
    let exhausted: Failure = RetryError::Exhausted { last: Err("end") };
    let rejected: Failure = RetryError::Rejected { last: "no" };
    let cancelled: Failure = RetryError::Cancelled { last: Some(Err("mid")) };
    let early: Failure = RetryError::Cancelled { last: None };
    assert_eq!(value.message(), "retries exhausted");
    assert_eq!(exhausted.message(), "retries exhausted: end");
    assert_eq!(rejected.message(), "rejected: no");
    assert_eq!(cancelled.message(), "cancelled: mid");
    assert_eq!(early.message(), "cancelled");
}

#[test]
fn reasons_have_words() {
    assert_eq!(StopReason::Succeeded.as_str(), "succeeded");
    assert_eq!(StopReason::Rejected.as_str(), "rejected");
    assert_eq!(StopReason::Exhausted.as_str(), "retries exhausted");
    assert_eq!(StopReason::Cancelled.as_str(), "cancelled");
}

#[test]
fn failures_can_be_cloned() {
    let all: Vec<RetryError<String, String>> = vec![
        RetryError::Exhausted { last: Ok("soon".to_string()) },
        RetryError::Exhausted { last: Err("end".to_string()) },
        RetryError::Rejected { last: "no".to_string() },
        RetryError::Cancelled { last: Some(Ok("mid".to_string())) },
        RetryError::Cancelled { last: Some(Err("mid".to_string())) },
        RetryError::Cancelled { last: None },
    ];
    for error in &all {
        assert_eq!(error.clone(), *error);
    }
}
