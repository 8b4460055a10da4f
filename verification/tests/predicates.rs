use relentless::decision::{ClosureClassifier, DefaultClassifier, Until, When};
use relentless::{on, predicate};
use relentless::{Decide, Decision, IntoDecision, Outcome, Predicate, Verdict};

type Out = Result<i32, &'static str>;

const VALUES: [Out; 4] = [Ok(1), Ok(5), Err("soft"), Err("hard")];

fn retried<P: Predicate<i32, &'static str>>(predicate: &P) -> Vec<bool> {
    VALUES.iter().map(|o| predicate.should_retry(o)).collect()
}

#[test]
fn any_error_retries_every_error() {
    assert_eq!(retried(&predicate::any_error()), vec![false, false, true, true]);
    assert_eq!(retried(&on::any_error()), vec![false, false, true, true]);
}

#[test]
fn error_retries_what_it_is_told() {
    let soft = |e: &&str| *e == "soft";
    assert_eq!(retried(&predicate::error(soft)), vec![false, false, true, false]);
    assert_eq!(retried(&on::error(soft)), vec![false, false, true, false]);
}

#[test]
fn ok_retries_what_it_is_told() {
    let small = |v: &i32| *v < 3;
    assert_eq!(retried(&predicate::ok(small)), vec![true, false, false, false]);
    assert_eq!(retried(&on::ok(small)), vec![true, false, false, false]);
}

#[test]
fn result_goes_by_the_whole_outcome() {
    let odd = |o: &Out| matches!(o, Ok(5) | Err("soft"));
    assert_eq!(retried(&predicate::result(odd)), vec![false, true, true, false]);
    assert_eq!(retried(&on::result(odd)), vec![false, true, true, false]);
    assert_eq!(retried(&odd), vec![false, true, true, false]);
}

#[test]
fn until_turns_a_predicate_round() {
    let ready = predicate::until(predicate::ok(|v: &i32| *v >= 3));
    assert_eq!(retried(&ready), vec![true, false, true, true]);
    let twice = predicate::until(predicate::until(predicate::any_error()));
    assert_eq!(retried(&twice), retried(&predicate::any_error()));
}

#[test]
fn until_ready_retries_errors_and_unready_values() {
    let ready = |v: &i32| *v >= 3;
    assert_eq!(retried(&on::until_ready(ready)), vec![true, false, true, true]);
    assert_eq!(
        retried(&on::until_ready(ready)),
        retried(&predicate::until(predicate::ok(ready)))
    );
    let spelled = on::any_error() | on::ok(|v: &i32| *v < 3);
    assert_eq!(retried(&on::until_ready(ready)), retried(&spelled));
}

#[test]
fn predicates_combine() {
    let small = |v: &i32| *v < 3;
    let soft = |e: &&str| *e == "soft";
    let any = predicate::ok(small) | predicate::error(soft);
    let turned = predicate::error(soft) | predicate::ok(small);
    assert_eq!(retried(&any), vec![true, false, true, false]);
    assert_eq!(retried(&turned), retried(&any));
    let all = predicate::any_error() & predicate::error(soft);
    assert_eq!(retried(&all), vec![false, false, true, false]);
    let named = Predicate::<i32, &str>::or(predicate::any_error(), predicate::ok(small));
    assert_eq!(retried(&named), vec![true, false, true, true]);
    let named = Predicate::<i32, &str>::and(predicate::any_error(), predicate::error(soft));
    assert_eq!(retried(&named), vec![false, false, true, false]);
}

#[test]
fn until_swaps_or_and_and() {
    let small = |v: &i32| *v < 3;
    let soft = |e: &&str| *e == "soft";
    let whole = predicate::until(predicate::ok(small) | predicate::error(soft));
    let parts = Predicate::<i32, &str>::and(
        predicate::until(predicate::ok(small)),
        predicate::until(predicate::error(soft)),
    );
    assert_eq!(retried(&whole), retried(&parts));
    let whole = predicate::until(predicate::any_error() & predicate::error(soft));
    let parts = Predicate::<i32, &str>::or(
        predicate::until(predicate::any_error()),
        predicate::until(predicate::error(soft)),
    );
    assert_eq!(retried(&whole), retried(&parts));
}

#[test]
fn boxed_predicates_answer_alike() {
    let boxed: Box<dyn Predicate<i32, &'static str>> = Box::new(predicate::any_error());
    assert_eq!(retried(&boxed), vec![false, false, true, true]);
}

#[test]
fn default_classifier_returns_values_and_retries_errors() {
    assert_eq!(DefaultClassifier.decide(Ok::<i32, &str>(1)), Verdict::Return(1));
    assert_eq!(
        DefaultClassifier.decide(Err::<i32, &str>("soft")),
        Verdict::Retry(Err("soft"))
    );
    assert_eq!(Ok::<i32, &str>(1).classify(), Verdict::Return(1));
    let errors = When::new(predicate::any_error());
    for outcome in VALUES {
        assert_eq!(errors.decide(outcome), DefaultClassifier.decide(outcome));
    }
}

#[test]
fn when_settles_what_it_does_not_retry() {
    let classifier = When::new(predicate::error(|e: &&str| *e == "soft"));
    assert_eq!(classifier.decide(VALUES[0]), Verdict::Return(1));
    assert_eq!(classifier.decide(VALUES[2]), Verdict::Retry(Err("soft")));
    assert_eq!(classifier.decide(VALUES[3]), Verdict::Abort("hard"));
}

#[test]
fn until_settles_what_satisfies_it() {
    let seek = |o: &Out| matches!(o, Ok(5) | Err("hard"));
    let classifier = Until::new(predicate::result(seek));
    assert_eq!(classifier.decide(Ok(1)), Verdict::Retry(Ok(1)));
    assert_eq!(classifier.decide(Ok(5)), Verdict::Return(5));
    assert_eq!(classifier.decide(Err("soft")), Verdict::Retry(Err("soft")));
    assert_eq!(classifier.decide(Err("hard")), Verdict::Abort("hard"));
    let turned = When::new(predicate::until(predicate::result(seek)));
    for outcome in VALUES {
        assert_eq!(classifier.decide(outcome), turned.decide(outcome));
    }
}

#[test]
fn closures_classify() {
    let three = ClosureClassifier(|o: Out| match o {
        Ok(v) => Verdict::Return(v * 2),
        Err("hard") => Verdict::Abort(7u8),
        Err(_) => Verdict::Retry(o),
    });
    assert_eq!(three.decide(Ok(4)), Verdict::Return(8));
    assert_eq!(three.decide(Err("hard")), Verdict::Abort(7));
    assert_eq!(three.decide(Err("soft")), Verdict::Retry(Err("soft")));
    let two: Verdict<i32, core::convert::Infallible, Out> = Decision::Return(3).into_verdict();
    assert_eq!(two, Verdict::Return(3));
    let two: Verdict<i32, core::convert::Infallible, Out> = Decision::Retry(Ok(3)).into_verdict();
    assert_eq!(two, Verdict::Retry(Ok(3)));
}
