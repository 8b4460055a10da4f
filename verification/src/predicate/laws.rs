//! What holds of predicates as a whole.

use super::{
    Predicate, PredicateAll, PredicateAny, PredicateAnyError, PredicateOk, PredicateUntil,
};
use crate::decision::{Decide, DefaultClassifier, Until, Verdict, When};
use crate::on::UntilReadyPredicate;
use vstd::prelude::*;

verus! {

/// Whether a predicate has an answer for `outcome`.
pub open spec fn answers<T, E, P: Predicate<T, E>>(predicate: P, outcome: Result<T, E>) -> bool {
    predicate.may_answer(outcome, true) || predicate.may_answer(outcome, false)
}

/// `until(until(p))` answers as `p` does.
pub proof fn until_twice_changes_nothing<T, E, P: Predicate<T, E>>(
    twice: PredicateUntil<PredicateUntil<P>>,
    outcome: Result<T, E>,
    retry: bool,
)
    ensures
        twice.may_answer(outcome, retry) == twice.inner().inner().may_answer(outcome, retry),
{
}

/// `a | b` answers as `b | a` does.
pub proof fn or_commutes<T, E, A: Predicate<T, E>, B: Predicate<T, E>>(
    ab: PredicateAny<A, B>,
    ba: PredicateAny<B, A>,
    outcome: Result<T, E>,
    retry: bool,
)
    requires
        ab.left() == ba.right(),
        ab.right() == ba.left(),
        answers(ab.left(), outcome),
        answers(ab.right(), outcome),
    ensures
        ab.may_answer(outcome, retry) == ba.may_answer(outcome, retry),
{
}

/// `a & b` answers as `b & a` does.
pub proof fn and_commutes<T, E, A: Predicate<T, E>, B: Predicate<T, E>>(
    ab: PredicateAll<A, B>,
    ba: PredicateAll<B, A>,
    outcome: Result<T, E>,
    retry: bool,
)
    requires
        ab.left() == ba.right(),
        ab.right() == ba.left(),
        answers(ab.left(), outcome),
        answers(ab.right(), outcome),
    ensures
        ab.may_answer(outcome, retry) == ba.may_answer(outcome, retry),
{
}

/// `until(a | b)` answers as `until(a) & until(b)` does.
pub proof fn until_turns_or_into_and<T, E, A: Predicate<T, E>, B: Predicate<T, E>>(
    whole: PredicateUntil<PredicateAny<A, B>>,
    parts: PredicateAll<PredicateUntil<A>, PredicateUntil<B>>,
    outcome: Result<T, E>,
    retry: bool,
)
    requires
        whole.inner().left() == parts.left().inner(),
        whole.inner().right() == parts.right().inner(),
    ensures
        whole.may_answer(outcome, retry) == parts.may_answer(outcome, retry),
{
}

/// `until(a & b)` answers as `until(a) | until(b)` does.
pub proof fn until_turns_and_into_or<T, E, A: Predicate<T, E>, B: Predicate<T, E>>(
    whole: PredicateUntil<PredicateAll<A, B>>,
    parts: PredicateAny<PredicateUntil<A>, PredicateUntil<B>>,
    outcome: Result<T, E>,
    retry: bool,
)
    requires
        whole.inner().left() == parts.left().inner(),
        whole.inner().right() == parts.right().inner(),
    ensures
        whole.may_answer(outcome, retry) == parts.may_answer(outcome, retry),
{
}

/// `until_ready(f)` answers as `until(ok(f))` does: it retries every error and
/// every value that is not ready.
pub proof fn until_ready_is_until_ok<T, E, F: Fn(&T) -> bool>(
    ready: UntilReadyPredicate<F>,
    until: PredicateUntil<PredicateOk<F>>,
    outcome: Result<T, E>,
    retry: bool,
)
    requires
        ready.is_ready() == until.inner().matcher(),
    ensures
        ready.may_answer(outcome, retry) == until.may_answer(outcome, retry),
{
}

/// A loop `.until(p)` classifies as a loop `.when(until(p))` does: what one
/// retries on, the other stops at.
pub proof fn until_is_when_turned_round<T, E, P: Predicate<T, E>>(
    until: Until<P>,
    turned: When<PredicateUntil<P>>,
    outcome: Result<T, E>,
    verdict: Verdict<T, E, Result<T, E>>,
)
    requires
        until.predicate() == turned.predicate().inner(),
    ensures
        until.may_decide(outcome, verdict) == turned.may_decide(outcome, verdict),
{
    if until.may_decide(outcome, verdict) {
        let satisfied = choose|satisfied: bool| #[trigger]
            until.predicate().may_answer(outcome, satisfied) && verdict
                == crate::decision::settled(outcome, !satisfied);
        assert(turned.predicate().may_answer(outcome, !satisfied));
    }
    if turned.may_decide(outcome, verdict) {
        let retry = choose|retry: bool| #[trigger]
            turned.predicate().may_answer(outcome, retry) && verdict == crate::decision::settled(
                outcome,
                retry,
            );
        assert(until.predicate().may_answer(outcome, !retry));
    }
}

/// A loop that was given no classifier goes by `.when(any_error())`: it returns
/// every value and retries every error.
pub proof fn any_error_is_the_default<T, E>(
    errors: When<PredicateAnyError>,
    outcome: Result<T, E>,
    verdict: Verdict<T, E, Result<T, E>>,
)
    ensures
        errors.may_decide(outcome, verdict) == DefaultClassifier.may_decide(outcome, verdict),
{
    let predicate = errors.predicate();
    assert(Predicate::<T, E>::may_answer(&predicate, outcome, outcome is Err));
}

/// `any_error()` retries every error and no value, in both of its forms.
pub proof fn any_error_retries_errors_only<T, E>(
    outcome: Result<T, E>,
    plain: PredicateAnyError,
    on: crate::on::AnyError,
    retry: bool,
)
    requires
        call_ensures(super::any_error, (), plain),
        call_ensures(crate::on::any_error, (), on),
    ensures
        plain.may_answer(outcome, retry) <==> (retry <==> outcome is Err),
        on.may_answer(outcome, retry) <==> (retry <==> outcome is Err),
        Predicate::<T, E>::askable(&plain, outcome),
        Predicate::<T, E>::askable(&on, outcome),
{
}

/// A loop `.when(p)` tries again exactly where `p` says so, with the outcome as it came.
/// Where `p` says no, a value is returned and an error aborts.
pub proof fn when_settles_what_is_not_retried<T, E, P: Predicate<T, E>>(
    predicate: P,
    classifier: When<P>,
    outcome: Result<T, E>,
    verdict: Verdict<T, E, Result<T, E>>,
)
    requires
        call_ensures(When::<P>::new, (predicate,), classifier),
        classifier.may_decide(outcome, verdict),
    ensures
        match verdict {
            Verdict::Retry(last) => last == outcome && predicate.may_answer(outcome, true),
            Verdict::Return(value) => outcome == Ok::<T, E>(value) && predicate.may_answer(
                outcome,
                false,
            ),
            Verdict::Abort(error) => outcome == Err::<T, E>(error) && predicate.may_answer(
                outcome,
                false,
            ),
        },
{
}

/// A loop `.until(p)` tries again exactly where `p` is not satisfied, with the outcome as
/// it came. Where it is, a value is returned and an error aborts.
pub proof fn until_settles_what_satisfies<T, E, P: Predicate<T, E>>(
    predicate: P,
    classifier: Until<P>,
    outcome: Result<T, E>,
    verdict: Verdict<T, E, Result<T, E>>,
)
    requires
        call_ensures(Until::<P>::new, (predicate,), classifier),
        classifier.may_decide(outcome, verdict),
    ensures
        match verdict {
            Verdict::Retry(last) => last == outcome && predicate.may_answer(outcome, false),
            Verdict::Return(value) => outcome == Ok::<T, E>(value) && predicate.may_answer(
                outcome,
                true,
            ),
            Verdict::Abort(error) => outcome == Err::<T, E>(error) && predicate.may_answer(
                outcome,
                true,
            ),
        },
{
}

/// A predicate and `until` of it are asked the same, and `until` answers the opposite.
pub proof fn until_turns_answers_round<T, E, P: Predicate<T, E>>(
    predicate: P,
    turned: PredicateUntil<P>,
    outcome: Result<T, E>,
    retry: bool,
)
    requires
        call_ensures(super::until::<P>, (predicate,), turned),
    ensures
        turned.may_answer(outcome, retry) == predicate.may_answer(outcome, !retry),
        turned.askable(outcome) == predicate.askable(outcome),
{
}

/// Where two predicates are sure of their answers, `a | b` retries where one of them does
/// and `a & b` where both do.
pub proof fn sure_predicates_combine<T, E, A: Predicate<T, E>, B: Predicate<T, E>>(
    a: A,
    b: B,
    any: PredicateAny<A, B>,
    all: PredicateAll<A, B>,
    outcome: Result<T, E>,
    x: bool,
    y: bool,
    retry: bool,
)
    requires
        call_ensures(PredicateAny::<A, B>::new, (a, b), any),
        call_ensures(PredicateAll::<A, B>::new, (a, b), all),
        forall|answer: bool| #[trigger] a.may_answer(outcome, answer) <==> answer == x,
        forall|answer: bool| #[trigger] b.may_answer(outcome, answer) <==> answer == y,
    ensures
        any.may_answer(outcome, retry) <==> retry == (x || y),
        all.may_answer(outcome, retry) <==> retry == (x && y),
{
}

/// A predicate in a box is asked and answers as it does outside, also where its type was
/// erased.
pub proof fn boxed_answers_alike<T, E>(predicate: Box<dyn Predicate<T, E>>)
    ensures
        forall|outcome: Result<T, E>| #[trigger]
            predicate.askable(outcome) == (*predicate).askable(outcome),
        forall|outcome: Result<T, E>, retry: bool| #[trigger]
            predicate.may_answer(outcome, retry) == (*predicate).may_answer(outcome, retry),
{
}

} // verus!
