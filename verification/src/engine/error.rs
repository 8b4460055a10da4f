//! How a loop fails.

use super::state::StopReason;
use vstd::prelude::*;
use vstd::string::to_string_from_display_ensures;

verus! {

/// What a caller gets from a loop that ended without a value.
#[derive(Clone, Debug, PartialEq, Eq)]
pub enum RetryError<A, O> {
    /// The classifier gave up.
    Aborted {
        /// The cause that the classifier chose.
        last: A,
    },
    /// The stop strategy or the timeout ended the loop while the classifier
    /// still wanted to retry.
    Exhausted {
        /// The last outcome.
        last: O,
    },
}

/// What a caller gets from a loop over an operation that returns a `Result`.
pub type RetryResult<T, E> = Result<T, RetryError<E, Result<T, E>>>;

impl<A, O> RetryError<A, O> {
    /// Why the loop ended.
    pub open spec fn reason(self) -> StopReason {
        match self {
            RetryError::Aborted { .. } => StopReason::Aborted,
            RetryError::Exhausted { .. } => StopReason::Exhausted,
        }
    }

    /// Why the loop ended.
    pub fn stop_reason(&self) -> (r: StopReason)
        ensures
            r == self.reason(),
    {
        match self {
            RetryError::Aborted { .. } => StopReason::Aborted,
            RetryError::Exhausted { .. } => StopReason::Exhausted,
        }
    }
}

impl<T, E> RetryError<E, Result<T, E>> {
    /// The error in this value, if there is one.
    pub open spec fn error_part(self) -> Option<E> {
        match self {
            RetryError::Aborted { last } => Some(last),
            RetryError::Exhausted { last: Err(error) } => Some(error),
            RetryError::Exhausted { last: Ok(_) } => None,
        }
    }

    /// The last outcome, where it was kept whole: an exhausted loop keeps it, an
    /// aborted one keeps the bare error.
    pub fn last(&self) -> (r: Option<&Result<T, E>>)
        ensures
            match *self {
                RetryError::Exhausted { last } => r == Some(&last),
                RetryError::Aborted { .. } => r is None,
            },
    {
        match self {
            RetryError::Exhausted { last } => Some(last),
            RetryError::Aborted { .. } => None,
        }
    }

    /// The last outcome, where it was kept whole.
    pub fn into_last(self) -> (r: Option<Result<T, E>>)
        ensures
            r == match self {
                RetryError::Exhausted { last } => Some(last),
                RetryError::Aborted { .. } => None,
            },
    {
        match self {
            RetryError::Exhausted { last } => Some(last),
            RetryError::Aborted { .. } => None,
        }
    }

    /// The last error, where the loop ended on one.
    pub fn last_error(&self) -> (r: Option<&E>)
        ensures
            match self.error_part() {
                Some(error) => r == Some(&error),
                None => r is None,
            },
    {
        match self {
            RetryError::Aborted { last } => Some(last),
            RetryError::Exhausted { last } => match last {
                Ok(_) => None,
                Err(error) => Some(error),
            },
        }
    }

    /// The last error, where the loop ended on one.
    pub fn into_last_error(self) -> (r: Option<E>)
        ensures
            r == self.error_part(),
    {
        match self {
            RetryError::Aborted { last } => Some(last),
            RetryError::Exhausted { last } => match last {
                Ok(_) => None,
                Err(error) => Some(error),
            },
        }
    }
}

impl<T, E: core::fmt::Display> RetryError<E, Result<T, E>> {
    /// Whether `text` reports this value, with its error shown as `shown`.
    pub open spec fn reported_as(self, shown: Seq<char>, text: Seq<char>) -> bool {
        match self {
            RetryError::Aborted { .. } => text == "aborted: "@ + shown,
            RetryError::Exhausted { last: Err(_) } => text == "retries exhausted: "@ + shown,
            RetryError::Exhausted { last: Ok(_) } => text == "retries exhausted"@,
        }
    }

    /// This value in words.
    pub fn message(&self) -> (r: String)
        ensures
            match self.error_part() {
                Some(error) => exists|shown: String| #[trigger]
                    to_string_from_display_ensures(&error, shown) && self.reported_as(
                        shown@,
                        r@,
                    ),
                None => self.reported_as(Seq::empty(), r@),
            },
    {
        match self {
            RetryError::Aborted { last } => {
                let shown = last.to_string();
                assert(to_string_from_display_ensures(&self.error_part()->0, shown));
                String::from_str("aborted: ").concat(shown.as_str())
            },
            RetryError::Exhausted { last } => match last {
                Ok(_) => String::from_str("retries exhausted"),
                Err(error) => {
                    let shown = error.to_string();
                    assert(to_string_from_display_ensures(&self.error_part()->0, shown));
                    String::from_str("retries exhausted: ").concat(shown.as_str())
                },
            },
        }
    }
}

/// An exhausted loop hands its last outcome on whole; an aborted one hands on the bare
/// cause, and no outcome with it.
pub proof fn last_outcome_is_kept<T, E>(
    error: RetryError<E, Result<T, E>>,
    last: Option<Result<T, E>>,
    cause: Option<E>,
)
    requires
        call_ensures(RetryError::<E, Result<T, E>>::into_last, (error,), last),
        call_ensures(RetryError::<E, Result<T, E>>::into_last_error, (error,), cause),
    ensures
        error matches RetryError::Exhausted { last: kept } ==> last == Some(kept),
        error matches RetryError::Aborted { last: aborted } ==> last is None && cause == Some(
            aborted,
        ),
        last matches Some(Err(inner)) ==> cause == Some(inner),
        last matches Some(Ok(_)) ==> cause is None,
{
}

/// Looking at a failure shows what taking it apart gives.
pub proof fn looking_shows_what_is_there<T, E>(
    error: RetryError<E, Result<T, E>>,
    seen: Option<&Result<T, E>>,
    last: Option<Result<T, E>>,
    seen_cause: Option<&E>,
    cause: Option<E>,
)
    requires
        call_ensures(RetryError::<E, Result<T, E>>::last, (&error,), seen),
        call_ensures(RetryError::<E, Result<T, E>>::into_last, (error,), last),
        call_ensures(RetryError::<E, Result<T, E>>::last_error, (&error,), seen_cause),
        call_ensures(RetryError::<E, Result<T, E>>::into_last_error, (error,), cause),
    ensures
        last matches Some(outcome) ==> seen == Some(&outcome),
        last is None ==> seen is None,
        cause matches Some(inner) ==> seen_cause == Some(&inner),
        cause is None ==> seen_cause is None,
{
}

/// A failure is reported by its reason, and by its error where it has one.
pub proof fn message_is_reason_and_error<T, E: core::fmt::Display>(
    error: RetryError<E, Result<T, E>>,
    reason: StopReason,
    words: &'static str,
    cause: Option<E>,
    text: String,
)
    requires
        call_ensures(RetryError::<E, Result<T, E>>::stop_reason, (&error,), reason),
        call_ensures(StopReason::as_str, (&reason,), words),
        call_ensures(RetryError::<E, Result<T, E>>::into_last_error, (error,), cause),
        call_ensures(RetryError::<E, Result<T, E>>::message, (&error,), text),
    ensures
        cause is None ==> text@ == words@,
        cause matches Some(inner) ==> exists|shown: String| #[trigger]
            to_string_from_display_ensures(&inner, shown) && text@ == words@ + ": "@ + shown@,
{
    reveal_strlit(": ");
    reveal_strlit("aborted");
    reveal_strlit("aborted: ");
    reveal_strlit("retries exhausted");
    reveal_strlit("retries exhausted: ");
    assert("aborted: "@ =~= "aborted"@ + ": "@);
    assert("retries exhausted: "@ =~= "retries exhausted"@ + ": "@);
}

} // verus!
