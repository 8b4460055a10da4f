//! How a loop that goes by a predicate fails.

use crate::stats::StopReason;
use vstd::prelude::*;
use vstd::string::to_string_from_display_ensures;

verus! {

/// What a caller gets from a loop that ended without a value.
#[derive(Debug, PartialEq, Eq)]
pub enum RetryError<T, E> {
    /// The stop strategy or the timeout ended the loop while the predicate still
    /// wanted to retry.
    Exhausted {
        /// The last outcome, which may be a value that was not good enough.
        last: Result<T, E>,
    },
    /// The predicate accepted an error, which is not worth a retry.
    Rejected {
        /// The error.
        last: E,
    },
    /// The loop was cancelled.
    Cancelled {
        /// The last outcome, if an attempt completed.
        last: Option<Result<T, E>>,
    },
}

/// Whether `r` holds a clone of what `outcome` holds.
pub open spec fn outcome_cloned<T: Clone, E: Clone>(outcome: Result<T, E>, r: Result<T, E>) -> bool {
    match (outcome, r) {
        (Ok(value), Ok(copy)) => cloned(value, copy),
        (Err(error), Err(copy)) => cloned(error, copy),
        _ => false,
    }
}

fn clone_outcome<T: Clone, E: Clone>(outcome: &Result<T, E>) -> (r: Result<T, E>)
    ensures
        outcome_cloned(*outcome, r),
{
    match outcome {
        Ok(value) => Ok(value.clone()),
        Err(error) => Err(error.clone()),
    }
}

impl<T: Clone, E: Clone> Clone for RetryError<T, E> {
    fn clone(&self) -> (r: Self)
        ensures
            match (*self, r) {
                (RetryError::Exhausted { last }, RetryError::Exhausted { last: copy }) => {
                    outcome_cloned(last, copy)
                },
                (RetryError::Rejected { last }, RetryError::Rejected { last: copy }) => {
                    cloned(last, copy)
                },
                (RetryError::Cancelled { last: None }, RetryError::Cancelled { last: None }) => true,
                (
                    RetryError::Cancelled { last: Some(last) },
                    RetryError::Cancelled { last: Some(copy) },
                ) => outcome_cloned(last, copy),
                _ => false,
            },
    {
        match self {
            RetryError::Exhausted { last } => RetryError::Exhausted { last: clone_outcome(last) },
            RetryError::Rejected { last } => RetryError::Rejected { last: last.clone() },
            RetryError::Cancelled { last } => RetryError::Cancelled {
                last: match last {
                    Some(last) => Some(clone_outcome(last)),
                    None => None,
                },
            },
        }
    }
}

/// What a caller gets from a loop that goes by a predicate.
pub type RetryResult<T, E> = Result<T, RetryError<T, E>>;

impl<T, E> RetryError<T, E> {
    /// Why the loop ended.
    pub open spec fn reason(self) -> StopReason {
        match self {
            RetryError::Exhausted { .. } => StopReason::Exhausted,
            RetryError::Rejected { .. } => StopReason::Rejected,
            RetryError::Cancelled { .. } => StopReason::Cancelled,
        }
    }

    /// The last outcome, where it was kept whole.
    pub open spec fn whole(self) -> Option<Result<T, E>> {
        match self {
            RetryError::Exhausted { last } => Some(last),
            RetryError::Rejected { .. } => None,
            RetryError::Cancelled { last } => last,
        }
    }

    /// The error in this value, if there is one.
    pub open spec fn error_part(self) -> Option<E> {
        match self {
            RetryError::Rejected { last } => Some(last),
            RetryError::Exhausted { last: Err(error) } => Some(error),
            RetryError::Cancelled { last: Some(Err(error)) } => Some(error),
            _ => None,
        }
    }

    /// Why the loop ended.
    pub fn stop_reason(&self) -> (r: StopReason)
        ensures
            r == self.reason(),
    {
        match self {
            RetryError::Exhausted { .. } => StopReason::Exhausted,
            RetryError::Rejected { .. } => StopReason::Rejected,
            RetryError::Cancelled { .. } => StopReason::Cancelled,
        }
    }

    /// The last outcome, where it was kept whole: a rejected error is kept bare.
    pub fn last(&self) -> (r: Option<&Result<T, E>>)
        ensures
            match self.whole() {
                Some(last) => r == Some(&last),
                None => r is None,
            },
    {
        match self {
            RetryError::Exhausted { last } => Some(last),
            RetryError::Rejected { .. } => None,
            RetryError::Cancelled { last } => match last {
                Some(outcome) => Some(outcome),
                None => None,
            },
        }
    }

    /// The last outcome, where it was kept whole.
    pub fn into_last(self) -> (r: Option<Result<T, E>>)
        ensures
            r == self.whole(),
    {
        match self {
            RetryError::Exhausted { last } => Some(last),
            RetryError::Rejected { .. } => None,
            RetryError::Cancelled { last } => last,
        }
    }

    /// The last error, where the loop ended on one.
    pub fn last_error(&self) -> (r: Option<&E>)
        ensures
            match self.error_part() {
                Some(error) => r == Some(&error),
                None => r is None,
            },
    {
        match self {
            RetryError::Rejected { last } => Some(last),
            RetryError::Exhausted { last } => match last {
                Ok(_) => None,
                Err(error) => Some(error),
            },
            RetryError::Cancelled { last } => match last {
                Some(Err(error)) => Some(error),
                _ => None,
            },
        }
    }

    /// The last error, where the loop ended on one.
    pub fn into_last_error(self) -> (r: Option<E>)
        ensures
            r == self.error_part(),
    {
        match self {
            RetryError::Rejected { last } => Some(last),
            RetryError::Exhausted { last } => match last {
                Ok(_) => None,
                Err(error) => Some(error),
            },
            RetryError::Cancelled { last } => match last {
                Some(Err(error)) => Some(error),
                _ => None,
            },
        }
    }
}

impl<T, E: core::fmt::Display> RetryError<T, E> {
    /// Whether `text` reports this value, with its error shown as `shown`.
    pub open spec fn reported_as(self, shown: Seq<char>, text: Seq<char>) -> bool {
        match self {
            RetryError::Exhausted { last: Err(_) } => text == "retries exhausted: "@ + shown,
            RetryError::Exhausted { last: Ok(_) } => text == "retries exhausted"@,
            RetryError::Rejected { .. } => text == "rejected: "@ + shown,
            RetryError::Cancelled { last: Some(Err(_)) } => text == "cancelled: "@ + shown,
            RetryError::Cancelled { .. } => text == "cancelled"@,
        }
    }

    /// This value in words.
    pub fn message(&self) -> (r: String)
        ensures
            match self.error_part() {
                Some(error) => exists|shown: String| #[trigger]
                    to_string_from_display_ensures(&error, shown) && self.reported_as(
                        shown@,
                        r@,
                    ),
                None => self.reported_as(Seq::empty(), r@),
            },
    {
        let head = match self {
            RetryError::Rejected { .. } => "rejected: ",
            RetryError::Exhausted { last } => match last {
                Ok(_) => return String::from_str("retries exhausted"),
                Err(_) => "retries exhausted: ",
            },
            RetryError::Cancelled { last } => match last {
                Some(Err(_)) => "cancelled: ",
                _ => return String::from_str("cancelled"),
            },
        };
        match self.last_error() {
            Some(error) => {
                let shown = error.to_string();
                assert(to_string_from_display_ensures(&self.error_part()->0, shown));
                String::from_str(head).concat(shown.as_str())
            },
            None => String::from_str(head),
        }
    }
}

/// An exhausted or cancelled loop hands its last outcome on whole, if there was one; a
/// rejected error is handed on bare, and no outcome with it.
pub proof fn last_outcome_is_kept<T, E>(error: RetryError<T, E>, last: Option<Result<T, E>>)
    requires
        call_ensures(RetryError::<T, E>::into_last, (error,), last),
    ensures
        error matches RetryError::Exhausted { last: kept } ==> last == Some(kept),
        error matches RetryError::Cancelled { last: kept } ==> last == kept,
        error is Rejected ==> last is None,
{
}

/// The last error is the one in the last outcome, or the one that was rejected. There is
/// none where the last outcome was a value or no attempt completed.
pub proof fn last_error_is_in_the_last_outcome<T, E>(
    error: RetryError<T, E>,
    last: Option<Result<T, E>>,
    cause: Option<E>,
)
    requires
        call_ensures(RetryError::<T, E>::into_last, (error,), last),
        call_ensures(RetryError::<T, E>::into_last_error, (error,), cause),
    ensures
        error matches RetryError::Rejected { last: rejected } ==> cause == Some(rejected),
        last matches Some(Err(inner)) ==> cause == Some(inner),
        last matches Some(Ok(_)) ==> cause is None,
        last is None && !(error is Rejected) ==> cause is None,
{
}

/// Looking at a failure shows what taking it apart gives.
pub proof fn looking_shows_what_is_there<T, E>(
    error: RetryError<T, E>,
    seen: Option<&Result<T, E>>,
    last: Option<Result<T, E>>,
    seen_cause: Option<&E>,
    cause: Option<E>,
)
    requires
        call_ensures(RetryError::<T, E>::last, (&error,), seen),
        call_ensures(RetryError::<T, E>::into_last, (error,), last),
        call_ensures(RetryError::<T, E>::last_error, (&error,), seen_cause),
        call_ensures(RetryError::<T, E>::into_last_error, (error,), cause),
    ensures
        last matches Some(outcome) ==> seen == Some(&outcome),
        last is None ==> seen is None,
        cause matches Some(inner) ==> seen_cause == Some(&inner),
        cause is None ==> seen_cause is None,
{
}

/// A failure is reported by its reason, and by its error where it has one.
pub proof fn message_is_reason_and_error<T, E: core::fmt::Display>(
    error: RetryError<T, E>,
    reason: StopReason,
    words: &'static str,
    cause: Option<E>,
    text: String,
)
    requires
        call_ensures(RetryError::<T, E>::stop_reason, (&error,), reason),
        call_ensures(StopReason::as_str, (&reason,), words),
        call_ensures(RetryError::<T, E>::into_last_error, (error,), cause),
        call_ensures(RetryError::<T, E>::message, (&error,), text),
    ensures
        cause is None ==> text@ == words@,
        cause matches Some(inner) ==> exists|shown: String| #[trigger]
            to_string_from_display_ensures(&inner, shown) && text@ == words@ + ": "@ + shown@,
{
    reveal_strlit(": ");
    reveal_strlit("rejected");
    reveal_strlit("rejected: ");
    reveal_strlit("retries exhausted");
    reveal_strlit("retries exhausted: ");
    reveal_strlit("cancelled");
    reveal_strlit("cancelled: ");
    assert("rejected: "@ =~= "rejected"@ + ": "@);
    assert("retries exhausted: "@ =~= "retries exhausted"@ + ": "@);
    assert("cancelled: "@ =~= "cancelled"@ + ": "@);
}

/// A clone is of the same sort, and holds a clone of what was held.
pub proof fn clone_keeps_what_is_held<T: Clone, E: Clone>(
    error: RetryError<T, E>,
    copy: RetryError<T, E>,
)
    requires
        call_ensures(<RetryError<T, E> as Clone>::clone, (&error,), copy),
    ensures
        error matches RetryError::Rejected { last } ==> (copy matches RetryError::Rejected {
            last: held,
        } && cloned(last, held)),
        error matches RetryError::Exhausted { last: Ok(value) } ==> (
        copy matches RetryError::Exhausted { last: Ok(held) } && cloned(value, held)),
        error matches RetryError::Exhausted { last: Err(cause) } ==> (
        copy matches RetryError::Exhausted { last: Err(held) } && cloned(cause, held)),
        error matches RetryError::Cancelled { last: None } ==> (
        copy matches RetryError::Cancelled { last: None }),
        error matches RetryError::Cancelled { last: Some(Ok(value)) } ==> (
        copy matches RetryError::Cancelled { last: Some(Ok(held)) } && cloned(value, held)),
        error matches RetryError::Cancelled { last: Some(Err(cause)) } ==> (
        copy matches RetryError::Cancelled { last: Some(Err(held)) } && cloned(cause, held)),
{
}

} // verus!
