//! Retrying and polling.
//!
//! An operation is called until its outcome is good enough, a stop strategy gives
//! up, or a timeout is spent; between attempts a wait strategy says how long to
//! wait. [`stop`] and [`wait`] hold the strategies, [`predicate`] and [`decision`]
//! what makes of an outcome a value, a retry or a failure.
//!
//! There are two loops, each in a blocking and in a driven form.
//!
//! - [`engine`] goes by verdicts: a classifier returns a value, retries, or aborts.
//!   [`retry`], [`retry_async`] and [`RetryPolicy`] start it.
//! - [`policy::execution`] goes by a predicate on a `Result`, and can be cancelled
//!   from outside. [`policy::ext`] starts it.
//!
//! A blocking loop calls the operation and waits on a [`Clock`]. A driven loop is a
//! state machine: it says what to do next, and whoever polls the futures does it.
//! Both forms go through the same steps, and `laws` modules state what holds of
//! them.

pub mod cancel;
pub mod clock;
pub mod closures;
pub mod decision;
pub mod duration;
pub mod engine;
pub mod error;
pub mod on;
pub mod policy;
pub mod predicate;
pub mod prelude;
pub mod sleep;
pub mod state;
pub mod stats;
pub mod stop;
pub mod wait;

pub use clock::{Clock, SyncClock};
pub use decision::{Decide, Decision, IntoDecision, Outcome, Verdict};
pub use duration::Duration;
pub use engine::async_engine::{
    retry_async, AsyncRetry, AsyncRetryExt, AsyncRetryOp, AsyncRetryWithStats,
};
pub use engine::error::{RetryError, RetryResult};
pub use engine::state::{AttemptState, Exit, StopReason};
pub use engine::stats::RetryStats;
pub use engine::{retry, OwnsRules, Retry, RetryExt, RetryWithStats, SharesRules};
pub use policy::RetryPolicy;
pub use predicate::Predicate;
pub use state::RetryState;
pub use stop::Stop;
pub use wait::Wait;
