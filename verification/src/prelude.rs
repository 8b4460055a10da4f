//! The traits whose methods the builders and the combinators are.

pub use crate::{AsyncRetryExt, Clock, Predicate, RetryExt, Stop, SyncClock, Wait};
