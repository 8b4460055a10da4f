//! Loops that go by a predicate.

pub mod async_exec;
pub mod async_loop;
pub mod common;
pub mod hooks;
pub mod laws;
pub mod policy;
pub mod state;
pub mod sync_exec;
pub mod sync_loop;
pub mod trace;
