# relentless

Retrying and polling with strategies that compose, verified with Verus.

- `src/stop`, `src/wait`: when to give up and how long to wait. Strategies combine
  with `|`, `&` and `+`, take a cap with `.cap(..)` and jitter with `.jitter(..)`,
  `.full_jitter()`, `.equal_jitter()` or `decorrelated_jitter(..)`.
- `src/predicate`, `src/on.rs`, `src/decision.rs`: which outcomes to retry, return or
  give up on.
- `src/engine`: the loop by verdicts, blocking (`run.rs`) and driven
  (`async_engine.rs`). Both go through `step.rs`.
- `src/policy`: reusable rules, and under `execution` the loop by a predicate, which
  can be cancelled.
- `src/closures.rs`: for callers with proofs of their own, what the strategies made of
  their closures do.
- `src/clock.rs`: clocks, among them a virtual one for tests. `src/duration.rs`: spans
  of time.
- `app`: real clocks, timers, futures, storage and error traits around the library.

Every loop is stated as a relation between what it is given and what it may end with:
`runs` and `ends` in `engine/run.rs` and `policy/execution/sync_loop.rs`. The `laws`
modules prove what follows for all loops, such as the bound on attempts, the fit of
waits to a timeout, and that the driven form does what the blocking form does. `trace.rs`
lays a loop out attempt by attempt, and proves there what a timeout means for each.

A loop that owns its rules takes others with `when`, `until`, `decide`, `wait` and
`stop`. One from a shared `RetryPolicy` keeps the rules of the policy, and takes a
clock, hooks, a timeout and `with_stats`: the type of the loop says which it is.

Loops count their attempts up to `u64::MAX` and then end as exhausted; the attempt
number that hooks and strategies see stays at `u32::MAX` once it gets there.
