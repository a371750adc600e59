//! A mutual-exclusion lock for tasks that share one thread under a
//! cooperative scheduler.
//!
//! The lock never blocks the thread: a contender either fails at once
//! (`try_lock`) or registers a wake handle and reports that it is pending
//! (`poll_lock`). Releasing a guard hands the protected value back to the
//! lock, records poisoning when the holder failed while it held the lock, and
//! hands out every registered wake handle so that the waiting tasks race again.
pub mod protocol;
pub mod unsync;
