//! A deadline-ordered user-space CPU scheduling engine.
//!
//! The kernel side hands this library a stream of runnable-task snapshots; the
//! engine decides which task runs next, on which CPU and for how long, and
//! hands the decision back through an injected channel. Scheduling order is a
//! per-task deadline that balances fairness (weighted accumulated runtime)
//! against responsiveness (runtime since the last sleep). A concurrently
//! sampled network-congestion score is folded into the reported metrics.
//!
//! The kernel transport itself (dispatch rings, idle-CPU bitmaps) is outside
//! this crate; it is consumed through the [`channel::TaskChannel`] and
//! [`stats::MetricsPort`] traits, so the engine remains a plain, testable
//! state machine.

pub mod channel;
pub mod congestion;
pub mod engine;
pub mod pool;
pub mod stats;
pub mod task;
