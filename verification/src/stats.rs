//! Metrics snapshots and the out-of-band monitor port.

use vstd::prelude::*;

verus! {

/// A point-in-time snapshot of the engine's and the kernel side's counters,
/// served to an external monitor on request.
#[derive(Clone, Copy, Debug, PartialEq, Eq, Structural)]
pub struct Metrics {
    /// Currently running tasks.
    pub nr_running: u64,
    /// Online CPUs.
    pub nr_cpus: u64,
    /// Tasks queued kernel-side, waiting to be consumed.
    pub nr_queued: u64,
    /// Tasks the kernel side counts as managed user-side.
    pub nr_scheduled: u64,
    /// Page faults accumulated since the start of the session.
    pub nr_page_faults: u64,
    /// User-space dispatches.
    pub nr_user_dispatches: u64,
    /// Kernel-side dispatches.
    pub nr_kernel_dispatches: u64,
    /// Cancelled dispatches.
    pub nr_cancel_dispatches: u64,
    /// Bounced dispatches.
    pub nr_bounce_dispatches: u64,
    /// Failed dispatches.
    pub nr_failed_dispatches: u64,
    /// Kernel-side congestion events.
    pub nr_sched_congested: u64,
    /// The congestion score most recently sampled by the engine, in
    /// `[0, 100]`.
    pub congestion_score: u32,
}

/// The engine's window onto process-level resources and the out-of-band
/// monitor: the published congestion score, the process's page-fault
/// counters, and the monitor's request/reply channel.
///
/// The engine polls [`MetricsPort::poll_request`] once per scheduling cycle
/// and answers a pending request with exactly one [`Metrics`] snapshot; no
/// call on this port may block.
pub trait MetricsPort {
    /// The congestion score most recently published by the monitor loop.
    /// The engine clamps what it reads, so a misbehaving implementation
    /// cannot push an out-of-range score into the metrics.
    fn congestion_score(&mut self) -> u32;

    /// The process's accumulated page-fault count (minor plus major), or
    /// `None` if the accounting read failed; a failed read is reported as
    /// zero faults rather than an error.
    fn page_faults(&mut self) -> Option<u64>;

    /// Whether a monitor request is pending. Consuming the request is
    /// implied: the engine replies exactly once per `true`.
    fn poll_request(&mut self) -> bool;

    /// Send one snapshot to the monitor.
    fn respond(&mut self, metrics: &Metrics);
}

} // verus!
