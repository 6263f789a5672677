//! The task channel: the engine's only window onto the kernel side.
//!
//! The kernel-side dispatcher (transport rings, idle-CPU lookup, exit
//! signalling) lives outside this crate. The engine consumes it through this
//! trait, injected by the caller, so the scheduling logic stays a plain state
//! machine: the engine's contracts state what it does with whatever the
//! channel returns, for every possible return.

use vstd::prelude::*;

use crate::task::DispatchedTask;
use crate::task::QueuedTask;

verus! {

/// Final kernel-side diagnostics, drained once the channel has signalled
/// exit.
#[derive(Clone, Copy, Debug, PartialEq, Eq, Structural)]
pub struct ExitReport {
    /// Whether the kernel side asks for a fresh scheduling session rather
    /// than a process exit.
    pub restart: bool,
}

/// Interface to the kernel-side collaborator that queues runnable tasks and
/// executes dispatch decisions.
///
/// Implementations are free to fail or stall; the engine never relies on a
/// promise a channel cannot keep. A dequeue error is treated as end of
/// batch, and a dispatch error (transport saturation) makes the engine keep
/// the task and retry next cycle.
pub trait TaskChannel {
    /// Non-blocking dequeue of the next runnable task. `Ok(None)` means the
    /// queue is empty, which is not an error; `Err` is a transport failure,
    /// treated as end of batch.
    fn dequeue(&mut self) -> Result<Option<QueuedTask>, ()>;

    /// Best-effort lookup of an idle CPU for the task; a negative value
    /// means none was found.
    fn select_idle_cpu(&mut self, pid: i32, prev_cpu: i32, flags: u64) -> i32;

    /// Submit a dispatch decision. `Err` means the transport is saturated;
    /// the decision may be retried on a later cycle.
    fn dispatch(&mut self, task: &DispatchedTask) -> Result<(), ()>;

    /// Report how many tasks remain scheduled user-side. The call may
    /// suspend the calling thread until new work arrives or exit is
    /// signalled; it is the engine's only intended sleeping point.
    fn notify_pending(&mut self, nr_pending: u64);

    /// Whether the kernel side has signalled the end of the session.
    fn exited(&mut self) -> bool;

    /// Drain the final kernel-side exit diagnostics; called once, after
    /// [`TaskChannel::exited`] has returned true.
    fn shutdown_and_report(&mut self) -> ExitReport;

    /// Current timestamp in nanoseconds, on the same clock the kernel side
    /// stamps run windows with; used as the arrival tie-break.
    fn now_ns(&mut self) -> u64;

    /// Number of online CPUs.
    fn nr_online_cpus(&mut self) -> u64;

    /// Number of currently running tasks.
    fn nr_running(&mut self) -> u64;

    /// Number of tasks queued kernel-side, waiting to be consumed.
    fn nr_queued(&mut self) -> u64;

    /// Number of tasks the kernel side counts as managed user-side.
    fn nr_scheduled(&mut self) -> u64;

    /// Number of user-space dispatches.
    fn nr_user_dispatches(&mut self) -> u64;

    /// Number of kernel-side dispatches.
    fn nr_kernel_dispatches(&mut self) -> u64;

    /// Number of cancelled dispatches.
    fn nr_cancel_dispatches(&mut self) -> u64;

    /// Number of bounced dispatches.
    fn nr_bounce_dispatches(&mut self) -> u64;

    /// Number of failed dispatches.
    fn nr_failed_dispatches(&mut self) -> u64;

    /// Number of kernel-side congestion events.
    fn nr_sched_congested(&mut self) -> u64;
}

} // verus!
