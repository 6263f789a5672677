//! Task snapshots received from, and decisions returned to, the kernel side.

use vstd::prelude::*;

verus! {

/// Target-CPU sentinel: let the kernel side place the task on the first CPU
/// that becomes available.
pub const CPU_ANY: i32 = -1;

/// Snapshot of a runnable task, produced by the kernel side on enqueue and
/// consumed exactly once by the engine.
#[derive(Clone, Copy, Debug, PartialEq, Eq, Structural)]
pub struct QueuedTask {
    /// Identity of the task, unique among live tasks.
    pub pid: i32,
    /// CPU the task last ran on.
    pub cpu: i32,
    /// Cardinality of the task's CPU-affinity mask.
    pub nr_cpus_allowed: u64,
    /// Enqueue-reason bits, propagated unchanged.
    pub flags: u64,
    /// Start of the last run window, in nanoseconds.
    pub start_ts: u64,
    /// End of the last run window, in nanoseconds.
    pub stop_ts: u64,
    /// Accumulated runtime since the last sleep, in nanoseconds.
    pub exec_runtime: u64,
    /// Priority in `[1, 10000]`; lower weight means a larger effective cost
    /// per nanosecond of runtime under this engine's convention.
    pub weight: u64,
    /// The task's running virtual-time counter, owned and advanced by the
    /// engine and persisted by the kernel side between enqueue cycles.
    pub vtime: u64,
}

/// A scheduling decision, handed back to the kernel-side dispatcher.
#[derive(Clone, Copy, Debug, PartialEq, Eq, Structural)]
pub struct DispatchedTask {
    /// Identity of the task being dispatched.
    pub pid: i32,
    /// Target CPU, or [`CPU_ANY`] to let the kernel side place the task.
    pub cpu: i32,
    /// Enqueue-reason bits, propagated unchanged.
    pub flags: u64,
    /// Time budget in nanoseconds before involuntary re-enqueue; `0` means
    /// the kernel-side default slice.
    pub slice_ns: u64,
    /// Deadline handed back for kernel-side bookkeeping.
    pub vtime: u64,
}

impl DispatchedTask {
    /// Start a decision for `task`, with the default slice and a zero
    /// deadline; the engine fills both in before dispatching.
    pub fn new(task: &QueuedTask) -> (r: Self)
        ensures
            r.pid == task.pid,
            r.cpu == task.cpu,
            r.flags == task.flags,
            r.slice_ns == 0,
            r.vtime == 0,
    {
        DispatchedTask { pid: task.pid, cpu: task.cpu, flags: task.flags, slice_ns: 0, vtime: 0 }
    }
}

} // verus!
