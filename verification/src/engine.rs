//! The deadline engine.
//!
//! Tasks are ordered by a per-task deadline, `vtime + capped exec_runtime`:
//! `vtime` advances proportionally to weighted CPU consumption (fairness),
//! while `exec_runtime` — runtime accumulated since the last sleep — biases
//! tasks that sleep often towards earlier dispatch (responsiveness). The
//! engine drains the channel, scores and inserts each task into the ordered
//! pool, and dispatches exactly one head entry per cycle, so machine state
//! is re-observed between decisions.

use vstd::arithmetic::div_mod::lemma_div_is_ordered_by_denominator;
use vstd::arithmetic::div_mod::lemma_div_of0;
use vstd::prelude::*;

use crate::channel::ExitReport;
use crate::channel::TaskChannel;
use crate::pool::ScheduledTask;
use crate::pool::TaskPool;
use crate::pool::lemma_sorted_same_members_equal;
use crate::stats::Metrics;
use crate::stats::MetricsPort;
use crate::task::CPU_ANY;
use crate::task::DispatchedTask;
use crate::task::QueuedTask;

verus! {

/// Nanoseconds per microsecond.
pub const NSEC_PER_USEC: u64 = 1_000;

/// Largest configurable default slice, in microseconds: keeps both the
/// nanosecond conversion and the hundredfold `exec_runtime` cap within
/// `u64`.
pub const MAX_SLICE_US: u64 = u64::MAX / 100_000;

/// Largest configurable minimum slice, in microseconds: keeps the nanosecond
/// conversion within `u64`.
pub const MAX_SLICE_US_MIN: u64 = u64::MAX / 1_000;

/// `value * 100 / weight`, the cost of `value` nanoseconds of runtime for a
/// task of the given weight: lower weight means a larger effective cost and
/// so slower virtual-time progress. A zero weight violates the input
/// contract and is clamped to 1; a result beyond `u64` saturates.
pub open spec fn spec_scale_inverse(weight: u64, value: u64) -> u64 {
    let w: int = if weight == 0 {
        1
    } else {
        weight as int
    };
    let scaled: int = (value * 100) / w;
    if scaled > u64::MAX {
        u64::MAX
    } else {
        scaled as u64
    }
}

/// The re-aligned starting point for a task's virtual time: a never-seen
/// task (`vtime == 0`) is seeded one weighted slice past the floor, so
/// bursts of new tasks cannot starve established ones; a task lagging the
/// floor is clamped up to it, bounding the credit a long sleeper can bank.
pub open spec fn spec_vtime_base(vtime: u64, weight: u64, v_floor: u64, slice_ns: u64) -> u64 {
    if vtime == 0 {
        v_floor.saturating_add(spec_scale_inverse(weight, slice_ns))
    } else if vtime < v_floor {
        v_floor
    } else {
        vtime
    }
}

/// A task's virtual time after one scoring pass, given the raised high-water
/// mark `vruntime_top`: the re-aligned base advanced by the weighted cost of
/// the run window just completed.
pub open spec fn spec_updated_vtime(task: QueuedTask, vruntime_top: u64, slice_ns: u64) -> u64 {
    let v_floor = vruntime_top.saturating_sub(slice_ns);
    let base = spec_vtime_base(task.vtime, task.weight, v_floor, slice_ns);
    base.saturating_add(
        spec_scale_inverse(task.weight, task.stop_ts.saturating_sub(task.start_ts)),
    )
}

/// The ordering deadline: the updated virtual time plus `exec_runtime`
/// capped at one hundred default slices, so one abnormally long run window
/// cannot push a task's ordering arbitrarily far out.
pub open spec fn spec_deadline(new_vtime: u64, exec_runtime: u64, slice_ns: u64) -> u64 {
    let cap: int = slice_ns * 100;
    let slack: int = if exec_runtime <= cap {
        exec_runtime as int
    } else {
        cap
    };
    if new_vtime + slack > u64::MAX {
        u64::MAX
    } else {
        (new_vtime + slack) as u64
    }
}

/// The time slice granted on dispatch: the default slice divided across the
/// waiting tasks, but never below the configured floor.
pub open spec fn spec_time_slice(slice_ns: u64, slice_ns_min: u64, nr_waiting: u64) -> u64 {
    let n: int = if nr_waiting == 0 {
        1
    } else {
        nr_waiting as int
    };
    let q: int = (slice_ns as int) / n;
    if q > slice_ns_min {
        q as u64
    } else {
        slice_ns_min
    }
}

/// For a fixed slice, `spec_scale_inverse` is monotonically non-increasing
/// in the weight: a heavier (higher-weight) task is charged no more for the
/// same runtime than a lighter one.
pub proof fn lemma_scale_inverse_monotonic_in_weight(w1: u64, w2: u64, value: u64)
    requires
        0 < w1 <= w2,
    ensures
        spec_scale_inverse(w2, value) <= spec_scale_inverse(w1, value),
{
    lemma_div_is_ordered_by_denominator(value * 100, w1 as int, w2 as int);
}

/// Zero runtime costs zero for every weight.
pub proof fn lemma_scale_inverse_zero(weight: u64)
    ensures
        spec_scale_inverse(weight, 0) == 0,
{
    let w: int = if weight == 0 {
        1
    } else {
        weight as int
    };
    lemma_div_of0(w);
}

/// Dispatched slices never fall below the configured floor.
pub proof fn lemma_time_slice_floor(slice_ns: u64, slice_ns_min: u64, nr_waiting: u64)
    ensures
        spec_time_slice(slice_ns, slice_ns_min, nr_waiting) >= slice_ns_min,
{
}

/// For a fixed default slice, slices are monotonically non-increasing in the
/// number of waiting tasks, approaching the floor under contention. (With
/// integer division the decrease is not strict step by step: distinct
/// waiting counts can share a quotient, and the floor absorbs everything
/// below it.)
pub proof fn lemma_time_slice_monotonic(slice_ns: u64, slice_ns_min: u64, n1: u64, n2: u64)
    requires
        1 <= n1 <= n2,
    ensures
        spec_time_slice(slice_ns, slice_ns_min, n2) <= spec_time_slice(slice_ns, slice_ns_min, n1),
{
    lemma_div_is_ordered_by_denominator(slice_ns as int, n1 as int, n2 as int);
}

/// The CPU a decision targets: an idle CPU if the channel offered one
/// (`idle_cpu >= 0`); else the task's own CPU if it is pinned to a single
/// CPU and strict per-CPU placement is on; else [`CPU_ANY`], letting the
/// kernel side place it.
pub open spec fn spec_cpu_selection(idle_cpu: i32, task: QueuedTask, percpu_local: bool) -> i32 {
    if idle_cpu >= 0 {
        idle_cpu
    } else if percpu_local && task.nr_cpus_allowed == 1 {
        task.cpu
    } else {
        CPU_ANY
    }
}

/// What a dispatch decision for the pool entry `entry` must carry: the
/// entry's pid and flags, its deadline as the handed-back `vtime`, the
/// granted slice, and the CPU chosen by [`spec_cpu_selection`].
pub open spec fn spec_dispatch_decision(
    d: DispatchedTask,
    entry: ScheduledTask,
    idle_cpu: i32,
    percpu_local: bool,
    slice_ns: u64,
) -> bool {
    &&& d.pid == entry.task.pid
    &&& d.flags == entry.task.flags
    &&& d.vtime == entry.deadline
    &&& d.slice_ns == slice_ns
    &&& d.cpu == spec_cpu_selection(idle_cpu, entry.task, percpu_local)
}

/// Scored against the same state, a heavier (higher-weight) task never gets
/// a later virtual time or deadline than an otherwise identical lighter
/// one: lower weighted cost means earlier dispatch under this engine's
/// convention. (The inequality is not always strict: saturation, or integer
/// division on a window far smaller than the weights, can collapse both
/// costs to the same value.)
pub proof fn lemma_deadline_monotonic_in_weight(
    ta: QueuedTask,
    tb: QueuedTask,
    vruntime_top: u64,
    slice_ns: u64,
)
    requires
        0 < ta.weight <= tb.weight,
        tb == (QueuedTask { weight: tb.weight, ..ta }),
    ensures
        spec_updated_vtime(tb, vruntime_top, slice_ns) <= spec_updated_vtime(
            ta,
            vruntime_top,
            slice_ns,
        ),
        spec_deadline(spec_updated_vtime(tb, vruntime_top, slice_ns), tb.exec_runtime, slice_ns)
            <= spec_deadline(
            spec_updated_vtime(ta, vruntime_top, slice_ns),
            ta.exec_runtime,
            slice_ns,
        ),
{
    lemma_scale_inverse_monotonic_in_weight(ta.weight, tb.weight, slice_ns);
    lemma_scale_inverse_monotonic_in_weight(
        ta.weight,
        tb.weight,
        ta.stop_ts.saturating_sub(ta.start_ts),
    );
}

/// The outcome of one dispatch attempt, carrying the decision that was
/// submitted to the channel so that callers — and the contract — see
/// exactly what the kernel side was handed.
#[derive(Clone, Copy, Debug, PartialEq, Eq, Structural)]
pub enum DispatchResult {
    /// The pool was empty; nothing to dispatch is not an error.
    Idle,
    /// The decision was submitted and accepted; the entry left the pool.
    Dispatched(DispatchedTask),
    /// The transport was saturated: the decision was refused, the entry is
    /// back in the pool unchanged, and the caller must stop dispatching
    /// this cycle.
    Backpressure(DispatchedTask),
}

/// What one scheduling cycle drained, and whether the channel reported a
/// transport error while being drained (recoverable: the batch ends and
/// the next cycle retries).
#[derive(Clone, Copy, Debug, PartialEq, Eq, Structural)]
pub struct DrainReport {
    /// How many tasks were dequeued, scored and pooled.
    pub drained: u64,
    /// Whether a dequeue failed; end of batch, never fatal.
    pub transport_error: bool,
}

/// The scheduling engine's state for one session.
#[derive(Debug)]
pub struct Scheduler {
    /// The pool of scheduled-but-undispatched tasks, ordered by deadline.
    pub tasks: TaskPool,
    /// The largest task virtual time observed; monotonically non-decreasing.
    pub vruntime_now: u64,
    /// Page-fault count at session start; `0` until the first reading.
    pub init_page_faults: u64,
    /// Default time slice, in nanoseconds.
    pub slice_ns: u64,
    /// Floor below which dispatched slices are never scaled, in nanoseconds.
    pub slice_ns_min: u64,
    /// Whether a task restricted to a single CPU is dispatched directly to
    /// that CPU when no idle CPU is found.
    pub percpu_local: bool,
    /// The congestion score most recently sampled, clamped to `[0, 100]`.
    pub last_congestion: u32,
}

impl Scheduler {
    /// The engine invariant: the pool is well-formed, the default slice
    /// leaves room for its hundredfold `exec_runtime` cap, and the sampled
    /// congestion score is in range.
    pub open spec fn wf(self) -> bool {
        &&& self.tasks.wf()
        &&& self.slice_ns <= u64::MAX / 100
        &&& self.last_congestion <= 100
    }

    /// A fresh engine for one scheduling session.
    pub fn new(slice_us: u64, slice_us_min: u64, percpu_local: bool) -> (r: Self)
        requires
            slice_us <= MAX_SLICE_US,
            slice_us_min <= MAX_SLICE_US_MIN,
        ensures
            r.wf(),
            r.slice_ns == slice_us * NSEC_PER_USEC,
            r.slice_ns_min == slice_us_min * NSEC_PER_USEC,
            r.tasks@.len() == 0,
            r.vruntime_now == 0,
            r.init_page_faults == 0,
            r.percpu_local == percpu_local,
            r.last_congestion == 0,
    {
        Scheduler {
            tasks: TaskPool::new(),
            vruntime_now: 0,
            init_page_faults: 0,
            slice_ns: slice_us * NSEC_PER_USEC,
            slice_ns_min: slice_us_min * NSEC_PER_USEC,
            percpu_local,
            last_congestion: 0,
        }
    }

    /// Number of tasks waiting in the user-space pool.
    pub fn nr_tasks_scheduled(&self) -> (r: u64)
        ensures
            r == self.tasks@.len(),
    {
        self.tasks.len() as u64
    }

    /// A value inversely proportional to the task's weight: the cost charged
    /// for `value` nanoseconds of runtime.
    pub fn scale_by_task_weight_inverse(task: &QueuedTask, value: u64) -> (r: u64)
        ensures
            r == spec_scale_inverse(task.weight, value),
    {
        let weight: u64 = if task.weight == 0 {
            1
        } else {
            task.weight
        };
        let scaled: u128 = (value as u128) * 100 / (weight as u128);
        if scaled > (u64::MAX as u128) {
            u64::MAX
        } else {
            scaled as u64
        }
    }

    /// The slice granted when `nr_waiting` tasks compete for CPU time.
    pub fn time_slice(&self, nr_waiting: u64) -> (r: u64)
        ensures
            r == spec_time_slice(self.slice_ns, self.slice_ns_min, nr_waiting),
            r >= self.slice_ns_min,
    {
        let n: u64 = if nr_waiting == 0 {
            1
        } else {
            nr_waiting
        };
        let q: u64 = self.slice_ns / n;
        if q > self.slice_ns_min {
            q
        } else {
            self.slice_ns_min
        }
    }

    /// Update the task's virtual time from the kernel-reported run window
    /// and return the deadline that orders it.
    ///
    /// The task's virtual time never regresses, and the high-water mark
    /// `vruntime_now` is monotonically non-decreasing.
    pub fn update_enqueued(&mut self, task: &mut QueuedTask) -> (deadline: u64)
        requires
            old(self).wf(),
        ensures
            final(self).wf(),
            final(self).vruntime_now == (if old(task).vtime > old(self).vruntime_now {
                old(task).vtime
            } else {
                old(self).vruntime_now
            }),
            final(task).vtime == spec_updated_vtime(
                *old(task),
                final(self).vruntime_now,
                old(self).slice_ns,
            ),
            deadline == spec_deadline(final(task).vtime, old(task).exec_runtime, old(self).slice_ns),
            final(task).vtime >= old(task).vtime,
            final(self).vruntime_now >= old(self).vruntime_now,
            *final(task) == (QueuedTask { vtime: final(task).vtime, ..*old(task) }),
            *final(self) == (Scheduler { vruntime_now: final(self).vruntime_now, ..*old(self) }),
    {
        // Track the latest observed virtual time across all tasks.
        if self.vruntime_now < task.vtime {
            self.vruntime_now = task.vtime;
        }

        // Re-align the task's virtual time: never let a task lag the
        // high-water mark by more than one default slice.
        let v_floor = self.vruntime_now.saturating_sub(self.slice_ns);
        if task.vtime == 0 {
            // Charge a new task one extra weighted slice, so bursts of
            // fresh tasks cannot disrupt already running ones.
            task.vtime = v_floor.saturating_add(
                Self::scale_by_task_weight_inverse(task, self.slice_ns),
            );
        } else if task.vtime < v_floor {
            task.vtime = v_floor;
        }

        // Charge the weighted cost of the run window just completed.
        let window = task.stop_ts.saturating_sub(task.start_ts);
        let cost = Self::scale_by_task_weight_inverse(task, window);
        task.vtime = task.vtime.saturating_add(cost);

        // Deadline: virtual time plus capped time-since-last-sleep.
        let cap = self.slice_ns * 100;
        let slack = if task.exec_runtime <= cap {
            task.exec_runtime
        } else {
            cap
        };
        task.vtime.saturating_add(slack)
    }

    /// What [`Scheduler::dispatch_task`] promises of every decision it
    /// submits, relative to the engine state `pre` at the call: the target
    /// is the pool's head entry (its minimum), the decision carries that
    /// entry's pid, flags and deadline, its slice comes from the slice
    /// formula for some waiting count — so it never falls below the floor —
    /// and its CPU follows the placement rule for whatever idle CPU the
    /// channel offered. The idle-CPU answer and the kernel-side queue count
    /// are the channel's alone, hence the existential.
    pub open spec fn spec_submitted_decision(d: DispatchedTask, pre: Scheduler) -> bool {
        &&& pre.tasks@.len() > 0
        &&& d.slice_ns >= pre.slice_ns_min
        &&& exists|idle_cpu: i32, nr_waiting: u64|
            nr_waiting >= 1 && spec_dispatch_decision(
                d,
                pre.tasks@[0],
                idle_cpu,
                pre.percpu_local,
                spec_time_slice(pre.slice_ns, pre.slice_ns_min, nr_waiting),
            )
    }

    /// Assemble the decision for the pool entry about to be dispatched:
    /// the entry's pid and flags, its deadline handed back as `vtime` for
    /// kernel-side bookkeeping, the granted slice, and the CPU chosen by
    /// the three-way placement rule of [`spec_cpu_selection`].
    pub fn build_dispatch_decision(
        entry: &ScheduledTask,
        idle_cpu: i32,
        percpu_local: bool,
        slice_ns: u64,
    ) -> (d: DispatchedTask)
        ensures
            spec_dispatch_decision(d, *entry, idle_cpu, percpu_local, slice_ns),
            d.pid == entry.task.pid,
            d.flags == entry.task.flags,
            d.vtime == entry.deadline,
            d.slice_ns == slice_ns,
            d.cpu == spec_cpu_selection(idle_cpu, entry.task, percpu_local),
    {
        let mut d = DispatchedTask::new(&entry.task);
        d.slice_ns = slice_ns;
        d.vtime = entry.deadline;
        d.cpu = if idle_cpu >= 0 {
            // An idle CPU was found; dispatch the task there.
            idle_cpu
        } else if percpu_local && entry.task.nr_cpus_allowed == 1 {
            // The task may only run on one CPU; pin it there.
            entry.task.cpu
        } else {
            // Let the kernel side place the task.
            CPU_ANY
        };
        d
    }

    /// Pop the head of the pool — the minimum under the scheduling order —
    /// and dispatch it: an empty pool is a no-op. The submitted decision is
    /// returned, and the contract fixes it: the head entry's pid and flags,
    /// its deadline as the handed-back `vtime`, the slice scaled by the
    /// waiting count and never below the floor, and the CPU chosen by the
    /// placement rule against whatever idle CPU the channel offered.
    ///
    /// On submission failure the popped entry is reinserted unchanged — the
    /// pool is exactly what it was — and the caller must stop dispatching
    /// this cycle: no task is lost to backpressure.
    pub fn dispatch_task<C: TaskChannel>(&mut self, channel: &mut C) -> (r: DispatchResult)
        requires
            old(self).wf(),
        ensures
            final(self).wf(),
            *final(self) == (Scheduler { tasks: final(self).tasks, ..*old(self) }),
            r is Idle <==> old(self).tasks@.len() == 0,
            r is Idle ==> final(self).tasks@ == old(self).tasks@,
            r is Backpressure ==> final(self).tasks@ == old(self).tasks@,
            r is Dispatched ==> final(self).tasks@ == old(self).tasks@.drop_first(),
            r matches DispatchResult::Dispatched(d) ==> Self::spec_submitted_decision(
                d,
                *old(self),
            ),
            r matches DispatchResult::Backpressure(d) ==> Self::spec_submitted_decision(
                d,
                *old(self),
            ),
    {
        let nr_queued = channel.nr_queued();
        let nr_waiting = nr_queued.saturating_add(self.nr_tasks_scheduled()).saturating_add(1);

        match self.tasks.pop_first() {
            None => DispatchResult::Idle,
            Some(entry) => {
                // Scale the slice by the number of waiting tasks, with a
                // guaranteed floor.
                let slice_ns = self.time_slice(nr_waiting);
                let idle_cpu = channel.select_idle_cpu(
                    entry.task.pid,
                    entry.task.cpu,
                    entry.task.flags,
                );
                let dispatched = Self::build_dispatch_decision(
                    &entry,
                    idle_cpu,
                    self.percpu_local,
                    slice_ns,
                );
                proof {
                    assert(Self::spec_submitted_decision(dispatched, *old(self))) by {
                        assert(spec_dispatch_decision(
                            dispatched,
                            old(self).tasks@[0],
                            idle_cpu,
                            old(self).percpu_local,
                            spec_time_slice(
                                old(self).slice_ns,
                                old(self).slice_ns_min,
                                nr_waiting,
                            ),
                        ));
                    }
                }

                match channel.dispatch(&dispatched) {
                    Ok(_) => DispatchResult::Dispatched(dispatched),
                    Err(_) => {
                        // Transport saturated: keep the task for the next
                        // cycle.
                        let ghost s_rest = self.tasks@;
                        self.tasks.insert(entry);
                        proof {
                            let s_old = old(self).tasks@;
                            let s_new = self.tasks@;
                            assert forall|e: ScheduledTask| s_new.contains(e) implies s_old.contains(
                                e,
                            ) by {
                                if e == entry {
                                    assert(s_old[0] == e);
                                } else {
                                    let w = choose|w: int|
                                        0 <= w < s_rest.len() && s_rest[w] == e;
                                    assert(s_old[w + 1] == e);
                                }
                            }
                            assert forall|e: ScheduledTask| s_old.contains(e) implies s_new.contains(
                                e,
                            ) by {
                                let w = choose|w: int| 0 <= w < s_old.len() && s_old[w] == e;
                                if w == 0 {
                                    assert(s_new.contains(entry));
                                } else {
                                    assert(s_rest[w - 1] == e);
                                    assert(s_old[0].task.pid != s_old[w].task.pid);
                                }
                            }
                            lemma_sorted_same_members_equal(s_new, s_old);
                        }
                        DispatchResult::Backpressure(dispatched)
                    },
                }
            },
        }
    }

    /// Drain the channel — each dequeued task is scored and inserted with
    /// the channel clock as its arrival tie-break — until it reports empty
    /// or errors; an error ends the batch and is never fatal. If the pool is
    /// then non-empty, exactly one dispatch is attempted, so machine state
    /// is re-observed before the next decision. The report says how many
    /// tasks were drained and whether a dequeue hit a transport error
    /// (surfaced for the caller to log; the next cycle retries).
    ///
    /// A drain that found nothing leaves the scoring state untouched, and if
    /// the pool was empty too, the engine is exactly what it was.
    pub fn drain_queued_tasks<C: TaskChannel>(&mut self, channel: &mut C) -> (r: DrainReport)
        requires
            old(self).wf(),
        ensures
            final(self).wf(),
            *final(self) == (Scheduler {
                tasks: final(self).tasks,
                vruntime_now: final(self).vruntime_now,
                ..*old(self)
            }),
            final(self).vruntime_now >= old(self).vruntime_now,
            r.drained == 0 ==> final(self).vruntime_now == old(self).vruntime_now,
            r.drained == 0 ==> final(self).tasks@ == old(self).tasks@ || (old(self).tasks@.len() > 0
                && final(self).tasks@ == old(self).tasks@.drop_first()),
            r.drained == 0 && old(self).tasks@.len() == 0 ==> final(self).tasks@ == old(
                self,
            ).tasks@,
    {
        let mut drained: u64 = 0;
        let mut transport_error = false;
        let mut budget: u64 = u64::MAX;
        loop
            invariant
                self.wf(),
                self.slice_ns == old(self).slice_ns,
                self.slice_ns_min == old(self).slice_ns_min,
                self.percpu_local == old(self).percpu_local,
                self.init_page_faults == old(self).init_page_faults,
                self.last_congestion == old(self).last_congestion,
                self.vruntime_now >= old(self).vruntime_now,
                drained == 0 ==> self.vruntime_now == old(self).vruntime_now && self.tasks@ == old(
                    self,
                ).tasks@,
                drained + budget <= u64::MAX,
            ensures
                self.wf(),
                self.slice_ns == old(self).slice_ns,
                self.slice_ns_min == old(self).slice_ns_min,
                self.percpu_local == old(self).percpu_local,
                self.init_page_faults == old(self).init_page_faults,
                self.last_congestion == old(self).last_congestion,
                self.vruntime_now >= old(self).vruntime_now,
                drained == 0 ==> self.vruntime_now == old(self).vruntime_now && self.tasks@ == old(
                    self,
                ).tasks@,
            decreases budget,
        {
            if budget == 0 {
                break ;
            }
            match channel.dequeue() {
                Ok(opt) => {
                    match opt {
                        Some(task) => {
                            let mut task = task;
                            let deadline = self.update_enqueued(&mut task);
                            let timestamp = channel.now_ns();
                            self.tasks.insert(
                                ScheduledTask { task: task, deadline: deadline, timestamp: timestamp },
                            );
                            drained = drained + 1;
                            budget = budget - 1;
                        },
                        None => {
                            // The kernel side has nothing pending.
                            break ;
                        },
                    }
                },
                Err(_) => {
                    // A transport error ends the batch; the next cycle
                    // retries.
                    transport_error = true;
                    break ;
                },
            }
        }

        // Dispatch at most one task per cycle.
        if !self.tasks.is_empty() {
            self.dispatch_task(channel);
        }
        DrainReport { drained, transport_error }
    }

    /// One scheduling cycle: drain and score pending tasks, attempt one
    /// dispatch, then report the remaining pool depth to the kernel side
    /// (which may suspend the calling thread until new work exists).
    pub fn schedule<C: TaskChannel>(&mut self, channel: &mut C)
        requires
            old(self).wf(),
        ensures
            final(self).wf(),
            *final(self) == (Scheduler {
                tasks: final(self).tasks,
                vruntime_now: final(self).vruntime_now,
                ..*old(self)
            }),
            final(self).vruntime_now >= old(self).vruntime_now,
    {
        self.drain_queued_tasks(channel);

        // Report how many tasks are still pending user-side.
        let pending = self.nr_tasks_scheduled();
        channel.notify_pending(pending);
    }

    /// Fold a page-fault reading into the session baseline and return the
    /// delta since session start: the first reading becomes the baseline
    /// (a failed read is handed in as `0` and leaves the baseline unset),
    /// and a counter that moved backwards yields zero, never a wrapped
    /// value.
    pub fn page_fault_delta(&mut self, page_faults: u64) -> (delta: u64)
        requires
            old(self).wf(),
        ensures
            final(self).wf(),
            final(self).init_page_faults == (if old(self).init_page_faults == 0 {
                page_faults
            } else {
                old(self).init_page_faults
            }),
            delta == page_faults.saturating_sub(final(self).init_page_faults),
            *final(self) == (Scheduler {
                init_page_faults: final(self).init_page_faults,
                ..*old(self)
            }),
    {
        if self.init_page_faults == 0 {
            self.init_page_faults = page_faults;
        }
        page_faults.saturating_sub(self.init_page_faults)
    }

    /// Snapshot the engine's and the kernel side's counters for the
    /// out-of-band monitor. Never blocks; reads whatever the channel
    /// reports now.
    pub fn get_metrics<C: TaskChannel, M: MetricsPort>(
        &mut self,
        channel: &mut C,
        port: &mut M,
    ) -> (m: Metrics)
        requires
            old(self).wf(),
        ensures
            final(self).wf(),
            *final(self) == (Scheduler {
                init_page_faults: final(self).init_page_faults,
                ..*old(self)
            }),
            m.congestion_score == old(self).last_congestion,
            m.congestion_score <= 100,
    {
        let page_faults = match port.page_faults() {
            Some(v) => v,
            // A failed accounting read counts as zero faults.
            None => 0,
        };
        let nr_page_faults = self.page_fault_delta(page_faults);

        Metrics {
            nr_running: channel.nr_running(),
            nr_cpus: channel.nr_online_cpus(),
            nr_queued: channel.nr_queued(),
            nr_scheduled: channel.nr_scheduled(),
            nr_page_faults,
            nr_user_dispatches: channel.nr_user_dispatches(),
            nr_kernel_dispatches: channel.nr_kernel_dispatches(),
            nr_cancel_dispatches: channel.nr_cancel_dispatches(),
            nr_bounce_dispatches: channel.nr_bounce_dispatches(),
            nr_failed_dispatches: channel.nr_failed_dispatches(),
            nr_sched_congested: channel.nr_sched_congested(),
            congestion_score: self.last_congestion,
        }
    }

    /// Drive scheduling cycles until the kernel side signals exit, then
    /// drain the pool without further dispatch and return the kernel-side
    /// exit report. Each cycle samples the published congestion score,
    /// runs one scheduling cycle, and answers at most one pending monitor
    /// request.
    ///
    /// `max_cycles` bounds the number of cycles run before exit; if it is
    /// exhausted first, `None` is returned and the caller may simply call
    /// again.
    pub fn run<C: TaskChannel, M: MetricsPort>(
        &mut self,
        channel: &mut C,
        port: &mut M,
        max_cycles: u64,
    ) -> (r: Option<ExitReport>)
        requires
            old(self).wf(),
        ensures
            final(self).wf(),
            final(self).slice_ns == old(self).slice_ns,
            final(self).slice_ns_min == old(self).slice_ns_min,
            final(self).percpu_local == old(self).percpu_local,
            r is Some ==> final(self).tasks@.len() == 0,
    {
        let mut cycles_left = max_cycles;
        loop
            invariant
                self.wf(),
                self.slice_ns == old(self).slice_ns,
                self.slice_ns_min == old(self).slice_ns_min,
                self.percpu_local == old(self).percpu_local,
            decreases cycles_left,
        {
            if channel.exited() {
                // In-flight tasks are the kernel side's responsibility
                // after shutdown.
                self.tasks.clear();
                return Some(channel.shutdown_and_report());
            }
            if cycles_left == 0 {
                return None;
            }
            cycles_left = cycles_left - 1;

            // Sample the concurrently published congestion score; clamp
            // defensively, so a misbehaving port cannot push an
            // out-of-range value into the metrics.
            let score = port.congestion_score();
            self.last_congestion = if score > 100 {
                100
            } else {
                score
            };

            self.schedule(channel);

            // Answer at most one pending monitor request, without blocking.
            if port.poll_request() {
                let m = self.get_metrics(channel, port);
                port.respond(&m);
            }
        }
    }
}

} // verus!
