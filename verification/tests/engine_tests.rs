use scx_wifi::channel::ExitReport;
use scx_wifi::channel::TaskChannel;
use scx_wifi::engine::DispatchResult;
use scx_wifi::engine::Scheduler;
use scx_wifi::stats::Metrics;
use scx_wifi::stats::MetricsPort;
use scx_wifi::task::CPU_ANY;
use scx_wifi::task::DispatchedTask;
use scx_wifi::task::QueuedTask;

struct MockChannel {
    pending: Vec<QueuedTask>,
    dequeue_errors: usize,
    fail_dispatches: usize,
    idle_cpu: i32,
    exits_after: usize,
    restart: bool,
    now: u64,
    nr_queued_value: u64,
    attempts: Vec<DispatchedTask>,
    dispatched: Vec<DispatchedTask>,
    notified: Vec<u64>,
}

impl MockChannel {
    fn new(pending: Vec<QueuedTask>) -> Self {
        MockChannel {
            pending,
            dequeue_errors: 0,
            fail_dispatches: 0,
            idle_cpu: -1,
            exits_after: usize::MAX,
            restart: false,
            now: 0,
            nr_queued_value: 0,
            attempts: Vec::new(),
            dispatched: Vec::new(),
            notified: Vec::new(),
        }
    }
}

impl TaskChannel for MockChannel {
    fn dequeue(&mut self) -> Result<Option<QueuedTask>, ()> {
        if self.dequeue_errors > 0 {
            self.dequeue_errors -= 1;
            return Err(());
        }
        if self.pending.is_empty() {
            Ok(None)
        } else {
            Ok(Some(self.pending.remove(0)))
        }
    }

    fn select_idle_cpu(&mut self, _pid: i32, _prev_cpu: i32, _flags: u64) -> i32 {
        self.idle_cpu
    }

    fn dispatch(&mut self, task: &DispatchedTask) -> Result<(), ()> {
        self.attempts.push(*task);
        if self.fail_dispatches > 0 {
            self.fail_dispatches -= 1;
            Err(())
        } else {
            self.dispatched.push(*task);
            Ok(())
        }
    }

    fn notify_pending(&mut self, nr_pending: u64) {
        self.notified.push(nr_pending);
    }

    fn exited(&mut self) -> bool {
        if self.exits_after == 0 {
            true
        } else {
            self.exits_after -= 1;
            false
        }
    }

    fn shutdown_and_report(&mut self) -> ExitReport {
        ExitReport { restart: self.restart }
    }

    fn now_ns(&mut self) -> u64 {
        self.now += 1;
        self.now
    }

    fn nr_online_cpus(&mut self) -> u64 {
        8
    }

    fn nr_running(&mut self) -> u64 {
        11
    }

    fn nr_queued(&mut self) -> u64 {
        self.nr_queued_value
    }

    fn nr_scheduled(&mut self) -> u64 {
        13
    }

    fn nr_user_dispatches(&mut self) -> u64 {
        21
    }

    fn nr_kernel_dispatches(&mut self) -> u64 {
        22
    }

    fn nr_cancel_dispatches(&mut self) -> u64 {
        23
    }

    fn nr_bounce_dispatches(&mut self) -> u64 {
        24
    }

    fn nr_failed_dispatches(&mut self) -> u64 {
        25
    }

    fn nr_sched_congested(&mut self) -> u64 {
        26
    }
}

struct MockPort {
    score: u32,
    faults: Vec<Option<u64>>,
    requests: usize,
    responses: Vec<Metrics>,
}

impl MockPort {
    fn new() -> Self {
        MockPort { score: 0, faults: Vec::new(), requests: 0, responses: Vec::new() }
    }
}

impl MetricsPort for MockPort {
    fn congestion_score(&mut self) -> u32 {
        self.score
    }

    fn page_faults(&mut self) -> Option<u64> {
        if self.faults.is_empty() {
            None
        } else {
            self.faults.remove(0)
        }
    }

    fn poll_request(&mut self) -> bool {
        if self.requests > 0 {
            self.requests -= 1;
            true
        } else {
            false
        }
    }

    fn respond(&mut self, metrics: &Metrics) {
        self.responses.push(*metrics);
    }
}

fn task(pid: i32, weight: u64) -> QueuedTask {
    QueuedTask {
        pid,
        cpu: 0,
        nr_cpus_allowed: 4,
        flags: 0,
        start_ts: 0,
        stop_ts: 10_000_000,
        exec_runtime: 0,
        weight,
        vtime: 0,
    }
}

fn engine() -> Scheduler {
    // 20 ms default slice, 1 ms minimum slice.
    Scheduler::new(20_000, 1_000, false)
}

#[test]
fn new_converts_slice_configuration_to_ns() {
    let sched = Scheduler::new(20_000, 1_000, true);
    assert_eq!(sched.slice_ns, 20_000_000);
    assert_eq!(sched.slice_ns_min, 1_000_000);
    assert!(sched.percpu_local);
    assert_eq!(sched.vruntime_now, 0);
    assert_eq!(sched.nr_tasks_scheduled(), 0);
}

#[test]
fn scale_inverse_is_nonincreasing_in_weight() {
    let value = 10_000_000;
    let mut previous = u64::MAX;
    for weight in [1, 50, 100, 200, 10_000] {
        let scaled = Scheduler::scale_by_task_weight_inverse(&task(1, weight), value);
        assert!(scaled <= previous);
        previous = scaled;
    }
    assert_eq!(Scheduler::scale_by_task_weight_inverse(&task(1, 50), value), 20_000_000);
    assert_eq!(Scheduler::scale_by_task_weight_inverse(&task(1, 100), value), 10_000_000);
    assert_eq!(Scheduler::scale_by_task_weight_inverse(&task(1, 200), value), 5_000_000);
    assert_eq!(Scheduler::scale_by_task_weight_inverse(&task(1, 10_000), value), 100_000);
}

#[test]
fn scale_inverse_of_zero_runtime_is_zero() {
    for weight in [1, 100, 10_000] {
        assert_eq!(Scheduler::scale_by_task_weight_inverse(&task(1, weight), 0), 0);
    }
}

#[test]
fn scale_inverse_clamps_zero_weight() {
    // A zero weight violates the input contract; it is clamped to 1 instead
    // of aborting scheduling for everyone.
    assert_eq!(Scheduler::scale_by_task_weight_inverse(&task(1, 0), 5), 500);
}

#[test]
fn scale_inverse_saturates() {
    assert_eq!(Scheduler::scale_by_task_weight_inverse(&task(1, 1), u64::MAX), u64::MAX);
}

#[test]
fn time_slice_divides_across_waiting_tasks() {
    let sched = engine();
    assert_eq!(sched.time_slice(1), 20_000_000);
    assert_eq!(sched.time_slice(2), 10_000_000);
    assert_eq!(sched.time_slice(4), 5_000_000);
    // A zero count is treated as one waiter.
    assert_eq!(sched.time_slice(0), 20_000_000);
}

#[test]
fn time_slice_never_below_minimum() {
    let sched = engine();
    let mut previous = u64::MAX;
    for nr_waiting in 1..1000 {
        let slice = sched.time_slice(nr_waiting);
        assert!(slice >= sched.slice_ns_min);
        assert!(slice <= previous);
        previous = slice;
    }
    assert_eq!(sched.time_slice(20), 1_000_000);
    assert_eq!(sched.time_slice(21), 1_000_000);
    assert_eq!(sched.time_slice(1_000_000), 1_000_000);
}

#[test]
fn update_enqueued_seeds_new_tasks_past_the_floor() {
    let mut sched = engine();
    let mut t = task(1, 100);
    let deadline = sched.update_enqueued(&mut t);
    // Seeded one weighted slice (20 ms) plus the weighted window (10 ms).
    assert_eq!(t.vtime, 30_000_000);
    assert_eq!(deadline, 30_000_000);
}

#[test]
fn update_enqueued_caps_exec_runtime_in_deadline() {
    let mut sched = engine();
    let mut t = task(1, 100);
    t.exec_runtime = 500_000_000;
    let deadline = sched.update_enqueued(&mut t);
    assert_eq!(t.vtime, 30_000_000);
    // 500 ms of runtime since last sleep is added in full: the cap is one
    // hundred default slices (2 s).
    assert_eq!(deadline, 530_000_000);

    let mut sleepless = task(2, 100);
    sleepless.exec_runtime = u64::MAX;
    let capped = sched.update_enqueued(&mut sleepless);
    assert_eq!(capped, 30_000_000 + 2_000_000_000);
}

#[test]
fn update_enqueued_clamps_lagging_tasks_to_floor() {
    let mut sched = engine();
    // Raise the high-water mark far beyond one slice.
    let mut front = task(1, 100);
    front.vtime = 100_000_000;
    front.stop_ts = front.start_ts;
    sched.update_enqueued(&mut front);
    assert_eq!(sched.vruntime_now, 100_000_000);

    // A task whose vtime lags by more than one slice is clamped up to the
    // floor before being charged its window.
    let mut laggard = task(2, 100);
    laggard.vtime = 1;
    let deadline = sched.update_enqueued(&mut laggard);
    assert_eq!(laggard.vtime, 80_000_000 + 10_000_000);
    assert_eq!(deadline, 90_000_000);
}

#[test]
fn vtime_never_regresses_across_scoring() {
    let mut sched = engine();
    let mut t = task(1, 100);
    let mut previous = t.vtime;
    for round in 0..50 {
        t.start_ts = round * 10_000_000;
        t.stop_ts = t.start_ts + 3_000_000;
        sched.update_enqueued(&mut t);
        assert!(t.vtime >= previous);
        previous = t.vtime;
    }
}

#[test]
fn drain_on_empty_channel_changes_nothing() {
    let mut sched = engine();
    let mut channel = MockChannel::new(Vec::new());
    let report = sched.drain_queued_tasks(&mut channel);
    assert_eq!(report.drained, 0);
    assert!(!report.transport_error);
    assert_eq!(sched.nr_tasks_scheduled(), 0);
    assert_eq!(sched.vruntime_now, 0);
    assert_eq!(sched.init_page_faults, 0);
    assert!(channel.attempts.is_empty());
}

#[test]
fn drain_treats_dequeue_error_as_end_of_batch() {
    let mut sched = engine();
    let mut channel = MockChannel::new(vec![task(1, 100)]);
    channel.dequeue_errors = 1;
    let report = sched.drain_queued_tasks(&mut channel);
    // The error ended the batch before the pending task was seen, and is
    // surfaced for the caller to log.
    assert_eq!(report.drained, 0);
    assert!(report.transport_error);
    assert_eq!(sched.nr_tasks_scheduled(), 0);

    // The next cycle drains it normally.
    let report = sched.drain_queued_tasks(&mut channel);
    assert_eq!(report.drained, 1);
    assert!(!report.transport_error);
}

#[test]
fn drain_dispatches_exactly_one_task_per_cycle() {
    let mut sched = engine();
    let mut channel = MockChannel::new(vec![task(1, 100), task(2, 100), task(3, 200)]);
    let report = sched.drain_queued_tasks(&mut channel);
    assert_eq!(report.drained, 3);
    // One dispatch per cycle: two tasks remain scheduled.
    assert_eq!(channel.dispatched.len(), 1);
    assert_eq!(sched.nr_tasks_scheduled(), 2);
}

#[test]
fn end_to_end_weight_orders_dispatch() {
    let mut sched = engine();
    // Three tasks, weights 100/100/200, identical windows and zero vtime.
    let mut channel = MockChannel::new(vec![task(1, 100), task(2, 100), task(3, 200)]);

    sched.drain_queued_tasks(&mut channel);
    sched.drain_queued_tasks(&mut channel);
    sched.drain_queued_tasks(&mut channel);

    assert_eq!(channel.dispatched.len(), 3);
    // The weight-200 task pays half the cost, gets the strictly smallest
    // deadline, and is dispatched first; the equal-deadline weight-100
    // tasks follow in arrival order.
    assert_eq!(channel.dispatched[0].pid, 3);
    assert_eq!(channel.dispatched[1].pid, 1);
    assert_eq!(channel.dispatched[2].pid, 2);

    // The deadlines are deterministic, and the weight-200 deadline is
    // strictly smaller.
    assert_eq!(channel.dispatched[0].vtime, 15_000_000);
    assert_eq!(channel.dispatched[1].vtime, 30_000_000);
    assert_eq!(channel.dispatched[2].vtime, 30_000_000);
    assert!(channel.dispatched[0].vtime < channel.dispatched[1].vtime);

    // Slices divide the default across the waiting counts seen at each
    // dispatch: 4, 3 and 2 waiters.
    assert_eq!(channel.dispatched[0].slice_ns, 5_000_000);
    assert_eq!(channel.dispatched[1].slice_ns, 6_666_666);
    assert_eq!(channel.dispatched[2].slice_ns, 10_000_000);
}

#[test]
fn dispatch_failure_keeps_the_pool_intact() {
    let mut sched = engine();
    // The weight-200 task sorts first and will be the one attempted.
    let task_a = task(1, 200);
    let task_b = task(2, 100);
    let mut channel = MockChannel::new(vec![task_a, task_b]);
    channel.fail_dispatches = 1;

    sched.drain_queued_tasks(&mut channel);

    // The attempt failed: both tasks are still pooled, and nothing was
    // submitted for the second task this cycle.
    assert_eq!(sched.nr_tasks_scheduled(), 2);
    assert_eq!(channel.attempts.len(), 1);
    assert_eq!(channel.attempts[0].pid, 1);
    assert!(channel.dispatched.is_empty());

    // The next cycle retries the same head task and succeeds.
    sched.drain_queued_tasks(&mut channel);
    assert_eq!(channel.dispatched.len(), 1);
    assert_eq!(channel.dispatched[0].pid, 1);
    assert_eq!(sched.nr_tasks_scheduled(), 1);
}

#[test]
fn dispatch_on_empty_pool_is_a_successful_noop() {
    let mut sched = engine();
    let mut channel = MockChannel::new(Vec::new());
    assert!(matches!(sched.dispatch_task(&mut channel), DispatchResult::Idle));
    assert!(channel.attempts.is_empty());
}

#[test]
fn dispatch_returns_the_submitted_decision() {
    let mut sched = engine();
    let mut channel = MockChannel::new(vec![task(1, 200), task(2, 100)]);
    // The first cycle's own attempt is refused, leaving both tasks pooled.
    channel.fail_dispatches = 1;
    sched.drain_queued_tasks(&mut channel);

    match sched.dispatch_task(&mut channel) {
        DispatchResult::Dispatched(d) => {
            // The returned decision is exactly what the channel received:
            // the head entry's pid and deadline, with a floored slice.
            assert_eq!(channel.dispatched.last(), Some(&d));
            assert_eq!(d.pid, 1);
            assert_eq!(d.vtime, 15_000_000);
            assert!(d.slice_ns >= sched.slice_ns_min);
        }
        other => panic!("expected a successful dispatch, got {:?}", other),
    }
    assert_eq!(sched.nr_tasks_scheduled(), 1);
}

#[test]
fn backpressure_returns_the_refused_decision() {
    let mut sched = engine();
    let mut channel = MockChannel::new(vec![task(1, 200), task(2, 100)]);
    channel.fail_dispatches = 2;
    sched.drain_queued_tasks(&mut channel);

    match sched.dispatch_task(&mut channel) {
        DispatchResult::Backpressure(d) => {
            assert_eq!(channel.attempts.last(), Some(&d));
            assert_eq!(d.pid, 1);
        }
        other => panic!("expected backpressure, got {:?}", other),
    }
    // The refused entry is still pooled.
    assert_eq!(sched.nr_tasks_scheduled(), 2);
}

#[test]
fn dispatch_uses_idle_cpu_when_offered() {
    let mut sched = engine();
    let mut channel = MockChannel::new(vec![task(1, 100)]);
    channel.idle_cpu = 5;
    sched.drain_queued_tasks(&mut channel);
    assert_eq!(channel.dispatched[0].cpu, 5);
}

#[test]
fn dispatch_pins_single_cpu_tasks_when_percpu_local() {
    let mut sched = Scheduler::new(20_000, 1_000, true);
    let mut pinned = task(1, 100);
    pinned.nr_cpus_allowed = 1;
    pinned.cpu = 7;
    let mut channel = MockChannel::new(vec![pinned]);
    sched.drain_queued_tasks(&mut channel);
    assert_eq!(channel.dispatched[0].cpu, 7);
}

#[test]
fn dispatch_falls_back_to_any_cpu() {
    // No idle CPU, no pinning: the kernel side places the task.
    let mut sched = engine();
    let mut channel = MockChannel::new(vec![task(1, 100)]);
    sched.drain_queued_tasks(&mut channel);
    assert_eq!(channel.dispatched[0].cpu, CPU_ANY);

    // Pinned task, but strict per-CPU placement is off.
    let mut pinned = task(2, 100);
    pinned.nr_cpus_allowed = 1;
    pinned.cpu = 7;
    let mut channel = MockChannel::new(vec![pinned]);
    sched.drain_queued_tasks(&mut channel);
    assert_eq!(channel.dispatched[0].cpu, CPU_ANY);
}

#[test]
fn dispatch_counts_kernel_queue_in_slice_scaling() {
    let mut sched = engine();
    let mut channel = MockChannel::new(vec![task(1, 100)]);
    // 7 queued kernel-side + 1 pooled + 1 being dispatched = 9 waiters.
    channel.nr_queued_value = 7;
    sched.drain_queued_tasks(&mut channel);
    assert_eq!(channel.dispatched[0].slice_ns, 20_000_000 / 9);
}

#[test]
fn schedule_notifies_remaining_pool_depth() {
    let mut sched = engine();
    let mut channel = MockChannel::new(vec![task(1, 100), task(2, 100), task(3, 200)]);
    sched.schedule(&mut channel);
    // Three drained, one dispatched, two still pending user-side.
    assert_eq!(channel.notified, vec![2]);
}

#[test]
fn page_fault_delta_baselines_on_first_reading() {
    let mut sched = engine();
    assert_eq!(sched.page_fault_delta(150), 0);
    assert_eq!(sched.init_page_faults, 150);
    assert_eq!(sched.page_fault_delta(175), 25);
    // A reading below the baseline saturates to zero.
    assert_eq!(sched.page_fault_delta(100), 0);
}

#[test]
fn metrics_snapshot_reports_counters_and_faults() {
    let mut sched = engine();
    let mut channel = MockChannel::new(Vec::new());
    let mut port = MockPort::new();
    port.faults = vec![Some(150), Some(175)];

    let first = sched.get_metrics(&mut channel, &mut port);
    assert_eq!(first.nr_running, 11);
    assert_eq!(first.nr_cpus, 8);
    assert_eq!(first.nr_queued, 0);
    assert_eq!(first.nr_scheduled, 13);
    assert_eq!(first.nr_page_faults, 0);
    assert_eq!(first.nr_user_dispatches, 21);
    assert_eq!(first.nr_kernel_dispatches, 22);
    assert_eq!(first.nr_cancel_dispatches, 23);
    assert_eq!(first.nr_bounce_dispatches, 24);
    assert_eq!(first.nr_failed_dispatches, 25);
    assert_eq!(first.nr_sched_congested, 26);
    assert_eq!(first.congestion_score, 0);

    let second = sched.get_metrics(&mut channel, &mut port);
    assert_eq!(second.nr_page_faults, 25);

    // A failed accounting read reports zero faults.
    let third = sched.get_metrics(&mut channel, &mut port);
    assert_eq!(third.nr_page_faults, 0);
}

#[test]
fn run_serves_monitor_requests_with_sampled_score() {
    let mut sched = engine();
    let mut channel = MockChannel::new(Vec::new());
    channel.exits_after = 2;
    let mut port = MockPort::new();
    port.score = 42;
    port.requests = 1;

    let report = sched.run(&mut channel, &mut port, u64::MAX);
    assert!(report.is_some());
    assert_eq!(port.responses.len(), 1);
    assert_eq!(port.responses[0].congestion_score, 42);
}

#[test]
fn run_clamps_out_of_range_congestion_scores() {
    let mut sched = engine();
    let mut channel = MockChannel::new(Vec::new());
    channel.exits_after = 1;
    let mut port = MockPort::new();
    port.score = 250;
    port.requests = 1;

    sched.run(&mut channel, &mut port, u64::MAX);
    assert_eq!(port.responses[0].congestion_score, 100);
}

#[test]
fn run_drains_pool_on_exit_without_dispatch() {
    let mut sched = engine();
    // Two tasks arrive; one is dispatched before exit is signalled, the
    // other is discarded on shutdown, not dispatched.
    let mut channel = MockChannel::new(vec![task(1, 100), task(2, 200)]);
    channel.exits_after = 1;
    channel.restart = true;
    let mut port = MockPort::new();

    let report = sched.run(&mut channel, &mut port, u64::MAX).unwrap();
    assert!(report.restart);
    assert_eq!(sched.nr_tasks_scheduled(), 0);
    assert_eq!(channel.dispatched.len(), 1);
    assert_eq!(channel.notified, vec![1]);
}

#[test]
fn run_returns_none_when_cycle_budget_is_exhausted() {
    let mut sched = engine();
    let mut channel = MockChannel::new(Vec::new());
    let mut port = MockPort::new();

    let report = sched.run(&mut channel, &mut port, 3);
    assert!(report.is_none());
    assert_eq!(channel.notified.len(), 3);

    // Calling again picks the session back up.
    channel.exits_after = 0;
    let report = sched.run(&mut channel, &mut port, 3);
    assert!(report.is_some());
}

#[test]
fn update_treats_inverted_run_window_as_empty() {
    let mut sched = engine();
    let mut t = task(1, 100);
    // A run window whose stop precedes its start charges nothing rather
    // than wrapping.
    t.start_ts = 100;
    t.stop_ts = 50;
    let deadline = sched.update_enqueued(&mut t);
    assert_eq!(t.vtime, 20_000_000);
    assert_eq!(deadline, 20_000_000);
}

#[test]
fn vtime_saturates_instead_of_wrapping() {
    let mut sched = engine();
    let mut t = task(1, 100);
    t.vtime = u64::MAX - 5;
    let deadline = sched.update_enqueued(&mut t);
    // The charge saturates at the top of the range; vtime still never
    // regresses.
    assert_eq!(t.vtime, u64::MAX);
    assert_eq!(deadline, u64::MAX);
    assert_eq!(sched.vruntime_now, u64::MAX - 5);
}

#[test]
fn deadlines_never_increase_with_weight() {
    // Otherwise identical tasks scored against equal fresh engines: a
    // higher weight never yields a later deadline (and P8's weights give a
    // strictly earlier one).
    let mut previous = u64::MAX;
    for weight in [1, 10, 100, 200, 1000, 10_000] {
        let mut sched = engine();
        let mut t = task(1, weight);
        let deadline = sched.update_enqueued(&mut t);
        assert!(deadline <= previous);
        previous = deadline;
    }
}
