use kcom::async_com_metrics::AsyncComMetrics;
use kcom::executor::{
    adaptive_poll_budget, current_cpu_index, dpc_after_clock, dpc_after_pending, dpc_run_budget,
    DpcRunStep, is_cancellation_requested, set_task_alloc_tag,
    set_task_budget, set_task_budget_adaptive_thresholds, spawn_dpc_task_cancellable,
    spawn_dpc_task_tracked, spawn_task, spawn_task_cancellable_tracked,
    spawn_task_cancellable_tracked_unsupported, spawn_dpc_task_cancellable_host, spawn_task_host, take_cancellation_request, time_budget_ticks,
    BudgetStep, DpcBudget, DpcTask, KernelTimerFuture, ReleaseOutcome, ScheduleAction,
    TaskBudget, TaskBudgetConfig, TaskTracker, TimerPoll, WorkItemSchedule, WorkItemStep,
    WorkItemTask, DEFAULT_TASK_TAG, TASK_BUDGET_MODE_ADAPTIVE, TASK_BUDGET_MODE_POLLS,
    TASK_BUDGET_MODE_TIME_US,
};
use kcom::iunknown::{STATUS_INSUFFICIENT_RESOURCES, STATUS_NOT_SUPPORTED};
use kcom::{STATUS_INVALID_PARAMETER, STATUS_SUCCESS};

fn metrics(skipped: u64, enqueued: u64) -> AsyncComMetrics {
    let mut m = AsyncComMetrics::default();
    m.dpc_skipped = skipped;
    m.dpc_enqueued = enqueued;
    m
}

#[test]
fn task_budget_defaults_and_setters() {
    let mut cfg = TaskBudgetConfig::new();
    assert_eq!(cfg.mode, TASK_BUDGET_MODE_POLLS);
    assert_eq!(cfg.polls, 64);
    assert_eq!(cfg.alloc_tag, DEFAULT_TASK_TAG);
    set_task_budget(&mut cfg, TaskBudget::Polls(3));
    assert_eq!((cfg.mode, cfg.polls), (TASK_BUDGET_MODE_POLLS, 3));
    set_task_budget(&mut cfg, TaskBudget::TimeUs(500));
    assert_eq!((cfg.mode, cfg.time_us), (TASK_BUDGET_MODE_TIME_US, 500));
    set_task_budget(&mut cfg, TaskBudget::Adaptive { min_polls: 90, max_polls: 10 });
    assert_eq!((cfg.mode, cfg.adaptive_min, cfg.adaptive_max), (TASK_BUDGET_MODE_ADAPTIVE, 10, 90));
    set_task_budget_adaptive_thresholds(&mut cfg, 150, 20);
    assert_eq!((cfg.low_pct, cfg.high_pct), (100, 100));
    set_task_budget_adaptive_thresholds(&mut cfg, 30, 20);
    assert_eq!((cfg.low_pct, cfg.high_pct), (30, 30));
    set_task_alloc_tag(&mut cfg, 0x1234);
    assert_eq!(cfg.alloc_tag, 0x1234);
}

#[test]
fn adaptive_budget_follows_skip_ratio() {
    let mut cfg = TaskBudgetConfig::new();
    // defaults: 16..=128, thresholds 5% and 50%
    // no pressure: maximum
    assert_eq!(adaptive_poll_budget(&mut cfg, &metrics(0, 100)), 128);
    // 60% skipped since the last reading: minimum
    assert_eq!(adaptive_poll_budget(&mut cfg, &metrics(60, 200)), 16);
    // 25% skipped: 16 + (112 - 112 * 20 / 45) = 16 + 63 = 79
    assert_eq!(adaptive_poll_budget(&mut cfg, &metrics(85, 300)), 79);
    assert_eq!((cfg.last_skipped, cfg.last_enqueued), (85, 300));
    // nothing new enqueued: ratio 0, maximum
    assert_eq!(adaptive_poll_budget(&mut cfg, &metrics(85, 300)), 128);
}

#[test]
fn adaptive_budget_with_equal_bounds_is_fixed() {
    let mut cfg = TaskBudgetConfig::new();
    set_task_budget(&mut cfg, TaskBudget::Adaptive { min_polls: 40, max_polls: 40 });
    assert_eq!(adaptive_poll_budget(&mut cfg, &metrics(99, 100)), 40);
}

#[test]
fn cpu_index_and_time_budget() {
    assert_eq!(current_cpu_index(0, 5), Some(5));
    assert_eq!(current_cpu_index(2, 3), Some(131));
    assert_eq!(current_cpu_index(64, 0), None);
    assert_eq!(current_cpu_index(0, 64), None);
    assert_eq!(time_budget_ticks(200, 10_000_000), 2000);
    assert_eq!(time_budget_ticks(200, 0), 0);
    assert_eq!(time_budget_ticks(u64::MAX, 10), u64::MAX / 1_000_000);
}

#[test]
fn dpc_budget_modes() {
    // a budget of 2 polls: the first poll, then one granted wake
    let mut b = DpcBudget::new(TASK_BUDGET_MODE_POLLS, 2, 0, 0);
    assert_eq!(b.consume(), BudgetStep::Continue);
    assert_eq!(b.consume(), BudgetStep::Exhausted);
    // a budget of 1 poll: no wake is granted another poll
    let mut one = DpcBudget::new(TASK_BUDGET_MODE_POLLS, 1, 0, 0);
    assert_eq!(one.consume(), BudgetStep::Exhausted);
    let mut none = DpcBudget::new(TASK_BUDGET_MODE_ADAPTIVE, 0, 0, 0);
    assert_eq!(none.consume(), BudgetStep::Exhausted);
    let mut t = DpcBudget::new(TASK_BUDGET_MODE_TIME_US, 0, 100, 50);
    for _ in 0..7 {
        assert_eq!(t.consume(), BudgetStep::Continue);
    }
    assert_eq!(t.consume(), BudgetStep::ReadClock);
    assert!(!t.clock_exhausted(120));
    assert!(t.clock_exhausted(150));
}

#[test]
fn dpc_task_schedules_once() {
    let mut t = DpcTask::allocate(DEFAULT_TASK_TAG);
    assert_eq!(t.schedule(), ScheduleAction::InsertDpc);
    assert_eq!(t.ref_count, 2);
    assert_eq!(t.schedule(), ScheduleAction::Skipped);
    assert_eq!(t.ref_count, 2);
    // the DPC runs
    assert!(t.dpc_begin());
    assert_eq!(t.schedule(), ScheduleAction::Skipped);
    assert!(t.dpc_woken());
    t.dpc_ready();
    assert_eq!(t.schedule(), ScheduleAction::Ignored);
    assert_eq!(t.release(), ReleaseOutcome::Alive);
    assert_eq!(t.release(), ReleaseOutcome::Free);
    assert!(t.freed);
}

#[test]
fn dpc_task_refused_insert_gives_back_reference() {
    let mut t = DpcTask::allocate(DEFAULT_TASK_TAG);
    assert_eq!(t.schedule(), ScheduleAction::InsertDpc);
    assert_eq!(t.insert_failed(), ReleaseOutcome::Alive);
    assert_eq!(t.ref_count, 1);
    assert_eq!(t.release(), ReleaseOutcome::DropAndFree);
}

#[test]
fn spawn_dpc_task_cancellable_polls_once_on_host() {
    // the future is always pending
    let mut handle = spawn_dpc_task_cancellable_host(false).expect("spawn dpc task");
    assert_eq!(handle.polls(), 1);
    assert!(!handle.is_cancelled());
    handle.cancel();
    assert!(!handle.is_cancelled());
}

#[test]
fn spawn_dpc_task_cancellable_drops_pending_future_on_host() {
    let mut handle = spawn_dpc_task_cancellable_host(false).expect("spawn_dpc_task_cancellable");
    assert!(handle.holds_future());
    handle.cancel();
    assert!(!handle.holds_future());
    let ready = spawn_dpc_task_cancellable_host(true).expect("spawn");
    assert!(!ready.holds_future());
}

#[test]
fn kernel_cancel_handle_schedules_once() {
    let mut handle = spawn_dpc_task_cancellable(&TaskBudgetConfig::new(), true).expect("spawn dpc task");
    assert_eq!(handle.task_state().ref_count, 2);
    assert!(!handle.is_cancelled());
    assert_eq!(handle.cancel(), Some(ScheduleAction::Skipped));
    assert!(handle.is_cancelled());
    assert_eq!(handle.cancel(), None);
    // the DPC's reference, then the handle's
    let mut task = handle.into_task();
    assert_eq!(task.release(), ReleaseOutcome::Alive);
    assert_eq!(task.release(), ReleaseOutcome::DropAndFree);
    assert!(spawn_dpc_task_cancellable(&TaskBudgetConfig::new(), false).is_err());
}

#[test]
fn cancellation_request_is_seen_once() {
    let mut t = DpcTask::allocate(DEFAULT_TASK_TAG);
    assert!(!is_cancellation_requested(2, Some(&t)));
    assert_eq!(t.cancel(), Some(ScheduleAction::InsertDpc));
    assert!(!is_cancellation_requested(1, Some(&t)));
    assert!(is_cancellation_requested(2, Some(&t)));
    assert!(!is_cancellation_requested(2, None));
    assert!(!take_cancellation_request(2, &mut t, false));
    assert!(take_cancellation_request(2, &mut t, true));
    assert!(!take_cancellation_request(2, &mut t, true));
    assert!(is_cancellation_requested(2, Some(&t)));
}

#[test]
fn tracker_balances_tasks() {
    let mut tracker = TaskTracker::new();
    assert!(!tracker.drain());
    tracker.begin();
    assert!(!tracker.event_signaled);
    assert!(tracker.drain());
    tracker.complete();
    assert!(tracker.event_signaled);
    assert!(!tracker.drain());
    let (status, task) = spawn_dpc_task_tracked(&TaskBudgetConfig::new(), &mut tracker, true);
    assert_eq!(status, STATUS_SUCCESS);
    assert_eq!(task.unwrap().ref_count, 1);
    assert_eq!(tracker.pending, 1);
    let (status, task) = spawn_dpc_task_tracked(&TaskBudgetConfig::new(), &mut tracker, false);
    assert_eq!(status, STATUS_INSUFFICIENT_RESOURCES);
    assert!(task.is_none());
    assert_eq!(tracker.pending, 1);
}

#[test]
fn spawn_task_polls_once_on_host() {
    let (status, polls) = spawn_task_host(false);
    assert_eq!(status, STATUS_SUCCESS);
    assert_eq!(polls, 1);
    assert_eq!(spawn_task_host(true), (STATUS_SUCCESS, 1));
}

#[test]
fn spawn_task_work_item_runs_once() {
    let mut tracker = TaskTracker::new();
    let (status, task) = spawn_task(true, &mut tracker, true, true, true);
    assert_eq!(status, STATUS_SUCCESS);
    let mut task = task.unwrap();
    assert_eq!(tracker.pending, 1);
    assert_eq!(task.work_item_begin(&mut tracker), WorkItemStep::Poll);
    task.work_item_polled(true);
    assert_eq!(task.work_item_end(&mut tracker), (true, true));
    assert_eq!(tracker.pending, 0);
    assert!(tracker.event_signaled);
}

#[test]
fn spawn_task_failures() {
    let mut tracker = TaskTracker::new();
    assert_eq!(spawn_task(false, &mut tracker, true, true, true).0, STATUS_INVALID_PARAMETER);
    assert_eq!(spawn_task(true, &mut tracker, true, false, true).0, STATUS_INSUFFICIENT_RESOURCES);
    let (status, task) = spawn_task(true, &mut tracker, true, true, false);
    assert_eq!(status, STATUS_INSUFFICIENT_RESOURCES);
    assert!(task.is_none());
    assert_eq!(tracker.pending, 0);
    assert!(tracker.event_signaled);
}

#[test]
fn cancellable_work_item_task() {
    let mut tracker = TaskTracker::new();
    let mut handle =
        spawn_task_cancellable_tracked(true, &mut tracker, true, true).ok().unwrap();
    assert_eq!(handle.task_state().ref_count, 2);
    // already queued: the request rides on the pending run
    assert_eq!(handle.cancel(&mut tracker), Some(WorkItemSchedule::Done));
    assert_eq!(handle.cancel(&mut tracker), None);
    assert!(handle.is_cancelled());
    let mut task = handle.into_task();
    assert_eq!(task.work_item_begin(&mut tracker), WorkItemStep::DropFuture);
    assert_eq!(task.work_item_end(&mut tracker), (true, false));
    assert_eq!(tracker.pending, 0);
    assert!(matches!(
        spawn_task_cancellable_tracked(false, &mut tracker, true, true),
        Err(STATUS_INVALID_PARAMETER)
    ));
    assert!(matches!(
        spawn_task_cancellable_tracked_unsupported(),
        Err(STATUS_NOT_SUPPORTED)
    ));
}

#[test]
fn work_item_schedule_without_device() {
    let mut tracker = TaskTracker::new();
    let mut task = WorkItemTask::allocate();
    task.has_tracker = true;
    assert_eq!(task.schedule_begin(&mut tracker), WorkItemSchedule::NoDevice);
    assert_eq!(tracker.pending, 0);
    assert!(!task.scheduled);
    task.has_device = true;
    assert_eq!(task.schedule_begin(&mut tracker), WorkItemSchedule::AllocateWorkItem);
    assert_eq!(task.schedule_begin(&mut tracker), WorkItemSchedule::Done);
    assert_eq!(task.schedule_allocated(&mut tracker, false), STATUS_INSUFFICIENT_RESOURCES);
    assert_eq!(tracker.pending, 0);
}

#[test]
fn kernel_timer_future_lifecycle() {
    let mut t = KernelTimerFuture::allocate();
    assert_eq!(t.poll(), TimerPoll::Arm);
    assert_eq!(t.ref_count, 2);
    assert_eq!(t.poll(), TimerPoll::Pending);
    assert_eq!(t.timer_dpc(), (true, false));
    assert_eq!(t.poll(), TimerPoll::Ready);
    assert!(t.drop_future(false, false));
}

#[test]
fn kernel_timer_dropped_before_firing() {
    let mut t = KernelTimerFuture::allocate();
    assert_eq!(t.poll(), TimerPoll::Arm);
    assert!(t.drop_future(true, false));
    assert!(t.cancelled);
}

#[test]
fn dpc_run_follows_wakes_and_budget() {
    let mut cfg = TaskBudgetConfig::new();
    set_task_budget(&mut cfg, TaskBudget::Polls(2));
    let mut budget = dpc_run_budget(&mut cfg, &metrics(0, 0), 5, 100);
    assert_eq!((budget.polls_left, budget.budget_ticks), (2, 0));
    let mut t = DpcTask::allocate(DEFAULT_TASK_TAG);
    assert!(t.dpc_begin());
    // pending without a wake: the run stops
    assert_eq!(dpc_after_pending(&mut t, &mut budget), DpcRunStep::Stop);
    // a wake arrives: one more poll is allowed, then the budget is spent
    t.scheduled = true;
    assert_eq!(dpc_after_pending(&mut t, &mut budget), DpcRunStep::PollAgain);
    assert!(!t.scheduled);
    t.scheduled = true;
    assert_eq!(dpc_after_pending(&mut t, &mut budget), DpcRunStep::Requeue);
    t.queue_dpc();
    assert_eq!(t.ref_count, 2);
    assert!(!t.dpc_finish());
}

#[test]
fn dpc_run_time_budget() {
    let mut cfg = TaskBudgetConfig::new();
    set_task_budget(&mut cfg, TaskBudget::TimeUs(100));
    let budget = dpc_run_budget(&mut cfg, &metrics(0, 0), 1_000, 10_000_000);
    assert_eq!((budget.start_ticks, budget.budget_ticks), (1_000, 1_000));
    assert_eq!(dpc_after_clock(&budget, 1_500), DpcRunStep::PollAgain);
    assert_eq!(dpc_after_clock(&budget, 2_000), DpcRunStep::Requeue);
    // a counter that went backwards reads as a huge elapsed time
    assert_eq!(dpc_after_clock(&budget, 10), DpcRunStep::Requeue);
    let mut adaptive = TaskBudgetConfig::new();
    set_task_budget(&mut adaptive, TaskBudget::Adaptive { min_polls: 16, max_polls: 128 });
    let b = dpc_run_budget(&mut adaptive, &metrics(0, 10), 0, 1);
    assert_eq!(b.polls_left, 128);
    assert_eq!(adaptive.last_enqueued, 10);
}

#[test]
fn work_item_cancel_schedules_a_run() {
    let mut tracker = TaskTracker::new();
    let mut task = WorkItemTask::allocate();
    task.has_device = true;
    task.has_tracker = true;
    assert_eq!(task.cancel(&mut tracker), Some(WorkItemSchedule::AllocateWorkItem));
    assert!(task.scheduled);
    assert!(task.cancel_requested);
    assert_eq!(tracker.pending, 1);
    assert_eq!(task.schedule_allocated(&mut tracker, true), STATUS_SUCCESS);
    assert_eq!(task.work_item_begin(&mut tracker), WorkItemStep::DropFuture);
}

#[test]
fn spawned_tasks_carry_the_configured_tag() {
    let mut cfg = TaskBudgetConfig::new();
    let before = spawn_dpc_task_cancellable(&cfg, true).ok().unwrap();
    set_task_alloc_tag(&mut cfg, 0x4b434f4d);
    let after = spawn_dpc_task_cancellable(&cfg, true).ok().unwrap();
    assert_eq!(before.task_state().alloc_tag, DEFAULT_TASK_TAG);
    assert_eq!(after.task_state().alloc_tag, 0x4b434f4d);
    let mut task = after.into_task();
    assert_eq!(task.release(), ReleaseOutcome::Alive);
    assert_eq!(task.release(), ReleaseOutcome::DropAndFree);
    assert_eq!(task.alloc_tag, 0x4b434f4d);
}

#[test]
fn cancellation_is_acknowledged_once() {
    let mut t = DpcTask::allocate(DEFAULT_TASK_TAG);
    t.cancel();
    assert!(take_cancellation_request(2, &mut t, true));
    for _ in 0..3 {
        assert!(!take_cancellation_request(2, &mut t, true));
        assert!(is_cancellation_requested(2, Some(&t)));
    }
}
