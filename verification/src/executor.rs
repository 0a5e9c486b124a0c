//! Scheduling decisions of the DPC and work-item executors: poll budgets,
//! the per-task scheduled/running/completed/cancel flags, trackers that let a
//! driver drain outstanding work, and the kernel timer future.

use vstd::prelude::*;

use crate::async_com_metrics::AsyncComMetrics;
use crate::iunknown::{
    NTSTATUS, STATUS_INSUFFICIENT_RESOURCES, STATUS_INVALID_PARAMETER, STATUS_NOT_SUPPORTED,
    STATUS_SUCCESS,
};
use crate::refcount::{self, MAX_REFCOUNT};

verus! {

pub const DEFAULT_TASK_BUDGET_POLLS: u32 = 64;
pub const DEFAULT_TASK_BUDGET_TIME_US: u64 = 200;
pub const DEFAULT_TASK_BUDGET_ADAPTIVE_MIN: u32 = 16;
pub const DEFAULT_TASK_BUDGET_ADAPTIVE_MAX: u32 = 128;
pub const DEFAULT_TASK_BUDGET_ADAPTIVE_LOW_PCT: u32 = 5;
pub const DEFAULT_TASK_BUDGET_ADAPTIVE_HIGH_PCT: u32 = 50;
pub const TASK_BUDGET_MODE_POLLS: u32 = 0;
pub const TASK_BUDGET_MODE_TIME_US: u32 = 1;
pub const TASK_BUDGET_MODE_ADAPTIVE: u32 = 2;
/// In time mode the clock is read on every eighth wake.
pub const TASK_BUDGET_TIME_CHECK_INTERVAL: u32 = 8;
/// The pool tag `b"kcom"` read as a little-endian `u32`.
pub const DEFAULT_TASK_TAG: u32 = 1836016491;
/// The pool tag of work-item tasks, `b"kcow"`.
pub const WORK_ITEM_TASK_TAG: u32 = 2003788651;
/// The pool tag of kernel timers, `b"irnt"`.
pub const KERNEL_TIMER_TAG: u32 = 1953395305;

pub const MAX_PROC_PER_GROUP: usize = 64;
pub const MAX_GROUP_COUNT: usize = 64;

/// How much work one DPC run may do before it yields the processor.
#[derive(Clone, Copy, Debug)]
pub enum TaskBudget {
    Polls(u32),
    TimeUs(u64),
    Adaptive { min_polls: u32, max_polls: u32 },
}

/// The executor's budget settings, and the metric readings the adaptive
/// budget last saw.
#[derive(Clone, Copy, Debug)]
pub struct TaskBudgetConfig {
    pub mode: u32,
    pub polls: u32,
    pub time_us: u64,
    pub adaptive_min: u32,
    pub adaptive_max: u32,
    pub low_pct: u32,
    pub high_pct: u32,
    pub last_skipped: u64,
    pub last_enqueued: u64,
    pub alloc_tag: u32,
}

pub open spec fn min_u32(a: u32, b: u32) -> u32 {
    if a <= b {
        a
    } else {
        b
    }
}

pub open spec fn max_u32(a: u32, b: u32) -> u32 {
    if a >= b {
        a
    } else {
        b
    }
}

pub open spec fn sat_sub_u64(a: u64, b: u64) -> u64 {
    if a >= b {
        (a - b) as u64
    } else {
        0
    }
}

impl TaskBudgetConfig {
    /// The defaults: a budget of 64 polls, time budget 200us, adaptive range
    /// 16..=128 between 5% and 50% skipped DPCs, tag `kcom`.
    pub fn new() -> (c: Self)
        ensures
            c.mode == TASK_BUDGET_MODE_POLLS,
            c.polls == DEFAULT_TASK_BUDGET_POLLS,
            c.time_us == DEFAULT_TASK_BUDGET_TIME_US,
            c.adaptive_min == DEFAULT_TASK_BUDGET_ADAPTIVE_MIN,
            c.adaptive_max == DEFAULT_TASK_BUDGET_ADAPTIVE_MAX,
            c.low_pct == DEFAULT_TASK_BUDGET_ADAPTIVE_LOW_PCT,
            c.high_pct == DEFAULT_TASK_BUDGET_ADAPTIVE_HIGH_PCT,
            c.last_skipped == 0,
            c.last_enqueued == 0,
            c.alloc_tag == DEFAULT_TASK_TAG,
    {
        TaskBudgetConfig {
            mode: TASK_BUDGET_MODE_POLLS,
            polls: DEFAULT_TASK_BUDGET_POLLS,
            time_us: DEFAULT_TASK_BUDGET_TIME_US,
            adaptive_min: DEFAULT_TASK_BUDGET_ADAPTIVE_MIN,
            adaptive_max: DEFAULT_TASK_BUDGET_ADAPTIVE_MAX,
            low_pct: DEFAULT_TASK_BUDGET_ADAPTIVE_LOW_PCT,
            high_pct: DEFAULT_TASK_BUDGET_ADAPTIVE_HIGH_PCT,
            last_skipped: 0,
            last_enqueued: 0,
            alloc_tag: DEFAULT_TASK_TAG,
        }
    }
}

/// Configures the DPC executor budget. `Polls(n)` polls at most `n` more
/// times per DPC run, `TimeUs(us)` bounds the run's time, `Adaptive` varies
/// the poll budget between the two bounds (taken in either order).
pub fn set_task_budget(cfg: &mut TaskBudgetConfig, budget: TaskBudget)
    ensures
        match budget {
            TaskBudget::Polls(p) => *final(cfg) == (TaskBudgetConfig {
                polls: p,
                mode: TASK_BUDGET_MODE_POLLS,
                ..*old(cfg)
            }),
            TaskBudget::TimeUs(us) => *final(cfg) == (TaskBudgetConfig {
                time_us: us,
                mode: TASK_BUDGET_MODE_TIME_US,
                ..*old(cfg)
            }),
            TaskBudget::Adaptive { min_polls, max_polls } => *final(cfg) == (TaskBudgetConfig {
                adaptive_min: min_u32(min_polls, max_polls),
                adaptive_max: max_u32(max_polls, min_polls),
                mode: TASK_BUDGET_MODE_ADAPTIVE,
                ..*old(cfg)
            }),
        },
{
    match budget {
        TaskBudget::Polls(polls) => {
            cfg.polls = polls;
            cfg.mode = TASK_BUDGET_MODE_POLLS;
        },
        TaskBudget::TimeUs(us) => {
            cfg.time_us = us;
            cfg.mode = TASK_BUDGET_MODE_TIME_US;
        },
        TaskBudget::Adaptive { min_polls, max_polls } => {
            let min = if min_polls <= max_polls {
                min_polls
            } else {
                max_polls
            };
            let max = if max_polls >= min_polls {
                max_polls
            } else {
                min_polls
            };
            cfg.adaptive_min = min;
            cfg.adaptive_max = max;
            cfg.mode = TASK_BUDGET_MODE_ADAPTIVE;
        },
    }
}

/// Sets the adaptive thresholds (percent of skipped DPCs): at or below `low`
/// the maximum budget is used, at or above `high` the minimum. Both are
/// clamped to 100 and `high` is raised to at least `low`.
pub fn set_task_budget_adaptive_thresholds(cfg: &mut TaskBudgetConfig, low_pct: u32, high_pct: u32)
    ensures
        *final(cfg) == (TaskBudgetConfig {
            low_pct: min_u32(low_pct, 100),
            high_pct: min_u32(max_u32(high_pct, min_u32(low_pct, 100)), 100),
            ..*old(cfg)
        }),
{
    let low = if low_pct <= 100 {
        low_pct
    } else {
        100
    };
    let high0 = if high_pct >= low {
        high_pct
    } else {
        low
    };
    let high = if high0 <= 100 {
        high0
    } else {
        100
    };
    cfg.low_pct = low;
    cfg.high_pct = high;
}

/// Overrides the pool tag used by DPC task allocations.
pub fn set_task_alloc_tag(cfg: &mut TaskBudgetConfig, tag: u32)
    ensures
        *final(cfg) == (TaskBudgetConfig { alloc_tag: tag, ..*old(cfg) }),
{
    cfg.alloc_tag = tag;
}

/// Percentage of DPC requests skipped since the last reading, saturated at
/// `u32::MAX`; zero when nothing was enqueued.
pub open spec fn spec_skip_ratio(delta_skipped: u64, delta_enqueued: u64) -> u32 {
    if delta_enqueued == 0 {
        0
    } else {
        let prod: int = if delta_skipped * 100 > u64::MAX {
            u64::MAX as int
        } else {
            delta_skipped * 100
        };
        let pct = prod / (delta_enqueued as int);
        if pct > u32::MAX {
            u32::MAX
        } else {
            pct as u32
        }
    }
}

/// The adaptive poll budget for given bounds, thresholds and skip ratio: the
/// maximum at or below the low threshold, the minimum at or above the high
/// one, and linear interpolation (rounded towards the maximum) in between.
pub open spec fn spec_adaptive_budget(min: u32, max_raw: u32, low_raw: u32, high_raw: u32, ratio: u32) -> u32 {
    let max = max_u32(max_raw, min);
    let low = min_u32(low_raw, 100);
    let high = min_u32(max_u32(high_raw, low), 100);
    if max == min {
        min
    } else if ratio <= low {
        max
    } else if ratio >= high {
        min
    } else {
        let span = (high - low) as int;
        let pos = (ratio - low) as int;
        let range = (max - min) as int;
        let prod: int = if range * pos > u32::MAX {
            u32::MAX as int
        } else {
            range * pos
        };
        (min + (range - prod / span)) as u32
    }
}

fn sat_mul_u64(a: u64, b: u64) -> (r: u64)
    ensures
        r == (if a * b > u64::MAX {
            u64::MAX as int
        } else {
            a * b
        }),
{
    match a.checked_mul(b) {
        Some(v) => v,
        None => u64::MAX,
    }
}

fn sat_mul_u32(a: u32, b: u32) -> (r: u32)
    ensures
        r == (if a * b > u32::MAX {
            u32::MAX as int
        } else {
            a * b
        }),
{
    match a.checked_mul(b) {
        Some(v) => v,
        None => u32::MAX,
    }
}

/// Computes the adaptive poll budget from the DPC pressure observed since the
/// previous call, and records the current metric readings.
pub fn adaptive_poll_budget(cfg: &mut TaskBudgetConfig, metrics: &AsyncComMetrics) -> (r: u32)
    ensures
        r == spec_adaptive_budget(
            old(cfg).adaptive_min,
            old(cfg).adaptive_max,
            old(cfg).low_pct,
            old(cfg).high_pct,
            spec_skip_ratio(
                sat_sub_u64(metrics.dpc_skipped, old(cfg).last_skipped),
                sat_sub_u64(metrics.dpc_enqueued, old(cfg).last_enqueued),
            ),
        ),
        min_u32(old(cfg).adaptive_min, old(cfg).adaptive_max) <= r,
        r <= max_u32(old(cfg).adaptive_max, old(cfg).adaptive_min),
        max_u32(old(cfg).adaptive_max, old(cfg).adaptive_min) == old(cfg).adaptive_min ==> *final(
            cfg) == *old(cfg),
        max_u32(old(cfg).adaptive_max, old(cfg).adaptive_min) != old(cfg).adaptive_min ==> *final(
            cfg) == (TaskBudgetConfig {
            last_skipped: metrics.dpc_skipped,
            last_enqueued: metrics.dpc_enqueued,
            ..*old(cfg)
        }),
{
    let min = cfg.adaptive_min;
    let max = if cfg.adaptive_max >= min {
        cfg.adaptive_max
    } else {
        min
    };
    if max == min {
        return min;
    }
    let skipped = metrics.dpc_skipped;
    let enqueued = metrics.dpc_enqueued;
    let prev_skipped = cfg.last_skipped;
    let prev_enqueued = cfg.last_enqueued;
    cfg.last_skipped = skipped;
    cfg.last_enqueued = enqueued;
    let low = if cfg.low_pct <= 100 {
        cfg.low_pct
    } else {
        100
    };
    let high0 = if cfg.high_pct >= low {
        cfg.high_pct
    } else {
        low
    };
    let high = if high0 <= 100 {
        high0
    } else {
        100
    };
    let delta_skipped = skipped.saturating_sub(prev_skipped);
    let delta_enqueued = enqueued.saturating_sub(prev_enqueued);
    let ratio: u32 = if delta_enqueued == 0 {
        0
    } else {
        let percent = sat_mul_u64(delta_skipped, 100) / delta_enqueued;
        if percent > 0xFFFF_FFFFu64 {
            u32::MAX
        } else {
            percent as u32
        }
    };
    assert(ratio == spec_skip_ratio(delta_skipped, delta_enqueued));
    if ratio <= low {
        return max;
    }
    if ratio >= high {
        return min;
    }
    let span = high - low;
    let pos = ratio - low;
    let range = max - min;
    let prod = sat_mul_u32(range, pos);
    assert(prod / span <= range) by (nonlinear_arith)
        requires
            prod <= range * pos,
            pos < span,
            span > 0,
            range >= 0,
            pos >= 0,
    {
        assert(range * pos <= range * span);
        vstd::arithmetic::div_mod::lemma_div_is_ordered(prod as int, (range * span) as int, span as int);
        vstd::arithmetic::div_mod::lemma_div_by_multiple(range as int, span as int);
    }
    let scaled = range - prod / span;
    min + scaled
}

/// The adaptive budget never leaves `[min, max]`, is the maximum at or
/// below the low threshold and the minimum above it when at or above the high
/// threshold.
pub proof fn lemma_adaptive_budget_bounds(min: u32, max: u32, low: u32, high: u32, ratio: u32)
    requires
        min <= max,
        low <= high <= 100,
    ensures
        min <= spec_adaptive_budget(min, max, low, high, ratio) <= max,
        ratio <= low ==> spec_adaptive_budget(min, max, low, high, ratio) == max,
        ratio >= high && ratio > low ==> spec_adaptive_budget(min, max, low, high, ratio) == min,
{
    if max != min && low < ratio && ratio < high {
        let span = (high - low) as int;
        let pos = (ratio - low) as int;
        let range = (max - min) as int;
        let prod: int = if range * pos > u32::MAX {
            u32::MAX as int
        } else {
            range * pos
        };
        assert(0 <= prod / span <= range) by (nonlinear_arith)
            requires
                0 <= prod <= range * pos,
                0 < pos < span,
                range >= 0,
        {
            assert(range * pos <= range * span);
            vstd::arithmetic::div_mod::lemma_div_is_ordered(prod, range * span, span);
            vstd::arithmetic::div_mod::lemma_div_by_multiple(range, span);
            vstd::arithmetic::div_mod::lemma_div_pos_is_pos(prod, span);
        }
    }
}

/// The adaptive budget never grows with the skip ratio: more skipped DPCs
/// never give a larger poll budget.
pub proof fn lemma_adaptive_budget_monotone(min: u32, max: u32, low: u32, high: u32, r1: u32, r2: u32)
    requires
        min <= max,
        low <= high <= 100,
        r1 <= r2,
    ensures
        spec_adaptive_budget(min, max, low, high, r2) <= spec_adaptive_budget(min, max, low, high, r1),
{
    lemma_adaptive_budget_bounds(min, max, low, high, r1);
    lemma_adaptive_budget_bounds(min, max, low, high, r2);
    if max != min && low < r1 && r2 < high {
        let span = (high - low) as int;
        let range = (max - min) as int;
        let pos1 = (r1 - low) as int;
        let pos2 = (r2 - low) as int;
        let p1: int = if range * pos1 > u32::MAX {
            u32::MAX as int
        } else {
            range * pos1
        };
        let p2: int = if range * pos2 > u32::MAX {
            u32::MAX as int
        } else {
            range * pos2
        };
        assert(range * pos1 <= range * pos2) by (nonlinear_arith)
            requires
                0 <= pos1 <= pos2,
                range >= 0,
        ;
        assert(p1 <= p2);
        assert(p1 >= 0) by (nonlinear_arith)
            requires
                p1 == (if range * pos1 > u32::MAX {
                    u32::MAX as int
                } else {
                    range * pos1
                }),
                range >= 0,
                pos1 >= 0,
        ;
        vstd::arithmetic::div_mod::lemma_div_is_ordered(p1, p2, span);
        assert(0 <= p1 / span <= p2 / span <= range) by (nonlinear_arith)
            requires
                0 <= p1 <= p2,
                p2 <= range * pos2,
                0 < pos2 < span,
                range >= 0,
                p1 / span <= p2 / span,
        {
            assert(range * pos2 <= range * span);
            vstd::arithmetic::div_mod::lemma_div_is_ordered(p2, range * span, span);
            vstd::arithmetic::div_mod::lemma_div_by_multiple(range, span);
            vstd::arithmetic::div_mod::lemma_div_pos_is_pos(p1, span);
        }
        assert(spec_adaptive_budget(min, max, low, high, r1) == (min + (range - p1 / span)) as u32);
        assert(spec_adaptive_budget(min, max, low, high, r2) == (min + (range - p2 / span)) as u32);
    }
}

/// The processor slot of a (group, number) pair, or `None` outside the
/// supported 64 groups of 64 processors.
pub fn current_cpu_index(group: u16, number: u8) -> (r: Option<usize>)
    ensures
        (group as int) < MAX_GROUP_COUNT && (number as int) < MAX_PROC_PER_GROUP ==> r == Some(
            (group * MAX_PROC_PER_GROUP + number) as usize,
        ),
        !((group as int) < MAX_GROUP_COUNT && (number as int) < MAX_PROC_PER_GROUP) ==> r is None,
{
    let group = group as usize;
    let number = number as usize;
    if group >= MAX_GROUP_COUNT || number >= MAX_PROC_PER_GROUP {
        return None;
    }
    Some(group * MAX_PROC_PER_GROUP + number)
}

/// Ticks allowed by a time budget of `budget_us` microseconds at `freq_raw`
/// ticks per second (a non-positive frequency counts as 1), saturating.
pub fn time_budget_ticks(budget_us: u64, freq_raw: i64) -> (r: u64)
    ensures
        ({
            let freq: int = if freq_raw <= 0 {
                1
            } else {
                freq_raw as int
            };
            let prod: int = if budget_us * freq > u64::MAX {
                u64::MAX as int
            } else {
                budget_us * freq
            };
            r == prod / 1_000_000
        }),
{
    let freq: u64 = if freq_raw <= 0 {
        1
    } else {
        freq_raw as u64
    };
    sat_mul_u64(budget_us, freq) / 1_000_000
}

/// What a DPC run's budget says after a wake.
#[derive(Clone, Copy, Debug, PartialEq, Eq, Structural)]
pub enum BudgetStep {
    /// Poll again.
    Continue,
    /// The budget is spent: requeue the DPC and stop.
    Exhausted,
    /// Read the performance counter and ask `clock_exhausted`.
    ReadClock,
}

/// The budget of one DPC run.
#[derive(Clone, Copy, Debug)]
pub struct DpcBudget {
    pub mode: u32,
    pub polls_left: u32,
    pub counter: u32,
    pub start_ticks: u64,
    pub budget_ticks: u64,
}

/// Whether a budget counts polls (poll and adaptive modes).
pub open spec fn counts_polls(b: DpcBudget) -> bool {
    b.mode == TASK_BUDGET_MODE_POLLS || b.mode == TASK_BUDGET_MODE_ADAPTIVE
}

/// The transition of `DpcBudget::consume`.
pub open spec fn spec_consume(b: DpcBudget) -> (DpcBudget, BudgetStep) {
    if counts_polls(b) {
        if b.polls_left <= 1 {
            (b, BudgetStep::Exhausted)
        } else {
            (DpcBudget { polls_left: (b.polls_left - 1) as u32, ..b }, BudgetStep::Continue)
        }
    } else {
        let c = if b.counter == u32::MAX {
            0u32
        } else {
            (b.counter + 1) as u32
        };
        (DpcBudget { counter: c, ..b }, if c % TASK_BUDGET_TIME_CHECK_INTERVAL == 0 {
            BudgetStep::ReadClock
        } else {
            BudgetStep::Continue
        })
    }
}

/// The polls a DPC run may make with this budget: `polls_left`, and at
/// least the one every run makes.
pub open spec fn run_polls_allowed(b: DpcBudget) -> nat {
    if b.polls_left == 0 {
        1
    } else {
        b.polls_left as nat
    }
}

/// Whether `k` wakes in a row are each granted another poll.
pub open spec fn grants(b: DpcBudget, k: nat) -> bool
    decreases k,
{
    if k == 0 {
        true
    } else {
        spec_consume(b).1 == BudgetStep::Continue && grants(spec_consume(b).0, (k - 1) as nat)
    }
}

/// Poll budget: with `Polls(n)` (or an adaptive budget of `n`), one DPC run
/// polls at most `n` times (once when `n` is 0): after the first poll at
/// most `n - 1` wakes are granted another poll.
pub proof fn lemma_polls_per_run(b: DpcBudget, k: nat)
    requires
        counts_polls(b),
        grants(b, k),
    ensures
        1 + k <= run_polls_allowed(b),
    decreases k,
{
    if k > 0 {
        lemma_polls_per_run(spec_consume(b).0, (k - 1) as nat);
    }
}

impl DpcBudget {
    pub fn new(mode: u32, polls: u32, start_ticks: u64, budget_ticks: u64) -> (b: Self)
        ensures
            b == (DpcBudget { mode, polls_left: polls, counter: 0, start_ticks, budget_ticks }),
    {
        DpcBudget { mode, polls_left: polls, counter: 0, start_ticks, budget_ticks }
    }

    /// Poll and adaptive modes spend one poll per wake: `polls_left` counts
    /// the run's polls, the first included, so a wake is granted another poll
    /// only while more than one is left. Time mode asks for the clock on every
    /// eighth wake.
    pub fn consume(&mut self) -> (r: BudgetStep)
        ensures
            (*final(self), r) == spec_consume(*old(self)),
    {
        if self.mode == TASK_BUDGET_MODE_POLLS || self.mode == TASK_BUDGET_MODE_ADAPTIVE {
            if self.polls_left <= 1 {
                BudgetStep::Exhausted
            } else {
                self.polls_left = self.polls_left - 1;
                BudgetStep::Continue
            }
        } else {
            self.counter = self.counter.wrapping_add(1);
            if self.counter % TASK_BUDGET_TIME_CHECK_INTERVAL == 0 {
                BudgetStep::ReadClock
            } else {
                BudgetStep::Continue
            }
        }
    }

    /// Whether the time budget is spent at counter reading `now`.
    pub fn clock_exhausted(&self, now: u64) -> (r: bool)
        ensures
            r == ((if now >= self.start_ticks {
                now - self.start_ticks
            } else {
                now - self.start_ticks + 0x1_0000_0000_0000_0000
            }) >= self.budget_ticks),
    {
        now.wrapping_sub(self.start_ticks) >= self.budget_ticks
    }
}

/// What dropping a reference did to a task.
#[derive(Clone, Copy, Debug, PartialEq, Eq, Structural)]
pub enum ReleaseOutcome {
    /// References remain.
    Alive,
    /// The last reference went away before completion: drop the future, free
    /// the task and tell its tracker.
    DropAndFree,
    /// The last reference went away after completion: free the task and tell
    /// its tracker.
    Free,
}

/// What a schedule request does.
#[derive(Clone, Copy, Debug, PartialEq, Eq, Structural)]
pub enum ScheduleAction {
    /// The task has completed.
    Ignored,
    /// A DPC is already pending, or the task is running and will see the
    /// request: counted as skipped.
    Skipped,
    /// A reference was taken for the DPC: insert it (and call
    /// `insert_failed` if the insertion is refused).
    InsertDpc,
}

/// The flags and reference count of a DPC-executor task.
#[derive(Clone, Copy, Debug)]
pub struct DpcTask {
    pub ref_count: u32,
    pub scheduled: bool,
    pub running: bool,
    pub completed: bool,
    /// 0: none, 1: requested, 2: requested and seen by the future.
    pub cancel_requested: u32,
    pub freed: bool,
    /// The pool tag the task was allocated with; it is freed with the same.
    pub alloc_tag: u32,
}

pub open spec fn spec_release(t: DpcTask) -> (DpcTask, ReleaseOutcome) {
    let c = (t.ref_count - 1) as u32;
    if c != 0 {
        (DpcTask { ref_count: c, ..t }, ReleaseOutcome::Alive)
    } else if !t.completed {
        (DpcTask { ref_count: 0, completed: true, freed: true, ..t }, ReleaseOutcome::DropAndFree)
    } else {
        (DpcTask { ref_count: 0, freed: true, ..t }, ReleaseOutcome::Free)
    }
}

/// The transition of `take_cancellation_request`.
pub open spec fn spec_take_cancellation(t: DpcTask) -> (DpcTask, bool) {
    if t.cancel_requested == 1 {
        (DpcTask { cancel_requested: 2, ..t }, true)
    } else {
        (t, false)
    }
}

/// The transition of `cancel`: the first request marks the task and
/// schedules it.
pub open spec fn spec_cancel(t: DpcTask) -> (DpcTask, Option<ScheduleAction>) {
    if t.cancel_requested == 0 {
        let (t1, a) = spec_schedule(DpcTask { cancel_requested: 1, ..t });
        (t1, Some(a))
    } else {
        (t, None)
    }
}

pub open spec fn spec_schedule(t: DpcTask) -> (DpcTask, ScheduleAction) {
    if t.completed {
        (t, ScheduleAction::Ignored)
    } else if t.scheduled {
        (t, ScheduleAction::Skipped)
    } else if t.running {
        (DpcTask { scheduled: true, ..t }, ScheduleAction::Skipped)
    } else {
        (DpcTask { scheduled: true, ref_count: (t.ref_count + 1) as u32, ..t }, ScheduleAction::InsertDpc)
    }
}

impl DpcTask {
    /// A freshly allocated task, from the pool with tag `alloc_tag`: one
    /// reference, held by its spawner.
    pub fn allocate(alloc_tag: u32) -> (t: Self)
        ensures
            t == (DpcTask {
                ref_count: 1,
                scheduled: false,
                running: false,
                completed: false,
                cancel_requested: 0,
                freed: false,
                alloc_tag,
            }),
    {
        DpcTask {
            ref_count: 1,
            scheduled: false,
            running: false,
            completed: false,
            cancel_requested: 0,
            freed: false,
            alloc_tag,
        }
    }

    pub fn add_ref(&mut self)
        requires
            old(self).ref_count < MAX_REFCOUNT,
        ensures
            *final(self) == (DpcTask { ref_count: (old(self).ref_count + 1) as u32, ..*old(self) }),
    {
        refcount::add(&mut self.ref_count);
    }

    /// Drops a reference; the last one frees the task, dropping the future
    /// first if it never completed.
    pub fn release(&mut self) -> (r: ReleaseOutcome)
        requires
            old(self).ref_count > 0,
        ensures
            (*final(self), r) == spec_release(*old(self)),
    {
        let count = refcount::sub(&mut self.ref_count);
        if count != 0 {
            return ReleaseOutcome::Alive;
        }
        self.freed = true;
        if !self.completed {
            self.completed = true;
            ReleaseOutcome::DropAndFree
        } else {
            ReleaseOutcome::Free
        }
    }

    /// Asks for the task to be polled: at most one DPC is pending at a time,
    /// and a running task only records the request.
    pub fn schedule(&mut self) -> (r: ScheduleAction)
        requires
            old(self).ref_count < MAX_REFCOUNT,
        ensures
            (*final(self), r) == spec_schedule(*old(self)),
    {
        if self.completed {
            return ScheduleAction::Ignored;
        }
        if self.scheduled {
            return ScheduleAction::Skipped;
        }
        self.scheduled = true;
        if self.running {
            return ScheduleAction::Skipped;
        }
        self.add_ref();
        ScheduleAction::InsertDpc
    }

    /// Queues the DPC unconditionally (budget exhausted or late wake): takes
    /// the reference the DPC will drop.
    pub fn queue_dpc(&mut self)
        requires
            old(self).ref_count < MAX_REFCOUNT,
        ensures
            *final(self) == (DpcTask { ref_count: (old(self).ref_count + 1) as u32, ..*old(self) }),
    {
        self.add_ref();
    }

    /// The DPC was already in the queue: give back the reference taken for it.
    pub fn insert_failed(&mut self) -> (r: ReleaseOutcome)
        requires
            old(self).ref_count > 0,
        ensures
            (*final(self), r) == spec_release(*old(self)),
    {
        self.release()
    }

    /// Requests cancellation: the first request marks the task and schedules
    /// it so the future can observe it; later requests do nothing.
    pub fn cancel(&mut self) -> (r: Option<ScheduleAction>)
        requires
            old(self).ref_count < MAX_REFCOUNT,
        ensures
            (*final(self), r) == spec_cancel(*old(self)),
    {
        if self.cancel_requested == 0 {
            self.cancel_requested = 1;
            Some(self.schedule())
        } else {
            None
        }
    }

    /// True while a cancellation has been requested for the task.
    pub fn is_cancellation_requested(&self) -> (r: bool)
        ensures
            r == (self.cancel_requested != 0),
    {
        self.cancel_requested != 0
    }

    /// True only once per cancellation request, which it then acknowledges.
    pub fn take_cancellation_request(&mut self) -> (r: bool)
        ensures
            (*final(self), r) == spec_take_cancellation(*old(self)),
    {
        if self.cancel_requested == 1 {
            self.cancel_requested = 2;
            true
        } else {
            false
        }
    }

    /// Entry of the DPC routine: the pending request is consumed and the task
    /// marked running. Returns false when the task has already completed, in
    /// which case it is no longer running and the DPC only releases it.
    pub fn dpc_begin(&mut self) -> (poll: bool)
        ensures
            poll == !old(self).completed,
            *final(self) == (DpcTask { scheduled: false, running: poll, ..*old(self) }),
    {
        self.scheduled = false;
        self.running = true;
        if self.completed {
            self.running = false;
            false
        } else {
            true
        }
    }

    /// The future returned ready: the task is completed (the caller drops
    /// the future and releases the DPC's reference).
    pub fn dpc_ready(&mut self)
        ensures
            *final(self) == (DpcTask { completed: true, ..*old(self) }),
    {
        self.completed = true;
    }

    /// The future returned pending: true (and the request consumed) if a wake
    /// arrived during the poll, false if the run should stop.
    pub fn dpc_woken(&mut self) -> (woken: bool)
        ensures
            woken == old(self).scheduled,
            *final(self) == (DpcTask { scheduled: false, ..*old(self) }),
    {
        let woken = self.scheduled;
        self.scheduled = false;
        woken
    }

    /// End of a DPC run that did not complete: the task stops running; true
    /// when a wake arrived after the last poll, in which case the DPC must be
    /// queued again.
    pub fn dpc_finish(&mut self) -> (late_wake: bool)
        ensures
            late_wake == old(self).scheduled,
            *final(self) == (DpcTask { scheduled: false, running: false, ..*old(self) }),
    {
        let late = self.scheduled;
        self.scheduled = false;
        self.running = false;
        late
    }
}

/// What a DPC run does after a poll that returned pending.
#[derive(Clone, Copy, Debug, PartialEq, Eq, Structural)]
pub enum DpcRunStep {
    /// A wake arrived and the budget allows it: poll again.
    PollAgain,
    /// Read the performance counter and decide with `dpc_after_clock`.
    ReadClock,
    /// The budget is spent: `queue_dpc`, insert the DPC, and end the run.
    Requeue,
    /// No wake arrived: end the run.
    Stop,
}

/// After a pending poll: without a wake the run stops; otherwise the wake is
/// consumed and the budget decides whether to poll again.
pub fn dpc_after_pending(task: &mut DpcTask, budget: &mut DpcBudget) -> (r: DpcRunStep)
    ensures
        !old(task).scheduled ==> r == DpcRunStep::Stop && *final(task) == *old(task) && *final(
            budget) == *old(budget),
        old(task).scheduled ==> *final(task) == (DpcTask { scheduled: false, ..*old(task) })
            && *final(budget) == spec_consume(*old(budget)).0 && r == match spec_consume(
            *old(budget),
        ).1 {
            BudgetStep::Continue => DpcRunStep::PollAgain,
            BudgetStep::Exhausted => DpcRunStep::Requeue,
            BudgetStep::ReadClock => DpcRunStep::ReadClock,
        },
{
    if !task.dpc_woken() {
        return DpcRunStep::Stop;
    }
    match budget.consume() {
        BudgetStep::Continue => DpcRunStep::PollAgain,
        BudgetStep::Exhausted => DpcRunStep::Requeue,
        BudgetStep::ReadClock => DpcRunStep::ReadClock,
    }
}

/// After reading the counter at `now`: requeue when the time budget is
/// spent, else poll again.
pub fn dpc_after_clock(budget: &DpcBudget, now: u64) -> (r: DpcRunStep)
    ensures
        r == (if ((if now >= budget.start_ticks {
            now - budget.start_ticks
        } else {
            now - budget.start_ticks + 0x1_0000_0000_0000_0000
        }) >= budget.budget_ticks) {
            DpcRunStep::Requeue
        } else {
            DpcRunStep::PollAgain
        }),
{
    if budget.clock_exhausted(now) {
        DpcRunStep::Requeue
    } else {
        DpcRunStep::PollAgain
    }
}

/// The budget a DPC run starts with: the adaptive budget in adaptive mode
/// (which records the metric readings), the configured poll count
/// otherwise, and in time mode the ticks allowed at `freq_raw` ticks per
/// second from `start_ticks`.
pub fn dpc_run_budget(cfg: &mut TaskBudgetConfig, metrics: &AsyncComMetrics, start_ticks: u64, freq_raw: i64) -> (b: DpcBudget)
    ensures
        b.mode == old(cfg).mode,
        b.counter == 0,
        old(cfg).mode == TASK_BUDGET_MODE_ADAPTIVE ==> b.polls_left == spec_adaptive_budget(
            old(cfg).adaptive_min,
            old(cfg).adaptive_max,
            old(cfg).low_pct,
            old(cfg).high_pct,
            spec_skip_ratio(
                sat_sub_u64(metrics.dpc_skipped, old(cfg).last_skipped),
                sat_sub_u64(metrics.dpc_enqueued, old(cfg).last_enqueued),
            ),
        ) && (max_u32(old(cfg).adaptive_max, old(cfg).adaptive_min) != old(cfg).adaptive_min
            ==> *final(cfg) == (TaskBudgetConfig {
            last_skipped: metrics.dpc_skipped,
            last_enqueued: metrics.dpc_enqueued,
            ..*old(cfg)
        })) && (max_u32(old(cfg).adaptive_max, old(cfg).adaptive_min) == old(cfg).adaptive_min
            ==> *final(cfg) == *old(cfg)),
        old(cfg).mode != TASK_BUDGET_MODE_ADAPTIVE ==> b.polls_left == old(cfg).polls && *final(cfg)
            == *old(cfg),
        old(cfg).mode == TASK_BUDGET_MODE_TIME_US ==> b.start_ticks == start_ticks && b.budget_ticks
            == ({
            let freq: int = if freq_raw <= 0 {
                1
            } else {
                freq_raw as int
            };
            let prod: int = if old(cfg).time_us * freq > u64::MAX {
                u64::MAX as int
            } else {
                old(cfg).time_us * freq
            };
            prod / 1_000_000
        }),
        old(cfg).mode != TASK_BUDGET_MODE_TIME_US ==> b.start_ticks == 0 && b.budget_ticks == 0,
{
    let mode = cfg.mode;
    let polls = if mode == TASK_BUDGET_MODE_ADAPTIVE {
        adaptive_poll_budget(cfg, metrics)
    } else {
        cfg.polls
    };
    if mode == TASK_BUDGET_MODE_TIME_US {
        let ticks = time_budget_ticks(cfg.time_us, freq_raw);
        DpcBudget::new(mode, polls, start_ticks, ticks)
    } else {
        DpcBudget::new(mode, polls, 0, 0)
    }
}

/// Cooperative cancellation: a task sees a cancellation request exactly
/// once; requesting again changes nothing, and after the request has been
/// seen it stays requested.
pub proof fn lemma_cancellation_seen_once(t: DpcTask)
    requires
        t.cancel_requested == 0,
        t.ref_count < MAX_REFCOUNT,
    ensures
        ({
            let t1 = spec_cancel(t).0;
            let (t2, first) = spec_take_cancellation(t1);
            let (t3, second) = spec_take_cancellation(t2);
            &&& first
            &&& !second
            &&& t3 == t2
            &&& spec_cancel(t1) == (t1, None::<ScheduleAction>)
            &&& spec_cancel(t2) == (t2, None::<ScheduleAction>)
            &&& t2.cancel_requested != 0
        }),
{
}

/// Acknowledgement happens once: taking a request that was seen already
/// gives false and changes nothing, so every later take gives false, while
/// the request stays visible to `is_cancellation_requested`.
pub proof fn lemma_take_cancellation_once(t: DpcTask)
    requires
        t.cancel_requested != 0,
    ensures
        ({
            let (t1, first) = spec_take_cancellation(t);
            &&& first == (t.cancel_requested == 1)
            &&& t1.cancel_requested != 0
            &&& spec_take_cancellation(t1) == (t1, false)
        }),
{
}

/// A task is freed with the tag it was allocated with: no transition of a
/// task changes its tag, so a tag set by `set_task_alloc_tag` afterwards only
/// reaches tasks spawned later.
pub proof fn lemma_task_tag_kept(t: DpcTask)
    ensures
        t.ref_count > 0 ==> spec_release(t).0.alloc_tag == t.alloc_tag,
        spec_schedule(t).0.alloc_tag == t.alloc_tag,
        spec_cancel(t).0.alloc_tag == t.alloc_tag,
        spec_take_cancellation(t).0.alloc_tag == t.alloc_tag,
{
}

/// A completed task is never scheduled again, and while a DPC is pending a
/// second request neither takes a reference nor queues another DPC.
pub proof fn lemma_schedule_at_most_once(t: DpcTask)
    ensures
        t.completed ==> spec_schedule(t) == (t, ScheduleAction::Ignored),
        !t.completed && t.scheduled ==> spec_schedule(t) == (t, ScheduleAction::Skipped),
        !t.completed && !t.scheduled && !t.running && t.ref_count < MAX_REFCOUNT ==> {
            let (t1, a) = spec_schedule(t);
            &&& a == ScheduleAction::InsertDpc
            &&& spec_schedule(t1) == (t1, ScheduleAction::Skipped)
        },
{
}

/// Reference balance: the reference a schedule takes for its DPC is the one
/// a refused insertion gives back, leaving the task as it was apart from the
/// pending flag.
pub proof fn lemma_schedule_release_balance(t: DpcTask)
    requires
        !t.completed,
        !t.scheduled,
        !t.running,
        0 < t.ref_count < MAX_REFCOUNT,
    ensures
        ({
            let (t1, a) = spec_schedule(t);
            let (t2, r) = spec_release(t1);
            &&& a == ScheduleAction::InsertDpc
            &&& r == ReleaseOutcome::Alive
            &&& t2 == DpcTask { scheduled: true, ..t }
        }),
{
}

/// The last release frees a task exactly once, and drops its future exactly
/// when the future has not completed.
pub proof fn lemma_last_release_frees(t: DpcTask)
    requires
        t.ref_count == 1,
    ensures
        spec_release(t).0.freed,
        spec_release(t).0.ref_count == 0,
        spec_release(t).0.completed,
        (spec_release(t).1 == ReleaseOutcome::DropAndFree) == !t.completed,
{
}

/// Counts the tasks a driver must wait for before unload.
#[derive(Clone, Copy, Debug)]
pub struct TaskTracker {
    pub pending: u32,
    pub event_signaled: bool,
}

/// The work-item executor uses the same tracker.
pub type WorkItemTracker = TaskTracker;

pub open spec fn spec_tracker_begin(t: TaskTracker) -> TaskTracker {
    TaskTracker {
        pending: (t.pending + 1) as u32,
        event_signaled: if t.pending == 0 {
            false
        } else {
            t.event_signaled
        },
    }
}

pub open spec fn spec_tracker_complete(t: TaskTracker) -> TaskTracker {
    TaskTracker {
        pending: (t.pending - 1) as u32,
        event_signaled: if t.pending == 1 {
            true
        } else {
            t.event_signaled
        },
    }
}

impl TaskTracker {
    /// A tracker with nothing pending; its event starts signaled.
    pub fn new() -> (t: Self)
        ensures
            t.pending == 0,
            t.event_signaled,
    {
        TaskTracker { pending: 0, event_signaled: true }
    }

    /// One more outstanding task; the first one resets the event.
    pub fn begin(&mut self)
        requires
            old(self).pending < u32::MAX,
        ensures
            *final(self) == spec_tracker_begin(*old(self)),
    {
        let prev = self.pending;
        self.pending = self.pending + 1;
        if prev == 0 {
            self.event_signaled = false;
        }
    }

    /// One task done; the last one signals the event.
    pub fn complete(&mut self)
        requires
            old(self).pending > 0,
        ensures
            *final(self) == spec_tracker_complete(*old(self)),
    {
        let prev = self.pending;
        self.pending = self.pending - 1;
        if prev == 1 {
            self.event_signaled = true;
        }
    }

    /// Whether `drain` has to wait on the event: only while tasks are pending.
    pub fn drain(&self) -> (must_wait: bool)
        ensures
            must_wait == (self.pending != 0),
    {
        self.pending != 0
    }
}

/// Balance of a tracker: a task that begins and completes leaves the pending
/// count as it was, and once the count is back at zero the event is signaled
/// and `drain` need not wait; while a task is outstanding the event is reset.
pub proof fn lemma_tracker_balance(t: TaskTracker)
    requires
        t.pending < u32::MAX,
    ensures
        spec_tracker_complete(spec_tracker_begin(t)).pending == t.pending,
        t.pending == 0 ==> spec_tracker_complete(spec_tracker_begin(t)).event_signaled,
        t.pending == 0 ==> !spec_tracker_begin(t).event_signaled,
        spec_tracker_begin(t).pending != 0,
{
}

/// The tracker's event is signaled exactly while no task is pending: a
/// tracker in that state keeps it through `begin` and `complete`. Whatever
/// the state, `complete` takes exactly one task off the count, sets the
/// event when that task was the last one, and leaves the event alone while
/// other tasks are still pending, so `drain` keeps waiting for them.
pub proof fn lemma_tracker_event_iff_idle(t: TaskTracker)
    ensures
        t.event_signaled == (t.pending == 0) && t.pending < u32::MAX ==> spec_tracker_begin(
            t,
        ).event_signaled == (spec_tracker_begin(t).pending == 0),
        t.event_signaled == (t.pending == 0) && t.pending > 0 ==> spec_tracker_complete(
            t,
        ).event_signaled == (spec_tracker_complete(t).pending == 0),
        t.pending > 0 ==> spec_tracker_complete(t).pending + 1 == t.pending,
        t.pending == 1 ==> spec_tracker_complete(t).event_signaled,
        t.pending > 1 ==> spec_tracker_complete(t).event_signaled == t.event_signaled,
        t.pending == 0 && t.event_signaled ==> !spec_tracker_complete(
            spec_tracker_begin(spec_tracker_begin(t)),
        ).event_signaled,
{
}

/// The flags and reference count of a work-item (PASSIVE_LEVEL) task.
#[derive(Clone, Copy, Debug)]
pub struct WorkItemTask {
    pub ref_count: u32,
    pub scheduled: bool,
    pub completed: bool,
    pub cancel_requested: bool,
    pub has_device: bool,
    pub has_tracker: bool,
    pub has_work_item: bool,
}

/// The transition of `WorkItemTask::schedule_begin`.
pub open spec fn spec_schedule_begin(t: WorkItemTask, tr: TaskTracker) -> (WorkItemTask, TaskTracker, WorkItemSchedule) {
    if t.completed || t.scheduled {
        (t, tr, WorkItemSchedule::Done)
    } else if !t.has_device {
        (t, if t.has_tracker {
            spec_tracker_complete(spec_tracker_begin(tr))
        } else {
            tr
        }, WorkItemSchedule::NoDevice)
    } else {
        (WorkItemTask { scheduled: true, ..t }, if t.has_tracker {
            spec_tracker_begin(tr)
        } else {
            tr
        }, WorkItemSchedule::AllocateWorkItem)
    }
}

/// The transition of `WorkItemTask::cancel`.
pub open spec fn spec_work_item_cancel(t: WorkItemTask, tr: TaskTracker) -> (WorkItemTask, TaskTracker, Option<WorkItemSchedule>) {
    if t.cancel_requested {
        (t, tr, None)
    } else {
        let (t1, tr1, s) = spec_schedule_begin(WorkItemTask { cancel_requested: true, ..t }, tr);
        (t1, tr1, Some(s))
    }
}

/// What the work-item routine does first with a task in state `t`.
pub open spec fn spec_work_item_step(t: WorkItemTask) -> WorkItemStep {
    if t.completed {
        WorkItemStep::AlreadyCompleted(
            if t.ref_count == 1 {
                ReleaseOutcome::Free
            } else {
                ReleaseOutcome::Alive
            },
        )
    } else if t.cancel_requested {
        WorkItemStep::DropFuture
    } else {
        WorkItemStep::Poll
    }
}

/// Scheduling never queues finished or already-queued work: a completed
/// task, or one already scheduled, is left as it was with its tracker and
/// the answer is `Done`. Otherwise a task with a device ends up scheduled
/// with one more pending task on its tracker, and one without a device is
/// left unscheduled with its tracker's count as it was.
pub proof fn lemma_schedule_only_live_work(t: WorkItemTask, tr: TaskTracker)
    ensures
        t.completed ==> spec_schedule_begin(t, tr) == (t, tr, WorkItemSchedule::Done),
        t.scheduled ==> spec_schedule_begin(t, tr) == (t, tr, WorkItemSchedule::Done),
        !t.completed && !t.scheduled && t.has_device ==> ({
            let (t1, tr1, s) = spec_schedule_begin(t, tr);
            &&& s == WorkItemSchedule::AllocateWorkItem
            &&& t1.scheduled
            &&& !t1.completed
            &&& t.has_tracker && tr.pending < u32::MAX ==> tr1.pending == tr.pending + 1
            &&& !t.has_tracker ==> tr1 == tr
        }),
        !t.completed && !t.scheduled && !t.has_device && tr.pending < u32::MAX ==> ({
            let (t1, tr1, s) = spec_schedule_begin(t, tr);
            &&& s == WorkItemSchedule::NoDevice
            &&& !t1.scheduled
            &&& tr1.pending == tr.pending
        }),
{
}

/// Work-item cancellation sticks: after `cancel` the task reports the
/// request, scheduling keeps it, a second `cancel` does nothing, a task that
/// had not completed is scheduled for a run (unless one is already pending),
/// and that run drops its future instead of polling it.
pub proof fn lemma_work_item_cancel_sticks(t: WorkItemTask, tr: TaskTracker)
    ensures
        ({
            let (t1, tr1, s) = spec_work_item_cancel(t, tr);
            &&& t1.cancel_requested
            &&& t1.completed == t.completed
            &&& spec_work_item_cancel(t1, tr1) == (t1, tr1, None::<WorkItemSchedule>)
            &&& !t.cancel_requested && !t.completed && !t.scheduled && t.has_device ==> s == Some(
                WorkItemSchedule::AllocateWorkItem,
            ) && t1.scheduled
            &&& spec_schedule_begin(t1, tr1).0.cancel_requested
            &&& !t.completed ==> spec_work_item_step(t1) == WorkItemStep::DropFuture
        }),
{
}

/// What the first half of a work-item schedule decided.
#[derive(Clone, Copy, Debug, PartialEq, Eq, Structural)]
pub enum WorkItemSchedule {
    /// Nothing to do; the call reports success.
    Done,
    /// No device: the call reports `STATUS_INVALID_PARAMETER`.
    NoDevice,
    /// Allocate a work item and report the outcome to `schedule_allocated`.
    AllocateWorkItem,
}

/// What the work-item routine does after its entry checks.
#[derive(Clone, Copy, Debug, PartialEq, Eq, Structural)]
pub enum WorkItemStep {
    /// The task had completed: nothing but the release was done.
    AlreadyCompleted(ReleaseOutcome),
    /// Cancellation was requested: drop the future, then `work_item_end`.
    DropFuture,
    /// Poll the future, report with `work_item_polled`, then `work_item_end`.
    Poll,
}

impl WorkItemTask {
    /// A freshly allocated task: one reference, no device, no tracker.
    pub fn allocate() -> (t: Self)
        ensures
            t == (WorkItemTask {
                ref_count: 1,
                scheduled: false,
                completed: false,
                cancel_requested: false,
                has_device: false,
                has_tracker: false,
                has_work_item: false,
            }),
    {
        WorkItemTask {
            ref_count: 1,
            scheduled: false,
            completed: false,
            cancel_requested: false,
            has_device: false,
            has_tracker: false,
            has_work_item: false,
        }
    }

    /// Drops a reference; true when it was the last one and the task (and its
    /// device reference) must be freed.
    pub fn release(&mut self) -> (freed: bool)
        requires
            old(self).ref_count > 0,
        ensures
            final(self).ref_count == old(self).ref_count - 1,
            freed == (final(self).ref_count == 0),
            *final(self) == (WorkItemTask { ref_count: final(self).ref_count, ..*old(self) }),
    {
        let c = refcount::sub(&mut self.ref_count);
        c == 0
    }

    /// First half of a schedule: completed or already scheduled tasks report
    /// success and do nothing; otherwise the task is marked scheduled and its
    /// tracker told; without a device both are undone.
    pub fn schedule_begin(&mut self, tracker: &mut TaskTracker) -> (r: WorkItemSchedule)
        requires
            old(tracker).pending < u32::MAX,
        ensures
            (*final(self), *final(tracker), r) == spec_schedule_begin(*old(self), *old(tracker)),
    {
        if self.completed {
            return WorkItemSchedule::Done;
        }
        if self.scheduled {
            return WorkItemSchedule::Done;
        }
        self.scheduled = true;
        if self.has_tracker {
            tracker.begin();
        }
        if !self.has_device {
            self.scheduled = false;
            if self.has_tracker {
                tracker.complete();
            }
            return WorkItemSchedule::NoDevice;
        }
        WorkItemSchedule::AllocateWorkItem
    }

    /// Second half of a schedule, given whether the work item was allocated:
    /// on failure the schedule is undone and `STATUS_INSUFFICIENT_RESOURCES`
    /// reported; on success the work item holds a reference and is queued.
    pub fn schedule_allocated(&mut self, tracker: &mut TaskTracker, allocated: bool) -> (r: NTSTATUS)
        requires
            old(self).ref_count < MAX_REFCOUNT,
            old(self).has_tracker ==> old(tracker).pending > 0,
        ensures
            !allocated ==> r == STATUS_INSUFFICIENT_RESOURCES && *final(self) == (WorkItemTask {
                scheduled: false,
                ..*old(self)
            }) && (old(self).has_tracker ==> *final(tracker) == spec_tracker_complete(*old(tracker)))
                && (!old(self).has_tracker ==> *final(tracker) == *old(tracker)),
            allocated ==> r == STATUS_SUCCESS && *final(self) == (WorkItemTask {
                ref_count: (old(self).ref_count + 1) as u32,
                has_work_item: true,
                ..*old(self)
            }) && *final(tracker) == *old(tracker),
    {
        if !allocated {
            self.scheduled = false;
            if self.has_tracker {
                tracker.complete();
            }
            return STATUS_INSUFFICIENT_RESOURCES;
        }
        refcount::add(&mut self.ref_count);
        self.has_work_item = true;
        STATUS_SUCCESS
    }

    /// Requests cancellation: the first request marks the task and schedules
    /// it (the caller finishes an `AllocateWorkItem` with
    /// `schedule_allocated`) so that a run of the routine drops the future;
    /// later requests do nothing.
    pub fn cancel(&mut self, tracker: &mut TaskTracker) -> (r: Option<WorkItemSchedule>)
        requires
            old(tracker).pending < u32::MAX,
        ensures
            (*final(self), *final(tracker), r) == spec_work_item_cancel(*old(self), *old(tracker)),
    {
        if self.cancel_requested {
            return None;
        }
        self.cancel_requested = true;
        Some(self.schedule_begin(tracker))
    }

    /// Entry of the work-item routine.
    pub fn work_item_begin(&mut self, tracker: &mut TaskTracker) -> (r: WorkItemStep)
        requires
            old(self).ref_count > 0,
            old(self).has_tracker ==> old(tracker).pending > 0,
        ensures
            r == spec_work_item_step(*old(self)),
            old(self).completed ==> r == WorkItemStep::AlreadyCompleted(
                if old(self).ref_count == 1 {
                    ReleaseOutcome::Free
                } else {
                    ReleaseOutcome::Alive
                },
            ) && *final(self) == (WorkItemTask {
                scheduled: false,
                ref_count: (old(self).ref_count - 1) as u32,
                ..*old(self)
            }) && (old(self).has_tracker ==> *final(tracker) == spec_tracker_complete(*old(tracker)))
                && (!old(self).has_tracker ==> *final(tracker) == *old(tracker)),
            !old(self).completed && old(self).cancel_requested ==> r == WorkItemStep::DropFuture
                && *final(self) == (WorkItemTask {
                scheduled: false,
                completed: true,
                ..*old(self)
            }) && *final(tracker) == *old(tracker),
            !old(self).completed && !old(self).cancel_requested ==> r == WorkItemStep::Poll
                && *final(self) == (WorkItemTask { scheduled: false, ..*old(self) }) && *final(tracker) == *old(tracker),
    {
        self.scheduled = false;
        if self.completed {
            if self.has_tracker {
                tracker.complete();
            }
            let freed = self.release();
            return WorkItemStep::AlreadyCompleted(
                if freed {
                    ReleaseOutcome::Free
                } else {
                    ReleaseOutcome::Alive
                },
            );
        }
        if self.cancel_requested {
            self.completed = true;
            return WorkItemStep::DropFuture;
        }
        WorkItemStep::Poll
    }

    /// Reports the poll's outcome: a ready future completes the task.
    pub fn work_item_polled(&mut self, ready: bool)
        ensures
            *final(self) == (WorkItemTask { completed: old(self).completed || ready, ..*old(self) }),
    {
        if ready {
            self.completed = true;
        }
    }

    /// End of the work-item routine: frees the work item (returned true when
    /// one was held), tells the tracker and drops the routine's reference.
    pub fn work_item_end(&mut self, tracker: &mut TaskTracker) -> (r: (bool, bool))
        requires
            old(self).ref_count > 0,
            old(self).has_tracker ==> old(tracker).pending > 0,
        ensures
            r.0 == old(self).has_work_item,
            r.1 == (old(self).ref_count == 1),
            *final(self) == (WorkItemTask {
                has_work_item: false,
                ref_count: (old(self).ref_count - 1) as u32,
                ..*old(self)
            }),
            old(self).has_tracker ==> *final(tracker) == spec_tracker_complete(*old(tracker)),
            !old(self).has_tracker ==> *final(tracker) == *old(tracker),
    {
        let had = self.has_work_item;
        self.has_work_item = false;
        if self.has_tracker {
            tracker.complete();
        }
        let freed = self.release();
        (had, freed)
    }
}

/// Handle for requesting cancellation of a work-item task; it holds the
/// state of the task it refers to, and one of its references.
pub struct WorkItemCancelHandle {
    task: WorkItemTask,
}

impl WorkItemCancelHandle {
    /// The state of the task.
    pub closed spec fn task(&self) -> WorkItemTask {
        self.task
    }

    #[verifier::type_invariant]
    closed spec fn holds_reference(&self) -> bool {
        self.task.ref_count >= 1
    }

    /// A copy of the task's state.
    pub fn task_state(&self) -> (t: WorkItemTask)
        ensures
            t == self.task(),
            t.ref_count >= 1,
    {
        proof {
            use_type_invariant(self);
        }
        self.task
    }

    /// Requests cancellation; the first request schedules the task so that
    /// its future is dropped in the next run.
    pub fn cancel(&mut self, tracker: &mut TaskTracker) -> (r: Option<WorkItemSchedule>)
        requires
            old(tracker).pending < u32::MAX,
        ensures
            (final(self).task(), *final(tracker), r) == spec_work_item_cancel(old(self).task(), *old(tracker)),
    {
        proof {
            use_type_invariant(&*self);
        }
        let mut t = self.task;
        let r = t.cancel(tracker);
        self.task = t;
        r
    }

    pub fn is_cancelled(&self) -> (r: bool)
        ensures
            r == self.task().cancel_requested,
    {
        self.task.cancel_requested
    }

    /// Hands the task's state, with the handle's reference, to the code that
    /// runs or releases it.
    pub fn into_task(self) -> (t: WorkItemTask)
        ensures
            t == self.task(),
            t.ref_count >= 1,
    {
        proof {
            use_type_invariant(&self);
        }
        self.task
    }
}

/// Handle for requesting cancellation of a DPC task; it holds the state of
/// the task it refers to, and one of its references.
pub struct CancelHandle {
    task: DpcTask,
}

impl CancelHandle {
    /// The state of the task.
    pub closed spec fn task(&self) -> DpcTask {
        self.task
    }

    #[verifier::type_invariant]
    closed spec fn holds_reference(&self) -> bool {
        self.task.ref_count >= 1
    }

    /// A copy of the task's state.
    pub fn task_state(&self) -> (t: DpcTask)
        ensures
            t == self.task(),
            t.ref_count >= 1,
    {
        proof {
            use_type_invariant(self);
        }
        self.task
    }

    pub fn cancel(&mut self) -> (r: Option<ScheduleAction>)
        requires
            old(self).task().ref_count < MAX_REFCOUNT,
        ensures
            (final(self).task(), r) == spec_cancel(old(self).task()),
    {
        proof {
            use_type_invariant(&*self);
        }
        let mut t = self.task;
        let r = t.cancel();
        self.task = t;
        r
    }

    pub fn is_cancelled(&self) -> (r: bool)
        ensures
            r == (self.task().cancel_requested != 0),
    {
        self.task.is_cancellation_requested()
    }

    /// Hands the task's state, with the handle's reference, to the code that
    /// runs or releases it.
    pub fn into_task(self) -> (t: DpcTask)
        ensures
            t == self.task(),
            t.ref_count >= 1,
    {
        proof {
            use_type_invariant(&self);
        }
        self.task
    }
}

/// The handle of a task spawned on a host build, where no executor runs:
/// the future is polled once during the spawn, and a future still pending is
/// kept until the handle cancels or is dropped. A host build keeps no
/// cancellation request for the task, so `is_cancelled` reports false before
/// and after `cancel`.
pub struct HostCancelHandle {
    polls: u32,
    holds_future: bool,
}

impl HostCancelHandle {
    /// The polls made so far.
    pub closed spec fn spec_polls(&self) -> u32 {
        self.polls
    }

    /// Whether a pending future is still held.
    pub closed spec fn spec_holds_future(&self) -> bool {
        self.holds_future
    }

    pub fn polls(&self) -> (r: u32)
        ensures
            r == self.spec_polls(),
    {
        self.polls
    }

    pub fn holds_future(&self) -> (r: bool)
        ensures
            r == self.spec_holds_future(),
    {
        self.holds_future
    }

    /// Drops the pending future, if any.
    pub fn cancel(&mut self)
        ensures
            !final(self).spec_holds_future(),
            final(self).spec_polls() == old(self).spec_polls(),
    {
        self.holds_future = false;
    }

    pub fn is_cancelled(&self) -> (r: bool)
        ensures
            !r,
    {
        false
    }
}

/// Spawns a task on a host build, given whether its one poll finished it:
/// the future is polled exactly once and dropped, and the spawn succeeds
/// either way. The result is the status and the number of polls made.
pub fn spawn_task_host(first_poll_ready: bool) -> (r: (NTSTATUS, u32))
    ensures
        r == (STATUS_SUCCESS, 1u32),
{
    // Finished or still pending after its poll, the task is dropped.
    match first_poll_ready {
        true => (STATUS_SUCCESS, 1),
        false => (STATUS_SUCCESS, 1),
    }
}

/// Spawns a cancellable task on a host build: the future is polled once, and
/// kept when that poll returned pending. The spawn always succeeds.
pub fn spawn_dpc_task_cancellable_host(first_poll_ready: bool) -> (r: Result<HostCancelHandle, NTSTATUS>)
    ensures
        r is Ok,
        r->Ok_0.spec_polls() == 1,
        r->Ok_0.spec_holds_future() == !first_poll_ready,
{
    Ok(HostCancelHandle { polls: 1, holds_future: !first_poll_ready })
}

/// Spawns a tracked, cancellable work-item task. `allocated` says whether
/// the task memory was obtained and `work_item_allocated` whether the kernel
/// gave a work item. Without a device the call fails with
/// `STATUS_INVALID_PARAMETER`, without memory with
/// `STATUS_INSUFFICIENT_RESOURCES`, and a failed schedule drops the handle and
/// reports its status; otherwise the handle is returned with the task queued.
pub fn spawn_task_cancellable_tracked(
    has_device: bool,
    tracker: &mut TaskTracker,
    allocated: bool,
    work_item_allocated: bool,
) -> (r: Result<WorkItemCancelHandle, NTSTATUS>)
    requires
        old(tracker).pending < u32::MAX,
    ensures
        !has_device ==> r == Err::<WorkItemCancelHandle, NTSTATUS>(STATUS_INVALID_PARAMETER)
            && *final(tracker) == *old(tracker),
        has_device && !allocated ==> r == Err::<WorkItemCancelHandle, NTSTATUS>(
            STATUS_INSUFFICIENT_RESOURCES,
        ) && *final(tracker) == *old(tracker),
        has_device && allocated && !work_item_allocated ==> r == Err::<
            WorkItemCancelHandle,
            NTSTATUS,
        >(STATUS_INSUFFICIENT_RESOURCES) && *final(tracker) == spec_tracker_complete(
            spec_tracker_begin(*old(tracker)),
        ),
        has_device && allocated && work_item_allocated ==> r is Ok && *final(tracker)
            == spec_tracker_begin(*old(tracker)) && r->Ok_0.task() == (WorkItemTask {
            ref_count: 2,
            scheduled: true,
            completed: false,
            cancel_requested: false,
            has_device: true,
            has_tracker: true,
            has_work_item: true,
        }),
{
    if !has_device {
        return Err(STATUS_INVALID_PARAMETER);
    }
    if !allocated {
        return Err(STATUS_INSUFFICIENT_RESOURCES);
    }
    let mut task = WorkItemTask::allocate();
    task.has_device = true;
    task.has_tracker = true;
    // The handle's reference.
    refcount::add(&mut task.ref_count);
    let status = match task.schedule_begin(tracker) {
        WorkItemSchedule::Done => STATUS_SUCCESS,
        WorkItemSchedule::NoDevice => STATUS_INVALID_PARAMETER,
        WorkItemSchedule::AllocateWorkItem => task.schedule_allocated(tracker, work_item_allocated),
    };
    // The spawner's reference.
    let _ = task.release();
    if status != STATUS_SUCCESS {
        return Err(status);
    }
    Ok(WorkItemCancelHandle { task })
}

/// Without a WDM driver model the work-item executor is unavailable.
pub fn spawn_task_cancellable_tracked_unsupported() -> (r: Result<WorkItemCancelHandle, NTSTATUS>)
    ensures
        r == Err::<WorkItemCancelHandle, NTSTATUS>(STATUS_NOT_SUPPORTED),
{
    Err(STATUS_NOT_SUPPORTED)
}

/// State of a kernel timer future shared with its timer DPC.
#[derive(Clone, Copy, Debug)]
pub struct KernelTimerFuture {
    pub ref_count: u32,
    pub fired: bool,
    pub armed: bool,
    pub cancelled: bool,
}

/// What a poll of the timer future does.
#[derive(Clone, Copy, Debug, PartialEq, Eq, Structural)]
pub enum TimerPoll {
    /// The timer fired: the future is ready with `STATUS_SUCCESS`.
    Ready,
    /// First poll: a reference was taken for the DPC; arm the timer.
    Arm,
    /// Still waiting (the waker was updated).
    Pending,
}

impl KernelTimerFuture {
    pub fn allocate() -> (t: Self)
        ensures
            t == (KernelTimerFuture { ref_count: 1, fired: false, armed: false, cancelled: false }),
    {
        KernelTimerFuture { ref_count: 1, fired: false, armed: false, cancelled: false }
    }

    /// The DPC's reference is held exactly while the timer is armed and has
    /// not fired.
    pub open spec fn wf(&self) -> bool {
        self.ref_count >= 1 && (self.armed && !self.fired ==> self.ref_count >= 2)
    }

    pub fn poll(&mut self) -> (r: TimerPoll)
        requires
            old(self).ref_count < MAX_REFCOUNT,
        ensures
            old(self).fired ==> r == TimerPoll::Ready && *final(self) == *old(self),
            !old(self).fired && !old(self).armed ==> r == TimerPoll::Arm && *final(self) == (
            KernelTimerFuture { armed: true, ref_count: (old(self).ref_count + 1) as u32, ..*old(self) }),
            !old(self).fired && old(self).armed ==> r == TimerPoll::Pending && *final(self)
                == *old(self),
            old(self).wf() ==> final(self).wf(),
    {
        if self.fired {
            return TimerPoll::Ready;
        }
        if !self.armed {
            self.armed = true;
            refcount::add(&mut self.ref_count);
            return TimerPoll::Arm;
        }
        TimerPoll::Pending
    }

    /// The timer DPC: marks the timer fired, says whether to wake the waiting
    /// task (not after cancellation), and drops the DPC's reference; the
    /// second result is true when that freed the timer.
    pub fn timer_dpc(&mut self) -> (r: (bool, bool))
        requires
            old(self).ref_count > 0,
        ensures
            r.0 == !old(self).cancelled,
            r.1 == (old(self).ref_count == 1),
            *final(self) == (KernelTimerFuture {
                fired: true,
                ref_count: (old(self).ref_count - 1) as u32,
                ..*old(self)
            }),
    {
        self.fired = true;
        let wake = !self.cancelled;
        let c = refcount::sub(&mut self.ref_count);
        (wake, c == 0)
    }

    /// Dropping the future: cancels, drops the future's reference, and also
    /// the DPC's when the kernel reports the timer or DPC removed before it
    /// ran. True when the timer was freed.
    pub fn drop_future(&mut self, timer_cancelled: bool, dpc_removed: bool) -> (freed: bool)
        requires
            old(self).wf(),
            timer_cancelled || dpc_removed ==> old(self).armed && !old(self).fired,
        ensures
            final(self).cancelled,
            final(self).ref_count == old(self).ref_count - 1 - (if timer_cancelled || dpc_removed {
                1int
            } else {
                0int
            }),
            freed == (final(self).ref_count == 0),
    {
        self.cancelled = true;
        refcount::sub(&mut self.ref_count);
        if timer_cancelled || dpc_removed {
            refcount::sub(&mut self.ref_count);
        }
        self.ref_count == 0
    }
}

/// `DISPATCH_LEVEL`.
pub const DISPATCH_LEVEL: u8 = 2;

/// Whether the task running on this processor has a cancellation request.
/// Only DPC tasks are tracked: below `DISPATCH_LEVEL`, on an unsupported
/// processor slot, or with no current task, the answer is false.
pub fn is_cancellation_requested(irql: u8, current: Option<&DpcTask>) -> (r: bool)
    ensures
        r == (irql >= DISPATCH_LEVEL && (match current {
            Some(t) => t.cancel_requested != 0,
            None => false,
        })),
{
    if irql < DISPATCH_LEVEL {
        return false;
    }
    match current {
        Some(t) => t.is_cancellation_requested(),
        None => false,
    }
}

/// Like `is_cancellation_requested`, but true only once per request, which
/// it acknowledges.
pub fn take_cancellation_request(irql: u8, current: &mut DpcTask, has_current: bool) -> (r: bool)
    ensures
        r == (irql >= DISPATCH_LEVEL && has_current && old(current).cancel_requested == 1),
        r ==> *final(current) == (DpcTask { cancel_requested: 2, ..*old(current) }),
        !r ==> *final(current) == *old(current),
{
    if irql < DISPATCH_LEVEL || !has_current {
        return false;
    }
    current.take_cancellation_request()
}

/// Spawns a cancellable DPC task, allocated with the configured pool tag:
/// without memory the call fails with
/// `STATUS_INSUFFICIENT_RESOURCES`; otherwise the handle takes a reference,
/// the task is scheduled (its DPC holding one more reference) and the
/// spawner's reference is dropped.
pub fn spawn_dpc_task_cancellable(cfg: &TaskBudgetConfig, allocated: bool) -> (r: Result<CancelHandle, NTSTATUS>)
    ensures
        !allocated ==> r == Err::<CancelHandle, NTSTATUS>(STATUS_INSUFFICIENT_RESOURCES),
        allocated ==> r is Ok && r->Ok_0.task() == (DpcTask {
            ref_count: 2,
            scheduled: true,
            running: false,
            completed: false,
            cancel_requested: 0,
            freed: false,
            alloc_tag: cfg.alloc_tag,
        }),
{
    if !allocated {
        return Err(STATUS_INSUFFICIENT_RESOURCES);
    }
    let mut task = DpcTask::allocate(cfg.alloc_tag);
    task.add_ref();
    let _ = task.schedule();
    let _ = task.release();
    Ok(CancelHandle { task })
}

/// Spawns a DPC task counted by `tracker` (the tracker learns of it at
/// allocation), allocated with the configured pool tag; returns the status
/// and the task's state.
pub fn spawn_dpc_task_tracked(cfg: &TaskBudgetConfig, tracker: &mut TaskTracker, allocated: bool) -> (r: (NTSTATUS, Option<DpcTask>))
    requires
        old(tracker).pending < u32::MAX,
    ensures
        !allocated ==> r == (STATUS_INSUFFICIENT_RESOURCES, None::<DpcTask>) && *final(tracker)
            == *old(tracker),
        allocated ==> r.0 == STATUS_SUCCESS && r.1 == Some(
            DpcTask {
                ref_count: 1,
                scheduled: true,
                running: false,
                completed: false,
                cancel_requested: 0,
                freed: false,
                alloc_tag: cfg.alloc_tag,
            },
        ) && *final(tracker) == spec_tracker_begin(*old(tracker)),
{
    if !allocated {
        return (STATUS_INSUFFICIENT_RESOURCES, None);
    }
    let mut task = DpcTask::allocate(cfg.alloc_tag);
    tracker.begin();
    let _ = task.schedule();
    let _ = task.release();
    (STATUS_SUCCESS, Some(task))
}

/// Spawns a work-item task (counted by `tracker` when `with_tracker`). Without a
/// device the call reports `STATUS_INVALID_PARAMETER`; without memory or a
/// work item, `STATUS_INSUFFICIENT_RESOURCES`; otherwise `STATUS_SUCCESS`
/// with the task queued and holding the work item's reference.
pub fn spawn_task(has_device: bool, tracker: &mut TaskTracker, with_tracker: bool, allocated: bool, work_item_allocated: bool) -> (r: (NTSTATUS, Option<WorkItemTask>))
    requires
        old(tracker).pending < u32::MAX,
    ensures
        !has_device ==> r == (STATUS_INVALID_PARAMETER, None::<WorkItemTask>) && *final(tracker)
            == *old(tracker),
        has_device && !allocated ==> r == (STATUS_INSUFFICIENT_RESOURCES, None::<WorkItemTask>)
            && *final(tracker) == *old(tracker),
        has_device && allocated && !work_item_allocated ==> r == (
            STATUS_INSUFFICIENT_RESOURCES,
            None::<WorkItemTask>,
        ) && (with_tracker ==> *final(tracker) == spec_tracker_complete(
            spec_tracker_begin(*old(tracker)),
        )) && (!with_tracker ==> *final(tracker) == *old(tracker)),
        has_device && allocated && work_item_allocated ==> r.0 == STATUS_SUCCESS && r.1 == Some(
            WorkItemTask {
                ref_count: 1,
                scheduled: true,
                completed: false,
                cancel_requested: false,
                has_device: true,
                has_tracker: with_tracker,
                has_work_item: true,
            },
        ) && (with_tracker ==> *final(tracker) == spec_tracker_begin(*old(tracker))) && (!with_tracker
            ==> *final(tracker) == *old(tracker)),
{
    if !has_device {
        return (STATUS_INVALID_PARAMETER, None);
    }
    if !allocated {
        return (STATUS_INSUFFICIENT_RESOURCES, None);
    }
    let mut task = WorkItemTask::allocate();
    task.has_device = true;
    task.has_tracker = with_tracker;
    let status = match task.schedule_begin(tracker) {
        WorkItemSchedule::Done => STATUS_SUCCESS,
        WorkItemSchedule::NoDevice => STATUS_INVALID_PARAMETER,
        WorkItemSchedule::AllocateWorkItem => task.schedule_allocated(tracker, work_item_allocated),
    };
    // The spawner's reference; a failed schedule leaves none, freeing the task.
    let _ = task.release();
    if status != STATUS_SUCCESS {
        return (status, None);
    }
    (status, Some(task))
}

} // verus!
