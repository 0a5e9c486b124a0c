//! Benchmark bookkeeping for async COM operations: configuration selection,
//! latency counters, the benchmark future's steps and the reported figures.

use vstd::prelude::*;

use crate::iunknown::{NTSTATUS, STATUS_INVALID_PARAMETER};

verus! {

pub const ITER_SMALL: usize = 10_000;
pub const ITER_MEDIUM: usize = 100_000;
pub const ITER_LARGE: usize = 1_000_000;
pub const PAR_1: usize = 1;
pub const PAR_4: usize = 4;
pub const PAR_16: usize = 16;
pub const DEFAULT_YIELD_COUNT: u32 = 8;

#[derive(Clone, Copy, Debug, Eq, PartialEq, Structural)]
pub enum BenchScenario {
    Immediate,
    YieldOnce,
    YieldMany,
}

#[derive(Clone, Copy, Debug)]
pub struct BenchConfig {
    pub scenario: BenchScenario,
    pub iterations: usize,
    pub parallelism: usize,
    pub yield_count: u32,
}

/// A decimal digit.
pub open spec fn is_digit(c: char) -> bool {
    48 <= (c as u32) <= 57
}

pub open spec fn all_digits(s: Seq<char>) -> bool {
    forall|i: int| 0 <= i < s.len() ==> is_digit(#[trigger] s[i])
}

/// The number a string of decimal digits denotes.
pub open spec fn digits_value(s: Seq<char>) -> nat
    decreases s.len(),
{
    if s.len() == 0 {
        0
    } else {
        digits_value(s.drop_last()) * 10 + (((s.last() as u32) - 48) as nat)
    }
}

/// The digits of an unsigned decimal number: the text after an optional
/// leading `+`.
pub open spec fn unsigned_digits(s: Seq<char>) -> Seq<char> {
    if s.len() > 0 && s[0] == '+' {
        s.drop_first()
    } else {
        s
    }
}

/// What `str::parse` gives for an unsigned integer type whose largest value
/// is `max`: an optional `+` followed by at least one decimal digit, denoting
/// a number no larger than `max`.
pub open spec fn spec_parse_unsigned(s: Seq<char>, max: nat) -> Option<nat> {
    let d = unsigned_digits(s);
    if d.len() > 0 && all_digits(d) && digits_value(d) <= max {
        Some(digits_value(d))
    } else {
        None
    }
}

pub open spec fn spec_parse_usize(s: Seq<char>) -> Option<usize> {
    match spec_parse_unsigned(s, usize::MAX as nat) {
        Some(v) => Some(v as usize),
        None => None,
    }
}

pub open spec fn spec_parse_u32(s: Seq<char>) -> Option<u32> {
    match spec_parse_unsigned(s, u32::MAX as nat) {
        Some(v) => Some(v as u32),
        None => None,
    }
}

proof fn lemma_digits_push(d: Seq<char>, c: char)
    ensures
        digits_value(d.push(c)) == digits_value(d) * 10 + (((c as u32) - 48) as nat),
        all_digits(d.push(c)) == (all_digits(d) && is_digit(c)),
{
    assert(d.push(c).drop_last() =~= d);
    if all_digits(d) && is_digit(c) {
        assert forall|i: int| 0 <= i < d.push(c).len() implies is_digit(#[trigger] d.push(c)[i]) by {
            if i < d.len() {
                assert(d.push(c)[i] == d[i]);
            }
        }
    }
    if !all_digits(d) {
        let i = choose|i: int| 0 <= i < d.len() && !is_digit(#[trigger] d[i]);
        assert(d.push(c)[i] == d[i]);
    }
    if !is_digit(c) {
        assert(d.push(c)[d.len() as int] == c);
    }
}

/// Parses an unsigned decimal number no larger than `max`, as `str::parse`
/// does for an unsigned integer type whose largest value is `max`.
pub fn parse_unsigned(s: &str, max: u64) -> (r: Option<u64>)
    ensures
        match spec_parse_unsigned(s@, max as nat) {
            Some(v) => r == Some(v as u64),
            None => r is None,
        },
{
    let ghost st: int = if s@.len() > 0 && s@[0] == '+' {
        1
    } else {
        0
    };
    let mut acc: u64 = 0;
    let mut ok = true;
    let mut seen = false;
    let mut first = true;
    for c in it: s.chars()
        invariant
            it.seq() == s@,
            0 <= it.index() <= s@.len(),
            st == (if s@.len() > 0 && s@[0] == '+' {
                1int
            } else {
                0int
            }),
            first == (it.index() == 0),
            it.index() <= st ==> !seen && acc == 0 && ok,
            it.index() >= st ==> ({
                let d = s@.subrange(st, it.index() as int);
                &&& seen == (d.len() > 0)
                &&& ok ==> all_digits(d) && digits_value(d) == acc && acc <= max
                &&& !ok ==> !all_digits(d) || digits_value(d) > max
            }),
    {
        let ghost k = it.index();
        if first && c == '+' {
            first = false;
            assert(s@.subrange(st, k + 1) =~= Seq::<char>::empty());
        } else {
            first = false;
            proof {
                assert(k >= st);
                assert(s@.subrange(st, k + 1) =~= s@.subrange(st, k as int).push(c));
                lemma_digits_push(s@.subrange(st, k as int), c);
            }
            let v = c as u32;
            if ok {
                if 48 <= v && v <= 57 {
                    let digit = (v - 48) as u64;
                    match acc.checked_mul(10) {
                        Some(m) => match m.checked_add(digit) {
                            Some(n) => {
                                if n <= max {
                                    acc = n;
                                } else {
                                    ok = false;
                                }
                            },
                            None => {
                                ok = false;
                            },
                        },
                        None => {
                            ok = false;
                        },
                    }
                } else {
                    ok = false;
                }
            }
            seen = true;
        }
    }
    assert(s@.subrange(st, s@.len() as int) =~= unsigned_digits(s@));
    if ok && seen {
        Some(acc)
    } else {
        None
    }
}

/// `str::parse::<usize>`, with the error discarded.
fn parse_usize(s: &str) -> (r: Option<usize>)
    ensures
        r == spec_parse_usize(s@),
{
    match parse_unsigned(s, usize::MAX as u64) {
        Some(v) => Some(v as usize),
        None => None,
    }
}

/// `str::parse::<u32>`, with the error discarded.
fn parse_u32(s: &str) -> (r: Option<u32>)
    ensures
        r == spec_parse_u32(s@),
{
    match parse_unsigned(s, u32::MAX as u64) {
        Some(v) => Some(v as u32),
        None => None,
    }
}

/// Keeps a parsed setting only when it is positive.
pub fn positive_usize(parsed: Option<usize>) -> (r: Option<usize>)
    ensures
        r == (match parsed {
            Some(v) => if v > 0 {
                Some(v)
            } else {
                None
            },
            None => None,
        }),
{
    match parsed {
        Some(v) => if v > 0 {
            Some(v)
        } else {
            None
        },
        None => None,
    }
}

/// Keeps a parsed setting only when it is positive.
pub fn positive_u32(parsed: Option<u32>) -> (r: Option<u32>)
    ensures
        r == (match parsed {
            Some(v) => if v > 0 {
                Some(v)
            } else {
                None
            },
            None => None,
        }),
{
    match parsed {
        Some(v) => if v > 0 {
            Some(v)
        } else {
            None
        },
        None => None,
    }
}

pub open spec fn spec_env_usize(value: Option<&str>) -> Option<usize> {
    match value {
        Some(s) => match spec_parse_usize(s@) {
            Some(v) => if v > 0 {
                Some(v)
            } else {
                None
            },
            None => None,
        },
        None => None,
    }
}

pub open spec fn spec_env_u32(value: Option<&str>) -> Option<u32> {
    match value {
        Some(s) => match spec_parse_u32(s@) {
            Some(v) => if v > 0 {
                Some(v)
            } else {
                None
            },
            None => None,
        },
        None => None,
    }
}

/// A positive number from an environment setting, if any.
pub fn parse_env_usize(value: Option<&str>) -> (r: Option<usize>)
    ensures
        r == spec_env_usize(value),
{
    match value {
        Some(raw) => positive_usize(parse_usize(raw)),
        None => None,
    }
}

/// A positive number from an environment setting, if any.
pub fn parse_env_u32(value: Option<&str>) -> (r: Option<u32>)
    ensures
        r == spec_env_u32(value),
{
    match value {
        Some(raw) => positive_u32(parse_u32(raw)),
        None => None,
    }
}

/// The iteration count when no preset feature is chosen.
pub fn selected_iterations_preset() -> (r: usize)
    ensures
        r == ITER_MEDIUM,
{
    ITER_MEDIUM
}

/// The parallelism when no preset feature is chosen.
pub fn selected_parallelism_preset() -> (r: usize)
    ensures
        r == PAR_4,
{
    PAR_4
}

pub fn selected_iterations(env: Option<&str>) -> (r: usize)
    ensures
        r == (match spec_env_usize(env) {
            Some(v) => v,
            None => ITER_MEDIUM,
        }),
{
    match parse_env_usize(env) {
        Some(v) => v,
        None => selected_iterations_preset(),
    }
}

pub fn selected_parallelism(env: Option<&str>) -> (r: usize)
    ensures
        r == (match spec_env_usize(env) {
            Some(v) => v,
            None => PAR_4,
        }),
{
    match parse_env_usize(env) {
        Some(v) => v,
        None => selected_parallelism_preset(),
    }
}

/// The yield count: the setting if positive, else 8.
pub fn selected_yield_count(env: Option<&str>) -> (r: u32)
    ensures
        r == (match spec_env_u32(env) {
            Some(v) => v,
            None => DEFAULT_YIELD_COUNT,
        }),
        r >= 1,
{
    let v = match parse_env_u32(env) {
        Some(v) => v,
        None => DEFAULT_YIELD_COUNT,
    };
    if v >= 1 {
        v
    } else {
        1
    }
}

impl BenchConfig {
    /// The configuration chosen by the scenario and the iteration,
    /// parallelism and yield settings (`KCOM_BENCH_ITERS`, `KCOM_BENCH_PAR`,
    /// `KCOM_BENCH_YIELDS`).
    pub fn selected(scenario: BenchScenario, env_iters: Option<&str>, env_par: Option<&str>, env_yields: Option<&str>) -> (c: Self)
        ensures
            c.scenario == scenario,
            c.iterations == (match spec_env_usize(env_iters) {
                Some(v) => v,
                None => ITER_MEDIUM,
            }),
            c.parallelism == (match spec_env_usize(env_par) {
                Some(v) => v,
                None => PAR_4,
            }),
            c.yield_count == (match spec_env_u32(env_yields) {
                Some(v) => v,
                None => DEFAULT_YIELD_COUNT,
            }),
    {
        BenchConfig {
            scenario,
            iterations: selected_iterations(env_iters),
            parallelism: selected_parallelism(env_par),
            yield_count: selected_yield_count(env_yields),
        }
    }
}

#[derive(Clone, Copy, Debug)]
pub struct BenchResult {
    pub iterations: usize,
    pub parallelism: usize,
    pub scenario: BenchScenario,
    pub yield_count: u32,
    pub qpc_freq: u64,
    pub elapsed_ticks: u64,
    pub avg_latency_ticks: u64,
    pub min_latency_ticks: u64,
    pub max_latency_ticks: u64,
}

/// Nanoseconds in `ticks` at `freq` ticks per second (0 for a zero
/// frequency), truncated to 64 bits.
pub open spec fn spec_ticks_to_ns(ticks: u64, freq: u64) -> u64 {
    if freq == 0 {
        0
    } else {
        ((ticks * 1_000_000_000) / (freq as int)) as u64
    }
}

pub fn ticks_to_ns(ticks: u64, freq: u64) -> (r: u64)
    ensures
        r == spec_ticks_to_ns(ticks, freq),
{
    if freq == 0 {
        return 0;
    }
    assert(ticks * 1_000_000_000 <= u128::MAX) by (nonlinear_arith)
        requires
            ticks <= u64::MAX,
    ;
    let ns = (ticks as u128) * 1_000_000_000u128 / (freq as u128);
    ns as u64
}

impl BenchResult {
    pub fn elapsed_ns(self) -> (r: u64)
        ensures
            r == spec_ticks_to_ns(self.elapsed_ticks, self.qpc_freq),
    {
        ticks_to_ns(self.elapsed_ticks, self.qpc_freq)
    }

    pub fn avg_latency_ns(self) -> (r: u64)
        ensures
            r == spec_ticks_to_ns(self.avg_latency_ticks, self.qpc_freq),
    {
        ticks_to_ns(self.avg_latency_ticks, self.qpc_freq)
    }

    pub fn min_latency_ns(self) -> (r: u64)
        ensures
            r == spec_ticks_to_ns(self.min_latency_ticks, self.qpc_freq),
    {
        ticks_to_ns(self.min_latency_ticks, self.qpc_freq)
    }

    pub fn max_latency_ns(self) -> (r: u64)
        ensures
            r == spec_ticks_to_ns(self.max_latency_ticks, self.qpc_freq),
    {
        ticks_to_ns(self.max_latency_ticks, self.qpc_freq)
    }

    /// Completed operations per second, 0 when no time elapsed.
    pub fn throughput_per_sec(self) -> (r: u64)
        ensures
            ({
                let ns = spec_ticks_to_ns(self.elapsed_ticks, self.qpc_freq);
                r == (if ns == 0 {
                    0
                } else {
                    ((self.iterations * 1_000_000_000) / (ns as int)) as u64
                })
            }),
    {
        let elapsed_ns = self.elapsed_ns();
        if elapsed_ns == 0 {
            return 0;
        }
        assert(self.iterations * 1_000_000_000 <= u128::MAX) by (nonlinear_arith)
            requires
                self.iterations <= u64::MAX,
        ;
        let per_sec = (self.iterations as u128) * 1_000_000_000u128 / (elapsed_ns as u128);
        per_sec as u64
    }
}

/// Latency counters shared by the benchmark's operations.
#[derive(Clone, Copy, Debug)]
pub struct BenchCounters {
    pub completed: usize,
    pub sum_ticks: u64,
    pub min_ticks: u64,
    pub max_ticks: u64,
}

pub open spec fn spec_min_u64(a: u64, b: u64) -> u64 {
    if b < a {
        b
    } else {
        a
    }
}

pub open spec fn spec_max_u64(a: u64, b: u64) -> u64 {
    if b > a {
        b
    } else {
        a
    }
}

/// Lowers `target` to `value` if smaller.
pub fn update_min(target: &mut u64, value: u64)
    ensures
        *final(target) == spec_min_u64(*old(target), value),
{
    if value < *target {
        *target = value;
    }
}

/// Raises `target` to `value` if larger.
pub fn update_max(target: &mut u64, value: u64)
    ensures
        *final(target) == spec_max_u64(*old(target), value),
{
    if value > *target {
        *target = value;
    }
}

impl BenchCounters {
    /// No operation completed; the minimum starts at `u64::MAX`.
    pub fn new() -> (c: Self)
        ensures
            c == (BenchCounters { completed: 0, sum_ticks: 0, min_ticks: u64::MAX, max_ticks: 0 }),
    {
        BenchCounters { completed: 0, sum_ticks: 0, min_ticks: u64::MAX, max_ticks: 0 }
    }

    /// Records one completed operation's latency; the sum and the count wrap.
    pub fn record_latency(&mut self, latency: u64)
        ensures
            *final(self) == spec_record(*old(self), latency),
    {
        self.sum_ticks = self.sum_ticks.wrapping_add(latency);
        update_min(&mut self.min_ticks, latency);
        update_max(&mut self.max_ticks, latency);
        self.completed = self.completed.wrapping_add(1);
    }
}

/// The counters after recording one latency: the sum and the count wrap.
pub open spec fn spec_record(c: BenchCounters, latency: u64) -> BenchCounters {
    BenchCounters {
        completed: if c.completed == usize::MAX {
            0
        } else {
            (c.completed + 1) as usize
        },
        sum_ticks: if c.sum_ticks + latency > u64::MAX {
            (c.sum_ticks + latency - 0x1_0000_0000_0000_0000) as u64
        } else {
            (c.sum_ticks + latency) as u64
        },
        min_ticks: spec_min_u64(c.min_ticks, latency),
        max_ticks: spec_max_u64(c.max_ticks, latency),
    }
}

/// Counters that recorded the latencies of `completed` operations: nothing
/// yet (sum 0, minimum `u64::MAX`, maximum 0), or a sum between `completed`
/// times the minimum and `completed` times the maximum.
pub open spec fn counters_consistent(c: BenchCounters) -> bool {
    if c.completed == 0 {
        c.sum_ticks == 0 && c.min_ticks == u64::MAX && c.max_ticks == 0
    } else {
        &&& c.min_ticks <= c.max_ticks
        &&& c.min_ticks * c.completed <= c.sum_ticks
        &&& c.sum_ticks <= c.max_ticks * c.completed
    }
}

/// Recording a latency keeps the counters consistent while neither the sum
/// nor the count wraps.
pub proof fn lemma_record_consistent(c: BenchCounters, latency: u64)
    requires
        counters_consistent(c),
        c.sum_ticks + latency <= u64::MAX,
        c.completed < usize::MAX,
    ensures
        counters_consistent(spec_record(c, latency)),
{
    let d = spec_record(c, latency);
    assert(d.completed == c.completed + 1);
    assert(d.sum_ticks == c.sum_ticks + latency);
    if c.completed == 0 {
        assert(d.min_ticks == latency && d.max_ticks == latency);
        assert(d.completed == 1);
        assert(d.min_ticks * d.completed == latency) by (nonlinear_arith)
            requires
                d.completed == 1,
                d.min_ticks == latency,
        ;
        assert(d.max_ticks * d.completed == latency) by (nonlinear_arith)
            requires
                d.completed == 1,
                d.max_ticks == latency,
        ;
    } else {
        let n = c.completed as int;
        let m = c.min_ticks as int;
        let mx = c.max_ticks as int;
        let l = latency as int;
        let s = c.sum_ticks as int;
        let m2 = d.min_ticks as int;
        let mx2 = d.max_ticks as int;
        assert(m2 * (n + 1) <= s + l) by (nonlinear_arith)
            requires
                m2 <= m,
                m2 <= l,
                m * n <= s,
                n > 0,
                m2 >= 0,
        ;
        assert(s + l <= mx2 * (n + 1)) by (nonlinear_arith)
            requires
                mx2 >= mx,
                mx2 >= l,
                s <= mx * n,
                n > 0,
        ;
        assert(d.min_ticks <= d.max_ticks);
        assert(d.min_ticks * d.completed == m2 * (n + 1));
        assert(d.max_ticks * d.completed == mx2 * (n + 1));
    }
}

/// Latency order of a finished run: when every one of the `iterations`
/// operations recorded its latency without the sum wrapping, the reported
/// minimum, average and maximum are in order.
pub proof fn lemma_latency_order(c: BenchCounters, iterations: usize)
    requires
        counters_consistent(c),
        c.completed == iterations,
        iterations > 0,
    ensures
        ({
            let min = if c.min_ticks == u64::MAX {
                0
            } else {
                c.min_ticks
            };
            let avg = (c.sum_ticks as int) / (iterations as int);
            min <= avg <= c.max_ticks
        }),
{
    let n = iterations as int;
    let s = c.sum_ticks as int;
    assert(c.min_ticks <= s / n <= c.max_ticks) by (nonlinear_arith)
        requires
            c.min_ticks * n <= s,
            s <= c.max_ticks * n,
            n > 0,
            s >= 0,
    {
        vstd::arithmetic::div_mod::lemma_div_is_ordered(c.min_ticks * n, s, n);
        vstd::arithmetic::div_mod::lemma_div_is_ordered(s, c.max_ticks * n, n);
        vstd::arithmetic::div_mod::lemma_div_by_multiple(c.min_ticks as int, n);
        vstd::arithmetic::div_mod::lemma_div_by_multiple(c.max_ticks as int, n);
    }
}

/// One benchmark operation: yields a number of times, then records its
/// latency.
#[derive(Clone, Copy, Debug)]
pub struct BenchFuture {
    pub remaining: u32,
    pub done: bool,
    pub start_ticks: u64,
}

/// What one poll of a benchmark operation did.
#[derive(Clone, Copy, Debug, Eq, PartialEq, Structural)]
pub enum BenchPoll {
    /// Yielded: wake the task and return pending.
    Yield,
    /// Finished (latency recorded on the first finish).
    Ready,
}

impl BenchFuture {
    /// Yields 0 times for `Immediate`, once for `YieldOnce`, and
    /// `max(yield_count, 1)` times for `YieldMany`.
    pub fn new(start_ticks: u64, scenario: BenchScenario, yield_count: u32) -> (f: Self)
        ensures
            f.done == false,
            f.start_ticks == start_ticks,
            f.remaining == match scenario {
                BenchScenario::Immediate => 0,
                BenchScenario::YieldOnce => 1,
                BenchScenario::YieldMany => if yield_count >= 1 {
                    yield_count
                } else {
                    1
                },
            },
    {
        let remaining = match scenario {
            BenchScenario::Immediate => 0,
            BenchScenario::YieldOnce => 1,
            BenchScenario::YieldMany => if yield_count >= 1 {
                yield_count
            } else {
                1
            },
        };
        BenchFuture { remaining, done: false, start_ticks }
    }

    /// A poll at counter reading `now`.
    pub fn poll_step(&mut self, now: u64, counters: &mut BenchCounters) -> (r: BenchPoll)
        ensures
            old(self).done ==> r == BenchPoll::Ready && *final(self) == *old(self) && *final(
                counters) == *old(counters),
            !old(self).done && old(self).remaining > 0 ==> r == BenchPoll::Yield && *final(self)
                == (BenchFuture { remaining: (old(self).remaining - 1) as u32, ..*old(self) })
                && *final(counters) == *old(counters),
            !old(self).done && old(self).remaining == 0 ==> r == BenchPoll::Ready && *final(self)
                == (BenchFuture { done: true, ..*old(self) }) && *final(counters) == spec_record(
                *old(counters),
                (if now >= old(self).start_ticks {
                    now - old(self).start_ticks
                } else {
                    0
                }) as u64,
            ),
    {
        if self.done {
            return BenchPoll::Ready;
        }
        if self.remaining > 0 {
            self.remaining = self.remaining - 1;
            return BenchPoll::Yield;
        }
        counters.record_latency(now.saturating_sub(self.start_ticks));
        self.done = true;
        BenchPoll::Ready
    }
}

/// A benchmark needs at least one iteration and one operation in flight.
pub fn validate_config(config: &BenchConfig) -> (r: Result<(), NTSTATUS>)
    ensures
        config.iterations == 0 || config.parallelism == 0 ==> r == Err::<(), NTSTATUS>(
            STATUS_INVALID_PARAMETER,
        ),
        config.iterations != 0 && config.parallelism != 0 ==> r == Ok::<(), NTSTATUS>(()),
{
    if config.iterations == 0 || config.parallelism == 0 {
        Err(STATUS_INVALID_PARAMETER)
    } else {
        Ok(())
    }
}

/// Whether another operation may start: fewer than `parallelism` in flight.
pub fn may_start(started: usize, completed: usize, parallelism: usize) -> (r: bool)
    ensures
        r == ((if started >= completed {
            started - completed
        } else {
            0
        }) < parallelism),
{
    started.saturating_sub(completed) < parallelism
}

/// The figures of a finished run: elapsed ticks (saturating), average
/// latency over the iterations, and a minimum of 0 when nothing was
/// recorded.
pub fn finish_result(config: &BenchConfig, qpc_freq: u64, bench_start: u64, bench_end: u64, counters: &BenchCounters) -> (r: BenchResult)
    requires
        config.iterations > 0,
    ensures
        r.iterations == config.iterations,
        r.parallelism == config.parallelism,
        r.scenario == config.scenario,
        r.yield_count == config.yield_count,
        r.qpc_freq == qpc_freq,
        r.elapsed_ticks == (if bench_end >= bench_start {
            bench_end - bench_start
        } else {
            0
        }),
        r.avg_latency_ticks == (counters.sum_ticks as int) / (config.iterations as int),
        r.min_latency_ticks == (if counters.min_ticks == u64::MAX {
            0
        } else {
            counters.min_ticks
        }),
        r.max_latency_ticks == counters.max_ticks,
{
    let total = config.iterations;
    assert(total <= u64::MAX);
    let avg = counters.sum_ticks / (total as u64);
    BenchResult {
        iterations: total,
        parallelism: config.parallelism,
        scenario: config.scenario,
        yield_count: config.yield_count,
        qpc_freq,
        elapsed_ticks: bench_end.saturating_sub(bench_start),
        avg_latency_ticks: avg,
        min_latency_ticks: if counters.min_ticks == u64::MAX {
            0
        } else {
            counters.min_ticks
        },
        max_latency_ticks: counters.max_ticks,
    }
}

} // verus!
