//! Counters for the async COM execution paths (DPC, polling, slab).

use vstd::prelude::*;

verus! {

/// A snapshot of the counters; each counter wraps on overflow.
#[derive(Clone, Copy, Debug, Default)]
pub struct AsyncComMetrics {
    pub dpc_enqueued: u64,
    pub dpc_skipped: u64,
    pub dpc_run: u64,
    pub poll_total: u64,
    pub poll_ready: u64,
    pub poll_pending: u64,
    pub slab_hit: u64,
    pub slab_miss: u64,
}

/// All counters at zero.
pub open spec fn spec_zero_metrics() -> AsyncComMetrics {
    AsyncComMetrics {
        dpc_enqueued: 0,
        dpc_skipped: 0,
        dpc_run: 0,
        poll_total: 0,
        poll_ready: 0,
        poll_pending: 0,
        slab_hit: 0,
        slab_miss: 0,
    }
}

pub open spec fn wrap_inc(x: u64) -> u64 {
    if x == u64::MAX {
        0
    } else {
        (x + 1) as u64
    }
}

fn inc(x: u64) -> (r: u64)
    ensures
        r == wrap_inc(x),
{
    x.wrapping_add(1)
}

/// Sets every counter to zero.
pub fn reset_async_com_metrics(metrics: &mut AsyncComMetrics)
    ensures
        *final(metrics) == spec_zero_metrics(),
{
    *metrics = AsyncComMetrics {
        dpc_enqueued: 0,
        dpc_skipped: 0,
        dpc_run: 0,
        poll_total: 0,
        poll_ready: 0,
        poll_pending: 0,
        slab_hit: 0,
        slab_miss: 0,
    };
}

/// A copy of the counters.
pub fn snapshot_async_com_metrics(metrics: &AsyncComMetrics) -> (s: AsyncComMetrics)
    ensures
        s == *metrics,
{
    AsyncComMetrics {
        dpc_enqueued: metrics.dpc_enqueued,
        dpc_skipped: metrics.dpc_skipped,
        dpc_run: metrics.dpc_run,
        poll_total: metrics.poll_total,
        poll_ready: metrics.poll_ready,
        poll_pending: metrics.poll_pending,
        slab_hit: metrics.slab_hit,
        slab_miss: metrics.slab_miss,
    }
}

/// The counters after `k` calls of `inc_dpc_enqueued`.
pub open spec fn enqueued_after(m: AsyncComMetrics, k: nat) -> AsyncComMetrics
    decreases k,
{
    if k == 0 {
        m
    } else {
        enqueued_after(AsyncComMetrics { dpc_enqueued: wrap_inc(m.dpc_enqueued), ..m }, (k - 1) as nat)
    }
}

/// Counting: `k` increments of the enqueued counter raise it by `k` (while
/// it does not wrap) and leave every other counter as it was; a snapshot
/// taken before and one taken after differ in that counter alone.
pub proof fn lemma_enqueued_counts(m: AsyncComMetrics, k: nat)
    requires
        m.dpc_enqueued + k <= u64::MAX,
    ensures
        enqueued_after(m, k) == (AsyncComMetrics { dpc_enqueued: (m.dpc_enqueued + k) as u64, ..m }),
    decreases k,
{
    if k > 0 {
        lemma_enqueued_counts(AsyncComMetrics { dpc_enqueued: wrap_inc(m.dpc_enqueued), ..m }, (k - 1) as nat);
    }
}

pub fn inc_dpc_enqueued(m: &mut AsyncComMetrics)
    ensures
        *final(m) == (AsyncComMetrics { dpc_enqueued: wrap_inc(old(m).dpc_enqueued), ..*old(m) }),
{
    m.dpc_enqueued = inc(m.dpc_enqueued);
}

pub fn inc_dpc_skipped(m: &mut AsyncComMetrics)
    ensures
        *final(m) == (AsyncComMetrics { dpc_skipped: wrap_inc(old(m).dpc_skipped), ..*old(m) }),
{
    m.dpc_skipped = inc(m.dpc_skipped);
}

pub fn inc_dpc_run(m: &mut AsyncComMetrics)
    ensures
        *final(m) == (AsyncComMetrics { dpc_run: wrap_inc(old(m).dpc_run), ..*old(m) }),
{
    m.dpc_run = inc(m.dpc_run);
}

pub fn inc_poll_total(m: &mut AsyncComMetrics)
    ensures
        *final(m) == (AsyncComMetrics { poll_total: wrap_inc(old(m).poll_total), ..*old(m) }),
{
    m.poll_total = inc(m.poll_total);
}

pub fn inc_poll_ready(m: &mut AsyncComMetrics)
    ensures
        *final(m) == (AsyncComMetrics { poll_ready: wrap_inc(old(m).poll_ready), ..*old(m) }),
{
    m.poll_ready = inc(m.poll_ready);
}

pub fn inc_poll_pending(m: &mut AsyncComMetrics)
    ensures
        *final(m) == (AsyncComMetrics { poll_pending: wrap_inc(old(m).poll_pending), ..*old(m) }),
{
    m.poll_pending = inc(m.poll_pending);
}

pub fn inc_slab_hit(m: &mut AsyncComMetrics)
    ensures
        *final(m) == (AsyncComMetrics { slab_hit: wrap_inc(old(m).slab_hit), ..*old(m) }),
{
    m.slab_hit = inc(m.slab_hit);
}

pub fn inc_slab_miss(m: &mut AsyncComMetrics)
    ensures
        *final(m) == (AsyncComMetrics { slab_miss: wrap_inc(old(m).slab_miss), ..*old(m) }),
{
    m.slab_miss = inc(m.slab_miss);
}

} // verus!
