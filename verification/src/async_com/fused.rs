//! The fused asynchronous task: its status word (the low half holds the
//! `AsyncStatus`, the high bits the polling, DPC-queued and future-dropped
//! flags, each function one transition of that word), and the slab bins and
//! aligned placement of the memory it lives in.

use vstd::prelude::*;

use crate::async_com::{spec_status_from_raw, spec_status_raw, AsyncStatus};
use crate::iunknown::{
    NTSTATUS, STATUS_CANCELLED, STATUS_INSUFFICIENT_RESOURCES, STATUS_PENDING, STATUS_SUCCESS,
    STATUS_UNSUCCESSFUL,
};

verus! {

pub const STATUS_MASK: u32 = 0x0000_FFFF;
pub const FLAG_POLLING: u32 = 0x8000_0000;
pub const FLAG_DPC_QUEUED: u32 = 0x4000_0000;
pub const FLAG_FUTURE_DROPPED: u32 = 0x2000_0000;

/// Polls made by one DPC run before it yields.
pub const DPC_POLL_BUDGET: u32 = 64;

pub open spec fn status_bits(w: u32) -> u32 {
    w & STATUS_MASK
}

pub open spec fn is_polling(w: u32) -> bool {
    w & FLAG_POLLING != 0
}

pub open spec fn is_queued(w: u32) -> bool {
    w & FLAG_DPC_QUEUED != 0
}

pub open spec fn is_future_dropped(w: u32) -> bool {
    w & FLAG_FUTURE_DROPPED != 0
}

pub open spec fn is_started(w: u32) -> bool {
    status_bits(w) == 0
}

/// The word a task is created with: started, and being polled by its spawner.
pub fn initial_word() -> (w: u32)
    ensures
        w == FLAG_POLLING,
        is_started(w),
        is_polling(w),
        !is_queued(w),
        !is_future_dropped(w),
{
    let w: u32 = 0 | FLAG_POLLING;
    assert(w == 0x8000_0000u32 && w & 0xFFFF == 0 && w & 0x8000_0000 != 0 && w & 0x4000_0000 == 0
        && w & 0x2000_0000 == 0) by (bit_vector)
        requires
            w == 0u32 | 0x8000_0000u32,
    ;
    w
}

/// The status reported for a word.
pub fn word_status(w: u32) -> (s: AsyncStatus)
    ensures
        s == spec_status_from_raw(status_bits(w)),
{
    AsyncStatus::from_raw(w & STATUS_MASK)
}

/// Claims the right to poll: succeeds only on a started task that nobody is
/// polling, and then sets the polling flag.
pub fn try_set_polling(w: u32) -> (r: (bool, u32))
    ensures
        r == spec_try_set_polling(w),
{
    if (w & FLAG_POLLING) != 0 {
        return (false, w);
    }
    if (w & STATUS_MASK) != 0 {
        return (false, w);
    }
    (true, w | FLAG_POLLING)
}

/// Ends a poll that returned pending: clears the polling and queued flags,
/// and reports whether a wake arrived meanwhile, in which case the DPC must
/// be queued again.
pub fn finish_pending(w: u32) -> (r: (u32, bool))
    ensures
        r == spec_finish_pending(w),
{
    let next = w & !(FLAG_POLLING | FLAG_DPC_QUEUED);
    (next, (w & FLAG_DPC_QUEUED) != 0)
}

/// What a wake does.
#[derive(Clone, Copy, Debug, PartialEq, Eq, Structural)]
pub enum WakeAction {
    /// The task is no longer started: nothing to do.
    Ignored,
    /// A DPC is already queued: the wake is absorbed.
    AlreadyQueued,
    /// The task is being polled: the poller will see the queued flag.
    DeferredToPoller,
    /// Queue the DPC now.
    Enqueue,
}

/// Wakes a task: marks it queued, and queues its DPC unless a DPC is already
/// pending or the task is being polled.
pub fn wake(w: u32) -> (r: (u32, WakeAction))
    ensures
        r == spec_wake(w),
{
    if (w & STATUS_MASK) != 0 {
        return (w, WakeAction::Ignored);
    }
    let next = w | FLAG_DPC_QUEUED;
    if (w & FLAG_DPC_QUEUED) != 0 {
        return (next, WakeAction::AlreadyQueued);
    }
    if (w & FLAG_POLLING) == 0 {
        (next, WakeAction::Enqueue)
    } else {
        (next, WakeAction::DeferredToPoller)
    }
}

/// Completes a task: the status becomes `Completed` and the future is marked
/// dropped; every other flag is cleared.
pub fn complete_word(w: u32) -> (r: u32)
    ensures
        r == (1u32 | FLAG_FUTURE_DROPPED),
        spec_status_from_raw(status_bits(r)) == AsyncStatus::Completed,
        is_future_dropped(r),
        !is_polling(r),
        !is_queued(r),
{
    let r: u32 = 1u32 | FLAG_FUTURE_DROPPED;
    assert(r & 0xFFFF == 1 && r & 0x2000_0000 != 0 && r & 0x8000_0000 == 0 && r & 0x4000_0000
        == 0) by (bit_vector)
        requires
            r == 1u32 | 0x2000_0000u32,
    ;
    r
}

/// What the DPC callback does before polling.
#[derive(Clone, Copy, Debug, PartialEq, Eq, Structural)]
pub enum DpcEntry {
    /// The task is not started or another poller holds it: return.
    Skip,
    /// Poll the future, holding the polling flag.
    Poll,
}

pub fn dpc_entry(w: u32) -> (r: (u32, DpcEntry))
    ensures
        r.1 == DpcEntry::Poll <==> (is_started(w) && !is_polling(w)),
        r.1 == DpcEntry::Poll ==> r.0 == (w | FLAG_POLLING),
        r.1 == DpcEntry::Skip ==> r.0 == w,
{
    if (w & STATUS_MASK) != 0 {
        return (w, DpcEntry::Skip);
    }
    let (ok, next) = try_set_polling(w);
    if ok {
        (next, DpcEntry::Poll)
    } else {
        (w, DpcEntry::Skip)
    }
}

/// What the DPC callback does after a poll that returned pending.
#[derive(Clone, Copy, Debug, PartialEq, Eq, Structural)]
pub enum PendingStep {
    /// Poll again, with one poll fewer left.
    PollAgain,
    /// Stop: run `finish_pending`.
    Finish,
}

/// After a pending poll: if no wake came in, or the budget is spent, finish;
/// otherwise consume the wake and poll again.
pub fn after_pending_poll(w: u32, polls_left: u32) -> (r: (u32, u32, PendingStep))
    ensures
        !is_queued(w) || polls_left == 0 ==> r == (w, polls_left, PendingStep::Finish),
        is_queued(w) && polls_left > 0 ==> r == (w & !FLAG_DPC_QUEUED, (polls_left - 1) as u32,
        PendingStep::PollAgain),
{
    if (w & FLAG_DPC_QUEUED) == 0 {
        return (w, polls_left, PendingStep::Finish);
    }
    if polls_left == 0 {
        return (w, polls_left, PendingStep::Finish);
    }
    (w & !FLAG_DPC_QUEUED, polls_left - 1, PendingStep::PollAgain)
}

/// The status code `GetResult` answers for a fused task's word.
pub open spec fn spec_fused_result_code(w: u32) -> NTSTATUS {
    match spec_status_from_raw(status_bits(w)) {
        AsyncStatus::Completed => STATUS_SUCCESS,
        AsyncStatus::Started => STATUS_PENDING,
        AsyncStatus::Canceled => STATUS_CANCELLED,
        AsyncStatus::Error => STATUS_UNSUCCESSFUL,
    }
}

pub fn fused_result_code(w: u32) -> (r: NTSTATUS)
    ensures
        r == spec_fused_result_code(w),
{
    match word_status(w) {
        AsyncStatus::Completed => STATUS_SUCCESS,
        AsyncStatus::Started => STATUS_PENDING,
        AsyncStatus::Canceled => STATUS_CANCELLED,
        AsyncStatus::Error => STATUS_UNSUCCESSFUL,
    }
}

/// Whether the last release must drop the future before freeing the task.
pub fn release_drops_future(w: u32) -> (r: bool)
    ensures
        r == !is_future_dropped(w),
{
    (w & FLAG_FUTURE_DROPPED) == 0
}

/// The status word and reference count of a fused task when it is spawned:
/// started and held by the spawner's first poll, with one reference for the
/// caller and one for the task itself. Without memory the spawn fails with
/// `STATUS_INSUFFICIENT_RESOURCES`; a failed initializer's error is returned
/// (the block is given back).
pub fn spawn_state(allocated: bool, init: Result<(), NTSTATUS>) -> (r: Result<(u32, u32), NTSTATUS>)
    ensures
        !allocated ==> r == Err::<(u32, u32), NTSTATUS>(STATUS_INSUFFICIENT_RESOURCES),
        allocated && init is Err ==> r == Err::<(u32, u32), NTSTATUS>(init->Err_0),
        allocated && init is Ok ==> r == Ok::<(u32, u32), NTSTATUS>((FLAG_POLLING, 2u32)),
        r matches Ok((w, _)) ==> is_started(w) && is_polling(w) && !is_queued(w),
{
    if !allocated {
        return Err(STATUS_INSUFFICIENT_RESOURCES);
    }
    match init {
        Err(e) => Err(e),
        Ok(()) => {
            let w = initial_word();
            Ok((w, 2))
        },
    }
}

/// The end of the spawner's first poll: a ready future completes the task
/// and drops the task's own reference; a pending one ends the poll, and asks
/// for the DPC when a wake arrived during it.
pub fn after_first_poll(w: u32, refs: u32, ready: bool) -> (r: (u32, u32, bool))
    requires
        refs > 0,
    ensures
        ready ==> r == (1u32 | FLAG_FUTURE_DROPPED, (refs - 1) as u32, false),
        !ready ==> r == (spec_finish_pending(w).0, refs, spec_finish_pending(w).1),
{
    if ready {
        (complete_word(w), refs - 1, false)
    } else {
        let (next, requeue) = finish_pending(w);
        (next, refs, requeue)
    }
}

/// The transition of `try_set_polling`.
pub open spec fn spec_try_set_polling(w: u32) -> (bool, u32) {
    if !is_polling(w) && is_started(w) {
        (true, w | FLAG_POLLING)
    } else {
        (false, w)
    }
}

/// The transition of `finish_pending`.
pub open spec fn spec_finish_pending(w: u32) -> (u32, bool) {
    (w & !(FLAG_POLLING | FLAG_DPC_QUEUED), is_queued(w))
}

/// The transition of `wake`.
pub open spec fn spec_wake(w: u32) -> (u32, WakeAction) {
    if !is_started(w) {
        (w, WakeAction::Ignored)
    } else if is_queued(w) {
        (w | FLAG_DPC_QUEUED, WakeAction::AlreadyQueued)
    } else if is_polling(w) {
        (w | FLAG_DPC_QUEUED, WakeAction::DeferredToPoller)
    } else {
        (w | FLAG_DPC_QUEUED, WakeAction::Enqueue)
    }
}

proof fn lemma_bits(w: u32)
    ensures
        (w | FLAG_POLLING) & STATUS_MASK == w & STATUS_MASK,
        (w | FLAG_DPC_QUEUED) & STATUS_MASK == w & STATUS_MASK,
        (w & !(FLAG_POLLING | FLAG_DPC_QUEUED)) & STATUS_MASK == w & STATUS_MASK,
        (w & !FLAG_DPC_QUEUED) & STATUS_MASK == w & STATUS_MASK,
        (w | FLAG_POLLING) & FLAG_POLLING != 0,
        (w | FLAG_DPC_QUEUED) & FLAG_DPC_QUEUED != 0,
        ((w | FLAG_DPC_QUEUED) & FLAG_POLLING != 0) == (w & FLAG_POLLING != 0),
        ((w | FLAG_POLLING) & FLAG_DPC_QUEUED != 0) == (w & FLAG_DPC_QUEUED != 0),
        (w & !(FLAG_POLLING | FLAG_DPC_QUEUED)) & FLAG_POLLING == 0,
        (w & !(FLAG_POLLING | FLAG_DPC_QUEUED)) & FLAG_DPC_QUEUED == 0,
        (w & !FLAG_DPC_QUEUED) & FLAG_DPC_QUEUED == 0,
        ((w & !FLAG_DPC_QUEUED) & FLAG_POLLING != 0) == (w & FLAG_POLLING != 0),
{
    assert((w | 0x8000_0000u32) & 0xFFFFu32 == w & 0xFFFFu32) by (bit_vector);
    assert((w | 0x4000_0000u32) & 0xFFFFu32 == w & 0xFFFFu32) by (bit_vector);
    assert((w & !(0x8000_0000u32 | 0x4000_0000u32)) & 0xFFFFu32 == w & 0xFFFFu32) by (bit_vector);
    assert((w & !0x4000_0000u32) & 0xFFFFu32 == w & 0xFFFFu32) by (bit_vector);
    assert((w | 0x8000_0000u32) & 0x8000_0000u32 != 0) by (bit_vector);
    assert((w | 0x4000_0000u32) & 0x4000_0000u32 != 0) by (bit_vector);
    assert(((w | 0x4000_0000u32) & 0x8000_0000u32 != 0) == (w & 0x8000_0000u32 != 0))
        by (bit_vector);
    assert(((w | 0x8000_0000u32) & 0x4000_0000u32 != 0) == (w & 0x4000_0000u32 != 0))
        by (bit_vector);
    assert((w & !(0x8000_0000u32 | 0x4000_0000u32)) & 0x8000_0000u32 == 0) by (bit_vector);
    assert((w & !(0x8000_0000u32 | 0x4000_0000u32)) & 0x4000_0000u32 == 0) by (bit_vector);
    assert((w & !0x4000_0000u32) & 0x4000_0000u32 == 0) by (bit_vector);
    assert(((w & !0x4000_0000u32) & 0x8000_0000u32 != 0) == (w & 0x8000_0000u32 != 0))
        by (bit_vector);
}

/// The flag transitions (claim, wake, finish, consuming a wake) never change
/// the status of a task.
pub proof fn lemma_flags_preserve_status(w: u32)
    ensures
        status_bits(spec_try_set_polling(w).1) == status_bits(w),
        status_bits(spec_wake(w).0) == status_bits(w),
        status_bits(spec_finish_pending(w).0) == status_bits(w),
        status_bits(w & !FLAG_DPC_QUEUED) == status_bits(w),
{
    lemma_bits(w);
}

/// One poller at a time: after a successful claim a second claim fails, and
/// `finish_pending` gives the claim back, leaving the task claimable again.
pub proof fn lemma_single_poller(w: u32)
    requires
        spec_try_set_polling(w).0,
    ensures
        !spec_try_set_polling(spec_try_set_polling(w).1).0,
        spec_try_set_polling(spec_finish_pending(spec_try_set_polling(w).1).0).0,
{
    lemma_bits(w);
    lemma_bits(w | FLAG_POLLING);
}

/// No lost wake-up: a wake that arrives while the task is being polled does
/// not queue a DPC itself, and the poller's `finish_pending` then reports that
/// the DPC must be queued.
pub proof fn lemma_no_lost_wakeup(w: u32)
    requires
        is_started(w),
        is_polling(w),
    ensures
        spec_wake(w).1 != WakeAction::Enqueue,
        spec_wake(w).1 != WakeAction::Ignored,
        spec_finish_pending(spec_wake(w).0).1,
        is_polling(spec_wake(w).0),
{
    lemma_bits(w);
}

/// A wake on an idle started task queues exactly one DPC: a second wake is
/// absorbed.
pub proof fn lemma_wake_idempotent(w: u32)
    requires
        is_started(w),
        !is_polling(w),
        !is_queued(w),
    ensures
        spec_wake(w).1 == WakeAction::Enqueue,
        spec_wake(spec_wake(w).0).1 == WakeAction::AlreadyQueued,
        spec_wake(spec_wake(w).0).0 == spec_wake(w).0,
{
    lemma_bits(w);
    assert((w | 0x4000_0000u32) | 0x4000_0000u32 == w | 0x4000_0000u32) by (bit_vector);
}

/// A completed task is final: wakes are ignored and no poller can claim it.
pub proof fn lemma_completed_is_final()
    ensures
        spec_wake(1u32 | FLAG_FUTURE_DROPPED) == (1u32 | FLAG_FUTURE_DROPPED, WakeAction::Ignored),
        !spec_try_set_polling(1u32 | FLAG_FUTURE_DROPPED).0,
        spec_fused_result_code(1u32 | FLAG_FUTURE_DROPPED) == STATUS_SUCCESS,
{
    assert((1u32 | 0x2000_0000u32) & 0xFFFFu32 == 1) by (bit_vector);
}

/// Alignment of every slab block.
pub const SLAB_ALIGN: usize = 64;
pub const SLAB_COUNT: usize = 5;
/// Bytes in front of an aligned block that record the raw allocation.
pub const SLAB_HEADER_SIZE: usize = 8;
/// The pool tag `b"KCFU"` of slab blocks.
pub const SLAB_TAG: u32 = 1430668107;
/// The pool tag `b"KCFH"` of tasks too large for a slab.
pub const HEAP_TAG: u32 = 1212564299;

/// The block size of each slab bin: 128, 256, 512, 1024, 2048 bytes.
pub open spec fn spec_slab_size(i: int) -> int {
    if i == 0 {
        128
    } else if i == 1 {
        256
    } else if i == 2 {
        512
    } else if i == 3 {
        1024
    } else {
        2048
    }
}

pub fn slab_size(index: usize) -> (r: usize)
    requires
        index < SLAB_COUNT,
    ensures
        r == spec_slab_size(index as int),
{
    if index == 0 {
        128
    } else if index == 1 {
        256
    } else if index == 2 {
        512
    } else if index == 3 {
        1024
    } else {
        2048
    }
}

/// The smallest slab bin that holds a task of `size` bytes aligned to
/// `align`; `None` when the alignment exceeds 64 or the task exceeds 2048
/// bytes.
pub fn select_bin(size: usize, align: usize) -> (r: Option<usize>)
    ensures
        align > SLAB_ALIGN || size > 2048 ==> r is None,
        align <= SLAB_ALIGN && size <= 2048 ==> r is Some && r->0 < SLAB_COUNT
            && size <= spec_slab_size(r->0 as int) && (r->0 > 0 ==> size > spec_slab_size(
            r->0 - 1,
        )),
{
    if align > SLAB_ALIGN {
        return None;
    }
    if size <= 128 {
        return Some(0);
    }
    if size <= 256 {
        return Some(1);
    }
    if size <= 512 {
        return Some(2);
    }
    if size <= 1024 {
        return Some(3);
    }
    if size <= 2048 {
        return Some(4);
    }
    None
}

pub open spec fn is_pow2(a: usize) -> bool {
    a != 0 && a & ((a - 1) as usize) == 0
}

/// Bytes requested from the kernel for an over-aligned block: the size, the
/// alignment slack and the header; `None` on overflow.
pub fn aligned_alloc_total(size: usize, align: usize) -> (r: Option<usize>)
    ensures
        size + align + SLAB_HEADER_SIZE <= usize::MAX ==> r == Some(
            (size + align + SLAB_HEADER_SIZE) as usize,
        ),
        size + align + SLAB_HEADER_SIZE > usize::MAX ==> r is None,
{
    match size.checked_add(align) {
        Some(v) => v.checked_add(SLAB_HEADER_SIZE),
        None => None,
    }
}

proof fn lemma_align_up(x: usize, m: usize, y: usize, a: usize)
    requires
        a != 0,
        m == a - 1,
        a & m == 0,
        y == x + m,
    ensures
        x <= y & !m,
        y & !m <= y,
        (y & !m) & m == 0,
{
    assert((y & !m) & m == 0) by (bit_vector);
    assert(y & !m <= y) by (bit_vector);
    assert(x <= y & !m) by (bit_vector)
        requires
            m + 1 == a,
            a & m == 0,
            y == x + m,
    ;
}

/// `p` is a multiple of the power of two `align`.
pub open spec fn is_aligned(p: usize, align: usize) -> bool {
    p & ((align - 1) as usize) == 0
}

/// Places an over-aligned block inside a raw allocation starting at `base`:
/// the first address after the header that is a multiple of `align`. The
/// header just before it records `base`. `None` when the address arithmetic
/// overflows (the raw allocation is then given back).
pub fn aligned_placement(base: usize, align: usize) -> (r: Option<usize>)
    requires
        is_pow2(align),
    ensures
        r is Some <==> base + SLAB_HEADER_SIZE + (align - 1) <= usize::MAX,
        r matches Some(p) ==> is_aligned(p, align) && base + SLAB_HEADER_SIZE <= p && p
            <= base + SLAB_HEADER_SIZE + (align - 1),
{
    let start = match base.checked_add(SLAB_HEADER_SIZE) {
        Some(v) => v,
        None => return None,
    };
    let bumped = match start.checked_add(align - 1) {
        Some(v) => v,
        None => return None,
    };
    let m = align - 1;
    proof {
        lemma_align_up(start, m, bumped, align);
    }
    Some(bumped & !m)
}

/// A block placed by `aligned_placement` in a raw allocation of
/// `aligned_alloc_total(size, align)` bytes lies, with its header, inside that
/// allocation.
pub proof fn lemma_aligned_block_fits(base: usize, size: usize, align: usize, p: usize)
    requires
        align >= 1,
        base + SLAB_HEADER_SIZE <= p <= base + SLAB_HEADER_SIZE + (align - 1),
    ensures
        base <= p - SLAB_HEADER_SIZE,
        p + size <= base + (size + align + SLAB_HEADER_SIZE),
{
}

/// The per-processor free list serving slab bin `index` on processor slot
/// `cpu_index`: lists are laid out bin by bin, one per processor, and slots
/// past the processor count wrap around.
pub fn slab_list_index(index: usize, cpu_index: usize, cpu_count: usize) -> (r: usize)
    requires
        cpu_count > 0,
        index < SLAB_COUNT,
        SLAB_COUNT * cpu_count <= usize::MAX,
    ensures
        r == index * cpu_count + cpu_index % cpu_count,
        r < SLAB_COUNT * cpu_count,
{
    let cpu = if cpu_index < cpu_count {
        cpu_index
    } else {
        cpu_index % cpu_count
    };
    assert(cpu == cpu_index % cpu_count) by {
        if cpu_index < cpu_count {
            vstd::arithmetic::div_mod::lemma_small_mod(cpu_index as nat, cpu_count as nat);
        }
    }
    assert(index * cpu_count + cpu < SLAB_COUNT * cpu_count) by (nonlinear_arith)
        requires
            index < SLAB_COUNT,
            cpu < cpu_count,
    ;
    index * cpu_count + cpu
}

/// The number of free lists and their byte size for `cpu_count` processors,
/// or `None` (slab initialization failure) for zero processors or overflow.
pub fn slab_lists_layout(cpu_count: usize, list_header_size: usize) -> (r: Option<(usize, usize)>)
    ensures
        cpu_count == 0 || SLAB_COUNT * cpu_count > usize::MAX || SLAB_COUNT * cpu_count
            * list_header_size > usize::MAX ==> r is None,
        cpu_count != 0 && SLAB_COUNT * cpu_count <= usize::MAX && SLAB_COUNT * cpu_count
            * list_header_size <= usize::MAX ==> r == Some(
            ((SLAB_COUNT * cpu_count) as usize, (SLAB_COUNT * cpu_count * list_header_size) as usize),
        ),
{
    if cpu_count == 0 {
        return None;
    }
    let total = match SLAB_COUNT.checked_mul(cpu_count) {
        Some(v) => v,
        None => return None,
    };
    match total.checked_mul(list_header_size) {
        Some(bytes) => Some((total, bytes)),
        None => None,
    }
}

/// `PASSIVE_LEVEL`.
pub const PASSIVE_LEVEL: u8 = 0;

pub const SLABS_STATE_UNINIT: u32 = 0;
pub const SLABS_STATE_INITING: u32 = 1;
pub const SLABS_STATE_READY: u32 = 2;

/// What `ensure_slabs_ready` does in a given slab state.
#[derive(Clone, Copy, Debug, PartialEq, Eq, Structural)]
pub enum SlabsStep {
    /// The slabs are ready.
    Ready,
    /// Another caller is initializing: spin until ready.
    Wait,
    /// This caller initializes (at PASSIVE_LEVEL only), then calls
    /// `slabs_initialized`.
    Initialize,
}

/// The slab initialization state.
#[derive(Clone, Copy, Debug)]
pub struct SlabsState {
    pub state: u32,
    pub cpu_count: usize,
}

impl SlabsState {
    pub fn new() -> (s: Self)
        ensures
            s.state == SLABS_STATE_UNINIT,
            s.cpu_count == 0,
    {
        SlabsState { state: SLABS_STATE_UNINIT, cpu_count: 0 }
    }

    /// Decides the caller's part at interrupt level `irql`; an uninitialized
    /// state is claimed, which only a caller at `PASSIVE_LEVEL` may do (the
    /// kernel build stops the machine otherwise).
    pub fn ensure_ready(&mut self, irql: u8) -> (r: SlabsStep)
        requires
            old(self).state != SLABS_STATE_READY && old(self).state != SLABS_STATE_INITING ==> irql
                == PASSIVE_LEVEL,
        ensures
            old(self).state == SLABS_STATE_READY ==> r == SlabsStep::Ready && *final(self) == *old(
                self),
            old(self).state == SLABS_STATE_INITING ==> r == SlabsStep::Wait && *final(self)
                == *old(self),
            old(self).state != SLABS_STATE_READY && old(self).state != SLABS_STATE_INITING ==> r
                == SlabsStep::Initialize && *final(self) == (SlabsState {
                state: SLABS_STATE_INITING,
                ..*old(self)
            }),
    {
        if self.state == SLABS_STATE_READY {
            return SlabsStep::Ready;
        }
        if self.state == SLABS_STATE_INITING {
            return SlabsStep::Wait;
        }
        self.state = SLABS_STATE_INITING;
        SlabsStep::Initialize
    }

    /// Publishes the initialized free lists.
    pub fn slabs_initialized(&mut self, cpu_count: usize)
        requires
            cpu_count > 0,
        ensures
            final(self).state == SLABS_STATE_READY,
            final(self).cpu_count == cpu_count,
    {
        self.cpu_count = cpu_count;
        self.state = SLABS_STATE_READY;
    }
}

} // verus!
