//! The lookaside pool that serves async COM objects of one layout: its
//! configuration, its one-time initialization, and where each allocation and
//! free is routed.

use vstd::prelude::*;

use core::marker::PhantomData;

use crate::iunknown::{NTSTATUS, STATUS_SUCCESS};

verus! {

pub const DEFAULT_ASYNC_COM_POOL_DEPTH: u16 = 128;
/// The pool tag `b"acop"` read as a little-endian `u32`.
pub const DEFAULT_ASYNC_COM_POOL_TAG: u32 = 1886348129;

pub const STATE_UNINIT: u32 = 0;
pub const STATE_INITING: u32 = 1;
pub const STATE_READY: u32 = 2;
pub const STATE_FAILED: u32 = 3;

/// Depth and tag used when the pool is initialized.
#[derive(Clone, Copy, Debug)]
pub struct AsyncComPoolConfig {
    pub depth: u32,
    pub tag: u32,
}

impl AsyncComPoolConfig {
    pub fn new() -> (c: Self)
        ensures
            c.depth == DEFAULT_ASYNC_COM_POOL_DEPTH as u32,
            c.tag == DEFAULT_ASYNC_COM_POOL_TAG,
    {
        AsyncComPoolConfig { depth: DEFAULT_ASYNC_COM_POOL_DEPTH as u32, tag: DEFAULT_ASYNC_COM_POOL_TAG }
    }

    pub fn depth(&self) -> (d: u16)
        ensures
            d == self.depth as u16,
    {
        self.depth as u16
    }

    pub fn tag(&self) -> (t: u32)
        ensures
            t == self.tag,
    {
        self.tag
    }
}

/// Overrides the lookaside depth (takes effect at initialization).
pub fn set_async_com_pool_depth(cfg: &mut AsyncComPoolConfig, depth: u16)
    ensures
        final(cfg).depth == depth as u32,
        final(cfg).tag == old(cfg).tag,
{
    cfg.depth = depth as u32;
}

/// Overrides the pool tag (takes effect at initialization).
pub fn set_async_com_pool_tag(cfg: &mut AsyncComPoolConfig, tag: u32)
    ensures
        final(cfg).tag == tag,
        final(cfg).depth == old(cfg).depth,
{
    cfg.tag = tag;
}

/// The allocator that routes async COM objects of value type `T` to the pool.
pub struct AsyncComAlloc<T> {
    _marker: PhantomData<T>,
}

impl<T> AsyncComAlloc<T> {
    pub fn new() -> (a: Self) {
        AsyncComAlloc { _marker: PhantomData }
    }
}

/// The pool's initialization state and the status its initialization gave.
#[derive(Clone, Copy, Debug)]
pub struct AsyncComPool {
    pub state: u32,
    pub status: NTSTATUS,
}

/// The transition of `begin_init`.
pub open spec fn spec_begin_init(p: AsyncComPool, cfg: AsyncComPoolConfig) -> (AsyncComPool, PoolInit) {
    if p.state == STATE_READY {
        (p, PoolInit::Ready)
    } else if p.state == STATE_FAILED {
        (p, PoolInit::Failed(p.status))
    } else if p.state == STATE_INITING {
        (p, PoolInit::Busy)
    } else {
        (AsyncComPool { state: STATE_INITING, ..p }, PoolInit::Initialize {
            depth: cfg.depth as u16,
            tag: cfg.tag,
        })
    }
}

/// What `begin_init` decided.
#[derive(Clone, Copy, Debug, PartialEq, Eq, Structural)]
pub enum PoolInit {
    /// Initialized already: `STATUS_SUCCESS`.
    Ready,
    /// Initialization failed earlier with the stored status.
    Failed(NTSTATUS),
    /// Another caller is initializing: spin and retry.
    Busy,
    /// This caller must initialize the lookaside list with this depth and
    /// tag and report the outcome with `finish_init`.
    Initialize { depth: u16, tag: u32 },
}

impl AsyncComPool {
    /// A state an initialization can produce: one of the four states, a
    /// ready pool with a success status and a failed one with an error.
    pub open spec fn wf(&self) -> bool {
        &&& self.state <= STATE_FAILED
        &&& self.state == STATE_READY ==> self.status >= 0
        &&& self.state == STATE_FAILED ==> self.status < 0
    }

    pub fn new() -> (p: Self)
        ensures
            p.state == STATE_UNINIT,
            p.status == STATUS_SUCCESS,
            p.wf(),
    {
        AsyncComPool { state: STATE_UNINIT, status: STATUS_SUCCESS }
    }

    pub fn is_ready(&self) -> (r: bool)
        ensures
            r == (self.state == STATE_READY),
    {
        self.state == STATE_READY
    }

    pub fn begin_init(&mut self, cfg: &AsyncComPoolConfig) -> (r: PoolInit)
        ensures
            (*final(self), r) == spec_begin_init(*old(self), *cfg),
            old(self).wf() ==> final(self).wf(),
    {
        if self.state == STATE_READY {
            PoolInit::Ready
        } else if self.state == STATE_FAILED {
            PoolInit::Failed(self.status)
        } else if self.state == STATE_INITING {
            PoolInit::Busy
        } else {
            self.state = STATE_INITING;
            PoolInit::Initialize { depth: cfg.depth(), tag: cfg.tag() }
        }
    }

    /// Records the lookaside initialization outcome: ready on success,
    /// failed (for good) otherwise. Returns the status.
    pub fn finish_init(&mut self, status: NTSTATUS) -> (r: NTSTATUS)
        ensures
            r == status,
            final(self).status == status,
            final(self).state == (if status >= 0 {
                STATE_READY
            } else {
                STATE_FAILED
            }),
            final(self).wf(),
    {
        self.status = status;
        if status >= 0 {
            self.state = STATE_READY;
        } else {
            self.state = STATE_FAILED;
        }
        status
    }

    /// Tears the pool down if it is ready; true when the caller must delete
    /// the lookaside list.
    pub fn shutdown(&mut self) -> (r: bool)
        ensures
            r == (old(self).state == STATE_READY),
            r ==> *final(self) == (AsyncComPool { state: STATE_UNINIT, status: STATUS_SUCCESS }),
            !r ==> *final(self) == *old(self),
            old(self).wf() ==> final(self).wf(),
    {
        if self.state == STATE_READY {
            self.state = STATE_UNINIT;
            self.status = STATUS_SUCCESS;
            true
        } else {
            false
        }
    }
}

/// Initializes the pool with the configured depth and tag, given what the
/// lookaside initialization returns when it is run: an initialized pool
/// reports success, a failed one its stored status, an uninitialized one the
/// given status. The second result is the depth and tag the lookaside list is
/// initialized with, when it is.
pub fn init_async_com_pool_for(pool: &mut AsyncComPool, cfg: &AsyncComPoolConfig, lookaside_status: NTSTATUS) -> (r: (NTSTATUS, Option<(u16, u32)>))
    requires
        old(pool).state != STATE_INITING,
    ensures
        old(pool).state == STATE_READY ==> r == (STATUS_SUCCESS, None::<(u16, u32)>) && *final(pool)
            == *old(pool),
        old(pool).state == STATE_FAILED ==> r == (old(pool).status, None::<(u16, u32)>) && *final(
            pool) == *old(pool),
        old(pool).state != STATE_READY && old(pool).state != STATE_FAILED ==> r == (
            lookaside_status,
            Some((cfg.depth as u16, cfg.tag)),
        ) && final(pool).status == lookaside_status && final(pool).state == (
        if lookaside_status >= 0 {
            STATE_READY
        } else {
            STATE_FAILED
        }),
        old(pool).wf() ==> final(pool).wf(),
{
    match pool.begin_init(cfg) {
        PoolInit::Ready => (STATUS_SUCCESS, None),
        PoolInit::Failed(s) => (s, None),
        PoolInit::Busy => (STATUS_SUCCESS, None),
        PoolInit::Initialize { depth, tag } => (pool.finish_init(lookaside_status), Some((depth, tag))),
    }
}

/// Initialization happens once: after a successful initialization every
/// later attempt reports success without initializing again, and after a
/// failed one every later attempt reports the same failure.
pub proof fn lemma_pool_init_once(p: AsyncComPool, cfg: AsyncComPoolConfig, status: NTSTATUS)
    ensures
        ({
            let q = AsyncComPool {
                status,
                state: if status >= 0 {
                    STATE_READY
                } else {
                    STATE_FAILED
                },
            };
            &&& status >= 0 ==> spec_begin_init(q, cfg) == (q, PoolInit::Ready)
            &&& status < 0 ==> spec_begin_init(q, cfg) == (q, PoolInit::Failed(status))
        }),
{
}

/// A repeated initialization does not initialize again: a ready pool reports
/// success and a failed one the error its initialization gave.
pub proof fn lemma_pool_init_repeats(p: AsyncComPool, cfg: AsyncComPoolConfig)
    requires
        p.wf(),
        p.state == STATE_READY || p.state == STATE_FAILED,
    ensures
        p.state == STATE_READY ==> spec_begin_init(p, cfg) == (p, PoolInit::Ready),
        p.state == STATE_FAILED ==> spec_begin_init(p, cfg) == (p, PoolInit::Failed(p.status))
            && p.status < 0,
{
}

/// Where an allocation request goes.
#[derive(Clone, Copy, Debug, PartialEq, Eq, Structural)]
pub enum AllocRoute {
    /// Zero-sized: a dangling, well-aligned pointer.
    Dangling,
    /// Not the pool's layout, or the pool failed: the general kernel pool.
    Fallback,
    /// The lookaside list.
    Lookaside,
}

/// Routes an allocation of `size`/`align` given the pool's layout and its
/// initialization status.
pub fn alloc_route(size: usize, align: usize, pool_size: usize, pool_align: usize, init_status: NTSTATUS) -> (r: AllocRoute)
    ensures
        size == 0 ==> r == AllocRoute::Dangling,
        size != 0 && (size != pool_size || align != pool_align) ==> r == AllocRoute::Fallback,
        size != 0 && size == pool_size && align == pool_align ==> r == (if init_status < 0 {
            AllocRoute::Fallback
        } else {
            AllocRoute::Lookaside
        }),
{
    if size == 0 {
        return AllocRoute::Dangling;
    }
    if size != pool_size || align != pool_align {
        return AllocRoute::Fallback;
    }
    if init_status < 0 {
        return AllocRoute::Fallback;
    }
    AllocRoute::Lookaside
}

/// Where a free goes: nothing for null or zero-sized blocks, the lookaside
/// list for the pool's layout while the pool is ready, the kernel pool
/// otherwise.
pub fn dealloc_route(is_null: bool, size: usize, align: usize, pool_size: usize, pool_align: usize, ready: bool) -> (r: Option<AllocRoute>)
    ensures
        is_null || size == 0 ==> r is None,
        !is_null && size != 0 && (size != pool_size || align != pool_align || !ready) ==> r
            == Some(AllocRoute::Fallback),
        !is_null && size != 0 && size == pool_size && align == pool_align && ready ==> r == Some(
            AllocRoute::Lookaside,
        ),
{
    if is_null || size == 0 {
        return None;
    }
    if size != pool_size || align != pool_align || !ready {
        return Some(AllocRoute::Fallback);
    }
    Some(AllocRoute::Lookaside)
}

} // verus!
