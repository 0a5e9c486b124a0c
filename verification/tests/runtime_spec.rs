use kcom::allocator::{
    init_box_with_tag, try_alloc_layout, try_pin_init_outcome, KBoxError, PinInitOnce, PoolCall,
    PoolType, WdkAllocator,
};
use kcom::async_com::fused::{
    aligned_alloc_total, aligned_placement, select_bin, slab_list_index, slab_lists_layout,
    slab_size, SlabsState, SlabsStep, SLABS_STATE_READY,
};
use kcom::async_com::pool::{
    alloc_route, dealloc_route, init_async_com_pool_for, set_async_com_pool_depth,
    set_async_com_pool_tag, AllocRoute, AsyncComPool, AsyncComPoolConfig, PoolInit,
    DEFAULT_ASYNC_COM_POOL_TAG,
};
use kcom::async_com_metrics::{
    inc_dpc_enqueued, inc_slab_miss, reset_async_com_metrics, snapshot_async_com_metrics,
    AsyncComMetrics,
};
use kcom::iunknown::{STATUS_INSUFFICIENT_RESOURCES, STATUS_PENDING, STATUS_UNSUCCESSFUL};
use kcom::refcount::{add, sub, MAX_REFCOUNT};
use kcom::task::{try_finally, PollTarget};
use kcom::trace::{ensure_report, report_error, report_error_msg};
use kcom::{PendingResult, Status, STATUS_INVALID_PARAMETER, STATUS_SUCCESS};

#[test]
fn status_conversions() {
    let s = Status::from_raw(STATUS_UNSUCCESSFUL);
    assert!(s.is_error());
    assert!(!s.is_success());
    assert_eq!(s.into_raw(), STATUS_UNSUCCESSFUL);
    assert_eq!(s.to_result(), Err(s));
    assert_eq!(Status::from_raw(STATUS_SUCCESS).to_result(), Ok(()));
    assert_eq!(
        Status::from_raw(STATUS_PENDING).to_pending_result(),
        Ok(PendingResult::Pending)
    );
    assert_eq!(
        Status::from_raw(STATUS_SUCCESS).to_pending_result(),
        Ok(PendingResult::Ready(()))
    );
    assert_eq!(Status::from(STATUS_INVALID_PARAMETER).0, STATUS_INVALID_PARAMETER);
    let raw: i32 = Status(7).into();
    assert_eq!(raw, 7);
}

#[test]
fn refcount_add_and_sub() {
    let mut c: u32 = 1;
    assert_eq!(add(&mut c), 2);
    assert_eq!(sub(&mut c), 1);
    assert_eq!(sub(&mut c), 0);
    let mut high: u32 = MAX_REFCOUNT - 1;
    assert_eq!(add(&mut high), MAX_REFCOUNT);
}

#[test]
fn report_error_formats_like_std() {
    let text = report_error("src/lib.rs", 42, STATUS_UNSUCCESSFUL);
    assert_eq!(text, format!("kcom error {:#x} at {}:{}", STATUS_UNSUCCESSFUL, "src/lib.rs", 42));
    assert_eq!(text, "kcom error 0xc0000001 at src/lib.rs:42");
    assert_eq!(report_error("a.rs", 0, 0), "kcom error 0x0 at a.rs:0");
}

#[test]
fn ensure_reports_trace_when_debug() {
    let msg = format!("boom {}", 7);
    let (status, report) = ensure_report(false, STATUS_UNSUCCESSFUL, "t.rs", 7, &msg).unwrap_err();
    assert_eq!(status, STATUS_UNSUCCESSFUL);
    assert!(report.contains("kcom error"));
    assert!(report.contains("boom 7"));
    assert_eq!(report, report_error_msg("t.rs", 7, STATUS_UNSUCCESSFUL, &msg));
    assert_eq!(report, "kcom error 0xc0000001 at t.rs:7 - boom 7");
    assert_eq!(ensure_report(true, STATUS_UNSUCCESSFUL, "t.rs", 7, &msg), Ok(()));
}

#[test]
fn metrics_count_and_reset() {
    let mut m = AsyncComMetrics::default();
    inc_dpc_enqueued(&mut m);
    inc_dpc_enqueued(&mut m);
    inc_slab_miss(&mut m);
    let snap = snapshot_async_com_metrics(&m);
    assert_eq!((snap.dpc_enqueued, snap.slab_miss, snap.dpc_run), (2, 1, 0));
    m.poll_total = u64::MAX;
    kcom::async_com_metrics::inc_poll_total(&mut m);
    assert_eq!(m.poll_total, 0);
    reset_async_com_metrics(&mut m);
    assert_eq!(m.dpc_enqueued, 0);
    assert_eq!(m.slab_miss, 0);
}

#[test]
fn slab_bins_and_layout() {
    assert_eq!(select_bin(1, 8), Some(0));
    assert_eq!(select_bin(128, 64), Some(0));
    assert_eq!(select_bin(129, 8), Some(1));
    assert_eq!(select_bin(2048, 8), Some(4));
    assert_eq!(select_bin(2049, 8), None);
    assert_eq!(select_bin(64, 128), None);
    assert_eq!(slab_size(3), 1024);
    assert_eq!(aligned_alloc_total(100, 128), Some(236));
    assert_eq!(aligned_alloc_total(usize::MAX, 128), None);
    assert_eq!(aligned_placement(0x1000, 128), Some(0x1080));
    assert_eq!(aligned_placement(0x1078, 128), Some(0x1080));
    assert_eq!(aligned_placement(usize::MAX - 4, 128), None);
    assert_eq!(slab_list_index(2, 5, 4), 9);
    assert_eq!(slab_lists_layout(4, 16), Some((20, 320)));
    assert_eq!(slab_lists_layout(0, 16), None);
}

#[test]
fn slab_initialization_runs_once() {
    let mut s = SlabsState::new();
    assert_eq!(s.ensure_ready(0), SlabsStep::Initialize);
    assert_eq!(s.ensure_ready(0), SlabsStep::Wait);
    s.slabs_initialized(4);
    assert_eq!(s.state, SLABS_STATE_READY);
    // a ready pool serves callers at any level
    assert_eq!(s.ensure_ready(2), SlabsStep::Ready);
}

#[test]
fn pool_config_and_init() {
    let mut cfg = AsyncComPoolConfig::new();
    assert_eq!(cfg.depth(), 128);
    assert_eq!(cfg.tag(), DEFAULT_ASYNC_COM_POOL_TAG);
    set_async_com_pool_depth(&mut cfg, 32);
    set_async_com_pool_tag(&mut cfg, 7);
    assert_eq!((cfg.depth(), cfg.tag()), (32, 7));

    let mut pool = AsyncComPool::new();
    assert!(!pool.is_ready());
    assert_eq!(init_async_com_pool_for(&mut pool, &cfg, STATUS_SUCCESS), (STATUS_SUCCESS, Some((32, 7))));
    assert!(pool.is_ready());
    assert_eq!(init_async_com_pool_for(&mut pool, &cfg, STATUS_UNSUCCESSFUL), (STATUS_SUCCESS, None));
    assert_eq!(pool.begin_init(&cfg), PoolInit::Ready);
    assert!(pool.shutdown());
    assert!(!pool.shutdown());
    assert_eq!(
        pool.begin_init(&AsyncComPoolConfig::new()),
        PoolInit::Initialize { depth: 128, tag: DEFAULT_ASYNC_COM_POOL_TAG }
    );

    let mut failed = AsyncComPool::new();
    assert_eq!(
        init_async_com_pool_for(&mut failed, &cfg, STATUS_INSUFFICIENT_RESOURCES).0,
        STATUS_INSUFFICIENT_RESOURCES
    );
    assert_eq!(
        init_async_com_pool_for(&mut failed, &cfg, STATUS_SUCCESS),
        (STATUS_INSUFFICIENT_RESOURCES, None)
    );
    assert_eq!(failed.begin_init(&cfg), PoolInit::Failed(STATUS_INSUFFICIENT_RESOURCES));
}

#[test]
fn pool_routes_requests() {
    assert_eq!(alloc_route(0, 8, 64, 8, STATUS_SUCCESS), AllocRoute::Dangling);
    assert_eq!(alloc_route(64, 8, 64, 8, STATUS_SUCCESS), AllocRoute::Lookaside);
    assert_eq!(alloc_route(64, 8, 64, 8, STATUS_UNSUCCESSFUL), AllocRoute::Fallback);
    assert_eq!(alloc_route(32, 8, 64, 8, STATUS_SUCCESS), AllocRoute::Fallback);
    assert_eq!(dealloc_route(true, 64, 8, 64, 8, true), None);
    assert_eq!(dealloc_route(false, 64, 8, 64, 8, true), Some(AllocRoute::Lookaside));
    assert_eq!(dealloc_route(false, 64, 8, 64, 8, false), Some(AllocRoute::Fallback));
}

#[test]
fn cancellable_runs_cleanup_after_cancel() {
    let mut c = try_finally(1u32, 2u32);
    assert_eq!(c.begin_poll(false), PollTarget::Main);
    assert_eq!(*c.main_mut(), 1);
    assert_eq!(c.begin_poll(true), PollTarget::Cleanup);
    assert_eq!(c.begin_poll(false), PollTarget::Cleanup);
    assert_eq!(*c.cleanup_mut(), 2);
    assert_eq!(c.after_cleanup_poll::<u64>(false), None);
    assert_eq!(c.begin_poll(false), PollTarget::Cleanup);
    assert_eq!(c.after_cleanup_poll::<u64>(true), Some(None));
}

#[test]
fn cancellable_main_completion_skips_cleanup() {
    let mut c = try_finally(1u32, 2u32);
    assert_eq!(c.begin_poll(false), PollTarget::Main);
    assert_eq!(c.after_main_poll(Some(42u64)), Some(Some(42)));
}

#[test]
fn cancellable_pending_while_main_pending() {
    let mut c = try_finally(1u32, 2u32);
    for _ in 0..3 {
        assert_eq!(c.begin_poll(false), PollTarget::Main);
        assert_eq!(c.after_main_poll::<u64>(None), None);
    }
    assert_eq!(c.begin_poll(false), PollTarget::Main);
    assert_eq!(c.after_main_poll(Some(7u64)), Some(Some(7)));
}

#[test]
fn allocator_pool_calls() {
    let a = WdkAllocator::new(PoolType::NonPagedNx, 0x6b636f6d);
    assert_eq!(a.alloc_call(0, true), PoolCall::Dangling);
    assert_eq!(
        a.alloc_call(48, true),
        PoolCall::Pool2 { flags: 0x40, size: 48, tag: 0x6b636f6d }
    );
    assert_eq!(
        a.alloc_call(48, false),
        PoolCall::WithTag { pool_type: 512, size: 48, tag: 0x6b636f6d }
    );
    let p = WdkAllocator::new(PoolType::Paged, 1);
    assert_eq!(p.alloc_call(8, true), PoolCall::Pool2 { flags: 1, size: 8, tag: 1 });
    assert!(p.dealloc_frees(8));
    assert!(!p.dealloc_frees(0));
}

#[test]
fn allocation_failures_report_status() {
    assert_eq!(try_alloc_layout(0), Err(STATUS_INSUFFICIENT_RESOURCES));
    assert_eq!(try_alloc_layout(0x100), Ok(0x100));
    let alloc_failed = try_pin_init_outcome::<Status>(0, Ok(()));
    assert!(matches!(alloc_failed, Err(KBoxError::Alloc(STATUS_INSUFFICIENT_RESOURCES))));
    let init_failed = try_pin_init_outcome(0x100, Err(Status(STATUS_INVALID_PARAMETER)));
    let status = match init_failed {
        Err(e) => e.into_status(),
        Ok(_) => STATUS_SUCCESS,
    };
    assert_eq!(status, STATUS_INVALID_PARAMETER);
    assert_eq!(try_pin_init_outcome::<Status>(0x100, Ok(())).ok(), Some(0x100));
}

#[test]
fn init_box_keeps_allocator_and_initializer() {
    let b = init_box_with_tag::<u64, Status, u32>(PoolType::Paged, 9, 5u32);
    let (alloc, init) = b.into_components();
    assert_eq!(alloc.pool, PoolType::Paged);
    assert_eq!(alloc.tag, 9);
    assert_eq!(init, 5);
    let mut once = PinInitOnce::new(3u8);
    assert_eq!(once.take(), 3);
}

struct FixedAllocator {
    block: usize,
    freed: std::cell::Cell<usize>,
}

impl kcom::allocator::Allocator for FixedAllocator {
    fn gave(&self, _size: usize, _align: usize, addr: usize) -> bool {
        addr == self.block
    }

    fn allocate(&self, _size: usize, _align: usize) -> usize {
        self.block
    }

    fn deallocate(&self, addr: usize, _size: usize, _align: usize) {
        self.freed.set(addr);
    }
}

struct RecordingInit {
    fail: bool,
    seen: std::rc::Rc<std::cell::Cell<usize>>,
}

impl kcom::allocator::PinInit<u64, Status> for RecordingInit {
    fn initializes(&self, _addr: usize) -> bool {
        !self.fail
    }

    fn init(&mut self, addr: usize) -> Result<(), Status> {
        self.seen.set(addr);
        if self.fail {
            Err(Status(STATUS_INVALID_PARAMETER))
        } else {
            Ok(())
        }
    }
}

#[test]
fn kbox_try_pin_init_outcomes() {
    let seen = std::rc::Rc::new(std::cell::Cell::new(0));
    let ok = kcom::allocator::KBox::<u64, FixedAllocator>::try_pin_init(
        FixedAllocator { block: 0x4000, freed: std::cell::Cell::new(0) },
        RecordingInit { fail: false, seen: seen.clone() },
    );
    let b = match ok {
        Ok(b) => b,
        Err(_) => panic!("expected a box"),
    };
    assert_eq!(b.as_ptr(), 0x4000);
    assert_eq!(seen.get(), 0x4000);
    let (addr, _alloc, layout) = b.into_raw_parts();
    assert_eq!((addr, layout), (0x4000, (8, 8)));

    seen.set(0);
    let none = kcom::allocator::KBox::<u64, FixedAllocator>::try_pin_init(
        FixedAllocator { block: 0, freed: std::cell::Cell::new(0) },
        RecordingInit { fail: false, seen: seen.clone() },
    );
    assert!(matches!(none, Err(KBoxError::Alloc(STATUS_INSUFFICIENT_RESOURCES))));
    assert_eq!(seen.get(), 0);

    let failed = kcom::allocator::KBox::<u64, FixedAllocator>::try_pin_init(
        FixedAllocator { block: 0x8000, freed: std::cell::Cell::new(0) },
        RecordingInit { fail: true, seen: seen.clone() },
    );
    assert!(matches!(failed, Err(KBoxError::Init(Status(STATUS_INVALID_PARAMETER)))));
    assert_eq!(seen.get(), 0x8000);
}

#[test]
fn enqueued_counter_counts_increments() {
    let mut m = AsyncComMetrics::default();
    m.dpc_run = 4;
    inc_dpc_enqueued(&mut m);
    let a = snapshot_async_com_metrics(&m);
    for _ in 0..3 {
        inc_dpc_enqueued(&mut m);
    }
    let b = snapshot_async_com_metrics(&m);
    assert_eq!(b.dpc_enqueued, a.dpc_enqueued + 3);
    assert_eq!((b.dpc_run, b.dpc_skipped, b.slab_miss), (a.dpc_run, a.dpc_skipped, a.slab_miss));
}

#[test]
fn pool_repeats_its_first_outcome() {
    let cfg = AsyncComPoolConfig::new();
    let mut pool = AsyncComPool::new();
    let first = init_async_com_pool_for(&mut pool, &cfg, STATUS_UNSUCCESSFUL).0;
    for _ in 0..2 {
        assert_eq!(init_async_com_pool_for(&mut pool, &cfg, STATUS_SUCCESS), (first, None));
    }
}
