//! Allocation policy: pool types and tags, the kernel pool call chosen for a
//! request, one-shot initializers, and the status an allocation or
//! initialization failure reports.

use vstd::prelude::*;

use core::marker::PhantomData;

use crate::iunknown::{IntoNtStatus, NTSTATUS, STATUS_INSUFFICIENT_RESOURCES};

verus! {

/// A source of memory blocks, each named by its address (0 names no block).
pub trait Allocator {
    /// Whether `addr` names a block this allocator handed out for `size`
    /// bytes aligned to `align`.
    spec fn gave(&self, size: usize, align: usize, addr: usize) -> bool;

    /// The address of a new block of `size` bytes aligned to `align`, or 0
    /// when none is available.
    fn allocate(&self, size: usize, align: usize) -> (addr: usize)
        ensures
            addr != 0 ==> self.gave(size, align, addr),
    ;

    /// Gives back a block that `allocate` returned for the same size and
    /// alignment.
    fn deallocate(&self, addr: usize, size: usize, align: usize);
}

/// Writes a value of type `T` in place into a block.
pub trait PinInit<T, E> {
    /// Whether a successful `init` of this initializer leaves its value at
    /// `addr`.
    spec fn initializes(&self, addr: usize) -> bool;

    /// Initializes the value at `addr`.
    fn init(&mut self, addr: usize) -> (r: Result<(), E>)
        ensures
            r is Ok ==> old(self).initializes(addr),
    ;
}

/// Why boxing a value in place failed.
pub enum KBoxError<E> {
    /// The allocation failed with this status.
    Alloc(NTSTATUS),
    /// The initializer failed with this error.
    Init(E),
}

impl<E: IntoNtStatus> KBoxError<E> {
    /// The status reported for the failure.
    pub fn into_status(self) -> (r: NTSTATUS)
        ensures
            r == match self {
                KBoxError::Alloc(s) => s,
                KBoxError::Init(e) => e.spec_ntstatus(),
            },
    {
        match self {
            KBoxError::Alloc(status) => status,
            KBoxError::Init(err) => err.into_ntstatus(),
        }
    }
}

/// An initializer that may run once.
pub struct PinInitOnce<F> {
    init: Option<F>,
}

impl<F> PinInitOnce<F> {
    pub closed spec fn pending(&self) -> Option<F> {
        self.init
    }

    pub fn new(init: F) -> (r: Self)
        ensures
            r.pending() == Some(init),
    {
        PinInitOnce { init: Some(init) }
    }

    /// Hands out the initializer; it can be taken only once.
    pub fn take(&mut self) -> (f: F)
        requires
            old(self).pending() is Some,
        ensures
            f == old(self).pending()->0,
            final(self).pending() is None,
    {
        self.init.take().unwrap()
    }
}

/// A value of type `T` initialized in place in a block of allocator `A`;
/// it owns the block.
pub struct KBox<T, A: Allocator> {
    addr: usize,
    size: usize,
    align: usize,
    alloc: A,
    _marker: PhantomData<T>,
}

impl<T, A: Allocator> KBox<T, A> {
    /// The address of the value.
    pub closed spec fn addr(&self) -> usize {
        self.addr
    }

    /// The size and alignment of the block.
    pub closed spec fn layout(&self) -> (usize, usize) {
        (self.size, self.align)
    }

    /// The allocator that owns the block.
    pub closed spec fn allocator(&self) -> A {
        self.alloc
    }

    #[verifier::type_invariant]
    closed spec fn holds_block(&self) -> bool {
        self.addr != 0
    }

    /// Allocates a block for a `T` and runs `init` on it. A failed
    /// allocation reports `Alloc(STATUS_INSUFFICIENT_RESOURCES)` and does not
    /// run the initializer; a failed initializer gives the block back and
    /// reports `Init` with its error. The allocator is asked for
    /// `size_of::<T>()` bytes aligned to `align_of::<T>()`, and the
    /// initializer runs on the block it returned; which outcome comes is
    /// theirs to decide, and `try_pin_init_outcome` maps it.
    pub fn try_pin_init<E, I: PinInit<T, E>>(alloc: A, init: I) -> (r: Result<Self, KBoxError<E>>)
        ensures
            r is Ok ==> r->Ok_0.addr() != 0 && r->Ok_0.allocator() == alloc && r->Ok_0.layout() == (
                core::mem::size_of::<T>(),
                core::mem::align_of::<T>(),
            ) && alloc.gave(core::mem::size_of::<T>(), core::mem::align_of::<T>(), r->Ok_0.addr())
                && init.initializes(r->Ok_0.addr()),
            r matches Err(KBoxError::Alloc(s)) ==> s == STATUS_INSUFFICIENT_RESOURCES,
    {
        let mut init = init;
        let size = core::mem::size_of::<T>();
        let align = core::mem::align_of::<T>();
        let addr = alloc.allocate(size, align);
        let ran: Result<(), E> = if addr == 0 {
            Ok(())
        } else {
            init.init(addr)
        };
        match try_pin_init_outcome(addr, ran) {
            Ok(a) => Ok(KBox { addr: a, size, align, alloc, _marker: PhantomData }),
            Err(e) => {
                if addr != 0 {
                    alloc.deallocate(addr, size, align);
                }
                Err(e)
            },
        }
    }

    /// The address of the value.
    pub fn as_ptr(&self) -> (p: usize)
        ensures
            p == self.addr(),
            p != 0,
    {
        proof {
            use_type_invariant(self);
        }
        self.addr
    }

    /// Gives up ownership of the block: its address, allocator and layout.
    pub fn into_raw_parts(self) -> (r: (usize, A, (usize, usize)))
        ensures
            r == (self.addr(), self.allocator(), self.layout()),
    {
        (self.addr, self.alloc, (self.size, self.align))
    }
}

/// Something that can be boxed in place.
pub trait InitBoxTrait<T, A: Allocator, E>: Sized {
    /// Allocates and initializes the value.
    fn try_pin(self) -> Result<KBox<T, A>, KBoxError<E>>;
}

/// The process-wide allocator of the host build.
pub struct GlobalAllocator;

/// The kernel pool a block comes from.
#[derive(Clone, Copy, Debug, PartialEq, Eq, Structural)]
pub enum PoolType {
    NonPagedNx,
    Paged,
}

/// An allocator for a kernel pool, tagging its blocks with `tag`.
#[derive(Clone, Copy, Debug)]
pub struct WdkAllocator {
    pub pool: PoolType,
    pub tag: u32,
}

/// Both kernel calls ask for the same pool: the `ExAllocatePool2` flag and
/// the `ExAllocatePoolWithTag` pool type of a pool name paged memory together
/// (`POOL_FLAG_PAGED` with `PagedPool`, 1) or non-paged, non-executable memory
/// together (`POOL_FLAG_NON_PAGED` with `NonPagedPoolNx`, 512), and different
/// pools never share a legacy pool type.
pub proof fn lemma_pool_calls_agree(p: PoolType, q: PoolType)
    ensures
        (spec_pool_flags(p) == 0x1u64) <==> (spec_legacy_pool_type(p) == 1u32),
        (spec_pool_flags(p) == 0x40u64) <==> (spec_legacy_pool_type(p) == 512u32),
        p == PoolType::Paged <==> spec_legacy_pool_type(p) == 1u32,
        p == PoolType::NonPagedNx <==> spec_legacy_pool_type(p) == 512u32,
        p != q ==> spec_legacy_pool_type(p) != spec_legacy_pool_type(q),
        p != q ==> spec_pool_flags(p) != spec_pool_flags(q),
{
}

impl WdkAllocator {
    pub fn new(pool: PoolType, tag: u32) -> (a: Self)
        ensures
            a.pool == pool,
            a.tag == tag,
    {
        WdkAllocator { pool, tag }
    }
}

pub const POOL_FLAG_PAGED: u64 = 0x0000_0001;
pub const POOL_FLAG_NON_PAGED: u64 = 0x0000_0040;
pub const POOL_TYPE_PAGED: u32 = 1;
pub const POOL_TYPE_NON_PAGED_NX: u32 = 512;

/// The kernel call that serves a request.
#[derive(Clone, Copy, Debug, PartialEq, Eq, Structural)]
pub enum PoolCall {
    /// A zero-sized request gets a dangling, aligned pointer.
    Dangling,
    /// `ExAllocatePool2(flags, size, tag)`.
    Pool2 { flags: u64, size: usize, tag: u32 },
    /// `ExAllocatePoolWithTag(pool_type, size, tag)`, for systems without
    /// `ExAllocatePool2`.
    WithTag { pool_type: u32, size: usize, tag: u32 },
}

pub open spec fn spec_pool_flags(p: PoolType) -> u64 {
    match p {
        PoolType::NonPagedNx => POOL_FLAG_NON_PAGED,
        PoolType::Paged => POOL_FLAG_PAGED,
    }
}

pub open spec fn spec_legacy_pool_type(p: PoolType) -> u32 {
    match p {
        PoolType::NonPagedNx => POOL_TYPE_NON_PAGED_NX,
        PoolType::Paged => POOL_TYPE_PAGED,
    }
}

impl WdkAllocator {
    /// Chooses the kernel call for a request of `size` bytes, given whether
    /// the system exports `ExAllocatePool2`.
    pub fn alloc_call(&self, size: usize, has_pool2: bool) -> (r: PoolCall)
        ensures
            size == 0 ==> r == PoolCall::Dangling,
            size != 0 && has_pool2 ==> r == (PoolCall::Pool2 {
                flags: spec_pool_flags(self.pool),
                size,
                tag: self.tag,
            }),
            size != 0 && !has_pool2 ==> r == (PoolCall::WithTag {
                pool_type: spec_legacy_pool_type(self.pool),
                size,
                tag: self.tag,
            }),
            size != 0 && self.pool == PoolType::Paged ==> r == (if has_pool2 {
                PoolCall::Pool2 { flags: 0x1u64, size, tag: self.tag }
            } else {
                PoolCall::WithTag { pool_type: 1u32, size, tag: self.tag }
            }),
            size != 0 && self.pool == PoolType::NonPagedNx ==> r == (if has_pool2 {
                PoolCall::Pool2 { flags: 0x40u64, size, tag: self.tag }
            } else {
                PoolCall::WithTag { pool_type: 512u32, size, tag: self.tag }
            }),
    {
        if size == 0 {
            return PoolCall::Dangling;
        }
        if has_pool2 {
            let flags = match self.pool {
                PoolType::NonPagedNx => POOL_FLAG_NON_PAGED,
                PoolType::Paged => POOL_FLAG_PAGED,
            };
            PoolCall::Pool2 { flags, size, tag: self.tag }
        } else {
            let pool_type = match self.pool {
                PoolType::NonPagedNx => POOL_TYPE_NON_PAGED_NX,
                PoolType::Paged => POOL_TYPE_PAGED,
            };
            PoolCall::WithTag { pool_type, size, tag: self.tag }
        }
    }

    /// Whether a free of `size` bytes goes to `ExFreePoolWithTag` (zero-sized
    /// blocks were never allocated).
    pub fn dealloc_frees(&self, size: usize) -> (r: bool)
        ensures
            r == (size != 0),
    {
        size != 0
    }
}

/// An allocator paired with the initializer of the value it will hold.
pub struct InitBox<T, A, E, I> {
    alloc: A,
    init: I,
    _marker: PhantomData<(T, E)>,
}

impl<T, A, E, I> InitBox<T, A, E, I> {
    pub closed spec fn allocator(&self) -> A {
        self.alloc
    }

    pub closed spec fn initializer(&self) -> I {
        self.init
    }

    pub fn new(alloc: A, init: I) -> (r: Self)
        ensures
            r.allocator() == alloc,
            r.initializer() == init,
    {
        InitBox { alloc, init, _marker: PhantomData }
    }

    /// Splits the box into its allocator and initializer.
    pub fn into_components(self) -> (r: (A, I))
        ensures
            r == (self.allocator(), self.initializer()),
    {
        (self.alloc, self.init)
    }
}

impl<T, A: Allocator, E, I: PinInit<T, E>> InitBoxTrait<T, A, E> for InitBox<T, A, E, I> {
    fn try_pin(self) -> (r: Result<KBox<T, A>, KBoxError<E>>)
        ensures
            r is Ok ==> r->Ok_0.addr() != 0 && r->Ok_0.allocator() == self.allocator()
                && r->Ok_0.layout() == (core::mem::size_of::<T>(), core::mem::align_of::<T>())
                && self.allocator().gave(
                core::mem::size_of::<T>(),
                core::mem::align_of::<T>(),
                r->Ok_0.addr(),
            ) && self.initializer().initializes(r->Ok_0.addr()),
            r matches Err(KBoxError::Alloc(s)) ==> s == STATUS_INSUFFICIENT_RESOURCES,
    {
        let (alloc, init) = self.into_components();
        KBox::try_pin_init(alloc, init)
    }
}

/// An `InitBox` for a kernel pool allocator with the given pool and tag.
pub fn init_box_with_tag<T, E, I>(pool: PoolType, tag: u32, init: I) -> (r: InitBox<T, WdkAllocator, E, I>)
    ensures
        r.allocator().pool == pool,
        r.allocator().tag == tag,
        r.initializer() == init,
{
    InitBox::new(WdkAllocator::new(pool, tag), init)
}

/// A pointer returned by an allocator, or `STATUS_INSUFFICIENT_RESOURCES`
/// when it is null.
pub fn try_alloc_layout(ptr: usize) -> (r: Result<usize, NTSTATUS>)
    ensures
        ptr == 0 ==> r == Err::<usize, NTSTATUS>(STATUS_INSUFFICIENT_RESOURCES),
        ptr != 0 ==> r == Ok::<usize, NTSTATUS>(ptr),
{
    if ptr == 0 {
        Err(STATUS_INSUFFICIENT_RESOURCES)
    } else {
        Ok(ptr)
    }
}

/// The outcome of boxing a value in place, given the block the allocator
/// returned (0 for none) and what the initializer returned on it: no block
/// reports `Alloc(STATUS_INSUFFICIENT_RESOURCES)` (the initializer did not
/// run), a failed initializer `Init` with its error, and otherwise the box
/// holds the block.
pub fn try_pin_init_outcome<E>(addr: usize, init: Result<(), E>) -> (r: Result<usize, KBoxError<E>>)
    ensures
        addr == 0 ==> (match r {
            Err(KBoxError::Alloc(s)) => s == STATUS_INSUFFICIENT_RESOURCES,
            _ => false,
        }),
        addr != 0 && init is Ok ==> r == Ok::<usize, KBoxError<E>>(addr),
        addr != 0 && init is Err ==> (match r {
            Err(KBoxError::Init(e)) => e == init->Err_0,
            _ => false,
        }),
{
    if addr == 0 {
        return Err(KBoxError::Alloc(STATUS_INSUFFICIENT_RESOURCES));
    }
    match init {
        Ok(()) => Ok(addr),
        Err(e) => Err(KBoxError::Init(e)),
    }
}

} // verus!
