//! The IUnknown behaviour of a COM object created by this crate: its
//! reference count, delegation to an outer unknown when aggregated, and the
//! answers of `QueryInterface`.

use vstd::prelude::*;

use crate::iunknown::{
    guid_eq, guid_same, iid_iunknown, spec_iid_iunknown, GUID, NTSTATUS,
    STATUS_INSUFFICIENT_RESOURCES, STATUS_NOINTERFACE, STATUS_SUCCESS,
};
use crate::refcount::{self, MAX_REFCOUNT};

verus! {

/// The reference count of a COM object and, when aggregated, the address of
/// its outer unknown (which may be null).
#[derive(Clone, Copy, Debug)]
pub struct ComObject {
    pub ref_count: u32,
    pub outer_unknown: Option<usize>,
    pub destroyed: bool,
}

/// Whether IUnknown calls on the object's interfaces go to the outer unknown.
pub open spec fn delegates(o: ComObject) -> bool {
    o.outer_unknown matches Some(p) && p != 0
}

/// What an `AddRef` or `Release` call does.
#[derive(Clone, Copy, Debug, PartialEq, Eq, Structural)]
pub enum RefCall {
    /// Forward the call to the outer unknown at this address and return its
    /// answer.
    Delegate(usize),
    /// The new count, returned to the caller.
    Count(u32),
    /// The count reached zero: drop the inner value, free the object, return 0.
    Destroy,
}

/// The transition of the delegating `AddRef`.
pub open spec fn spec_add_ref(o: ComObject) -> (ComObject, RefCall) {
    if delegates(o) {
        (o, RefCall::Delegate(o.outer_unknown->0))
    } else {
        (ComObject { ref_count: (o.ref_count + 1) as u32, ..o }, RefCall::Count((o.ref_count + 1) as u32))
    }
}

/// The transition of the delegating `Release`.
pub open spec fn spec_release(o: ComObject) -> (ComObject, RefCall) {
    if delegates(o) {
        (o, RefCall::Delegate(o.outer_unknown->0))
    } else {
        spec_nd_release(o)
    }
}

/// The transition of the non-delegating `AddRef`: always the object's own count.
pub open spec fn spec_nd_add_ref(o: ComObject) -> (ComObject, u32) {
    (ComObject { ref_count: (o.ref_count + 1) as u32, ..o }, (o.ref_count + 1) as u32)
}

/// The transition of the non-delegating `Release`.
pub open spec fn spec_nd_release(o: ComObject) -> (ComObject, RefCall) {
    let c = (o.ref_count - 1) as u32;
    if c == 0 {
        (ComObject { ref_count: 0, destroyed: true, ..o }, RefCall::Destroy)
    } else {
        (ComObject { ref_count: c, ..o }, RefCall::Count(c))
    }
}

/// What the first half of `QueryInterface` decided.
#[derive(Clone, Copy, Debug, PartialEq, Eq, Structural)]
pub enum QiStep {
    /// Aggregated: forward the call to the outer unknown.
    Delegate(usize),
    /// A null `riid` or `ppv`: `STATUS_NOINTERFACE`, nothing written.
    Invalid,
    /// `IID_IUnknown`: a reference was taken; write `this` and return
    /// `STATUS_SUCCESS`.
    ReturnSelf,
    /// Ask the inner value's `query_interface` and report with `qi_answer`.
    AskInner,
}

/// The transition of the delegating `QueryInterface`.
pub open spec fn spec_query_interface(o: ComObject, riid: Option<GUID>, ppv_null: bool) -> (ComObject, QiStep) {
    if delegates(o) {
        (o, QiStep::Delegate(o.outer_unknown->0))
    } else if ppv_null || riid is None {
        (o, QiStep::Invalid)
    } else if guid_same(riid->0, spec_iid_iunknown()) {
        (ComObject { ref_count: (o.ref_count + 1) as u32, ..o }, QiStep::ReturnSelf)
    } else {
        (o, QiStep::AskInner)
    }
}

/// The transition of the non-delegating `QueryInterface`.
pub open spec fn spec_nd_query_interface(o: ComObject, riid: Option<GUID>, ppv_null: bool) -> (ComObject, QiStep) {
    if ppv_null || riid is None {
        (o, QiStep::Invalid)
    } else if guid_same(riid->0, spec_iid_iunknown()) {
        (ComObject { ref_count: (o.ref_count + 1) as u32, ..o }, QiStep::ReturnSelf)
    } else {
        (o, QiStep::AskInner)
    }
}

impl ComObject {
    /// A new object holds one reference, owned by its creator.
    pub fn new() -> (o: Self)
        ensures
            o == (ComObject { ref_count: 1, outer_unknown: None, destroyed: false }),
    {
        ComObject { ref_count: 1, outer_unknown: None, destroyed: false }
    }

    /// A new aggregated object: one reference, held through its
    /// non-delegating unknown by the outer object.
    pub fn new_aggregated(outer_unknown: usize) -> (o: Self)
        ensures
            o == (ComObject { ref_count: 1, outer_unknown: Some(outer_unknown), destroyed: false }),
    {
        ComObject { ref_count: 1, outer_unknown: Some(outer_unknown), destroyed: false }
    }

    pub fn is_aggregated(&self) -> (r: bool)
        ensures
            r == (self.outer_unknown is Some),
    {
        self.outer_unknown.is_some()
    }

    fn delegate_target(&self) -> (r: Option<usize>)
        ensures
            delegates(*self) ==> r == self.outer_unknown,
            !delegates(*self) ==> r is None,
    {
        match self.outer_unknown {
            Some(p) => if p != 0 {
                Some(p)
            } else {
                None
            },
            None => None,
        }
    }

    /// `AddRef` on one of the object's interfaces.
    pub fn shim_add_ref(&mut self) -> (r: RefCall)
        requires
            !delegates(*old(self)) ==> old(self).ref_count < MAX_REFCOUNT,
        ensures
            (*final(self), r) == spec_add_ref(*old(self)),
    {
        match self.delegate_target() {
            Some(p) => RefCall::Delegate(p),
            None => RefCall::Count(refcount::add(&mut self.ref_count)),
        }
    }

    /// `Release` on one of the object's interfaces.
    pub fn shim_release(&mut self) -> (r: RefCall)
        requires
            !delegates(*old(self)) ==> old(self).ref_count > 0,
        ensures
            (*final(self), r) == spec_release(*old(self)),
    {
        match self.delegate_target() {
            Some(p) => RefCall::Delegate(p),
            None => self.shim_non_delegating_release(),
        }
    }

    /// `AddRef` on the non-delegating unknown.
    pub fn shim_non_delegating_add_ref(&mut self) -> (r: u32)
        requires
            old(self).ref_count < MAX_REFCOUNT,
        ensures
            (*final(self), r) == spec_nd_add_ref(*old(self)),
    {
        refcount::add(&mut self.ref_count)
    }

    /// `Release` on the non-delegating unknown.
    pub fn shim_non_delegating_release(&mut self) -> (r: RefCall)
        requires
            old(self).ref_count > 0,
        ensures
            (*final(self), r) == spec_nd_release(*old(self)),
    {
        let c = refcount::sub(&mut self.ref_count);
        if c == 0 {
            self.destroyed = true;
            RefCall::Destroy
        } else {
            RefCall::Count(c)
        }
    }

    /// First half of `QueryInterface` on one of the object's interfaces.
    pub fn shim_query_interface(&mut self, riid: Option<GUID>, ppv_null: bool) -> (r: QiStep)
        requires
            !delegates(*old(self)) ==> old(self).ref_count < MAX_REFCOUNT,
        ensures
            (*final(self), r) == spec_query_interface(*old(self), riid, ppv_null),
    {
        match self.delegate_target() {
            Some(p) => QiStep::Delegate(p),
            None => self.shim_non_delegating_query_interface(riid, ppv_null),
        }
    }

    /// First half of `QueryInterface` on the non-delegating unknown.
    pub fn shim_non_delegating_query_interface(&mut self, riid: Option<GUID>, ppv_null: bool) -> (r: QiStep)
        requires
            old(self).ref_count < MAX_REFCOUNT,
        ensures
            (*final(self), r) == spec_nd_query_interface(*old(self), riid, ppv_null),
    {
        if ppv_null {
            return QiStep::Invalid;
        }
        match riid {
            None => QiStep::Invalid,
            Some(g) => {
                let iid = iid_iunknown();
                if guid_eq(&g, &iid) {
                    refcount::add(&mut self.ref_count);
                    QiStep::ReturnSelf
                } else {
                    QiStep::AskInner
                }
            },
        }
    }
}

/// Second half of `QueryInterface`: the inner value's answer. A non-null
/// interface pointer is written to `*ppv` and returned with `STATUS_SUCCESS`,
/// and a reference is taken on it through its own vtable (the third result
/// says so); otherwise `*ppv` is cleared, no reference is taken, and
/// `STATUS_NOINTERFACE` is returned.
pub fn qi_answer(inner: Option<usize>) -> (r: (NTSTATUS, usize, bool))
    ensures
        inner is Some ==> r == (STATUS_SUCCESS, inner->0, true),
        inner is None ==> r == (STATUS_NOINTERFACE, 0usize, false),
{
    match inner {
        Some(p) => (STATUS_SUCCESS, p, true),
        None => (STATUS_NOINTERFACE, 0, false),
    }
}

/// The first of `entries` (interface identifier, interface pointer) whose
/// identifier is `riid`.
pub open spec fn first_match(riid: GUID, entries: Seq<(GUID, usize)>) -> Option<usize>
    decreases entries.len(),
{
    if entries.len() == 0 {
        None
    } else if guid_same(riid, entries[0].0) {
        Some(entries[0].1)
    } else {
        first_match(riid, entries.drop_first())
    }
}

/// What an object with secondary interfaces answers for `riid` before its
/// fallback is asked: nothing for a null `this`, `this` for the primary
/// interface, the entry of the first secondary interface with that
/// identifier; `None` leaves the answer to the fallback.
pub open spec fn spec_query_interface_n(this: usize, riid: GUID, primary: GUID, secondaries: Seq<(GUID, usize)>) -> Option<usize> {
    if this == 0 {
        None
    } else if guid_same(riid, primary) {
        Some(this)
    } else {
        first_match(riid, secondaries)
    }
}

/// The inner value's `QueryInterface` for an object with a primary interface
/// and secondary interfaces (each with the address of its entry), tried in
/// order.
pub fn query_interface_n(this: usize, riid: &GUID, primary: &GUID, secondaries: &[(GUID, usize)]) -> (r: Option<usize>)
    ensures
        r == spec_query_interface_n(this, *riid, *primary, secondaries@),
{
    if this == 0 {
        return None;
    }
    if guid_eq(riid, primary) {
        return Some(this);
    }
    let mut i: usize = 0;
    assert(secondaries@.skip(0) =~= secondaries@);
    while i < secondaries.len()
        invariant
            0 <= i <= secondaries@.len(),
            this != 0,
            !guid_same(*riid, *primary),
            first_match(*riid, secondaries@) == first_match(*riid, secondaries@.skip(i as int)),
        decreases secondaries@.len() - i,
    {
        let (iid, ptr) = secondaries[i];
        assert(secondaries@.skip(i as int)[0] == (iid, ptr));
        if guid_eq(riid, &iid) {
            assert(first_match(*riid, secondaries@.skip(i as int)) == Some(ptr));
            return Some(ptr);
        }
        assert(secondaries@.skip(i as int).drop_first() =~= secondaries@.skip(i + 1));
        i = i + 1;
    }
    assert(secondaries@.skip(i as int) =~= Seq::<(GUID, usize)>::empty());
    None
}

/// A secondary interface's entry: its vtable and the object it belongs to.
#[derive(Clone, Copy, Debug, PartialEq, Eq, Structural)]
pub struct InterfaceEntry {
    pub vtable: usize,
    pub parent: usize,
}

/// The secondary entries of a new object at `parent`: one per vtable, in
/// order, each pointing back at the object. Calls through a secondary
/// interface (`AddRef`, `Release`, `QueryInterface`) go to the object its
/// entry names.
pub fn secondary_entries(parent: usize, vtables: &[usize]) -> (r: Vec<InterfaceEntry>)
    ensures
        r@.len() == vtables@.len(),
        forall|i: int| 0 <= i < r@.len() ==> #[trigger] r@[i] == (InterfaceEntry {
            vtable: vtables@[i],
            parent,
        }),
{
    let mut out: Vec<InterfaceEntry> = Vec::new();
    let mut i: usize = 0;
    while i < vtables.len()
        invariant
            0 <= i <= vtables@.len(),
            out@.len() == i,
            forall|j: int| 0 <= j < i ==> #[trigger] out@[j] == (InterfaceEntry {
                vtable: vtables@[j],
                parent,
            }),
        decreases vtables@.len() - i,
    {
        out.push(InterfaceEntry { vtable: vtables[i], parent });
        i = i + 1;
    }
    out
}

/// Creating an object: success needs the allocation; without it the call
/// fails with `STATUS_INSUFFICIENT_RESOURCES`.
pub fn new_in(allocated: bool) -> (r: Result<ComObject, NTSTATUS>)
    ensures
        allocated ==> r == Ok::<ComObject, NTSTATUS>(
            ComObject { ref_count: 1, outer_unknown: None, destroyed: false },
        ),
        !allocated ==> r == Err::<ComObject, NTSTATUS>(STATUS_INSUFFICIENT_RESOURCES),
{
    if allocated {
        Ok(ComObject::new())
    } else {
        Err(STATUS_INSUFFICIENT_RESOURCES)
    }
}

/// `try_new_in_with_layout` accepts only the object's own layout.
pub fn layout_matches(size: usize, align: usize, object_size: usize, object_align: usize) -> (r: bool)
    ensures
        r == (size == object_size && align == object_align),
{
    size == object_size && align == object_align
}

/// `AddRef` then `Release` leaves a non-aggregated object as it was, and the
/// counts they return differ by one.
pub proof fn lemma_add_ref_release_roundtrip(o: ComObject)
    requires
        !delegates(o),
        0 < o.ref_count < MAX_REFCOUNT,
    ensures
        spec_release(spec_add_ref(o).0).0 == o,
        spec_add_ref(o).1 == RefCall::Count((o.ref_count + 1) as u32),
        spec_release(spec_add_ref(o).0).1 == RefCall::Count(o.ref_count),
{
}

/// The object after `k` delegating `AddRef` calls.
pub open spec fn add_refs(o: ComObject, k: nat) -> ComObject
    decreases k,
{
    if k == 0 {
        o
    } else {
        add_refs(spec_add_ref(o).0, (k - 1) as nat)
    }
}

/// The object after `k` delegating `Release` calls.
pub open spec fn releases(o: ComObject, k: nat) -> ComObject
    decreases k,
{
    if k == 0 {
        o
    } else {
        releases(spec_release(o).0, (k - 1) as nat)
    }
}

proof fn lemma_add_refs_count(o: ComObject, k: nat)
    requires
        !delegates(o),
        o.ref_count + k <= MAX_REFCOUNT,
    ensures
        add_refs(o, k) == (ComObject { ref_count: (o.ref_count + k) as u32, ..o }),
    decreases k,
{
    if k > 0 {
        lemma_add_refs_count(spec_add_ref(o).0, (k - 1) as nat);
    }
}

proof fn lemma_releases_count(o: ComObject, k: nat)
    requires
        !delegates(o),
        k < o.ref_count,
    ensures
        releases(o, k) == (ComObject { ref_count: (o.ref_count - k) as u32, ..o }),
    decreases k,
{
    if k > 0 {
        lemma_releases_count(spec_release(o).0, (k - 1) as nat);
    }
}

/// Balanced references: `k` `AddRef` calls followed by `k` `Release` calls
/// leave a live object exactly as it was; none of those releases destroys it.
pub proof fn lemma_balanced_refs(o: ComObject, k: nat)
    requires
        !delegates(o),
        0 < o.ref_count,
        o.ref_count + k <= MAX_REFCOUNT,
    ensures
        releases(add_refs(o, k), k) == o,
        forall|j: nat| j < k ==> spec_release(#[trigger] releases(add_refs(o, k), j)).1 != RefCall::Destroy,
{
    lemma_add_refs_count(o, k);
    let p = add_refs(o, k);
    lemma_releases_count(p, k);
    assert forall|j: nat| j < k implies spec_release(#[trigger] releases(add_refs(o, k), j)).1 != RefCall::Destroy by {
        lemma_releases_count(p, j);
    }
}

/// An object with `n` references is destroyed by its `n`-th `Release` and
/// not before.
pub proof fn lemma_destroyed_after_all_releases(o: ComObject)
    requires
        !delegates(o),
        0 < o.ref_count,
        !o.destroyed,
    ensures
        releases(o, o.ref_count as nat).destroyed,
        releases(o, o.ref_count as nat).ref_count == 0,
        forall|j: nat| j < o.ref_count ==> !(#[trigger] releases(o, j)).destroyed,
{
    let n = o.ref_count as nat;
    lemma_releases_count(o, (n - 1) as nat);
    let q = releases(o, (n - 1) as nat);
    lemma_releases_split(o, (n - 1) as nat);
    assert(((n - 1) as nat) + 1 == n);
    assert(releases(q, 1) == releases(spec_release(q).0, 0));
    assert(q.ref_count == 1);
    assert forall|j: nat| j < o.ref_count implies !(#[trigger] releases(o, j)).destroyed by {
        lemma_releases_count(o, j);
    }
}

proof fn lemma_releases_split(o: ComObject, k: nat)
    ensures
        releases(o, k + 1) == releases(releases(o, k), 1),
    decreases k,
{
    if k > 0 {
        lemma_releases_split(spec_release(o).0, (k - 1) as nat);
        assert(releases(o, k + 1) == releases(spec_release(o).0, k));
    } else {
        assert(releases(o, 1) == releases(spec_release(o).0, 0));
    }
}

/// The last `Release` destroys the object, and only the last one does.
pub proof fn lemma_release_destroys_at_zero(o: ComObject)
    requires
        !delegates(o),
        o.ref_count > 0,
    ensures
        (spec_release(o).1 == RefCall::Destroy) == (o.ref_count == 1),
        spec_release(o).0.destroyed == (o.destroyed || o.ref_count == 1),
{
}

/// Asking for `IID_IUnknown` returns the object itself with one more
/// reference, which one `Release` gives back.
pub proof fn lemma_query_iunknown_returns_self(o: ComObject)
    requires
        !delegates(o),
        0 < o.ref_count < MAX_REFCOUNT,
    ensures
        spec_query_interface(o, Some(spec_iid_iunknown()), false).1 == QiStep::ReturnSelf,
        spec_query_interface(o, Some(spec_iid_iunknown()), false).0.ref_count == o.ref_count + 1,
        spec_release(spec_query_interface(o, Some(spec_iid_iunknown()), false).0).0 == o,
{
}

/// Aggregation: every IUnknown call on an interface of an aggregated object
/// goes to the outer unknown and leaves the object untouched, while the
/// non-delegating unknown works on the object's own count.
pub proof fn lemma_aggregated_delegates(o: ComObject, riid: Option<GUID>, ppv_null: bool)
    requires
        delegates(o),
        o.ref_count < MAX_REFCOUNT,
    ensures
        spec_add_ref(o) == (o, RefCall::Delegate(o.outer_unknown->0)),
        spec_release(o) == (o, RefCall::Delegate(o.outer_unknown->0)),
        spec_query_interface(o, riid, ppv_null) == (o, QiStep::Delegate(o.outer_unknown->0)),
        spec_nd_add_ref(o).0.ref_count == o.ref_count + 1,
{
}

/// A refused request: a non-`IUnknown` identifier the inner value does not
/// support is answered with `STATUS_NOINTERFACE`, a cleared `*ppv`, and no
/// change to the count.
pub proof fn lemma_refused_query(o: ComObject, riid: GUID)
    requires
        !delegates(o),
        !guid_same(riid, spec_iid_iunknown()),
    ensures
        spec_query_interface(o, Some(riid), false) == (o, QiStep::AskInner),
{
}

} // verus!
