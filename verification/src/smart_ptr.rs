//! A client-side COM reference: a non-null interface pointer whose one
//! reference it owns.

use vstd::prelude::*;

use core::marker::PhantomData;

use crate::iunknown::{nt_success, Status, StatusResult, NTSTATUS, STATUS_NOINTERFACE};

verus! {

/// Marker for types that are COM interfaces.
pub trait ComInterface {}

/// Marker for COM interfaces that may be shared across threads.
pub trait ThreadSafeComInterface: ComInterface {}

/// An owned reference to a COM interface at a non-null address.
pub struct ComRc<T> {
    ptr: usize,
    _phantom: PhantomData<T>,
}

impl<T> ComRc<T> {
    pub closed spec fn addr(&self) -> usize {
        self.ptr
    }

    /// The pointer is not null.
    pub open spec fn wf(&self) -> bool {
        self.addr() != 0
    }

    #[verifier::type_invariant]
    closed spec fn non_null(&self) -> bool {
        self.ptr != 0
    }

    /// Takes ownership of a raw pointer's reference; `None` for null.
    pub fn from_raw(ptr: usize) -> (r: Option<Self>)
        ensures
            ptr == 0 ==> r is None,
            ptr != 0 ==> r is Some && r->0.addr() == ptr && r->0.wf(),
    {
        if ptr == 0 {
            None
        } else {
            Some(ComRc { ptr, _phantom: PhantomData })
        }
    }

    pub fn try_from_raw(ptr: usize) -> (r: Option<Self>)
        ensures
            ptr == 0 ==> r is None,
            ptr != 0 ==> r is Some && r->0.addr() == ptr && r->0.wf(),
    {
        Self::from_raw(ptr)
    }

    pub fn from_raw_unchecked(ptr: usize) -> (r: Self)
        requires
            ptr != 0,
        ensures
            r.addr() == ptr,
            r.wf(),
    {
        ComRc { ptr, _phantom: PhantomData }
    }

    /// Takes ownership of a raw pointer's reference, or `STATUS_NOINTERFACE`
    /// for null.
    pub fn from_raw_or_status(ptr: usize) -> (r: StatusResult<Self>)
        ensures
            ptr == 0 ==> r == Err::<Self, Status>(Status(STATUS_NOINTERFACE)),
            ptr != 0 ==> r is Ok && r->Ok_0.addr() == ptr && r->Ok_0.wf(),
    {
        if ptr == 0 {
            Err(Status(STATUS_NOINTERFACE))
        } else {
            Ok(ComRc { ptr, _phantom: PhantomData })
        }
    }

    pub fn as_ptr(&self) -> (r: usize)
        ensures
            r == self.addr(),
            r != 0,
    {
        proof {
            use_type_invariant(self);
        }
        self.ptr
    }

    /// Gives up ownership and returns the pointer with its reference.
    pub fn into_raw(self) -> (r: usize)
        ensures
            r == self.addr(),
            r != 0,
    {
        proof {
            use_type_invariant(&self);
        }
        self.ptr
    }
}

/// The outcome of `query_interface` given what the object's
/// `QueryInterface` returned: an error status is returned as is; a success
/// yields a reference to the written pointer, or `STATUS_NOINTERFACE` if it
/// is null.
pub fn query_result<U>(status: NTSTATUS, out: usize) -> (r: StatusResult<ComRc<U>>)
    ensures
        !nt_success(status) ==> r == Err::<ComRc<U>, Status>(Status(status)),
        nt_success(status) && out == 0 ==> r == Err::<ComRc<U>, Status>(Status(STATUS_NOINTERFACE)),
        nt_success(status) && out != 0 ==> r is Ok && r->Ok_0.addr() == out,
{
    let s = Status::from_raw(status);
    if s.is_error() {
        return Err(s);
    }
    ComRc::<U>::from_raw_or_status(out)
}

} // verus!
