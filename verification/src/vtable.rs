//! Interface descriptions and the interface matching helper.

use vstd::prelude::*;

use crate::iunknown::{guid_eq, guid_same, GUID};

verus! {

/// A type laid out as the function table of a COM interface.
pub trait InterfaceVtable: Sized {}

/// What identifies a COM interface: its identifier and its function table.
pub trait ComInterfaceInfo {
    type Vtable: InterfaceVtable;

    /// The interface identifier, as a value.
    spec fn spec_iid() -> GUID;

    /// The interface identifier.
    fn iid() -> (g: GUID)
        ensures
            g == Self::spec_iid(),
    ;

    /// The identifier in registry form, for messages.
    fn iid_str() -> &'static str;
}

/// Returns `Some(ptr)` when `riid` is the identifier of interface `T` and
/// `ptr` is not null, otherwise `None`.
pub fn match_interface_ptr<T: ComInterfaceInfo>(riid: &GUID, ptr: usize) -> (r: Option<usize>)
    ensures
        guid_same(*riid, T::spec_iid()) && ptr != 0 ==> r == Some(ptr),
        !(guid_same(*riid, T::spec_iid()) && ptr != 0) ==> r is None,
{
    let iid = T::iid();
    if !guid_eq(riid, &iid) {
        return None;
    }
    if ptr == 0 {
        None
    } else {
        Some(ptr)
    }
}

} // verus!
