//! The interfaces every object of this crate answers for.

use vstd::prelude::*;

use crate::iunknown::{iid_iunknown, spec_iid_iunknown, IUnknownVtbl, GUID};
use crate::vtable::{ComInterfaceInfo, InterfaceVtable};

verus! {

/// Marks any type that can be the inner value of a COM object.
pub trait IUnknown {}

impl<T> IUnknown for T {}

impl InterfaceVtable for IUnknownVtbl {}

/// The `IUnknown` interface itself.
pub struct IUnknownInterface;

impl ComInterfaceInfo for IUnknownInterface {
    type Vtable = IUnknownVtbl;

    open spec fn spec_iid() -> GUID {
        spec_iid_iunknown()
    }

    fn iid() -> (g: GUID) {
        iid_iunknown()
    }

    fn iid_str() -> (r: &'static str)
        ensures
            r@ == "00000000-0000-0000-C000-000000000046"@,
    {
        "00000000-0000-0000-C000-000000000046"
    }
}

} // verus!
