use kcom::iunknown::{iid_iunknown, Status, GUID, STATUS_INSUFFICIENT_RESOURCES};
use kcom::smart_ptr::{query_result, ComRc};
use kcom::traits::IUnknownInterface;
use kcom::vtable::{match_interface_ptr, ComInterfaceInfo};
use kcom::wrapper::{
    layout_matches, new_in, qi_answer, query_interface_n, secondary_entries, ComObject,
    InterfaceEntry, QiStep, RefCall,
};
use kcom::{STATUS_NOINTERFACE, STATUS_SUCCESS};

struct IUnknownRaw;

fn foo_iid() -> GUID {
    GUID {
        data1: 0xAA55_AA55,
        data2: 0x1234,
        data3: 0x5678,
        data4: [0x10, 0x20, 0x30, 0x40, 0x50, 0x60, 0x70, 0x80],
    }
}

#[test]
fn add_ref_release_drops() {
    let mut obj = new_in(true).unwrap();
    assert_eq!(obj.shim_add_ref(), RefCall::Count(2));
    assert_eq!(obj.shim_release(), RefCall::Count(1));
    assert_eq!(obj.shim_release(), RefCall::Destroy);
    assert!(obj.destroyed);
}

#[test]
fn query_interface_iunknown_returns_self() {
    let mut obj = new_in(true).unwrap();
    let step = obj.shim_query_interface(Some(iid_iunknown()), false);
    assert_eq!(step, QiStep::ReturnSelf);
    assert_eq!(obj.ref_count, 2);
    assert_eq!(obj.shim_release(), RefCall::Count(1));
    assert_eq!(obj.shim_release(), RefCall::Destroy);
    assert!(obj.destroyed);
}

#[test]
fn aggregated_object_forwards_iunknown_calls() {
    let outer: usize = 0x1000;
    let mut obj = ComObject::new_aggregated(outer);
    assert!(obj.is_aggregated());
    assert_eq!(obj.shim_non_delegating_add_ref(), 2);
    assert_eq!(obj.shim_non_delegating_release(), RefCall::Count(1));
    assert_eq!(obj.shim_add_ref(), RefCall::Delegate(outer));
    assert_eq!(obj.shim_release(), RefCall::Delegate(outer));
    assert_eq!(obj.ref_count, 1);
    assert_eq!(
        obj.shim_query_interface(Some(iid_iunknown()), false),
        QiStep::Delegate(outer)
    );
    assert_eq!(obj.shim_non_delegating_release(), RefCall::Destroy);
    assert!(obj.destroyed);
}

#[test]
fn aggregated_with_null_outer_uses_own_count() {
    let mut obj = ComObject::new_aggregated(0);
    assert!(obj.is_aggregated());
    assert_eq!(obj.shim_add_ref(), RefCall::Count(2));
    assert_eq!(obj.shim_release(), RefCall::Count(1));
}

#[test]
fn query_interface_rejects_null_arguments() {
    let mut obj = ComObject::new();
    assert_eq!(obj.shim_query_interface(None, false), QiStep::Invalid);
    assert_eq!(obj.shim_query_interface(Some(iid_iunknown()), true), QiStep::Invalid);
    assert_eq!(obj.ref_count, 1);
}

#[test]
fn query_interface_other_iid_asks_inner() {
    let mut obj = ComObject::new();
    assert_eq!(obj.shim_query_interface(Some(foo_iid()), false), QiStep::AskInner);
    assert_eq!(obj.ref_count, 1);
    assert_eq!(qi_answer(None), (STATUS_NOINTERFACE, 0, false));
    assert_eq!(qi_answer(Some(0x2000)), (STATUS_SUCCESS, 0x2000, true));
}

#[test]
fn new_in_without_memory_fails() {
    assert!(matches!(new_in(false), Err(STATUS_INSUFFICIENT_RESOURCES)));
}

#[test]
fn try_new_in_with_layout_rejects_mismatch() {
    // A one-byte layout is not the layout of the object.
    assert!(!layout_matches(1, 1, 24, 8));
    assert!(layout_matches(24, 8, 24, 8));
}

#[test]
fn comrc_many_clones_drop_once() {
    let mut obj = ComObject::new();
    // from_raw_addref
    assert_eq!(obj.shim_add_ref(), RefCall::Count(2));
    // eight clones
    for i in 0..8u32 {
        assert_eq!(obj.shim_add_ref(), RefCall::Count(3 + i));
    }
    // dropping the smart pointer and its clones
    for _ in 0..9 {
        assert!(matches!(obj.shim_release(), RefCall::Count(_)));
    }
    assert!(!obj.destroyed);
    assert_eq!(obj.shim_release(), RefCall::Destroy);
    assert!(obj.destroyed);
}

#[test]
fn from_raw_or_status_rejects_null() {
    let err = ComRc::<IUnknownRaw>::from_raw_or_status(0);
    assert!(matches!(err, Err(Status(STATUS_NOINTERFACE))));
    let ok = ComRc::<IUnknownRaw>::from_raw_or_status(0x40).ok().unwrap();
    assert_eq!(ok.as_ptr(), 0x40);
    assert_eq!(ok.into_raw(), 0x40);
}

#[test]
fn comrc_from_raw_handles_null() {
    assert!(ComRc::<IUnknownRaw>::from_raw(0).is_none());
    assert!(ComRc::<IUnknownRaw>::try_from_raw(0).is_none());
    assert_eq!(ComRc::<IUnknownRaw>::from_raw(0x80).unwrap().as_ptr(), 0x80);
    assert_eq!(ComRc::<IUnknownRaw>::from_raw_unchecked(0x90).as_ptr(), 0x90);
}

#[test]
fn query_result_maps_status_and_pointer() {
    let failed = query_result::<IUnknownRaw>(STATUS_INSUFFICIENT_RESOURCES, 0x10);
    assert!(matches!(failed, Err(Status(STATUS_INSUFFICIENT_RESOURCES))));
    let null = query_result::<IUnknownRaw>(STATUS_SUCCESS, 0);
    assert!(matches!(null, Err(Status(STATUS_NOINTERFACE))));
    let ok = query_result::<IUnknownRaw>(STATUS_SUCCESS, 0x10).ok().unwrap();
    assert_eq!(ok.as_ptr(), 0x10);
}

#[test]
fn match_interface_ptr_checks_iid_and_null() {
    assert_eq!(match_interface_ptr::<IUnknownInterface>(&iid_iunknown(), 0x30), Some(0x30));
    assert_eq!(match_interface_ptr::<IUnknownInterface>(&iid_iunknown(), 0), None);
    assert_eq!(match_interface_ptr::<IUnknownInterface>(&foo_iid(), 0x30), None);
}

#[test]
fn iunknown_interface_identifier() {
    let iid = IUnknownInterface::iid();
    assert_eq!(iid, iid_iunknown());
    assert_eq!(iid.data4, [0xC0, 0, 0, 0, 0, 0, 0, 0x46]);
    assert_eq!(IUnknownInterface::iid_str(), "00000000-0000-0000-C000-000000000046");
}

fn bar_iid() -> GUID {
    GUID { data1: 7, data2: 8, data3: 9, data4: [1, 2, 3, 4, 5, 6, 7, 8] }
}

#[test]
fn secondary_interfaces_are_found_in_order() {
    let this = 0x1000;
    let secondaries = [(foo_iid(), 0x1010), (bar_iid(), 0x1020), (foo_iid(), 0x1030)];
    assert_eq!(query_interface_n(this, &foo_iid(), &bar_iid(), &secondaries), Some(0x1010));
    assert_eq!(query_interface_n(this, &bar_iid(), &bar_iid(), &secondaries), Some(this));
    assert_eq!(query_interface_n(this, &iid_iunknown(), &bar_iid(), &secondaries), None);
    assert_eq!(query_interface_n(0, &bar_iid(), &bar_iid(), &secondaries), None);
}

#[test]
fn secondary_entries_point_back_at_the_object() {
    let entries = secondary_entries(0x2000, &[0x10, 0x20]);
    assert_eq!(
        entries,
        vec![
            InterfaceEntry { vtable: 0x10, parent: 0x2000 },
            InterfaceEntry { vtable: 0x20, parent: 0x2000 }
        ]
    );
}

#[test]
fn comrc_round_trips_through_raw() {
    let c = ComRc::<IUnknownRaw>::from_raw(0x70).unwrap();
    let raw = c.into_raw();
    assert_eq!(raw, 0x70);
    let again = ComRc::<IUnknownRaw>::from_raw(raw).unwrap();
    assert_eq!(again.as_ptr(), 0x70);
}
