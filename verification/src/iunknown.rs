//! Status codes, the `Status` wrapper, interface identifiers and the
//! `IUnknown` function table.

use vstd::prelude::*;

verus! {

/// Kernel status code.
pub type NTSTATUS = i32;

pub const STATUS_SUCCESS: NTSTATUS = 0;
/// `0x0000_0103`
pub const STATUS_PENDING: NTSTATUS = 259;
/// `0xC000_0001`
pub const STATUS_UNSUCCESSFUL: NTSTATUS = -1073741823;
/// `0xC000_000D`
pub const STATUS_INVALID_PARAMETER: NTSTATUS = -1073741811;
/// `0xC000_00BB`
pub const STATUS_NOT_SUPPORTED: NTSTATUS = -1073741637;
/// `0xC000_0120`
pub const STATUS_CANCELLED: NTSTATUS = -1073741536;
/// `0xC000_02B9`
pub const STATUS_NOINTERFACE: NTSTATUS = -1073741127;
/// `0xC000_009A`
pub const STATUS_INSUFFICIENT_RESOURCES: NTSTATUS = -1073741670;

/// A typed wrapper around an `NTSTATUS` value.
#[derive(Clone, Copy, Debug, PartialEq, Eq, Structural, Hash, PartialOrd, Ord)]
pub struct Status(pub NTSTATUS);

/// Success or failure of a status code: non-negative codes are successes.
pub open spec fn nt_success(raw: NTSTATUS) -> bool {
    raw >= 0
}

impl Status {
    pub fn from_raw(raw: NTSTATUS) -> (s: Self)
        ensures
            s.0 == raw,
    {
        Status(raw)
    }

    pub fn into_raw(self) -> (r: NTSTATUS)
        ensures
            r == self.0,
    {
        self.0
    }

    pub fn is_success(self) -> (b: bool)
        ensures
            b == nt_success(self.0),
    {
        self.0 >= 0
    }

    pub fn is_error(self) -> (b: bool)
        ensures
            b == !nt_success(self.0),
    {
        self.0 < 0
    }

    pub fn to_result(self) -> (r: Result<(), Status>)
        ensures
            nt_success(self.0) ==> r == Ok::<(), Status>(()),
            !nt_success(self.0) ==> r == Err::<(), Status>(self),
    {
        if self.is_success() {
            Ok(())
        } else {
            Err(self)
        }
    }

    /// Converts this status into a result that distinguishes `STATUS_PENDING`.
    pub fn to_pending_result(self) -> (r: Result<PendingResult, Status>)
        ensures
            self.0 == STATUS_PENDING ==> r == Ok::<PendingResult, Status>(PendingResult::Pending),
            self.0 != STATUS_PENDING && nt_success(self.0) ==> r == Ok::<PendingResult, Status>(
                PendingResult::Ready(()),
            ),
            !nt_success(self.0) ==> r == Err::<PendingResult, Status>(self),
    {
        if self.0 == STATUS_PENDING {
            Ok(PendingResult::Pending)
        } else if self.is_success() {
            Ok(PendingResult::Ready(()))
        } else {
            Err(self)
        }
    }
}

impl From<NTSTATUS> for Status {
    fn from(value: NTSTATUS) -> (s: Self) {
        Status(value)
    }
}

impl vstd::std_specs::convert::FromSpecImpl<NTSTATUS> for Status {
    open spec fn obeys_from_spec() -> bool {
        true
    }

    open spec fn from_spec(v: NTSTATUS) -> Self {
        Status(v)
    }
}

impl From<Status> for NTSTATUS {
    fn from(value: Status) -> (r: Self) {
        value.0
    }
}

impl vstd::std_specs::convert::FromSpecImpl<Status> for NTSTATUS {
    open spec fn obeys_from_spec() -> bool {
        true
    }

    open spec fn from_spec(v: Status) -> Self {
        v.0
    }
}

pub type StatusResult<T = ()> = Result<T, Status>;

#[derive(Clone, Copy, Debug, Eq, PartialEq)]
pub enum PendingResult<T = ()> {
    Ready(T),
    Pending,
}

/// Conversion of a call's outcome into the status code reported across the ABI.
pub trait IntoNtStatus: Sized {
    spec fn spec_ntstatus(self) -> NTSTATUS;

    fn into_ntstatus(self) -> (r: NTSTATUS)
        ensures
            r == self.spec_ntstatus(),
    ;
}

impl IntoNtStatus for NTSTATUS {
    open spec fn spec_ntstatus(self) -> NTSTATUS {
        self
    }

    fn into_ntstatus(self) -> (r: NTSTATUS) {
        self
    }
}

impl IntoNtStatus for Status {
    open spec fn spec_ntstatus(self) -> NTSTATUS {
        self.0
    }

    fn into_ntstatus(self) -> (r: NTSTATUS) {
        self.0
    }
}

impl<T, E: IntoNtStatus> IntoNtStatus for Result<T, E> {
    open spec fn spec_ntstatus(self) -> NTSTATUS {
        match self {
            Ok(_) => STATUS_SUCCESS,
            Err(e) => e.spec_ntstatus(),
        }
    }

    fn into_ntstatus(self) -> (r: NTSTATUS) {
        match self {
            Ok(_) => STATUS_SUCCESS,
            Err(err) => err.into_ntstatus(),
        }
    }
}

/// A result reports `STATUS_SUCCESS` when it is `Ok` and its error's own
/// status when it is `Err`: an `Err(Status(s))` or a raw `Err(s)` reports `s`
/// itself, whatever `s` is, so distinct errors stay distinct.
pub proof fn lemma_result_status<T, E: IntoNtStatus>(r: Result<T, E>, v: T, s: NTSTATUS, s2: NTSTATUS)
    ensures
        r is Ok ==> r.spec_ntstatus() == STATUS_SUCCESS,
        r matches Err(e) ==> r.spec_ntstatus() == e.spec_ntstatus(),
        Ok::<T, Status>(v).spec_ntstatus() == STATUS_SUCCESS,
        Err::<T, Status>(Status(s)).spec_ntstatus() == s,
        Err::<T, NTSTATUS>(s).spec_ntstatus() == s,
        s != s2 ==> Err::<T, Status>(Status(s)).spec_ntstatus() != Err::<T, Status>(
            Status(s2),
        ).spec_ntstatus(),
{
}

/// A COM interface identifier.
#[derive(Clone, Copy, Debug, Eq, Hash, PartialEq)]
pub struct GUID {
    pub data1: u32,
    pub data2: u16,
    pub data3: u16,
    pub data4: [u8; 8],
}

/// Field-wise identity of two interface identifiers.
pub open spec fn guid_same(a: GUID, b: GUID) -> bool {
    &&& a.data1 == b.data1
    &&& a.data2 == b.data2
    &&& a.data3 == b.data3
    &&& a.data4@ == b.data4@
}

/// Compares two interface identifiers field by field.
pub fn guid_eq(a: &GUID, b: &GUID) -> (r: bool)
    ensures
        r == guid_same(*a, *b),
{
    if a.data1 != b.data1 || a.data2 != b.data2 || a.data3 != b.data3 {
        return false;
    }
    let mut i: usize = 0;
    while i < 8
        invariant
            0 <= i <= 8,
            forall|j: int| 0 <= j < i ==> a.data4@[j] == b.data4@[j],
            a.data4@.len() == 8,
            b.data4@.len() == 8,
        decreases 8 - i,
    {
        if a.data4[i] != b.data4[i] {
            return false;
        }
        i = i + 1;
    }
    assert(a.data4@ =~= b.data4@);
    true
}

/// The identifier of `IUnknown`: `00000000-0000-0000-C000-000000000046`.
pub open spec fn spec_iid_iunknown() -> GUID {
    GUID {
        data1: 0,
        data2: 0,
        data3: 0,
        data4: [0xC0u8, 0u8, 0u8, 0u8, 0u8, 0u8, 0u8, 0x46u8],
    }
}

#[verifier::when_used_as_spec(spec_iid_iunknown)]
pub fn iid_iunknown() -> (g: GUID)
    ensures
        g == spec_iid_iunknown(),
{
    GUID { data1: 0, data2: 0, data3: 0, data4: [0xC0u8, 0u8, 0u8, 0u8, 0u8, 0u8, 0u8, 0x46u8] }
}

/// The function table of `IUnknown`, each entry held as the address of the
/// routine it points to.
#[allow(non_snake_case)]
#[derive(Clone, Copy, Debug, PartialEq, Eq, Structural)]
pub struct IUnknownVtbl {
    pub QueryInterface: usize,
    pub AddRef: usize,
    pub Release: usize,
}

} // verus!
