//! Verified core of a COM runtime for kernel drivers: status codes, interface
//! identifiers, reference counting, QueryInterface dispatch, UNICODE_STRING
//! construction, the async operation state protocol and executor scheduling
//! decisions.

pub mod iunknown;

pub use iunknown::{
    GUID, NTSTATUS, PendingResult, Status, StatusResult, STATUS_INVALID_PARAMETER,
    STATUS_NOINTERFACE, STATUS_SUCCESS,
};
pub mod async_com;
pub mod async_com_metrics;
pub mod refcount;
pub mod executor;
pub mod smart_ptr;
pub mod vtable;
pub mod traits;
pub mod wrapper;
pub mod unicode;
pub mod allocator;
pub mod task;
pub mod bench_async_com;
pub mod trace;
