//! Asynchronous COM operations: the status an operation reports, the state
//! behind `GetStatus` and `GetResult`, and the references of a spawned
//! operation object.

use vstd::prelude::*;

use crate::iunknown::{
    NTSTATUS, STATUS_CANCELLED, STATUS_INSUFFICIENT_RESOURCES, STATUS_PENDING, STATUS_SUCCESS,
    STATUS_UNSUCCESSFUL,
};
use crate::wrapper::{ComObject, RefCall};

pub mod fused;
pub mod pool;

verus! {

/// Lifecycle of an asynchronous COM operation as reported by `GetStatus`.
#[derive(Clone, Copy, Debug, Eq, PartialEq, Structural)]
pub enum AsyncStatus {
    Started,
    Completed,
    Canceled,
    Error,
}

/// The wire value of each status.
pub open spec fn spec_status_raw(s: AsyncStatus) -> u32 {
    match s {
        AsyncStatus::Started => 0,
        AsyncStatus::Completed => 1,
        AsyncStatus::Canceled => 2,
        AsyncStatus::Error => 3,
    }
}

/// Decoding of a wire value: unknown values read as `Error`.
pub open spec fn spec_status_from_raw(v: u32) -> AsyncStatus {
    if v == 0 {
        AsyncStatus::Started
    } else if v == 1 {
        AsyncStatus::Completed
    } else if v == 2 {
        AsyncStatus::Canceled
    } else {
        AsyncStatus::Error
    }
}

impl AsyncStatus {
    pub fn as_raw(self) -> (r: u32)
        ensures
            r == spec_status_raw(self),
    {
        match self {
            AsyncStatus::Started => 0,
            AsyncStatus::Completed => 1,
            AsyncStatus::Canceled => 2,
            AsyncStatus::Error => 3,
        }
    }

    pub fn from_raw(value: u32) -> (s: Self)
        ensures
            s == spec_status_from_raw(value),
    {
        match value {
            0 => AsyncStatus::Started,
            1 => AsyncStatus::Completed,
            2 => AsyncStatus::Canceled,
            _ => AsyncStatus::Error,
        }
    }
}

/// Decoding undoes encoding.
pub proof fn lemma_status_raw_roundtrip(s: AsyncStatus)
    ensures
        spec_status_from_raw(spec_status_raw(s)) == s,
{
}

/// Values that an asynchronous operation may produce.
pub trait AsyncValueType: Copy {}

impl<T: Copy> AsyncValueType for T {}

/// The shared state of an asynchronous operation: its status word, its error
/// code and, once completed, its result.
pub struct AsyncOperationTask<T: Copy> {
    status: u32,
    error: NTSTATUS,
    result: Option<T>,
}

/// What `GetResult` answers for an operation in a given state: the status
/// code, and the value when the code is `STATUS_SUCCESS`.
pub open spec fn spec_get_result<T>(status: u32, error: NTSTATUS, result: Option<T>) -> (NTSTATUS, Option<T>) {
    match spec_status_from_raw(status) {
        AsyncStatus::Completed => (STATUS_SUCCESS, result),
        AsyncStatus::Started => (STATUS_PENDING, None),
        _ => (error, None),
    }
}

impl<T: Copy> AsyncOperationTask<T> {
    pub closed spec fn status_raw(&self) -> u32 {
        self.status
    }

    pub closed spec fn error_code(&self) -> NTSTATUS {
        self.error
    }

    pub closed spec fn stored_result(&self) -> Option<T> {
        self.result
    }

    /// A completed operation holds its value; a cancelled one answers
    /// `STATUS_CANCELLED`.
    pub closed spec fn wf(&self) -> bool {
        &&& spec_status_from_raw(self.status) == AsyncStatus::Completed ==> self.result is Some
        &&& spec_status_from_raw(self.status) == AsyncStatus::Canceled ==> self.error
            == STATUS_CANCELLED
    }

    /// A fresh operation: started, with `STATUS_UNSUCCESSFUL` as its error.
    pub fn new_state() -> (s: Self)
        ensures
            s.wf(),
            s.status_raw() == spec_status_raw(AsyncStatus::Started),
            s.error_code() == STATUS_UNSUCCESSFUL,
            s.stored_result() is None,
    {
        AsyncOperationTask { status: 0, error: STATUS_UNSUCCESSFUL, result: None }
    }

    pub fn store_result(&mut self, value: T)
        ensures
            final(self).wf(),
            final(self).stored_result() == Some(value),
            final(self).error_code() == STATUS_SUCCESS,
            final(self).status_raw() == spec_status_raw(AsyncStatus::Completed),
    {
        self.result = Some(value);
        self.error = STATUS_SUCCESS;
        self.status = 1;
    }

    pub fn store_error(&mut self, status: NTSTATUS)
        ensures
            final(self).wf(),
            final(self).stored_result() == old(self).stored_result(),
            final(self).error_code() == status,
            final(self).status_raw() == spec_status_raw(AsyncStatus::Error),
    {
        self.error = status;
        self.status = 3;
    }

    pub fn store_canceled(&mut self)
        ensures
            final(self).wf(),
            final(self).stored_result() == old(self).stored_result(),
            final(self).error_code() == STATUS_CANCELLED,
            final(self).status_raw() == spec_status_raw(AsyncStatus::Canceled),
    {
        self.error = STATUS_CANCELLED;
        self.status = 2;
    }

    pub fn load_status(&self) -> (s: AsyncStatus)
        ensures
            s == spec_status_from_raw(self.status_raw()),
    {
        AsyncStatus::from_raw(self.status)
    }

    pub fn load_error(&self) -> (e: NTSTATUS)
        ensures
            e == self.error_code(),
    {
        self.error
    }

    /// `GetStatus`: the current status.
    pub fn get_status(&self) -> (s: AsyncStatus)
        ensures
            s == spec_status_from_raw(self.status_raw()),
    {
        self.load_status()
    }

    /// `GetResult`: `STATUS_SUCCESS` and the value once completed,
    /// `STATUS_PENDING` while started, the stored error otherwise.
    pub fn get_result(&self) -> (r: (NTSTATUS, Option<T>))
        requires
            self.wf(),
        ensures
            r == spec_get_result(self.status_raw(), self.error_code(), self.stored_result()),
            spec_status_from_raw(self.status_raw()) == AsyncStatus::Completed ==> r == (
            STATUS_SUCCESS, self.stored_result()) && r.1 is Some,
            spec_status_from_raw(self.status_raw()) == AsyncStatus::Canceled ==> r == (
            STATUS_CANCELLED, None::<T>),
    {
        match self.load_status() {
            AsyncStatus::Completed => {
                let v = match self.result {
                    Some(v) => v,
                    None => {
                        assert(false);
                        return (STATUS_SUCCESS, None);
                    },
                };
                (STATUS_SUCCESS, Some(v))
            },
            AsyncStatus::Started => (STATUS_PENDING, None),
            AsyncStatus::Canceled | AsyncStatus::Error => (self.load_error(), None),
        }
    }
}

/// An operation created already failed: its status is `Error` and its
/// `GetResult` answers with the given code.
pub fn spawn_error_state<T: Copy>(status: NTSTATUS) -> (s: AsyncOperationTask<T>)
    ensures
        s.wf(),
        spec_status_from_raw(s.status_raw()) == AsyncStatus::Error,
        s.error_code() == status,
{
    let mut s = AsyncOperationTask::new_state();
    s.store_error(status);
    s
}

/// A value written by `store_result` is what `GetResult` reads back, with
/// `STATUS_SUCCESS`; a cancelled operation answers `STATUS_CANCELLED`.
pub proof fn lemma_result_read_back<T: Copy>(s: AsyncOperationTask<T>, v: T, e: NTSTATUS)
    ensures
        spec_get_result(spec_status_raw(AsyncStatus::Completed), STATUS_SUCCESS, Some(v)) == (
        STATUS_SUCCESS, Some(v)),
        spec_get_result(spec_status_raw(AsyncStatus::Canceled), STATUS_CANCELLED, s.stored_result())
            == (STATUS_CANCELLED, None::<T>),
        spec_get_result(spec_status_raw(AsyncStatus::Error), e, s.stored_result()) == (e, None::<T>),
        spec_get_result(spec_status_raw(AsyncStatus::Started), e, s.stored_result()) == (
        STATUS_PENDING, None::<T>),
{
}

/// The outcome of a `GetStatus` call made through a vtable: a negative
/// return code is the error, otherwise the reported status.
pub fn check_status_call(result: NTSTATUS, status: AsyncStatus) -> (r: Result<AsyncStatus, NTSTATUS>)
    ensures
        result < 0 ==> r == Err::<AsyncStatus, NTSTATUS>(result),
        result >= 0 ==> r == Ok::<AsyncStatus, NTSTATUS>(status),
{
    if result < 0 {
        Err(result)
    } else {
        Ok(status)
    }
}

/// The outcome of a `GetResult` call made through a vtable: only
/// `STATUS_SUCCESS` yields the written value; a success code with nothing
/// written reads as `STATUS_UNSUCCESSFUL`.
pub fn check_result_call<T>(result: NTSTATUS, value: Option<T>) -> (r: Result<T, NTSTATUS>)
    ensures
        result == STATUS_SUCCESS && value is Some ==> r == Ok::<T, NTSTATUS>(value->0),
        result == STATUS_SUCCESS && value is None ==> r == Err::<T, NTSTATUS>(STATUS_UNSUCCESSFUL),
        result != STATUS_SUCCESS ==> r == Err::<T, NTSTATUS>(result),
{
    if result == STATUS_SUCCESS {
        match value {
            Some(v) => Ok(v),
            None => Err(STATUS_UNSUCCESSFUL),
        }
    } else {
        Err(result)
    }
}

/// The end of the task that drives an operation: the future's value
/// completes the operation; a cancelled future leaves `STATUS_CANCELLED`.
pub fn finish_operation<T: Copy>(op: &mut AsyncOperationTask<T>, result: Option<T>)
    ensures
        final(op).wf(),
        result matches Some(v) ==> final(op).status_raw() == spec_status_raw(AsyncStatus::Completed)
            && final(op).stored_result() == Some(v) && final(op).error_code() == STATUS_SUCCESS,
        result is None ==> final(op).status_raw() == spec_status_raw(AsyncStatus::Canceled)
            && final(op).error_code() == STATUS_CANCELLED && final(op).stored_result() == old(
            op).stored_result(),
{
    match result {
        Some(v) => op.store_result(v),
        None => op.store_canceled(),
    }
}

/// Spawning an operation object and the task that drives it. The object is
/// created with the caller's reference and takes one more for the task.
/// Without memory the spawn fails with `STATUS_INSUFFICIENT_RESOURCES` and no
/// object exists; when the task cannot be spawned both references are dropped,
/// destroying the object, and the spawn's status is returned with the object
/// left behind. `first_poll` is what the task's poll during the spawn gave
/// (a host build polls once there): a value completes the operation and the
/// finished task drops its reference, leaving the caller's alone; otherwise
/// the operation is started and both references are held.
pub fn spawn_raw_cancellable<T: Copy>(allocated: bool, spawn: Result<(), NTSTATUS>, first_poll: Option<T>) -> (r: Result<
    (ComObject, AsyncOperationTask<T>),
    (NTSTATUS, Option<ComObject>),
>)
    ensures
        !allocated ==> r == Err::<(ComObject, AsyncOperationTask<T>), (NTSTATUS, Option<ComObject>)>(
            (STATUS_INSUFFICIENT_RESOURCES, None),
        ),
        allocated && spawn is Err ==> r == Err::<
            (ComObject, AsyncOperationTask<T>),
            (NTSTATUS, Option<ComObject>),
        >((spawn->Err_0, Some(ComObject { ref_count: 0, outer_unknown: None, destroyed: true }))),
        allocated && spawn is Ok ==> r is Ok && r->Ok_0.1.wf(),
        allocated && spawn is Ok && first_poll is Some ==> r->Ok_0.0 == (ComObject {
            ref_count: 1,
            outer_unknown: None,
            destroyed: false,
        }) && spec_status_from_raw(r->Ok_0.1.status_raw()) == AsyncStatus::Completed
            && r->Ok_0.1.stored_result() == first_poll && r->Ok_0.1.error_code() == STATUS_SUCCESS,
        allocated && spawn is Ok && first_poll is None ==> r->Ok_0.0 == (ComObject {
            ref_count: 2,
            outer_unknown: None,
            destroyed: false,
        }) && r->Ok_0.1.status_raw() == spec_status_raw(AsyncStatus::Started)
            && r->Ok_0.1.error_code() == STATUS_UNSUCCESSFUL && r->Ok_0.1.stored_result() is None,
{
    if !allocated {
        return Err((STATUS_INSUFFICIENT_RESOURCES, None));
    }
    let mut obj = ComObject::new();
    // The task's reference.
    let _ = obj.shim_add_ref();
    match spawn {
        Err(status) => {
            let _ = obj.shim_release();
            let last = obj.shim_release();
            assert(last == RefCall::Destroy);
            Err((status, Some(obj)))
        },
        Ok(()) => {
            let mut op = AsyncOperationTask::new_state();
            match first_poll {
                Some(v) => {
                    finish_operation(&mut op, Some(v));
                    let _ = obj.shim_release();
                },
                None => {},
            }
            Ok((obj, op))
        },
    }
}

/// Spawning an operation without keeping its cancel handle. Where the
/// handle owns a pending future (a host build), dropping the handle drops
/// the future and with it the task's reference, leaving a started operation
/// with the caller's reference alone; where an executor owns the task (a
/// kernel build), the task keeps its reference until it finishes. Failures
/// are those of `spawn_raw_cancellable`.
pub fn spawn_raw<T: Copy>(allocated: bool, spawn: Result<(), NTSTATUS>, first_poll: Option<T>, handle_owns_future: bool) -> (r: Result<
    (ComObject, AsyncOperationTask<T>),
    (NTSTATUS, Option<ComObject>),
>)
    ensures
        !allocated ==> r == Err::<(ComObject, AsyncOperationTask<T>), (NTSTATUS, Option<ComObject>)>(
            (STATUS_INSUFFICIENT_RESOURCES, None),
        ),
        allocated && spawn is Err ==> r == Err::<
            (ComObject, AsyncOperationTask<T>),
            (NTSTATUS, Option<ComObject>),
        >((spawn->Err_0, Some(ComObject { ref_count: 0, outer_unknown: None, destroyed: true }))),
        allocated && spawn is Ok ==> r is Ok && r->Ok_0.1.wf(),
        allocated && spawn is Ok && first_poll is Some ==> r->Ok_0.0 == (ComObject {
            ref_count: 1,
            outer_unknown: None,
            destroyed: false,
        }) && spec_status_from_raw(r->Ok_0.1.status_raw()) == AsyncStatus::Completed
            && r->Ok_0.1.stored_result() == first_poll && r->Ok_0.1.error_code() == STATUS_SUCCESS,
        allocated && spawn is Ok && first_poll is None ==> r->Ok_0.0 == (ComObject {
            ref_count: if handle_owns_future {
                1u32
            } else {
                2u32
            },
            outer_unknown: None,
            destroyed: false,
        }) && r->Ok_0.1.status_raw() == spec_status_raw(AsyncStatus::Started)
            && r->Ok_0.1.error_code() == STATUS_UNSUCCESSFUL && r->Ok_0.1.stored_result() is None,
{
    match spawn_raw_cancellable(allocated, spawn, first_poll) {
        Err(e) => Err(e),
        Ok((obj, op)) => {
            let mut obj = obj;
            if first_poll.is_none() && handle_owns_future {
                // The handle's drop drops the pending future, which held the
                // task's reference.
                let _ = obj.shim_release();
            }
            Ok((obj, op))
        },
    }
}

} // verus!
