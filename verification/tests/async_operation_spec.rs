use kcom::async_com::fused::{
    after_first_poll, spawn_state, after_pending_poll, complete_word, dpc_entry, finish_pending, fused_result_code,
    initial_word, release_drops_future, try_set_polling, wake, word_status, DpcEntry,
    PendingStep, WakeAction, FLAG_DPC_QUEUED, FLAG_FUTURE_DROPPED, FLAG_POLLING,
};
use kcom::async_com::{
    check_result_call, check_status_call, finish_operation, spawn_error_state,
    spawn_raw, spawn_raw_cancellable, AsyncOperationTask, AsyncStatus,
};
use kcom::iunknown::{
    STATUS_CANCELLED, STATUS_INSUFFICIENT_RESOURCES, STATUS_PENDING, STATUS_UNSUCCESSFUL,
};
use kcom::wrapper::{ComObject, RefCall};
use kcom::STATUS_SUCCESS;

fn get_status(op: &AsyncOperationTask<u32>) -> Result<AsyncStatus, i32> {
    check_status_call(STATUS_SUCCESS, op.get_status())
}

fn get_result(op: &AsyncOperationTask<u32>) -> Result<u32, i32> {
    let (code, value) = op.get_result();
    check_result_call(code, value)
}

fn spawn_async_operation(first_poll: Option<u32>) -> Result<(ComObject, AsyncOperationTask<u32>), i32> {
    // a host build: the dropped handle drops a pending future
    spawn_raw(true, Ok(()), first_poll, true).map_err(|(status, _)| status)
}

#[test]
fn ready_future_completes() {
    let (mut obj, op) = spawn_async_operation(Some(11u32)).expect("spawn async operation");
    let status = get_status(&op).expect("get status");
    assert_eq!(status, AsyncStatus::Completed);
    let result = get_result(&op).expect("get result");
    assert_eq!(result, 11u32);
    // the caller holds the only reference
    assert_eq!(obj.shim_release(), RefCall::Destroy);
}

#[test]
fn async_operation_ready_future_completes() {
    let (_obj, op) = spawn_async_operation(Some(7u32)).expect("spawn async operation");
    let status = get_status(&op).expect("get status");
    assert_eq!(status, AsyncStatus::Completed);
    let result = get_result(&op).expect("get result");
    assert_eq!(result, 7u32);
}

#[test]
fn error_operation_reports_error() {
    let op = spawn_error_state::<u32>(STATUS_UNSUCCESSFUL);
    let status = get_status(&op).expect("get status");
    assert_eq!(status, AsyncStatus::Error);
    let result = get_result(&op);
    assert!(matches!(result, Err(STATUS_UNSUCCESSFUL)));
}

#[test]
fn spawn_error_reports_error_status() {
    let op = spawn_error_state::<u32>(STATUS_UNSUCCESSFUL);
    let status = get_status(&op).expect("get status");
    assert_eq!(status, AsyncStatus::Error);
    let result = get_result(&op).unwrap_err();
    assert_eq!(result, STATUS_UNSUCCESSFUL);
}

#[test]
fn pending_future_reports_pending() {
    let (_obj, op) = spawn_async_operation(None).expect("spawn async operation");
    let status = get_status(&op).expect("get status");
    assert_eq!(status, AsyncStatus::Started);
    let result = get_result(&op);
    assert!(matches!(result, Err(STATUS_PENDING)));
}

#[test]
fn cancelled_operation_reports_cancelled() {
    let mut op = AsyncOperationTask::<u32>::new_state();
    finish_operation(&mut op, None);
    assert_eq!(op.get_status(), AsyncStatus::Canceled);
    assert_eq!(get_result(&op), Err(STATUS_CANCELLED));
}

#[test]
fn vtable_call_failures_are_reported() {
    assert_eq!(
        check_status_call(STATUS_UNSUCCESSFUL, AsyncStatus::Completed),
        Err(STATUS_UNSUCCESSFUL)
    );
    assert_eq!(check_result_call::<u32>(STATUS_SUCCESS, None), Err(STATUS_UNSUCCESSFUL));
    assert_eq!(check_result_call(STATUS_SUCCESS, Some(5u32)), Ok(5));
    assert_eq!(check_result_call(STATUS_PENDING, Some(5u32)), Err(STATUS_PENDING));
}

#[test]
fn async_status_raw_round_trip() {
    for s in [
        AsyncStatus::Started,
        AsyncStatus::Completed,
        AsyncStatus::Canceled,
        AsyncStatus::Error,
    ] {
        assert_eq!(AsyncStatus::from_raw(s.as_raw()), s);
    }
    assert_eq!(AsyncStatus::Canceled.as_raw(), 2);
    assert_eq!(AsyncStatus::from_raw(77), AsyncStatus::Error);
}

#[test]
fn spawn_raw_cancellable_outcomes() {
    assert!(matches!(
        spawn_raw_cancellable::<u32>(false, Ok(()), None),
        Err((STATUS_INSUFFICIENT_RESOURCES, None))
    ));
    match spawn_raw_cancellable::<u32>(true, Err(STATUS_UNSUCCESSFUL), None) {
        Err((status, Some(obj))) => {
            assert_eq!(status, STATUS_UNSUCCESSFUL);
            assert_eq!(obj.ref_count, 0);
            assert!(obj.destroyed);
        }
        _ => panic!("expected a failed spawn"),
    }
    let (obj, op) = spawn_raw_cancellable::<u32>(true, Ok(()), None).ok().unwrap();
    assert_eq!(obj.ref_count, 2);
    assert!(!obj.destroyed);
    assert_eq!(op.get_status(), AsyncStatus::Started);
}

#[test]
fn fused_word_lifecycle() {
    let w = initial_word();
    assert_eq!(w, FLAG_POLLING);
    assert_eq!(word_status(w), AsyncStatus::Started);
    // A wake during the spawner's poll is left to the poller.
    let (w, action) = wake(w);
    assert_eq!(action, WakeAction::DeferredToPoller);
    assert_eq!(w, FLAG_POLLING | FLAG_DPC_QUEUED);
    // A second wake is absorbed.
    let (w, action) = wake(w);
    assert_eq!(action, WakeAction::AlreadyQueued);
    // The poll ends pending and sees the wake.
    let (w, requeue) = finish_pending(w);
    assert!(requeue);
    assert_eq!(w, 0);
    // The DPC claims the task.
    let (w, entry) = dpc_entry(w);
    assert_eq!(entry, DpcEntry::Poll);
    assert_eq!(try_set_polling(w), (false, w));
    let w = complete_word(w);
    assert_eq!(w, 1 | FLAG_FUTURE_DROPPED);
    assert_eq!(word_status(w), AsyncStatus::Completed);
    assert_eq!(fused_result_code(w), STATUS_SUCCESS);
    assert!(!release_drops_future(w));
    assert_eq!(wake(w), (w, WakeAction::Ignored));
}

#[test]
fn fused_wake_on_idle_task_enqueues() {
    assert_eq!(wake(0), (FLAG_DPC_QUEUED, WakeAction::Enqueue));
    assert_eq!(try_set_polling(0), (true, FLAG_POLLING));
    assert_eq!(dpc_entry(FLAG_POLLING), (FLAG_POLLING, DpcEntry::Skip));
    assert!(release_drops_future(0));
    assert_eq!(fused_result_code(0), STATUS_PENDING);
    assert_eq!(fused_result_code(2), STATUS_CANCELLED);
    assert_eq!(fused_result_code(3), STATUS_UNSUCCESSFUL);
}

#[test]
fn fused_pending_poll_budget() {
    let queued = FLAG_POLLING | FLAG_DPC_QUEUED;
    assert_eq!(after_pending_poll(queued, 3), (FLAG_POLLING, 2, PendingStep::PollAgain));
    assert_eq!(after_pending_poll(queued, 0), (queued, 0, PendingStep::Finish));
    assert_eq!(after_pending_poll(FLAG_POLLING, 3), (FLAG_POLLING, 3, PendingStep::Finish));
}

#[test]
fn fused_spawn_first_poll() {
    assert_eq!(spawn_state(false, Ok(())), Err(STATUS_INSUFFICIENT_RESOURCES));
    assert_eq!(spawn_state(true, Err(STATUS_UNSUCCESSFUL)), Err(STATUS_UNSUCCESSFUL));
    let (w, refs) = spawn_state(true, Ok(())).unwrap();
    assert_eq!((w, refs), (FLAG_POLLING, 2));
    // ready on the first poll: completed, only the caller's reference left
    assert_eq!(after_first_poll(w, refs, true), (1 | FLAG_FUTURE_DROPPED, 1, false));
    // pending, woken meanwhile: the DPC is queued
    let (woken, _) = wake(w);
    assert_eq!(after_first_poll(woken, refs, false), (0, 2, true));
    // pending, not woken: nothing queued
    assert_eq!(after_first_poll(w, refs, false), (0, 2, false));
}

#[test]
fn pending_future_drop_releases_task_ref() {
    let (mut obj, _op) = spawn_async_operation(None).expect("spawn async operation");
    // dropping the operation's last reference destroys it once
    assert_eq!(obj.shim_release(), RefCall::Destroy);
    assert!(obj.destroyed);
}

#[test]
fn kernel_spawn_keeps_the_task_reference() {
    let (obj, op) = spawn_raw::<u32>(true, Ok(()), None, false).ok().unwrap();
    assert_eq!(obj.ref_count, 2);
    assert_eq!(op.get_status(), AsyncStatus::Started);
    let (cancellable, _) = spawn_raw_cancellable::<u32>(true, Ok(()), None).ok().unwrap();
    assert_eq!(cancellable.ref_count, 2);
}
