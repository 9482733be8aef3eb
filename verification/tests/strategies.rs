use hwbp::context::{current_thread, ApplyRequest, ApplyWith, FetchRequest, FetchWith, CURRENT_THREAD};
use hwbp::HwbpError;

#[test]
fn the_current_thread_is_minus_two() {
    assert_eq!(current_thread(), -2);
    assert_eq!(CURRENT_THREAD, -2);
}

#[test]
fn fetch_requests_name_the_thread() {
    assert_eq!(FetchWith::GetThreadContext.request(), FetchRequest::ThreadContext { thread: -2 });
    assert_eq!(
        FetchWith::GetThreadContextOther(44).request(),
        FetchRequest::ThreadContext { thread: 44 }
    );
    assert_eq!(FetchWith::RtlCaptureContext.request(), FetchRequest::CaptureContext);
}

#[test]
fn apply_requests_name_the_thread() {
    assert_eq!(ApplyWith::SetThreadContext.request(), ApplyRequest::ThreadContext { thread: -2 });
    assert_eq!(
        ApplyWith::SetThreadContextOther(-7).request(),
        ApplyRequest::ThreadContext { thread: -7 }
    );
    assert_eq!(ApplyWith::RtlRestoreContext.request(), ApplyRequest::RestoreContext);
    assert_eq!(ApplyWith::NtContinue.request(), ApplyRequest::Continue { test_alert: true });
}

#[test]
fn a_query_that_returns_zero_failed() {
    assert_eq!(FetchWith::GetThreadContext.fetch_result(0), Err(HwbpError::FailedFetchContext));
    assert_eq!(
        FetchWith::GetThreadContextOther(44).fetch_result(0),
        Err(HwbpError::FailedFetchContext)
    );
    assert_eq!(FetchWith::GetThreadContext.fetch_result(1), Ok(()));
    assert_eq!(FetchWith::GetThreadContext.fetch_result(-1), Ok(()));
    assert_eq!(FetchWith::GetThreadContextOther(44).fetch_result(7), Ok(()));
}

#[test]
fn a_capture_cannot_fail() {
    assert_eq!(FetchWith::RtlCaptureContext.fetch_result(0), Ok(()));
    assert_eq!(FetchWith::RtlCaptureContext.fetch_result(1), Ok(()));
}

#[test]
fn a_set_that_returns_zero_failed() {
    assert_eq!(ApplyWith::SetThreadContext.apply_result(0), Err(HwbpError::FailedApplyContext));
    assert_eq!(
        ApplyWith::SetThreadContextOther(3).apply_result(0),
        Err(HwbpError::FailedApplyContext)
    );
    assert_eq!(ApplyWith::SetThreadContext.apply_result(1), Ok(()));
    assert_eq!(ApplyWith::SetThreadContextOther(3).apply_result(-1), Ok(()));
}

#[test]
fn a_restore_that_returns_succeeded() {
    assert_eq!(ApplyWith::RtlRestoreContext.apply_result(0), Ok(()));
    assert_eq!(ApplyWith::RtlRestoreContext.apply_result(-1), Ok(()));
}

#[test]
fn a_continue_fails_on_a_negative_status() {
    assert_eq!(ApplyWith::NtContinue.apply_result(0), Ok(()));
    assert_eq!(ApplyWith::NtContinue.apply_result(0x103), Ok(()));
    assert_eq!(ApplyWith::NtContinue.apply_result(-1), Err(HwbpError::FailedApplyContext));
    assert_eq!(
        ApplyWith::NtContinue.apply_result(i32::MIN),
        Err(HwbpError::FailedApplyContext)
    );
}

#[test]
fn error_messages() {
    assert_eq!(HwbpError::FailedFetchContext.message(), "failed to fetch thread context");
    assert_eq!(HwbpError::FailedApplyContext.message(), "failed to apply thread context");
}
