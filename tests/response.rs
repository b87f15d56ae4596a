use ekg_rdf_load::response::{
    random_retry_seconds, DispatchCause, LambdaResponse, LoaderError, MAX_RETRY_WAIT_SECONDS,
    MIN_RETRY_WAIT_SECONDS,
};
use ekg_rdf_load::status::{BadRequest, LambdaDetailStatus};

fn envelope(message: &str, detail: Option<&str>) -> LambdaResponse {
    LambdaResponse {
        status_code: 200,
        message: message.to_string(),
        detailed_message: detail.map(|d| d.to_string()),
        detail_status: LambdaDetailStatus::LoaderJobCompleted,
        result_identifier: None,
        suggested_retry_seconds: None,
    }
}

#[test]
fn clean_removes_repeated_detail_and_is_idempotent() {
    let mut e = envelope("same", Some("same"));
    e.clean();
    assert_eq!(e.detailed_message, None);
    e.clean();
    assert_eq!(e.detailed_message, None);
    assert_eq!(e.message, "same");

    let mut f = envelope("message", Some("other"));
    f.clean();
    assert_eq!(f.detailed_message.as_deref(), Some("other"));
    f.clean();
    assert_eq!(f.detailed_message.as_deref(), Some("other"));
}

#[test]
fn retry_hint_is_within_range() {
    for _ in 0..200 {
        let s = random_retry_seconds();
        assert!((MIN_RETRY_WAIT_SECONDS..MAX_RETRY_WAIT_SECONDS).contains(&s));
    }
    assert_eq!(MIN_RETRY_WAIT_SECONDS, 10);
    assert_eq!(MAX_RETRY_WAIT_SECONDS, 60);
}

#[test]
fn ok_for_in_progress_suggests_a_retry() {
    let r = LambdaResponse::ok(LambdaDetailStatus::LoaderJobInProgress, None);
    assert_eq!(r.status_code, 200);
    assert_eq!(r.message, "Loader job is still in progress");
    assert_eq!(r.detail_status, LambdaDetailStatus::LoaderJobInProgress);
    let s = r.suggested_retry_seconds.expect("a retry hint");
    assert!((10..60).contains(&s));
}

#[test]
fn ok_for_completed_has_no_retry_hint() {
    let r = LambdaResponse::ok(LambdaDetailStatus::LoaderJobCompleted, Some("all done"));
    assert_eq!(r.status_code, 200);
    assert_eq!(r.suggested_retry_seconds, None);
    assert_eq!(r.detailed_message.as_deref(), Some("all done"));
}

#[test]
fn ok_suppresses_detail_equal_to_message() {
    let r = LambdaResponse::ok(LambdaDetailStatus::LoaderJobFailed, Some("Loader job failed"));
    assert_eq!(r.detailed_message, None);
}

#[test]
fn ok_with_given_wait_is_exact() {
    let r = LambdaResponse::ok_with_retry_seconds(LambdaDetailStatus::LoaderJobInQueue, None, 42);
    assert_eq!(r.suggested_retry_seconds, Some(42));
    let r = LambdaResponse::ok_with_retry_seconds(LambdaDetailStatus::UserError, None, 42);
    assert_eq!(r.suggested_retry_seconds, None);
}

#[test]
fn pipeline_mismatch_is_a_400() {
    let r = LambdaResponse::pipeline_id_not_matching("p1", "p2");
    assert_eq!(r.status_code, 400);
    assert_eq!(r.detail_status, LambdaDetailStatus::PipelineIdNotMatching);
    assert_eq!(r.message, "Pipeline ID not matching (received: p1, required: p2");
    assert_eq!(r.suggested_retry_seconds, None);
}

#[test]
fn bad_request_with_concurrency_limit() {
    let e = LoaderError::BadRequest(BadRequest {
        code: "409".to_string(),
        message: Some("Max concurrent load limit breached".to_string()),
        detailed_message: "64 loads are running".to_string(),
    });
    let r = LambdaResponse::from_loader_error(&e);
    assert_eq!(r.status_code, 400);
    assert_eq!(r.detail_status, LambdaDetailStatus::MaxConcurrentLoadLimitBreached);
    assert_eq!(r.message, "Max concurrent load limit breached");
    assert_eq!(r.detailed_message.as_deref(), Some("64 loads are running"));
}

#[test]
fn unrecognised_bad_request_is_a_user_error() {
    let e = LoaderError::BadRequest(BadRequest {
        code: "400".to_string(),
        message: None,
        detailed_message: "d".to_string(),
    });
    let r = LambdaResponse::from_loader_error(&e);
    assert_eq!(r.status_code, 400);
    assert_eq!(r.detail_status, LambdaDetailStatus::UserError);
    assert_eq!(r.message, "unknown message");
}

#[test]
fn timeout_is_retryable_504() {
    let r = LambdaResponse::from_loader_error(&LoaderError::Timeout("elapsed".to_string()));
    assert_eq!(r.status_code, 504);
    assert_eq!(r.detail_status, LambdaDetailStatus::Timedout);
    assert_eq!(r.message, "Timeout Error: elapsed");
    assert!(r.suggested_retry_seconds.is_some());
}

#[test]
fn dispatch_failures_by_cause() {
    let cases = [
        (DispatchCause::Timeout, LambdaDetailStatus::Timedout),
        (DispatchCause::Io, LambdaDetailStatus::IOError),
        (DispatchCause::User, LambdaDetailStatus::UserError),
        (DispatchCause::Other, LambdaDetailStatus::LoaderJobUnexpectedError),
    ];
    for (cause, status) in cases {
        let e = LoaderError::Dispatch {
            cause,
            rendering: "io error".to_string(),
            source: "connection refused".to_string(),
        };
        let r = LambdaResponse::from_loader_error_with_retry_seconds(&e, 10);
        assert_eq!(r.status_code, 500);
        assert_eq!(r.detail_status, status);
        assert_eq!(r.message, "Dispatch failure: io error");
        assert_eq!(r.detailed_message.as_deref(), Some("connection refused"));
    }
}

#[test]
fn other_failures_keep_the_unknown_status() {
    let c = LambdaResponse::from_loader_error(&LoaderError::Construction("x".to_string()));
    assert_eq!((c.status_code, c.message.as_str()), (504, "Construction failure: x"));
    assert_eq!(c.detail_status, LambdaDetailStatus::LoaderJobStatusUnknown);
    let r = LambdaResponse::from_loader_error(&LoaderError::Response("y".to_string()));
    assert_eq!((r.status_code, r.message.as_str()), (500, "Response error: y"));
    let s = LambdaResponse::from_loader_error(&LoaderError::Service("z".to_string()));
    assert_eq!((s.status_code, s.message.as_str()), (500, "Service Error: z"));
    assert_eq!(s.suggested_retry_seconds, None);
}

#[test]
fn started_load_carries_the_job_id() {
    let r = LambdaResponse::from_started_load(Some("job-1"));
    assert_eq!(r.status_code, 200);
    assert_eq!(r.result_identifier.as_deref(), Some("job-1"));
    assert_eq!(r.detail_status, LambdaDetailStatus::LoaderJobInQueue);
    assert!((10..60).contains(&r.suggested_retry_seconds.unwrap()));
    let r = LambdaResponse::from_started_load_with_retry_seconds(Some("job-1"), 33);
    assert_eq!(r.suggested_retry_seconds, Some(33));
}
