use ekg_rdf_load::status::{BadRequest, LambdaDetailError, LambdaDetailStatus, LoadRequestClass};

const ALL: [LambdaDetailStatus; 22] = [
    LambdaDetailStatus::PipelineIdNotMatching,
    LambdaDetailStatus::Timedout,
    LambdaDetailStatus::IOError,
    LambdaDetailStatus::MaxLoadTaskQueueSizeLimitBreached,
    LambdaDetailStatus::MaxConcurrentLoadLimitBreached,
    LambdaDetailStatus::LoaderJobInQueue,
    LambdaDetailStatus::LoaderJobNotStarted,
    LambdaDetailStatus::LoaderJobInProgress,
    LambdaDetailStatus::LoaderJobCompleted,
    LambdaDetailStatus::LoaderJobCancelledByUser,
    LambdaDetailStatus::LoaderJobCancelledDueToErrors,
    LambdaDetailStatus::LoaderJobUnexpectedError,
    LambdaDetailStatus::LoaderJobFailed,
    LambdaDetailStatus::LoaderJobS3ReadError,
    LambdaDetailStatus::LoaderJobS3AccessDeniedError,
    LambdaDetailStatus::LoaderJobCommittedWithWriteConflicts,
    LambdaDetailStatus::LoaderJobDataDeadlock,
    LambdaDetailStatus::LoaderJobDataFailedDueToFeedModifiedOrDeleted,
    LambdaDetailStatus::LoaderJobFailedBecauseDependencyNotSatisfied,
    LambdaDetailStatus::LoaderJobFailedInvalidRequest,
    LambdaDetailStatus::LoaderJobStatusUnknown,
    LambdaDetailStatus::UserError,
];

fn bad_request(code: &str, message: Option<&str>) -> BadRequest {
    BadRequest {
        code: code.to_string(),
        message: message.map(|m| m.to_string()),
        detailed_message: "detail".to_string(),
    }
}

#[test]
fn in_progress_is_retryable() {
    let s = LambdaDetailStatus::from_loader_job_status("LOAD_IN_PROGRESS");
    assert_eq!(s, LambdaDetailStatus::LoaderJobInProgress);
    assert!(s.is_retryable());
    assert_eq!(s.load_request_class(), LoadRequestClass::Loading);
}

#[test]
fn only_waiting_states_are_retryable() {
    for s in ALL {
        let waiting = matches!(
            s,
            LambdaDetailStatus::LoaderJobInQueue
                | LambdaDetailStatus::LoaderJobNotStarted
                | LambdaDetailStatus::LoaderJobInProgress
        );
        assert_eq!(s.is_retryable(), waiting);
        assert_eq!(s.should_show_detail(), !waiting);
    }
}

#[test]
fn rdf_class_is_one_of_four_and_stable() {
    for s in ALL {
        let a = s.rdf_class();
        let b = s.rdf_class();
        assert_eq!(a.local_name, b.local_name);
        assert_eq!(a.namespace.iri, "https://ekgf.org/ontology/dataops/");
        assert!([
            "QueuedLoadRequest",
            "LoadingLoadRequest",
            "FinishedLoadRequest",
            "FailedLoadRequest"
        ]
        .contains(&a.local_name.as_str()));
    }
    assert_eq!(
        LambdaDetailStatus::LoaderJobNotStarted.rdf_class().local_name,
        "QueuedLoadRequest"
    );
    assert_eq!(
        LambdaDetailStatus::LoaderJobStatusUnknown.rdf_class().display_turtle(),
        "dataops:FailedLoadRequest"
    );
}

#[test]
fn every_listed_loader_status_is_recognised() {
    let table = [
        ("LOAD_IN_QUEUE", LambdaDetailStatus::LoaderJobInQueue),
        ("LOAD_NOT_STARTED", LambdaDetailStatus::LoaderJobNotStarted),
        ("LOAD_IN_PROGRESS", LambdaDetailStatus::LoaderJobInProgress),
        ("LOAD_COMPLETED", LambdaDetailStatus::LoaderJobCompleted),
        ("LOAD_CANCELLED_BY_USER", LambdaDetailStatus::LoaderJobCancelledByUser),
        ("LOAD_CANCELLED_DUE_TO_ERRORS", LambdaDetailStatus::LoaderJobCancelledDueToErrors),
        ("LOAD_UNEXPECTED_ERROR", LambdaDetailStatus::LoaderJobUnexpectedError),
        ("LOAD_FAILED", LambdaDetailStatus::LoaderJobFailed),
        ("LOAD_S3_READ_ERROR", LambdaDetailStatus::LoaderJobS3ReadError),
        ("LOAD_S3_ACCESS_DENIED_ERROR", LambdaDetailStatus::LoaderJobS3AccessDeniedError),
        (
            "LOAD_COMMITTED_W_WRITE_CONFLICTS",
            LambdaDetailStatus::LoaderJobCommittedWithWriteConflicts,
        ),
        ("LOAD_DATA_DEADLOCK", LambdaDetailStatus::LoaderJobDataDeadlock),
        (
            "LOAD_DATA_FAILED_DUE_TO_FEED_MODIFIED_OR_DELETED",
            LambdaDetailStatus::LoaderJobDataFailedDueToFeedModifiedOrDeleted,
        ),
        (
            "LOAD_FAILED_BECAUSE_DEPENDENCY_NOT_SATISFIED",
            LambdaDetailStatus::LoaderJobFailedBecauseDependencyNotSatisfied,
        ),
        ("LOAD_FAILED_INVALID_REQUEST", LambdaDetailStatus::LoaderJobFailedInvalidRequest),
    ];
    for (raw, expected) in table {
        assert_eq!(LambdaDetailStatus::from_loader_job_status(raw), expected);
    }
    assert_eq!(
        LambdaDetailStatus::from_loader_job_status("load_in_queue"),
        LambdaDetailStatus::LoaderJobStatusUnknown
    );
    assert_eq!(
        LambdaDetailStatus::from_loader_job_status(""),
        LambdaDetailStatus::LoaderJobStatusUnknown
    );
}

#[test]
fn completed_is_finished_and_final() {
    let s = LambdaDetailStatus::from_loader_job_status("LOAD_COMPLETED");
    assert_eq!(s, LambdaDetailStatus::LoaderJobCompleted);
    assert_eq!(s.rdf_class().local_name, "FinishedLoadRequest");
    assert!(!s.is_retryable());
}

#[test]
fn bogus_status_is_unknown_and_failed() {
    let s = LambdaDetailStatus::from_loader_job_status("LOAD_BOGUS_VALUE");
    assert_eq!(s, LambdaDetailStatus::LoaderJobStatusUnknown);
    assert_eq!(s.rdf_class().local_name, "FailedLoadRequest");
    assert_eq!(s.message(), "Loader job status unknown");
    assert_eq!(LambdaDetailStatus::default(), LambdaDetailStatus::LoaderJobStatusUnknown);
}

#[test]
fn messages_are_exact() {
    assert_eq!(LambdaDetailStatus::LoaderJobInQueue.message(), "Loader job is in the queue");
    assert_eq!(LambdaDetailStatus::UserError.message(), "User error");
    assert_eq!(
        LambdaDetailStatus::MaxConcurrentLoadLimitBreached.message(),
        "Max concurrent load limit breached"
    );
}

#[test]
fn limit_breaches_are_recognised_unless_plain_400() {
    let concurrent = bad_request("409", Some("error: Max concurrent load limit breached (64)"));
    assert_eq!(
        LambdaDetailStatus::from_bad_request_exception(&concurrent),
        Some(LambdaDetailStatus::MaxConcurrentLoadLimitBreached)
    );
    assert_eq!(
        LambdaDetailError::from_bad_request_exception(&concurrent),
        Some(LambdaDetailError::MaxConcurrentLoadLimitBreached)
    );
    let queue = bad_request("429", Some("Max load task queue size limit breached"));
    assert_eq!(
        LambdaDetailStatus::from_bad_request_exception(&queue),
        Some(LambdaDetailStatus::MaxLoadTaskQueueSizeLimitBreached)
    );
    assert_eq!(
        LambdaDetailError::from_bad_request_exception(&queue),
        Some(LambdaDetailError::MaxLoadTaskQueueSizeLimitBreached)
    );
    let plain = bad_request("400", Some("Max concurrent load limit breached"));
    assert_eq!(LambdaDetailStatus::from_bad_request_exception(&plain), None);
    let no_message = bad_request("409", None);
    assert_eq!(LambdaDetailStatus::from_bad_request_exception(&no_message), None);
    let other = bad_request("409", Some("something else"));
    assert_eq!(LambdaDetailError::from_bad_request_exception(&other), None);
}
