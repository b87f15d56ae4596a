//! The closed taxonomy of load-job outcomes and the classification of raw
//! loader statuses and rejected requests into it.

use vstd::prelude::*;
use crate::namespace::{Class, Namespace, NS_DATAOPS, PREFIX_NAME_DATAOPS};
use crate::text::{seq_contains, str_contains, str_eq};

verus! {

/// The outcome of a load job, or of an attempt to start or check one.
#[derive(Debug, Clone, Copy, PartialEq, Eq, Structural)]
pub enum LambdaDetailStatus {
    PipelineIdNotMatching,
    Timedout,
    IOError,
    MaxLoadTaskQueueSizeLimitBreached,
    MaxConcurrentLoadLimitBreached,
    LoaderJobInQueue,
    LoaderJobNotStarted,
    LoaderJobInProgress,
    LoaderJobCompleted,
    LoaderJobCancelledByUser,
    LoaderJobCancelledDueToErrors,
    LoaderJobUnexpectedError,
    LoaderJobFailed,
    LoaderJobS3ReadError,
    LoaderJobS3AccessDeniedError,
    LoaderJobCommittedWithWriteConflicts,
    LoaderJobDataDeadlock,
    LoaderJobDataFailedDueToFeedModifiedOrDeleted,
    LoaderJobFailedBecauseDependencyNotSatisfied,
    LoaderJobFailedInvalidRequest,
    LoaderJobStatusUnknown,
    UserError,
}

/// The four lifecycle classes of a load request in the ledger.
#[derive(Debug, Clone, Copy, PartialEq, Eq, Structural)]
pub enum LoadRequestClass {
    Queued,
    Loading,
    Finished,
    Failed,
}

pub const LN_LOAD_REQUEST: &'static str = "LoadRequest";
pub const LN_QUEUED_LOAD_REQUEST: &'static str = "QueuedLoadRequest";
pub const LN_LOADING_LOAD_REQUEST: &'static str = "LoadingLoadRequest";
pub const LN_FINISHED_LOAD_REQUEST: &'static str = "FinishedLoadRequest";
pub const LN_FAILED_LOAD_REQUEST: &'static str = "FailedLoadRequest";

impl LoadRequestClass {
    pub open spec fn local_name_spec(self) -> Seq<char> {
        match self {
            LoadRequestClass::Queued => LN_QUEUED_LOAD_REQUEST@,
            LoadRequestClass::Loading => LN_LOADING_LOAD_REQUEST@,
            LoadRequestClass::Finished => LN_FINISHED_LOAD_REQUEST@,
            LoadRequestClass::Failed => LN_FAILED_LOAD_REQUEST@,
        }
    }

    /// The local name of the class within the data-operations ontology.
    pub fn local_name(&self) -> (r: &'static str)
        ensures
            r@ == self.local_name_spec(),
    {
        match self {
            LoadRequestClass::Queued => LN_QUEUED_LOAD_REQUEST,
            LoadRequestClass::Loading => LN_LOADING_LOAD_REQUEST,
            LoadRequestClass::Finished => LN_FINISHED_LOAD_REQUEST,
            LoadRequestClass::Failed => LN_FAILED_LOAD_REQUEST,
        }
    }

    /// The class in the data-operations namespace.
    pub fn as_class(&self) -> (r: Class)
        ensures
            r.namespace.name@ == PREFIX_NAME_DATAOPS@,
            r.namespace.iri@ == NS_DATAOPS@,
            r.namespace.wf(),
            r.local_name@ == self.local_name_spec(),
    {
        Class::declare(Namespace::dataops(), self.local_name())
    }
}

/// The superclass of the four lifecycle classes.
pub fn load_request_class() -> (r: Class)
    ensures
        r.namespace.name@ == PREFIX_NAME_DATAOPS@,
        r.namespace.iri@ == NS_DATAOPS@,
        r.namespace.wf(),
        r.local_name@ == LN_LOAD_REQUEST@,
{
    Class::declare(Namespace::dataops(), LN_LOAD_REQUEST)
}

/// The status for each raw status string of the bulk loader; any other
/// string is unknown.
pub open spec fn loader_status_spec(s: Seq<char>) -> LambdaDetailStatus {
    if s == "LOAD_IN_QUEUE"@ {
        LambdaDetailStatus::LoaderJobInQueue
    } else if s == "LOAD_NOT_STARTED"@ {
        LambdaDetailStatus::LoaderJobNotStarted
    } else if s == "LOAD_IN_PROGRESS"@ {
        LambdaDetailStatus::LoaderJobInProgress
    } else if s == "LOAD_COMPLETED"@ {
        LambdaDetailStatus::LoaderJobCompleted
    } else if s == "LOAD_CANCELLED_BY_USER"@ {
        LambdaDetailStatus::LoaderJobCancelledByUser
    } else if s == "LOAD_CANCELLED_DUE_TO_ERRORS"@ {
        LambdaDetailStatus::LoaderJobCancelledDueToErrors
    } else if s == "LOAD_UNEXPECTED_ERROR"@ {
        LambdaDetailStatus::LoaderJobUnexpectedError
    } else if s == "LOAD_FAILED"@ {
        LambdaDetailStatus::LoaderJobFailed
    } else if s == "LOAD_S3_READ_ERROR"@ {
        LambdaDetailStatus::LoaderJobS3ReadError
    } else if s == "LOAD_S3_ACCESS_DENIED_ERROR"@ {
        LambdaDetailStatus::LoaderJobS3AccessDeniedError
    } else if s == "LOAD_COMMITTED_W_WRITE_CONFLICTS"@ {
        LambdaDetailStatus::LoaderJobCommittedWithWriteConflicts
    } else if s == "LOAD_DATA_DEADLOCK"@ {
        LambdaDetailStatus::LoaderJobDataDeadlock
    } else if s == "LOAD_DATA_FAILED_DUE_TO_FEED_MODIFIED_OR_DELETED"@ {
        LambdaDetailStatus::LoaderJobDataFailedDueToFeedModifiedOrDeleted
    } else if s == "LOAD_FAILED_BECAUSE_DEPENDENCY_NOT_SATISFIED"@ {
        LambdaDetailStatus::LoaderJobFailedBecauseDependencyNotSatisfied
    } else if s == "LOAD_FAILED_INVALID_REQUEST"@ {
        LambdaDetailStatus::LoaderJobFailedInvalidRequest
    } else {
        LambdaDetailStatus::LoaderJobStatusUnknown
    }
}

/// The phrase by which the loader reports a full task queue.
pub const QUEUE_LIMIT_PHRASE: &'static str = "Max load task queue size limit breached";

/// The phrase by which the loader reports too many concurrent loads.
pub const CONCURRENCY_LIMIT_PHRASE: &'static str = "Max concurrent load limit breached";

/// A request that the loader rejected as malformed.
#[derive(Debug, Clone)]
pub struct BadRequest {
    pub code: String,
    pub message: Option<String>,
    pub detailed_message: String,
}

/// Which limit a rejected request reports: 0 none, 1 the queue, 2 concurrency.
pub open spec fn breach_kind(exc: BadRequest) -> int {
    if exc.code@ != "400"@ && exc.message is Some {
        if seq_contains(exc.message->0@, QUEUE_LIMIT_PHRASE@) {
            1
        } else if seq_contains(exc.message->0@, CONCURRENCY_LIMIT_PHRASE@) {
            2
        } else {
            0
        }
    } else {
        0
    }
}

fn breach_kind_of(exc: &BadRequest) -> (r: u8)
    ensures
        r as int == breach_kind(*exc),
{
    if !str_eq(exc.code.as_str(), "400") {
        if let Some(message) = &exc.message {
            if str_contains(message.as_str(), QUEUE_LIMIT_PHRASE) {
                return 1;
            } else if str_contains(message.as_str(), CONCURRENCY_LIMIT_PHRASE) {
                return 2;
            }
        }
    }
    0
}

impl LambdaDetailStatus {
    pub open spec fn is_retryable_spec(self) -> bool {
        self == LambdaDetailStatus::LoaderJobInQueue || self
            == LambdaDetailStatus::LoaderJobNotStarted || self
            == LambdaDetailStatus::LoaderJobInProgress
    }

    pub open spec fn rdf_class_spec(self) -> LoadRequestClass {
        match self {
            LambdaDetailStatus::LoaderJobInQueue => LoadRequestClass::Queued,
            LambdaDetailStatus::LoaderJobNotStarted => LoadRequestClass::Queued,
            LambdaDetailStatus::LoaderJobInProgress => LoadRequestClass::Loading,
            LambdaDetailStatus::LoaderJobCompleted => LoadRequestClass::Finished,
            _ => LoadRequestClass::Failed,
        }
    }

    pub open spec fn message_spec(self) -> Seq<char> {
        match self {
            LambdaDetailStatus::PipelineIdNotMatching => "Pipeline ID not matching"@,
            LambdaDetailStatus::Timedout => "Timed out"@,
            LambdaDetailStatus::IOError => "I/O error"@,
            LambdaDetailStatus::MaxLoadTaskQueueSizeLimitBreached => QUEUE_LIMIT_PHRASE@,
            LambdaDetailStatus::MaxConcurrentLoadLimitBreached => CONCURRENCY_LIMIT_PHRASE@,
            LambdaDetailStatus::LoaderJobInQueue => "Loader job is in the queue"@,
            LambdaDetailStatus::LoaderJobNotStarted => "Loader job has not started yet"@,
            LambdaDetailStatus::LoaderJobInProgress => "Loader job is still in progress"@,
            LambdaDetailStatus::LoaderJobCompleted => "Loader job completed"@,
            LambdaDetailStatus::LoaderJobCancelledByUser => "Loader job cancelled by user"@,
            LambdaDetailStatus::LoaderJobCancelledDueToErrors => "Loader job cancelled due to errors"@,
            LambdaDetailStatus::LoaderJobUnexpectedError => "Loader job failed due to unexpected error"@,
            LambdaDetailStatus::LoaderJobFailed => "Loader job failed"@,
            LambdaDetailStatus::LoaderJobS3ReadError => "Loader job failed due to S3 read error"@,
            LambdaDetailStatus::LoaderJobS3AccessDeniedError => "Loader job failed due to S3 access denied error"@,
            LambdaDetailStatus::LoaderJobCommittedWithWriteConflicts => "Loader job failed due to write conflicts"@,
            LambdaDetailStatus::LoaderJobDataDeadlock => "Loader job failed due to data deadlock"@,
            LambdaDetailStatus::LoaderJobDataFailedDueToFeedModifiedOrDeleted => "Loader job failed because file was deleted or updated after load start."@,
            LambdaDetailStatus::LoaderJobFailedBecauseDependencyNotSatisfied => "Loader job failed because dependency was not satisfied."@,
            LambdaDetailStatus::LoaderJobFailedInvalidRequest => "Loader job failed due to invalid request"@,
            LambdaDetailStatus::LoaderJobStatusUnknown => "Loader job status unknown"@,
            LambdaDetailStatus::UserError => "User error"@,
        }
    }

    /// The status of a rejected request that reports a breached limit.
    pub open spec fn from_bad_request_spec(exc: BadRequest) -> Option<LambdaDetailStatus> {
        if breach_kind(exc) == 1 {
            Some(LambdaDetailStatus::MaxLoadTaskQueueSizeLimitBreached)
        } else if breach_kind(exc) == 2 {
            Some(LambdaDetailStatus::MaxConcurrentLoadLimitBreached)
        } else {
            None
        }
    }

    /// Recognises the two limit-breach phrases in a rejected request whose
    /// code is not plain `400`.
    pub fn from_bad_request_exception(exc: &BadRequest) -> (r: Option<LambdaDetailStatus>)
        ensures
            r == Self::from_bad_request_spec(*exc),
    {
        let kind = breach_kind_of(exc);
        if kind == 1 {
            Some(LambdaDetailStatus::MaxLoadTaskQueueSizeLimitBreached)
        } else if kind == 2 {
            Some(LambdaDetailStatus::MaxConcurrentLoadLimitBreached)
        } else {
            None
        }
    }

    /// Classifies a raw loader status string; an unrecognised one is unknown.
    pub fn from_loader_job_status(status: &str) -> (r: LambdaDetailStatus)
        ensures
            r == loader_status_spec(status@),
    {
        if str_eq(status, "LOAD_IN_QUEUE") {
            LambdaDetailStatus::LoaderJobInQueue
        } else if str_eq(status, "LOAD_NOT_STARTED") {
            LambdaDetailStatus::LoaderJobNotStarted
        } else if str_eq(status, "LOAD_IN_PROGRESS") {
            LambdaDetailStatus::LoaderJobInProgress
        } else if str_eq(status, "LOAD_COMPLETED") {
            LambdaDetailStatus::LoaderJobCompleted
        } else if str_eq(status, "LOAD_CANCELLED_BY_USER") {
            LambdaDetailStatus::LoaderJobCancelledByUser
        } else if str_eq(status, "LOAD_CANCELLED_DUE_TO_ERRORS") {
            LambdaDetailStatus::LoaderJobCancelledDueToErrors
        } else if str_eq(status, "LOAD_UNEXPECTED_ERROR") {
            LambdaDetailStatus::LoaderJobUnexpectedError
        } else if str_eq(status, "LOAD_FAILED") {
            LambdaDetailStatus::LoaderJobFailed
        } else if str_eq(status, "LOAD_S3_READ_ERROR") {
            LambdaDetailStatus::LoaderJobS3ReadError
        } else if str_eq(status, "LOAD_S3_ACCESS_DENIED_ERROR") {
            LambdaDetailStatus::LoaderJobS3AccessDeniedError
        } else if str_eq(status, "LOAD_COMMITTED_W_WRITE_CONFLICTS") {
            LambdaDetailStatus::LoaderJobCommittedWithWriteConflicts
        } else if str_eq(status, "LOAD_DATA_DEADLOCK") {
            LambdaDetailStatus::LoaderJobDataDeadlock
        } else if str_eq(status, "LOAD_DATA_FAILED_DUE_TO_FEED_MODIFIED_OR_DELETED") {
            LambdaDetailStatus::LoaderJobDataFailedDueToFeedModifiedOrDeleted
        } else if str_eq(status, "LOAD_FAILED_BECAUSE_DEPENDENCY_NOT_SATISFIED") {
            LambdaDetailStatus::LoaderJobFailedBecauseDependencyNotSatisfied
        } else if str_eq(status, "LOAD_FAILED_INVALID_REQUEST") {
            LambdaDetailStatus::LoaderJobFailedInvalidRequest
        } else {
            LambdaDetailStatus::LoaderJobStatusUnknown
        }
    }

    /// A human-readable description of the status.
    pub fn message(&self) -> (r: &'static str)
        ensures
            r@ == self.message_spec(),
    {
        match self {
            LambdaDetailStatus::PipelineIdNotMatching => "Pipeline ID not matching",
            LambdaDetailStatus::Timedout => "Timed out",
            LambdaDetailStatus::IOError => "I/O error",
            LambdaDetailStatus::MaxLoadTaskQueueSizeLimitBreached => QUEUE_LIMIT_PHRASE,
            LambdaDetailStatus::MaxConcurrentLoadLimitBreached => CONCURRENCY_LIMIT_PHRASE,
            LambdaDetailStatus::LoaderJobInQueue => "Loader job is in the queue",
            LambdaDetailStatus::LoaderJobNotStarted => "Loader job has not started yet",
            LambdaDetailStatus::LoaderJobInProgress => "Loader job is still in progress",
            LambdaDetailStatus::LoaderJobCompleted => "Loader job completed",
            LambdaDetailStatus::LoaderJobCancelledByUser => "Loader job cancelled by user",
            LambdaDetailStatus::LoaderJobCancelledDueToErrors => "Loader job cancelled due to errors",
            LambdaDetailStatus::LoaderJobUnexpectedError => "Loader job failed due to unexpected error",
            LambdaDetailStatus::LoaderJobFailed => "Loader job failed",
            LambdaDetailStatus::LoaderJobS3ReadError => "Loader job failed due to S3 read error",
            LambdaDetailStatus::LoaderJobS3AccessDeniedError => "Loader job failed due to S3 access denied error",
            LambdaDetailStatus::LoaderJobCommittedWithWriteConflicts => "Loader job failed due to write conflicts",
            LambdaDetailStatus::LoaderJobDataDeadlock => "Loader job failed due to data deadlock",
            LambdaDetailStatus::LoaderJobDataFailedDueToFeedModifiedOrDeleted => "Loader job failed because file was deleted or updated after load start.",
            LambdaDetailStatus::LoaderJobFailedBecauseDependencyNotSatisfied => "Loader job failed because dependency was not satisfied.",
            LambdaDetailStatus::LoaderJobFailedInvalidRequest => "Loader job failed due to invalid request",
            LambdaDetailStatus::LoaderJobStatusUnknown => "Loader job status unknown",
            LambdaDetailStatus::UserError => "User error",
        }
    }

    /// Whether a response may carry verbose detail; the waiting states do not.
    pub fn should_show_detail(&self) -> (r: bool)
        ensures
            r == !self.is_retryable_spec(),
    {
        match self {
            LambdaDetailStatus::LoaderJobInQueue
            | LambdaDetailStatus::LoaderJobNotStarted
            | LambdaDetailStatus::LoaderJobInProgress => false,
            _ => true,
        }
    }

    /// Whether the caller should check the status of the load again later.
    pub fn is_retryable(&self) -> (r: bool)
        ensures
            r == self.is_retryable_spec(),
    {
        match self {
            LambdaDetailStatus::LoaderJobInQueue
            | LambdaDetailStatus::LoaderJobNotStarted
            | LambdaDetailStatus::LoaderJobInProgress => true,
            _ => false,
        }
    }

    /// The lifecycle class that a load request in this status belongs to.
    pub fn load_request_class(&self) -> (r: LoadRequestClass)
        ensures
            r == self.rdf_class_spec(),
    {
        match self {
            LambdaDetailStatus::LoaderJobInQueue => LoadRequestClass::Queued,
            LambdaDetailStatus::LoaderJobNotStarted => LoadRequestClass::Queued,
            LambdaDetailStatus::LoaderJobInProgress => LoadRequestClass::Loading,
            LambdaDetailStatus::LoaderJobCompleted => LoadRequestClass::Finished,
            _ => LoadRequestClass::Failed,
        }
    }

    /// The ledger class, a subclass of `dataops:LoadRequest`, for this status.
    pub fn rdf_class(&self) -> (r: Class)
        ensures
            r.namespace.name@ == PREFIX_NAME_DATAOPS@,
            r.namespace.iri@ == NS_DATAOPS@,
            r.local_name@ == self.rdf_class_spec().local_name_spec(),
    {
        self.load_request_class().as_class()
    }
}

impl Default for LambdaDetailStatus {
    fn default() -> (r: LambdaDetailStatus)
        ensures
            r == LambdaDetailStatus::LoaderJobStatusUnknown,
    {
        LambdaDetailStatus::LoaderJobStatusUnknown
    }
}

/// The limit that a rejected request reports as breached.
#[derive(Debug, Clone, Copy, PartialEq, Eq, Structural)]
pub enum LambdaDetailError {
    MaxLoadTaskQueueSizeLimitBreached,
    MaxConcurrentLoadLimitBreached,
}

impl LambdaDetailError {
    pub open spec fn from_bad_request_spec(exc: BadRequest) -> Option<LambdaDetailError> {
        if breach_kind(exc) == 1 {
            Some(LambdaDetailError::MaxLoadTaskQueueSizeLimitBreached)
        } else if breach_kind(exc) == 2 {
            Some(LambdaDetailError::MaxConcurrentLoadLimitBreached)
        } else {
            None
        }
    }

    /// Recognises the two limit-breach phrases in a rejected request whose
    /// code is not plain `400`.
    pub fn from_bad_request_exception(exc: &BadRequest) -> (r: Option<LambdaDetailError>)
        ensures
            r == Self::from_bad_request_spec(*exc),
    {
        let kind = breach_kind_of(exc);
        if kind == 1 {
            Some(LambdaDetailError::MaxLoadTaskQueueSizeLimitBreached)
        } else if kind == 2 {
            Some(LambdaDetailError::MaxConcurrentLoadLimitBreached)
        } else {
            None
        }
    }
}

/// Exactly the three waiting states are retryable.
pub proof fn lemma_retryable_states(status: LambdaDetailStatus)
    ensures
        status.is_retryable_spec() <==> (status == LambdaDetailStatus::LoaderJobInQueue || status
            == LambdaDetailStatus::LoaderJobNotStarted || status
            == LambdaDetailStatus::LoaderJobInProgress),
{
}

/// Every status has one of the four lifecycle classes; the waiting states
/// are queued or loading, completion is finished, and every other status,
/// unknown included, is failed.
pub proof fn lemma_rdf_class_total(status: LambdaDetailStatus)
    ensures
        status.rdf_class_spec() == LoadRequestClass::Queued || status.rdf_class_spec()
            == LoadRequestClass::Loading || status.rdf_class_spec() == LoadRequestClass::Finished
            || status.rdf_class_spec() == LoadRequestClass::Failed,
        status.rdf_class_spec() == LoadRequestClass::Queued <==> (status
            == LambdaDetailStatus::LoaderJobInQueue || status
            == LambdaDetailStatus::LoaderJobNotStarted),
        status.rdf_class_spec() == LoadRequestClass::Loading <==> status
            == LambdaDetailStatus::LoaderJobInProgress,
        status.rdf_class_spec() == LoadRequestClass::Finished <==> status
            == LambdaDetailStatus::LoaderJobCompleted,
        status.is_retryable_spec() ==> status.rdf_class_spec() != LoadRequestClass::Failed,
{
}

/// A string that the loader's table does not list is classified as
/// unknown, whose class is failed.
pub proof fn lemma_unlisted_status_fails(s: Seq<char>)
    requires
        loader_status_spec(s) == LambdaDetailStatus::LoaderJobStatusUnknown,
    ensures
        loader_status_spec(s).rdf_class_spec() == LoadRequestClass::Failed,
        !loader_status_spec(s).is_retryable_spec(),
{
}

} // verus!
