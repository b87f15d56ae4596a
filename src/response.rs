//! The response envelope that each step returns to the workflow driver,
//! and the classification of loader failures into it.

use rand::Rng;
use vstd::prelude::*;
use vstd::string::*;
use crate::status::{BadRequest, LambdaDetailStatus};
use crate::text::{opt_str_view, opt_view, str_eq};

verus! {

/// The lowest suggested wait before polling again, in seconds.
pub const MIN_RETRY_WAIT_SECONDS: u16 = 10;

/// The bound (exclusive) of the suggested wait, in seconds.
pub const MAX_RETRY_WAIT_SECONDS: u16 = 60;

/// Relies on `rand::Rng::gen_range` over the thread-local generator: a value
/// drawn from `low..high`, which panics only when the range is empty.
#[verifier::external_body]
fn draw_in_range(low: u16, high: u16) -> (r: u16)
    requires
        low < high,
    ensures
        low <= r < high,
{
    rand::thread_rng().gen_range(low..high)
}

/// A fresh jittered wait, so that concurrent pollers do not retry in step.
pub fn random_retry_seconds() -> (r: u16)
    ensures
        MIN_RETRY_WAIT_SECONDS <= r < MAX_RETRY_WAIT_SECONDS,
{
    draw_in_range(MIN_RETRY_WAIT_SECONDS, MAX_RETRY_WAIT_SECONDS)
}

/// The mathematical content of a [`LambdaResponse`].
pub ghost struct ResponseView {
    pub status_code: u16,
    pub message: Seq<char>,
    pub detailed_message: Option<Seq<char>>,
    pub detail_status: LambdaDetailStatus,
    pub result_identifier: Option<Seq<char>>,
    pub suggested_retry_seconds: Option<u16>,
}

/// The detail, dropped where it only repeats the message.
pub open spec fn distinct_detail(message: Seq<char>, detail: Option<Seq<char>>) -> Option<
    Seq<char>,
> {
    if detail == Some(message) {
        None
    } else {
        detail
    }
}

impl ResponseView {
    /// The envelope without a detailed message that repeats the message.
    pub open spec fn cleaned(self) -> ResponseView {
        ResponseView {
            detailed_message: distinct_detail(self.message, self.detailed_message),
            ..self
        }
    }

    /// The envelope marked for a later retry after `seconds`.
    pub open spec fn retryable_after(self, seconds: u16) -> ResponseView {
        ResponseView { suggested_retry_seconds: Some(seconds), ..self.cleaned() }
    }
}

/// The envelope that the step functions return.
#[derive(Debug)]
pub struct LambdaResponse {
    pub status_code: u16,
    pub message: String,
    pub detailed_message: Option<String>,
    pub detail_status: LambdaDetailStatus,
    /// A slot for an identifier that the step produced, such as a job id.
    pub result_identifier: Option<String>,
    pub suggested_retry_seconds: Option<u16>,
}

impl View for LambdaResponse {
    type V = ResponseView;

    open spec fn view(&self) -> ResponseView {
        ResponseView {
            status_code: self.status_code,
            message: self.message@,
            detailed_message: opt_view(self.detailed_message),
            detail_status: self.detail_status,
            result_identifier: opt_view(self.result_identifier),
            suggested_retry_seconds: self.suggested_retry_seconds,
        }
    }
}

/// Whether an optional detail equals the message.
fn repeats_message(message: &String, detail: &Option<String>) -> (r: bool)
    ensures
        r == (opt_view(*detail) == Some(message@)),
{
    match detail {
        Some(d) => str_eq(d.as_str(), message.as_str()),
        None => false,
    }
}

/// The envelope of a successful check for `status`; a retryable status
/// carries the wait `seconds`.
pub open spec fn ok_spec(status: LambdaDetailStatus, detail: Option<Seq<char>>, seconds: u16) -> ResponseView {
    ResponseView {
        status_code: 200,
        message: status.message_spec(),
        detailed_message: distinct_detail(status.message_spec(), detail),
        detail_status: status,
        result_identifier: None,
        suggested_retry_seconds: if status.is_retryable_spec() {
            Some(seconds)
        } else {
            None
        },
    }
}

/// The text of the message for a pipeline mismatch.
pub open spec fn pipeline_mismatch_message(received: Seq<char>, required: Seq<char>) -> Seq<char> {
    "Pipeline ID not matching (received: "@ + received + ", required: "@ + required
}

/// The envelope of an accepted load job: queued, carrying its identifier,
/// to be polled after `seconds`.
pub open spec fn started_spec(load_id: Option<Seq<char>>, seconds: u16) -> ResponseView {
    ResponseView {
        status_code: 200,
        message: "Loader job started successfully"@,
        detailed_message: None,
        detail_status: LambdaDetailStatus::LoaderJobInQueue,
        result_identifier: load_id,
        suggested_retry_seconds: Some(seconds),
    }
}

/// Why a call to the bulk loader failed, as far as the library needs to know.
#[derive(Debug, Clone, Copy, PartialEq, Eq, Structural)]
pub enum DispatchCause {
    Timeout,
    Io,
    User,
    Other,
}

/// A failed call to the bulk loader, reduced to its kind and the renderings
/// of the original error that the response reports.
#[derive(Debug, Clone)]
pub enum LoaderError {
    /// The loader rejected the request as malformed.
    BadRequest(BadRequest),
    /// The call timed out; the rendering of the timeout.
    Timeout(String),
    /// The request could not be dispatched.
    Dispatch { cause: DispatchCause, rendering: String, source: String },
    /// The request could not be built.
    Construction(String),
    /// The response could not be read.
    Response(String),
    /// Any other error that the service reported.
    Service(String),
}

pub open spec fn dispatch_status(cause: DispatchCause) -> LambdaDetailStatus {
    match cause {
        DispatchCause::Timeout => LambdaDetailStatus::Timedout,
        DispatchCause::Io => LambdaDetailStatus::IOError,
        DispatchCause::User => LambdaDetailStatus::UserError,
        DispatchCause::Other => LambdaDetailStatus::LoaderJobUnexpectedError,
    }
}

/// An envelope with only a code, a message and a status.
pub open spec fn plain_view(code: u16, message: Seq<char>, status: LambdaDetailStatus) -> ResponseView {
    ResponseView {
        status_code: code,
        message: message,
        detailed_message: None,
        detail_status: status,
        result_identifier: None,
        suggested_retry_seconds: None,
    }
}

/// The envelope for a loader failure; a timeout is retried after `seconds`.
pub open spec fn error_spec(e: LoaderError, seconds: u16) -> ResponseView {
    match e {
        LoaderError::BadRequest(exc) => ResponseView {
            status_code: 400,
            message: match exc.message {
                Some(m) => m@,
                None => "unknown message"@,
            },
            detailed_message: Some(exc.detailed_message@),
            detail_status: match LambdaDetailStatus::from_bad_request_spec(exc) {
                Some(s) => s,
                None => LambdaDetailStatus::UserError,
            },
            result_identifier: None,
            suggested_retry_seconds: None,
        },
        LoaderError::Timeout(r) => plain_view(
            504,
            "Timeout Error: "@ + r@,
            LambdaDetailStatus::Timedout,
        ).retryable_after(seconds),
        LoaderError::Dispatch { cause, rendering, source } => ResponseView {
            status_code: 500,
            message: "Dispatch failure: "@ + rendering@,
            detailed_message: Some(source@),
            detail_status: dispatch_status(cause),
            result_identifier: None,
            suggested_retry_seconds: None,
        },
        LoaderError::Construction(r) => plain_view(
            504,
            "Construction failure: "@ + r@,
            LambdaDetailStatus::LoaderJobStatusUnknown,
        ),
        LoaderError::Response(r) => plain_view(
            500,
            "Response error: "@ + r@,
            LambdaDetailStatus::LoaderJobStatusUnknown,
        ),
        LoaderError::Service(r) => plain_view(
            500,
            "Service Error: "@ + r@,
            LambdaDetailStatus::LoaderJobStatusUnknown,
        ),
    }
}

fn plain(code: u16, message: String, status: LambdaDetailStatus) -> (r: LambdaResponse)
    ensures
        r@ == plain_view(code, message@, status),
{
    LambdaResponse {
        status_code: code,
        message,
        detailed_message: None,
        detail_status: status,
        result_identifier: None,
        suggested_retry_seconds: None,
    }
}

impl LambdaResponse {
    /// Drops a detailed message that only repeats the message.
    pub fn clean(&mut self)
        ensures
            final(self)@ == old(self)@.cleaned(),
    {
        if repeats_message(&self.message, &self.detailed_message) {
            self.detailed_message = None;
        }
    }

    /// Marks the envelope for a retry after the given wait.
    pub fn retryable_after(self, seconds: u16) -> (r: LambdaResponse)
        ensures
            r@ == self@.retryable_after(seconds),
    {
        let mut r = self;
        r.clean();
        r.suggested_retry_seconds = Some(seconds);
        r
    }

    /// Marks the envelope for a retry after a freshly drawn, jittered wait.
    pub fn retryable(self) -> (r: LambdaResponse)
        ensures
            r.suggested_retry_seconds matches Some(s) && MIN_RETRY_WAIT_SECONDS <= s
                < MAX_RETRY_WAIT_SECONDS && r@ == self@.retryable_after(s),
    {
        let seconds = random_retry_seconds();
        self.retryable_after(seconds)
    }

    /// The envelope for a request that names another pipeline than this one.
    pub fn pipeline_id_not_matching(received_pipeline_id: &str, required_pipeline_id: &str) -> (r:
        LambdaResponse)
        ensures
            r@ == plain_view(
                400,
                pipeline_mismatch_message(received_pipeline_id@, required_pipeline_id@),
                LambdaDetailStatus::PipelineIdNotMatching,
            ),
    {
        let message = String::from_str("Pipeline ID not matching (received: ").concat(
            received_pipeline_id,
        ).concat(", required: ").concat(required_pipeline_id);
        plain(400, message, LambdaDetailStatus::PipelineIdNotMatching)
    }

    /// The envelope of a successful step for `detail_status`, with the wait
    /// that a retryable status carries given.
    pub fn ok_with_retry_seconds(
        detail_status: LambdaDetailStatus,
        detailed_message: Option<&str>,
        seconds: u16,
    ) -> (r: LambdaResponse)
        ensures
            r@ == ok_spec(detail_status, opt_str_view(detailed_message), seconds),
    {
        let message = detail_status.message().to_string();
        let detail = match detailed_message {
            Some(d) => Some(d.to_string()),
            None => None,
        };
        let mut response = LambdaResponse {
            status_code: 200,
            message,
            detailed_message: detail,
            detail_status,
            result_identifier: None,
            suggested_retry_seconds: None,
        };
        response.clean();
        if detail_status.is_retryable() {
            response.suggested_retry_seconds = Some(seconds);
        }
        response
    }

    /// The envelope of a successful step for `detail_status`; a retryable
    /// status carries a jittered wait.
    pub fn ok(detail_status: LambdaDetailStatus, detailed_message: Option<&str>) -> (r:
        LambdaResponse)
        ensures
            detail_status.is_retryable_spec() ==> (r.suggested_retry_seconds matches Some(s)
                && MIN_RETRY_WAIT_SECONDS <= s < MAX_RETRY_WAIT_SECONDS && r@ == ok_spec(
                detail_status,
                opt_str_view(detailed_message),
                s,
            )),
            !detail_status.is_retryable_spec() ==> r@ == ok_spec(
                detail_status,
                opt_str_view(detailed_message),
                MIN_RETRY_WAIT_SECONDS,
            ),
    {
        let seconds = if detail_status.is_retryable() {
            random_retry_seconds()
        } else {
            MIN_RETRY_WAIT_SECONDS
        };
        Self::ok_with_retry_seconds(detail_status, detailed_message, seconds)
    }

    /// The envelope for a loader failure, a timeout being retried after the
    /// given wait.
    pub fn from_loader_error_with_retry_seconds(error: &LoaderError, seconds: u16) -> (r:
        LambdaResponse)
        ensures
            r@ == error_spec(*error, seconds),
    {
        match error {
            LoaderError::BadRequest(exc) => {
                let message = match &exc.message {
                    Some(m) => m.clone(),
                    None => String::from_str("unknown message"),
                };
                let status = match LambdaDetailStatus::from_bad_request_exception(exc) {
                    Some(s) => s,
                    None => LambdaDetailStatus::UserError,
                };
                LambdaResponse {
                    status_code: 400,
                    message,
                    detailed_message: Some(exc.detailed_message.clone()),
                    detail_status: status,
                    result_identifier: None,
                    suggested_retry_seconds: None,
                }
            },
            LoaderError::Timeout(r) => {
                let message = String::from_str("Timeout Error: ").concat(r.as_str());
                plain(504, message, LambdaDetailStatus::Timedout).retryable_after(seconds)
            },
            LoaderError::Dispatch { cause, rendering, source } => {
                let status = match cause {
                    DispatchCause::Timeout => LambdaDetailStatus::Timedout,
                    DispatchCause::Io => LambdaDetailStatus::IOError,
                    DispatchCause::User => LambdaDetailStatus::UserError,
                    DispatchCause::Other => LambdaDetailStatus::LoaderJobUnexpectedError,
                };
                LambdaResponse {
                    status_code: 500,
                    message: String::from_str("Dispatch failure: ").concat(rendering.as_str()),
                    detailed_message: Some(source.clone()),
                    detail_status: status,
                    result_identifier: None,
                    suggested_retry_seconds: None,
                }
            },
            LoaderError::Construction(r) => plain(
                504,
                String::from_str("Construction failure: ").concat(r.as_str()),
                LambdaDetailStatus::LoaderJobStatusUnknown,
            ),
            LoaderError::Response(r) => plain(
                500,
                String::from_str("Response error: ").concat(r.as_str()),
                LambdaDetailStatus::LoaderJobStatusUnknown,
            ),
            LoaderError::Service(r) => plain(
                500,
                String::from_str("Service Error: ").concat(r.as_str()),
                LambdaDetailStatus::LoaderJobStatusUnknown,
            ),
        }
    }

    /// The envelope for a loader failure; a timeout carries a jittered wait.
    pub fn from_loader_error(error: &LoaderError) -> (r: LambdaResponse)
        ensures
            exists|s: u16|
                MIN_RETRY_WAIT_SECONDS <= s < MAX_RETRY_WAIT_SECONDS && r@ == error_spec(*error, s),
    {
        let seconds = random_retry_seconds();
        Self::from_loader_error_with_retry_seconds(error, seconds)
    }

    /// The envelope for a load job that the loader accepted: queued, with
    /// the job identifier it assigned and the wait `seconds` before a poll.
    pub fn from_started_load_with_retry_seconds(load_id: Option<&str>, seconds: u16) -> (r:
        LambdaResponse)
        ensures
            r@ == started_spec(opt_str_view(load_id), seconds),
    {
        LambdaResponse {
            status_code: 200,
            message: String::from_str("Loader job started successfully"),
            detailed_message: None,
            detail_status: LambdaDetailStatus::LoaderJobInQueue,
            result_identifier: match load_id {
                Some(id) => Some(id.to_string()),
                None => None,
            },
            suggested_retry_seconds: Some(seconds),
        }
    }

    /// The envelope for a load job that the loader accepted, with a freshly
    /// drawn wait before a poll.
    pub fn from_started_load(load_id: Option<&str>) -> (r: LambdaResponse)
        ensures
            r.suggested_retry_seconds matches Some(s) && MIN_RETRY_WAIT_SECONDS <= s
                < MAX_RETRY_WAIT_SECONDS && r@ == started_spec(opt_str_view(load_id), s),
    {
        let seconds = random_retry_seconds();
        Self::from_started_load_with_retry_seconds(load_id, seconds)
    }
}

/// Cleaning is idempotent, and a cleaned envelope never carries a detailed
/// message equal to its message.
pub proof fn lemma_clean_idempotent(e: ResponseView)
    ensures
        e.cleaned().cleaned() == e.cleaned(),
        e.cleaned().detailed_message != Some(e.cleaned().message),
        e.detailed_message == Some(e.message) ==> e.cleaned().detailed_message is None,
{
}

/// A successful envelope suggests a retry exactly when its status is
/// retryable, and the suggested wait lies in the jitter range.
pub proof fn lemma_ok_retry_hint(status: LambdaDetailStatus, detail: Option<Seq<char>>, seconds: u16)
    requires
        MIN_RETRY_WAIT_SECONDS <= seconds < MAX_RETRY_WAIT_SECONDS,
    ensures
        ok_spec(status, detail, seconds).suggested_retry_seconds is Some <==> status.is_retryable_spec(),
        ok_spec(status, detail, seconds).suggested_retry_seconds matches Some(s) ==> MIN_RETRY_WAIT_SECONDS
            <= s < MAX_RETRY_WAIT_SECONDS,
        ok_spec(status, detail, seconds).detailed_message != Some(ok_spec(status, detail, seconds).message),
{
}

} // verus!
