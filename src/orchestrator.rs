//! The decisions of the two steps that a workflow driver invokes: submitting
//! a load request and polling it. Each invocation makes one transition; the
//! calls to the loader and the graph store are made by the caller, which
//! hands their outcomes to these functions.

use vstd::prelude::*;
use vstd::string::*;
use crate::error::Error;
use crate::identifier::EkgIdentifierContext;
use crate::ledger::{
    apply_upsert, ledger_prefixes, lemma_upsert_idempotent, registration_spec,
    registration_statement, upsert_spec, LedgerUpsert, Quad,
};
use crate::statement::{statement_text, Statement};
use crate::response::{
    error_spec, ok_spec, random_retry_seconds, started_spec, LambdaResponse, LoaderError, ResponseView,
    MAX_RETRY_WAIT_SECONDS, MIN_RETRY_WAIT_SECONDS,
};
use crate::status::{loader_status_spec, LambdaDetailStatus};
use crate::text::str_eq;

verus! {

/// The detail reported when the status payload lacks its status field.
pub const MISSING_STATUS_DETAIL: &'static str = "Missing overallStatus field in loader job status";

/// What a poll produced: the envelope to return and, where the new state is
/// known, the ledger upsert to write before returning it.
#[derive(Debug)]
pub struct PollOutcome {
    pub response: LambdaResponse,
    pub ledger: Option<LedgerUpsert>,
}

/// The diagnostic detail of a poll result.
pub open spec fn poll_detail(source_iri: Seq<char>, http_status: Seq<char>, payload: Seq<char>) -> Seq<
    char,
> {
    "Loader job status for "@ + source_iri + " is "@ + http_status + " with payload "@ + payload
}

/// The envelope of a poll, with the wait that a retryable status carries.
pub open spec fn poll_response_spec(
    overall_status: Option<Seq<char>>,
    source_iri: Seq<char>,
    http_status: Seq<char>,
    payload: Seq<char>,
    seconds: u16,
) -> ResponseView {
    match overall_status {
        None => ok_spec(
            LambdaDetailStatus::LoaderJobStatusUnknown,
            Some(MISSING_STATUS_DETAIL@),
            seconds,
        ),
        Some(raw) => ok_spec(
            loader_status_spec(raw),
            if loader_status_spec(raw).is_retryable_spec() {
                None
            } else {
                Some(poll_detail(source_iri, http_status, payload))
            },
            seconds,
        ),
    }
}

/// Decides a poll from the loader's answer: `overall_status` is the raw
/// status string, absent when the payload lacks it; `http_status` and
/// `payload` are renderings of the answer for diagnostics and the audit
/// comment. A missing status is reported as unknown and writes nothing;
/// otherwise the status is classified and its upsert is to be written.
pub fn poll_outcome_with_retry_seconds(
    context: &EkgIdentifierContext,
    pipeline_id: &str,
    load_request_id: &str,
    source_iri: &str,
    overall_status: Option<&str>,
    http_status: &str,
    payload: &str,
    seconds: u16,
) -> (r: PollOutcome)
    ensures
        r.response@ == poll_response_spec(
            crate::text::opt_str_view(overall_status),
            source_iri@,
            http_status@,
            payload@,
            seconds,
        ),
        overall_status is None ==> r.ledger is None,
        overall_status matches Some(raw) ==> (r.ledger matches Some(u) && u@ == upsert_spec(
            *context,
            pipeline_id@,
            load_request_id@,
            source_iri@,
            loader_status_spec(raw@),
            Some(payload@),
        )),
{
    match overall_status {
        None => PollOutcome {
            response: LambdaResponse::ok_with_retry_seconds(
                LambdaDetailStatus::LoaderJobStatusUnknown,
                Some(MISSING_STATUS_DETAIL),
                seconds,
            ),
            ledger: None,
        },
        Some(raw) => {
            let status = LambdaDetailStatus::from_loader_job_status(raw);
            let response = if status.should_show_detail() {
                let detail = String::from_str("Loader job status for ").concat(source_iri).concat(
                    " is ",
                ).concat(http_status).concat(" with payload ").concat(payload);
                LambdaResponse::ok_with_retry_seconds(status, Some(detail.as_str()), seconds)
            } else {
                LambdaResponse::ok_with_retry_seconds(status, None, seconds)
            };
            let ledger = LedgerUpsert::new(
                context,
                pipeline_id,
                load_request_id,
                source_iri,
                status,
                Some(payload),
            );
            PollOutcome { response, ledger: Some(ledger) }
        },
    }
}

/// Decides a poll as [`poll_outcome_with_retry_seconds`] does, drawing the
/// jittered wait itself.
pub fn poll_outcome(
    context: &EkgIdentifierContext,
    pipeline_id: &str,
    load_request_id: &str,
    source_iri: &str,
    overall_status: Option<&str>,
    http_status: &str,
    payload: &str,
) -> (r: PollOutcome)
    ensures
        exists|s: u16|
            MIN_RETRY_WAIT_SECONDS <= s < MAX_RETRY_WAIT_SECONDS && r.response@ == poll_response_spec(
                crate::text::opt_str_view(overall_status),
                source_iri@,
                http_status@,
                payload@,
                s,
            ),
        overall_status is None ==> r.ledger is None,
        overall_status matches Some(raw) ==> (r.ledger matches Some(u) && u@ == upsert_spec(
            *context,
            pipeline_id@,
            load_request_id@,
            source_iri@,
            loader_status_spec(raw@),
            Some(payload@),
        )),
{
    let seconds = random_retry_seconds();
    poll_outcome_with_retry_seconds(
        context,
        pipeline_id,
        load_request_id,
        source_iri,
        overall_status,
        http_status,
        payload,
        seconds,
    )
}

/// The upsert written when a poll failed after the loader answered: the
/// state is unknown, so the request is recorded as failed.
pub fn failed_poll_upsert(
    context: &EkgIdentifierContext,
    pipeline_id: &str,
    load_request_id: &str,
    source_iri: &str,
) -> (r: LedgerUpsert)
    ensures
        r@ == upsert_spec(
            *context,
            pipeline_id@,
            load_request_id@,
            source_iri@,
            LambdaDetailStatus::LoaderJobStatusUnknown,
            None,
        ),
{
    LedgerUpsert::new(
        context,
        pipeline_id,
        load_request_id,
        source_iri,
        LambdaDetailStatus::LoaderJobStatusUnknown,
        None,
    )
}

/// The job identifier that a previous envelope carries, which a poll needs.
pub fn poll_target(previous: &LambdaResponse) -> (r: Result<&str, Error>)
    ensures
        previous.result_identifier matches Some(id) ==> (r matches Ok(s) && s@ == id@),
        previous.result_identifier is None ==> (r matches Err(Error::MissingField(f)) && f@
            == "result_identifier"@),
{
    match &previous.result_identifier {
        Some(id) => Ok(id.as_str()),
        None => Err(Error::MissingField(String::from_str("result_identifier"))),
    }
}

/// The first decision of a submission: a request for another pipeline is
/// answered at once, without a call to the loader or the ledger.
pub enum LoadStep {
    Reply(LambdaResponse),
    Submit,
}

pub fn begin_load(request_pipeline_id: &str, pipeline_id: &str) -> (r: LoadStep)
    ensures
        request_pipeline_id@ == pipeline_id@ <==> r is Submit,
        r matches LoadStep::Reply(resp) ==> resp@ == crate::response::plain_view(
            400,
            crate::response::pipeline_mismatch_message(request_pipeline_id@, pipeline_id@),
            LambdaDetailStatus::PipelineIdNotMatching,
        ),
{
    if str_eq(request_pipeline_id, pipeline_id) {
        LoadStep::Submit
    } else {
        LoadStep::Reply(LambdaResponse::pipeline_id_not_matching(request_pipeline_id, pipeline_id))
    }
}

/// The envelope after the loader answered a submission: the job identifier
/// it assigned, queued and to be polled after the wait `seconds`; or the
/// classified failure.
pub open spec fn submitted_spec(outcome: Result<Option<Seq<char>>, LoaderError>, seconds: u16) -> ResponseView {
    match outcome {
        Ok(id) => started_spec(id, seconds),
        Err(e) => error_spec(e, seconds),
    }
}

pub open spec fn outcome_view(outcome: Result<Option<String>, LoaderError>) -> Result<Option<Seq<char>>, LoaderError> {
    match outcome {
        Ok(id) => Ok(crate::text::opt_view(id)),
        Err(e) => Err(e),
    }
}

/// The envelope of a submission; a job that received an identifier is then
/// to be registered in the ledger as queued.
pub fn submitted_load_with_retry_seconds(outcome: Result<Option<String>, LoaderError>, seconds: u16) -> (r:
    LambdaResponse)
    ensures
        r@ == submitted_spec(outcome_view(outcome), seconds),
{
    match outcome {
        Ok(id) => match &id {
            Some(s) => LambdaResponse::from_started_load_with_retry_seconds(Some(s.as_str()), seconds),
            None => LambdaResponse::from_started_load_with_retry_seconds(None, seconds),
        },
        Err(e) => LambdaResponse::from_loader_error_with_retry_seconds(&e, seconds),
    }
}

/// The envelope of a submission, with a freshly drawn wait.
pub fn submitted_load(outcome: Result<Option<String>, LoaderError>) -> (r: LambdaResponse)
    ensures
        exists|s: u16|
            MIN_RETRY_WAIT_SECONDS <= s < MAX_RETRY_WAIT_SECONDS && r@ == submitted_spec(
                outcome_view(outcome),
                s,
            ),
{
    let seconds = random_retry_seconds();
    submitted_load_with_retry_seconds(outcome, seconds)
}

/// The detail of the envelope that a registration produces.
pub const REGISTERED_DETAIL: &'static str = "Load request registered successfully";

/// The statement that registers a submission in the ledger: there is one
/// exactly when the loader assigned a job identifier.
pub fn registration_for(
    context: &EkgIdentifierContext,
    pipeline_id: &str,
    response: &LambdaResponse,
    source: &str,
) -> (r: Option<Statement>)
    ensures
        response.result_identifier is None ==> r is None,
        response.result_identifier matches Some(id) ==> (r matches Some(s) && s@ == statement_text(
            ledger_prefixes(),
            registration_spec(*context, pipeline_id@, id@, source@),
        )),
{
    match &response.result_identifier {
        Some(id) => match registration_statement(context, pipeline_id, id.as_str(), source) {
            Ok(s) => Some(s),
            Err(_) => None,
        },
        None => None,
    }
}

/// The envelope of a completed registration: queued, to be polled after a
/// jittered wait.
pub fn registered_response() -> (r: LambdaResponse)
    ensures
        r.suggested_retry_seconds matches Some(s) && MIN_RETRY_WAIT_SECONDS <= s
            < MAX_RETRY_WAIT_SECONDS && r@ == ok_spec(
            LambdaDetailStatus::LoaderJobInQueue,
            Some(REGISTERED_DETAIL@),
            s,
        ),
{
    LambdaResponse::ok(LambdaDetailStatus::LoaderJobInQueue, Some(REGISTERED_DETAIL))
}

/// Polling a job again and receiving the same answer yields the same
/// upsert, so the ledger ends as after the first poll: repeated polls of a
/// finished job rewrite the same content.
pub proof fn lemma_repeated_poll_is_stable(
    store: Set<Quad>,
    context: EkgIdentifierContext,
    pipeline_id: Seq<char>,
    load_request_id: Seq<char>,
    source_iri: Seq<char>,
    raw_status: Seq<char>,
    payload: Seq<char>,
)
    ensures
        ({
            let u = upsert_spec(
                context,
                pipeline_id,
                load_request_id,
                source_iri,
                loader_status_spec(raw_status),
                Some(payload),
            );
            apply_upsert(apply_upsert(store, u), u) == apply_upsert(store, u)
        }),
{
    let u = upsert_spec(
        context,
        pipeline_id,
        load_request_id,
        source_iri,
        loader_status_spec(raw_status),
        Some(payload),
    );
    lemma_upsert_idempotent(store, u);
}

} // verus!
