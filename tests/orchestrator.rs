use ekg_rdf_load::client::{build_request, FORM_CONTENT_TYPE};
use ekg_rdf_load::error::Error;
use ekg_rdf_load::events::{
    OwnerIdentity, RequestParameters, ResponseElements, S3Bucket, S3EventRecord, S3EventRecords,
    S3Object, UserId, S3,
};
use ekg_rdf_load::identifier::{EkgIdentifierContext, EkgIdentifierContexts};
use ekg_rdf_load::load_request::{require_records, Format, LoadRequest, Mode};
use ekg_rdf_load::load_response;
use ekg_rdf_load::orchestrator::{
    begin_load, failed_poll_upsert, registered_response, registration_for, poll_outcome, poll_outcome_with_retry_seconds, poll_target,
    submitted_load, LoadStep,
};
use ekg_rdf_load::response::{LambdaResponse, LoaderError};
use ekg_rdf_load::statement::Statement;
use ekg_rdf_load::prefixes::Prefixes;
use ekg_rdf_load::statement_type::{SPARQLFlavor, SPARQLStatementType};
use ekg_rdf_load::status::{BadRequest, LambdaDetailError, LambdaDetailStatus, LoadRequestClass};

fn context() -> EkgIdentifierContext {
    EkgIdentifierContext {
        ekg_base: "https://placeholder.kg".to_string(),
        ekg_id_base: "https://placeholder.kg/id/".to_string(),
        ekg_graph_base: "https://placeholder.kg/graph".to_string(),
        ekg_ontology_base: "https://placeholder.kg/ontology".to_string(),
    }
}

#[test]
fn scenario_in_progress_poll() {
    let o = poll_outcome(&context(), "p1", "42", "s3://b/k.ttl", Some("LOAD_IN_PROGRESS"), "200", "{}");
    assert_eq!(o.response.detail_status, LambdaDetailStatus::LoaderJobInProgress);
    assert!(o.response.detail_status.is_retryable());
    assert_eq!(o.response.status_code, 200);
    assert!(o.response.suggested_retry_seconds.is_some());
    assert_eq!(o.response.detailed_message, None);
    assert_eq!(o.ledger.unwrap().class, LoadRequestClass::Loading);
}

#[test]
fn scenario_completed_poll() {
    let o = poll_outcome_with_retry_seconds(
        &context(),
        "p1",
        "42",
        "s3://b/k.ttl",
        Some("LOAD_COMPLETED"),
        "200",
        "{status: done}",
        15,
    );
    assert_eq!(o.response.detail_status, LambdaDetailStatus::LoaderJobCompleted);
    assert_eq!(o.response.suggested_retry_seconds, None);
    assert_eq!(
        o.response.detailed_message.as_deref(),
        Some("Loader job status for s3://b/k.ttl is 200 with payload {status: done}")
    );
    let u = o.ledger.unwrap();
    assert_eq!(u.class, LoadRequestClass::Finished);
    assert_eq!(u.comment, "{status: done}");
    assert_eq!(u.subject_iri, "https://placeholder.kg/id/uuid:42");
    assert_eq!(u.graph_iri, "https://placeholder.kg/graph/load-requests-p1");
}

#[test]
fn scenario_bogus_status_poll() {
    let o = poll_outcome(&context(), "p1", "42", "s3://b/k.ttl", Some("LOAD_BOGUS_VALUE"), "200", "{}");
    assert_eq!(o.response.detail_status, LambdaDetailStatus::LoaderJobStatusUnknown);
    assert_eq!(o.ledger.unwrap().class, LoadRequestClass::Failed);
}

#[test]
fn missing_status_writes_nothing() {
    let o = poll_outcome(&context(), "p1", "42", "s3://b/k.ttl", None, "200", "{}");
    assert_eq!(o.response.detail_status, LambdaDetailStatus::LoaderJobStatusUnknown);
    assert_eq!(
        o.response.detailed_message.as_deref(),
        Some("Missing overallStatus field in loader job status")
    );
    assert_eq!(o.response.suggested_retry_seconds, None);
    assert!(o.ledger.is_none());
}

#[test]
fn failed_poll_records_failure() {
    let u = failed_poll_upsert(&context(), "p1", "42", "s3://b/k.ttl");
    assert_eq!(u.class, LoadRequestClass::Failed);
    assert_eq!(u.comment, "");
}

#[test]
fn poll_needs_a_job_identifier() {
    let mut previous = LambdaResponse::from_started_load(Some("job-9"));
    assert_eq!(poll_target(&previous).unwrap(), "job-9");
    previous.result_identifier = None;
    match poll_target(&previous) {
        Err(Error::MissingField(f)) => assert_eq!(f, "result_identifier"),
        other => panic!("unexpected {:?}", other),
    }
}

#[test]
fn scenario_pipeline_mismatch() {
    match begin_load("p1", "p2") {
        LoadStep::Reply(r) => {
            assert_eq!(r.status_code, 400);
            assert_eq!(r.detail_status, LambdaDetailStatus::PipelineIdNotMatching);
            assert_eq!(r.suggested_retry_seconds, None);
        },
        LoadStep::Submit => panic!("a foreign pipeline must not be submitted"),
    }
    assert!(matches!(begin_load("p2", "p2"), LoadStep::Submit));
}

#[test]
fn submission_outcomes() {
    let r = submitted_load(Ok(Some("job-1".to_string())));
    assert_eq!(r.status_code, 200);
    assert_eq!(r.result_identifier.as_deref(), Some("job-1"));
    assert_eq!(r.detail_status, LambdaDetailStatus::LoaderJobInQueue);
    assert!((10..60).contains(&r.suggested_retry_seconds.unwrap()));
    let e = submitted_load(Err(LoaderError::BadRequest(BadRequest {
        code: "409".to_string(),
        message: Some("Max concurrent load limit breached".to_string()),
        detailed_message: "limit".to_string(),
    })));
    assert_eq!(e.status_code, 400);
    assert_eq!(e.detail_status, LambdaDetailStatus::MaxConcurrentLoadLimitBreached);
}

#[test]
fn update_request_goes_to_update_endpoint() {
    let p = Prefixes::empty().unwrap();
    let s = Statement::new(&p, "INSERT DATA { <a:b> <a:c> \"d e\" }").unwrap();
    let q = build_request(
        &s,
        SPARQLStatementType::UPDATE(SPARQLFlavor::SPARQL11),
        "https://db/sparql",
        "https://db/update",
    )
    .unwrap();
    assert_eq!(q.endpoint, "https://db/update");
    assert_eq!(q.accept, "text/plain");
    assert_eq!(q.content_type, FORM_CONTENT_TYPE);
    assert_eq!(q.body, "update=%0AINSERT+DATA+%7B+%3Ca%3Ab%3E+%3Ca%3Ac%3E+%22d+e%22+%7D");
}

#[test]
fn query_request_goes_to_query_endpoint() {
    let p = Prefixes::empty().unwrap();
    let s = Statement::new(&p, "CONSTRUCT { ?s ?p ?o } WHERE { ?s ?p ?o }").unwrap();
    let t = SPARQLStatementType::CONSTRUCT(SPARQLFlavor::SPARQL10);
    assert!(t.is_query_statement());
    assert!(!t.is_update_statement());
    let q = build_request(&s, t, "https://db/sparql", "https://db/update").unwrap();
    assert_eq!(q.endpoint, "https://db/sparql");
    assert_eq!(q.accept, "application/n-quads");
    assert!(q.body.starts_with("query="));
    assert_eq!(
        SPARQLStatementType::SELECT(SPARQLFlavor::SPARQL11).default_statement_response_mime_type(),
        "application/sparql-results+json"
    );
    assert!(SPARQLStatementType::DELETE(SPARQLFlavor::SPARQL11).is_update_statement());
}

fn record() -> S3EventRecord {
    S3EventRecord {
        event_source: "aws:s3".to_string(),
        event_version: "2.1".to_string(),
        aws_region: "eu-west-2".to_string(),
        event_time: "2023-09-18T10:03:15.979Z".to_string(),
        event_name: "ObjectCreated:Put".to_string(),
        user_identity: UserId { principal_id: "AWS:AIDA".to_string() },
        request_parameters: RequestParameters { source_ip_address: "193.237.90.75".to_string() },
        response_elements: ResponseElements {
            x_amz_request_id: "JJ807NMA5B2VMJ0D".to_string(),
            x_amz_id_2: "wSZ0".to_string(),
        },
        s3: S3 {
            s3_schema_version: "1.0".to_string(),
            configuration_id: "tf-s3-topic".to_string(),
            bucket: S3Bucket {
                name: "ekgf-dt-dev-metadata".to_string(),
                owner_identity: OwnerIdentity { principal_id: "A1M8".to_string() },
                arn: "arn:aws:s3:::ekgf-dt-dev-metadata".to_string(),
            },
            object: S3Object {
                key: "static-dataset/personas/auditor.ttl".to_string(),
                size: 1206,
                e_tag: "455c".to_string(),
                version_id: None,
                sequencer: "0065".to_string(),
            },
        },
    }
}

#[test]
fn load_request_from_storage_event() {
    let contexts = EkgIdentifierContexts { internal: context(), external: context() };
    let q: LoadRequest =
        LoadRequest::from_s3_event_record(&record(), &contexts, "arn:aws:iam::1:role/load", "eu-west-2")
            .unwrap();
    assert_eq!(q.source, "s3://ekgf-dt-dev-metadata/static-dataset/personas/auditor.ttl");
    assert_eq!(q.format, Format::Turtle);
    assert_eq!(q.format.as_str(), "turtle");
    assert_eq!(q.mode, Mode::NEW);
    assert_eq!(q.parallelism, "OVERSUBSCRIBE");
    assert!(q.fail_on_error && q.queue_request);
    let pairs = q.parser_configuration.as_hash_map();
    assert_eq!(pairs[0], ("baseUri".to_string(), "https://placeholder.kg/id/".to_string()));
    assert_eq!(pairs[1].1, q.source);
}

#[test]
fn notification_needs_records() {
    assert!(matches!(
        require_records(&S3EventRecords { records: vec![] }),
        Err(Error::NoInputRecords)
    ));
    assert!(require_records(&S3EventRecords { records: vec![record()] }).is_ok());
}

#[test]
fn compact_envelope() {
    let mut r = load_response::LambdaResponse::ok("started");
    assert_eq!(r.status_code, 200);
    r.detailed_message = Some("started".to_string());
    let c = r.clean();
    assert_eq!(c.detailed_message, None);
    let b = load_response::LambdaResponse::from_bad_request(&BadRequest {
        code: "409".to_string(),
        message: Some("Max load task queue size limit breached".to_string()),
        detailed_message: "queue".to_string(),
    });
    assert_eq!(b.status_code, 400);
    assert_eq!(b.detail_error, Some(LambdaDetailError::MaxLoadTaskQueueSizeLimitBreached));
}

#[test]
fn registration_only_with_a_job_identifier() {
    let accepted = submitted_load(Ok(Some("42".to_string())));
    let s = registration_for(&context(), "p1", &accepted, "s3://b/k.ttl").unwrap();
    assert!(s.as_str().contains("<https://placeholder.kg/id/uuid:42> a dataops:LoadRequest ; a dataops:QueuedLoadRequest ;"));
    let rejected = submitted_load(Ok(None));
    assert!(registration_for(&context(), "p1", &rejected, "s3://b/k.ttl").is_none());
    let failed = submitted_load(Err(LoaderError::Timeout("t".to_string())));
    assert!(registration_for(&context(), "p1", &failed, "s3://b/k.ttl").is_none());
}

#[test]
fn registration_envelope() {
    let r = registered_response();
    assert_eq!(r.status_code, 200);
    assert_eq!(r.detail_status, LambdaDetailStatus::LoaderJobInQueue);
    assert_eq!(r.message, "Loader job is in the queue");
    assert_eq!(r.detailed_message.as_deref(), Some("Load request registered successfully"));
    assert!((10..60).contains(&r.suggested_retry_seconds.unwrap()));
}

#[test]
fn form_encoding_of_non_ascii_and_reserved_bytes() {
    let p = Prefixes::empty().unwrap();
    let s = Statement::new(&p, "é*-._~").unwrap();
    let q = build_request(&s, SPARQLStatementType::ASK(SPARQLFlavor::SPARQL11), "q", "u").unwrap();
    assert_eq!(q.body, "query=%0A%C3%A9*-._%7E");
}
