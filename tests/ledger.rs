use ekg_rdf_load::identifier::{as_base_iri, mandatory_value, BaseIRI, EkgIdentifierContext};
use ekg_rdf_load::error::Error;
use ekg_rdf_load::ledger::{default_load_request_label, registration_statement, LedgerUpsert};
use ekg_rdf_load::status::{LambdaDetailStatus, LoadRequestClass};
use std::collections::BTreeSet;

fn context() -> EkgIdentifierContext {
    EkgIdentifierContext {
        ekg_base: "https://placeholder.kg".to_string(),
        ekg_id_base: "https://placeholder.kg/id".to_string(),
        ekg_graph_base: "https://placeholder.kg/graph/".to_string(),
        ekg_ontology_base: "https://placeholder.kg/ontology".to_string(),
    }
}

type Quad = (String, String, String, String);

// Applies an upsert to a set of quads as its DELETE/INSERT/WHERE does.
fn apply(store: &BTreeSet<Quad>, u: &LedgerUpsert) -> BTreeSet<Quad> {
    let retracted = ["a", "rdfs:label", "dataops:source", "dataops:graph"];
    let mut out: BTreeSet<Quad> = store
        .iter()
        .filter(|q| !(q.0 == u.graph_iri && q.1 == u.subject_iri && retracted.contains(&q.2.as_str())))
        .cloned()
        .collect();
    let g = u.graph_iri.clone();
    let s = u.subject_iri.clone();
    let class = format!("dataops:{}", u.class.local_name());
    for (p, o) in [
        ("a", "dataops:LoadRequest".to_string()),
        ("a", class),
        ("rdfs:label", format!("\"{}\"", u.label)),
        ("rdfs:comment", format!("\"\"\"{}\"\"\"", u.comment)),
        ("dataops:source", format!("<{}>", u.source_iri)),
        ("dataops:graph", format!("<{}>", u.source_iri)),
    ] {
        out.insert((g.clone(), s.clone(), p.to_string(), o));
    }
    out
}

#[test]
fn labels_name_the_outcome() {
    assert_eq!(
        default_load_request_label(LoadRequestClass::Queued, "42", "s3://b/k.ttl"),
        "Queued s3://b/k.ttl (load request 42)"
    );
    assert_eq!(
        default_load_request_label(LoadRequestClass::Loading, "42", "s3://b/k.ttl"),
        "Loading s3://b/k.ttl (load request 42)"
    );
    assert_eq!(
        default_load_request_label(LoadRequestClass::Finished, "42", "s3://b/k.ttl"),
        "Finished loading s3://b/k.ttl (load request 42)"
    );
    assert_eq!(
        default_load_request_label(LoadRequestClass::Failed, "42", "s3://b/k.ttl"),
        "Failed loading s3://b/k.ttl (load request 42)"
    );
}

#[test]
fn upsert_fields() {
    let u = LedgerUpsert::new(
        &context(),
        "p1",
        "42",
        "s3://b/k.ttl",
        LambdaDetailStatus::LoaderJobCompleted,
        Some("{status: LOAD_COMPLETED}"),
    );
    assert_eq!(u.graph_iri, "https://placeholder.kg/graph/load-requests-p1");
    assert_eq!(u.subject_iri, "https://placeholder.kg/id/uuid:42");
    assert_eq!(u.class, LoadRequestClass::Finished);
    assert_eq!(u.label, "Finished loading s3://b/k.ttl (load request 42)");
    assert_eq!(u.comment, "{status: LOAD_COMPLETED}");
}

#[test]
fn upsert_statement_text() {
    let u = LedgerUpsert::new(
        &context(),
        "p1",
        "42",
        "s3://b/k.ttl",
        LambdaDetailStatus::LoaderJobInProgress,
        None,
    );
    let s = u.to_statement().unwrap();
    let text = s.as_str();
    assert!(text.starts_with(
        "PREFIX dataops: <https://ekgf.org/ontology/dataops/>\nPREFIX rdfs: <http://www.w3.org/2000/01/rdf-schema#>\n\nWITH <https://placeholder.kg/graph/load-requests-p1>\nDELETE {"
    ));
    assert!(text.contains("    ?loadRequest a dataops:LoadingLoadRequest .\n"));
    assert!(text.contains("rdfs:label \"Loading s3://b/k.ttl (load request 42)\" ."));
    assert!(text.contains("rdfs:comment \"\"\"\"\"\" ."));
    assert!(text.contains("dataops:graph <s3://b/k.ttl> ."));
    assert!(text.contains("        <https://placeholder.kg/id/uuid:42>\n"));
    assert!(text.contains("    OPTIONAL {\n        ?loadRequest a ?loadRequestType .\n    }"));
    assert!(text.ends_with("}"));
}

#[test]
fn upsert_applied_twice_equals_once() {
    let other = (
        "g".to_string(),
        "s".to_string(),
        "a".to_string(),
        "x".to_string(),
    );
    let u0 = LedgerUpsert::new(&context(), "p1", "42", "s3://b/k.ttl", LambdaDetailStatus::LoaderJobInQueue, None);
    let u = LedgerUpsert::new(&context(), "p1", "42", "s3://b/k.ttl", LambdaDetailStatus::LoaderJobCompleted, Some("payload"));
    let mut store = BTreeSet::new();
    store.insert(other.clone());
    let after_submit = apply(&store, &u0);
    let once = apply(&after_submit, &u);
    let twice = apply(&once, &u);
    assert_eq!(once, twice);
    assert!(once.contains(&other));
    let types: Vec<&Quad> = once.iter().filter(|q| q.1 == u.subject_iri && q.2 == "a").collect();
    assert_eq!(types.len(), 2);
}

#[test]
fn registration_statement_text() {
    let s = registration_statement(&context(), "p1", "42", "s3://b/k.ttl").unwrap();
    let text = s.as_str();
    assert!(text.contains("INSERT DATA {\n    GRAPH <https://placeholder.kg/graph/load-requests-p1> {\n"));
    assert!(text.contains("<https://placeholder.kg/id/dataops-pipeline-p1> a dataops:Pipeline ;\n            rdfs:label \"Pipeline p1\" ."));
    assert!(text.contains("rdfs:label \"Queued load request for s3://b/k.ttl\" ;"));
    assert!(text.contains("<s3://b/k.ttl> a dataops:Dataset ; a dataops:SingleGraphDataset ;"));
    assert!(text.ends_with("dataops:loadedByLoadRequest <https://placeholder.kg/id/uuid:42> .\n    }\n}"));
}

#[test]
fn base_iris_end_with_a_separator() {
    assert_eq!(as_base_iri("http://a.org/x"), "http://a.org/x/");
    assert_eq!(as_base_iri("http://a.org/x/"), "http://a.org/x/");
    assert_eq!(as_base_iri("http://a.org/x#"), "http://a.org/x#");
    let b = BaseIRI("http://a.org".to_string());
    assert_eq!(b.as_str(), "http://a.org");
    assert_eq!(b.as_base_iri(), "http://a.org/");
}

#[test]
fn mandatory_settings() {
    match mandatory_value("EKG_BASE", Some("_INTERNAL"), None) {
        Err(Error::MandatoryEnvironmentVariableMissing(n)) => assert_eq!(n, "EKG_BASE_INTERNAL"),
        other => panic!("unexpected {:?}", other),
    }
    match mandatory_value("AWS_REGION", None, Some(" \t".to_string())) {
        Err(Error::EnvironmentVariableEmpty(n)) => assert_eq!(n, "AWS_REGION"),
        other => panic!("unexpected {:?}", other),
    }
    assert_eq!(
        mandatory_value("AWS_REGION", None, Some(" eu-west-2".to_string())).unwrap(),
        " eu-west-2"
    );
}
