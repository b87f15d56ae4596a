//! The status ledger: the load requests' lifecycle recorded as triples in
//! the graph store itself, written by idempotent upserts.

use vstd::prelude::*;
use vstd::string::*;
use crate::error::Error;
use crate::identifier::{as_base_iri, base_iri_spec, EkgIdentifierContext};
use crate::namespace::{dataops_spec, rdfs_spec, Namespace};
use crate::prefixes::{declare_all, PrefixPair, Prefixes};
use crate::statement::{statement_text, Statement};
use crate::status::{LambdaDetailStatus, LoadRequestClass};
use crate::text::opt_str_view;

verus! {

/// A quad as the statements write its parts: graph, subject, predicate and
/// object.
pub type Quad = (Seq<char>, Seq<char>, Seq<char>, Seq<char>);

/// The predicates of the ledger, as the statements write them.
pub open spec fn p_type() -> Seq<char> {
    "a"@
}

pub open spec fn p_label() -> Seq<char> {
    "rdfs:label"@
}

pub open spec fn p_comment() -> Seq<char> {
    "rdfs:comment"@
}

pub open spec fn p_source() -> Seq<char> {
    "dataops:source"@
}

pub open spec fn p_graph() -> Seq<char> {
    "dataops:graph"@
}

/// The content of one ledger upsert.
pub ghost struct UpsertView {
    pub graph: Seq<char>,
    pub subject: Seq<char>,
    pub class: LoadRequestClass,
    pub label: Seq<char>,
    pub comment: Seq<char>,
    pub source: Seq<char>,
}

/// The quads that an upsert removes: the subject's types, labels, sources
/// and graphs within the ledger graph. Comments are kept as an audit trail.
pub open spec fn retracts(u: UpsertView, q: Quad) -> bool {
    q.0 == u.graph && q.1 == u.subject && (q.2 == p_type() || q.2 == p_label() || q.2 == p_source()
        || q.2 == p_graph())
}

/// The quads that an upsert asserts.
pub open spec fn asserted(u: UpsertView) -> Set<Quad> {
    set![
        (u.graph, u.subject, p_type(), "dataops:LoadRequest"@),
        (u.graph, u.subject, p_type(), "dataops:"@ + u.class.local_name_spec()),
        (u.graph, u.subject, p_label(), "\""@ + u.label + "\""@),
        (u.graph, u.subject, p_comment(), "\"\"\""@ + u.comment + "\"\"\""@),
        (u.graph, u.subject, p_source(), "<"@ + u.source + ">"@),
        (u.graph, u.subject, p_graph(), "<"@ + u.source + ">"@),
    ]
}

/// The store after the upsert: what it retracts removed, then what it
/// asserts added, as one step.
pub open spec fn apply_upsert(store: Set<Quad>, u: UpsertView) -> Set<Quad> {
    store.filter(|q: Quad| !retracts(u, q)).union(asserted(u))
}

/// Applying the same upsert twice leaves the store as applying it once.
pub proof fn lemma_upsert_idempotent(store: Set<Quad>, u: UpsertView)
    ensures
        apply_upsert(apply_upsert(store, u), u) == apply_upsert(store, u),
{
    assert(apply_upsert(apply_upsert(store, u), u) =~= apply_upsert(store, u));
}

/// After an upsert, the subject's types, labels, sources and graphs in the
/// ledger graph are exactly the asserted ones: nothing older survives and
/// nothing is duplicated.
pub proof fn lemma_upsert_replaces_state(store: Set<Quad>, u: UpsertView, q: Quad)
    requires
        retracts(u, q),
    ensures
        apply_upsert(store, u).contains(q) <==> asserted(u).contains(q),
{
}

/// The words of a label in front of the source, for each class.
pub open spec fn label_lead(class: LoadRequestClass) -> Seq<char> {
    match class {
        LoadRequestClass::Queued => "Queued "@,
        LoadRequestClass::Loading => "Loading "@,
        LoadRequestClass::Finished => "Finished loading "@,
        LoadRequestClass::Failed => "Failed loading "@,
    }
}

/// The human-readable label of a load request in a given class.
pub open spec fn label_spec(class: LoadRequestClass, load_request_id: Seq<char>, source_iri: Seq<
    char,
>) -> Seq<char> {
    label_lead(class) + source_iri + " (load request "@ + load_request_id + ")"@
}

/// The label of a load request: the outcome, the source and the request id.
pub fn default_load_request_label(
    clazz: LoadRequestClass,
    load_request_id: &str,
    source_iri: &str,
) -> (r: String)
    ensures
        r@ == label_spec(clazz, load_request_id@, source_iri@),
{
    let lead = match clazz {
        LoadRequestClass::Queued => "Queued ",
        LoadRequestClass::Loading => "Loading ",
        LoadRequestClass::Finished => "Finished loading ",
        LoadRequestClass::Failed => "Failed loading ",
    };
    String::from_str(lead).concat(source_iri).concat(" (load request ").concat(
        load_request_id,
    ).concat(")")
}

/// The named graph that holds a pipeline's load requests.
pub open spec fn graph_iri_spec(graph_base: Seq<char>, pipeline_id: Seq<char>) -> Seq<char> {
    base_iri_spec(graph_base) + "load-requests-"@ + pipeline_id
}

/// The IRI of a load request, derived from its job identifier.
pub open spec fn load_request_iri_spec(id_base: Seq<char>, load_request_id: Seq<char>) -> Seq<
    char,
> {
    base_iri_spec(id_base) + "uuid:"@ + load_request_id
}

/// The IRI of a pipeline.
pub open spec fn pipeline_iri_spec(id_base: Seq<char>, pipeline_id: Seq<char>) -> Seq<char> {
    base_iri_spec(id_base) + "dataops-pipeline-"@ + pipeline_id
}

pub fn load_requests_graph_iri(graph_base: &str, pipeline_id: &str) -> (r: String)
    ensures
        r@ == graph_iri_spec(graph_base@, pipeline_id@),
{
    as_base_iri(graph_base).concat("load-requests-").concat(pipeline_id)
}

pub fn load_request_iri(id_base: &str, load_request_id: &str) -> (r: String)
    ensures
        r@ == load_request_iri_spec(id_base@, load_request_id@),
{
    as_base_iri(id_base).concat("uuid:").concat(load_request_id)
}

pub fn pipeline_iri(id_base: &str, pipeline_id: &str) -> (r: String)
    ensures
        r@ == pipeline_iri_spec(id_base@, pipeline_id@),
{
    as_base_iri(id_base).concat("dataops-pipeline-").concat(pipeline_id)
}

/// The prefixes that ledger statements declare: `dataops:` and `rdfs:`.
pub open spec fn ledger_prefixes() -> Seq<PrefixPair> {
    declare_all(Seq::empty(), seq![dataops_spec(), rdfs_spec()])
}

fn ledger_prefix_block() -> (r: Prefixes)
    ensures
        r.wf(),
        r@ == ledger_prefixes(),
{
    let b = Prefixes::builder().declare(&Namespace::dataops()).declare(&Namespace::rdfs());
    assert(b@ =~= seq![dataops_spec(), rdfs_spec()]);
    match b.build() {
        Ok(p) => p,
        Err(_) => Prefixes { prefixes: Vec::new() },
    }
}

pub const UPSERT_HEAD: &'static str = "WITH <";

pub const UPSERT_DELETE: &'static str = ">\nDELETE {\n    ?loadRequest a dataops:LoadRequest .\n    ?loadRequest a ?loadRequestType .\n    ?loadRequest rdfs:label ?loadRequestLabel .\n    ?loadRequest dataops:source ?loadRequestSource .\n    ?loadRequest dataops:graph ?loadRequestGraph .\n}\nINSERT {\n    ?loadRequest a dataops:LoadRequest .\n    ?loadRequest a dataops:";

pub const UPSERT_LABEL: &'static str = " .\n    ?loadRequest rdfs:label \"";

pub const UPSERT_COMMENT: &'static str = "\" .\n    ?loadRequest rdfs:comment \"\"\"";

pub const UPSERT_SOURCE: &'static str = "\"\"\" .\n    ?loadRequest dataops:source <";

pub const UPSERT_GRAPH: &'static str = "> .\n    ?loadRequest dataops:graph <";

pub const UPSERT_WHERE: &'static str = "> .\n}\nWHERE {\n    VALUES ?loadRequest {\n        <";

pub const UPSERT_TAIL: &'static str = ">\n    }\n    OPTIONAL {\n        ?loadRequest a ?loadRequestType .\n    }\n    OPTIONAL {\n        ?loadRequest dataops:source ?loadRequestSource .\n    }\n    OPTIONAL {\n        ?loadRequest dataops:graph ?loadRequestGraph .\n    }\n    OPTIONAL {\n        ?loadRequest rdfs:label ?loadRequestLabel .\n    }\n}";

/// The body of the DELETE/INSERT/WHERE statement of an upsert.
pub open spec fn upsert_body(u: UpsertView) -> Seq<char> {
    UPSERT_HEAD@ + u.graph + UPSERT_DELETE@ + u.class.local_name_spec() + UPSERT_LABEL@ + u.label
        + UPSERT_COMMENT@ + u.comment + UPSERT_SOURCE@ + u.source + UPSERT_GRAPH@ + u.source
        + UPSERT_WHERE@ + u.subject + UPSERT_TAIL@
}

/// One upsert of a load request's state into the ledger.
#[derive(Debug, Clone)]
pub struct LedgerUpsert {
    pub graph_iri: String,
    pub subject_iri: String,
    pub class: LoadRequestClass,
    pub label: String,
    pub comment: String,
    pub source_iri: String,
}

impl View for LedgerUpsert {
    type V = UpsertView;

    open spec fn view(&self) -> UpsertView {
        UpsertView {
            graph: self.graph_iri@,
            subject: self.subject_iri@,
            class: self.class,
            label: self.label@,
            comment: self.comment@,
            source: self.source_iri@,
        }
    }
}

/// The upsert that records `status` for a load request.
pub open spec fn upsert_spec(
    context: EkgIdentifierContext,
    pipeline_id: Seq<char>,
    load_request_id: Seq<char>,
    source_iri: Seq<char>,
    status: LambdaDetailStatus,
    payload: Option<Seq<char>>,
) -> UpsertView {
    UpsertView {
        graph: graph_iri_spec(context.ekg_graph_base@, pipeline_id),
        subject: load_request_iri_spec(context.ekg_id_base@, load_request_id),
        class: status.rdf_class_spec(),
        label: label_spec(status.rdf_class_spec(), load_request_id, source_iri),
        comment: match payload {
            Some(p) => p,
            None => Seq::empty(),
        },
        source: source_iri,
    }
}

impl LedgerUpsert {
    /// The upsert that records `status` for the load request `load_request_id`
    /// of `source_iri`, with the raw status payload as its comment.
    pub fn new(
        context: &EkgIdentifierContext,
        pipeline_id: &str,
        load_request_id: &str,
        source_iri: &str,
        status: LambdaDetailStatus,
        payload: Option<&str>,
    ) -> (r: LedgerUpsert)
        ensures
            r@ == upsert_spec(
                *context,
                pipeline_id@,
                load_request_id@,
                source_iri@,
                status,
                opt_str_view(payload),
            ),
    {
        let class = status.load_request_class();
        LedgerUpsert {
            graph_iri: load_requests_graph_iri(context.ekg_graph_base.as_str(), pipeline_id),
            subject_iri: load_request_iri(context.ekg_id_base.as_str(), load_request_id),
            class,
            label: default_load_request_label(class, load_request_id, source_iri),
            comment: match payload {
                Some(p) => p.to_string(),
                None => String::new(),
            },
            source_iri: source_iri.to_string(),
        }
    }

    /// The body of the upsert statement.
    pub fn body(&self) -> (r: String)
        ensures
            r@ == upsert_body(self@),
    {
        let mut t = String::from_str(UPSERT_HEAD);
        t.append(self.graph_iri.as_str());
        t.append(UPSERT_DELETE);
        t.append(self.class.local_name());
        t.append(UPSERT_LABEL);
        t.append(self.label.as_str());
        t.append(UPSERT_COMMENT);
        t.append(self.comment.as_str());
        t.append(UPSERT_SOURCE);
        t.append(self.source_iri.as_str());
        t.append(UPSERT_GRAPH);
        t.append(self.source_iri.as_str());
        t.append(UPSERT_WHERE);
        t.append(self.subject_iri.as_str());
        t.append(UPSERT_TAIL);
        t
    }

    /// The complete statement, with the `dataops:` and `rdfs:` prefixes.
    pub fn to_statement(&self) -> (r: Result<Statement, Error>)
        ensures
            r matches Ok(s) && s@ == statement_text(ledger_prefixes(), upsert_body(self@)),
    {
        let prefixes = ledger_prefix_block();
        Statement::new(&prefixes, self.body().as_str())
    }
}

pub const REGISTER_HEAD: &'static str = "INSERT DATA {\n    GRAPH <";

pub const REGISTER_PIPELINE: &'static str = "> {\n        <";

pub const REGISTER_PIPELINE_LABEL: &'static str = "> a dataops:Pipeline ;\n            rdfs:label \"Pipeline ";

pub const REGISTER_REQUEST: &'static str = "\" .\n        <";

pub const REGISTER_REQUEST_LABEL: &'static str = "> a dataops:LoadRequest ; a dataops:QueuedLoadRequest ;\n            rdfs:label \"Queued load request for ";

pub const REGISTER_IN_PIPELINE: &'static str = "\" ;\n            dataops:inPipeline <";

pub const REGISTER_DATASET: &'static str = "> .\n        <";

pub const REGISTER_DATASET_LABEL: &'static str = "> a dataops:Dataset ; a dataops:SingleGraphDataset ;\n            rdfs:label \"S3 file ";

pub const REGISTER_LOADED_BY: &'static str = "\" ;\n            dataops:loadedByLoadRequest <";

pub const REGISTER_TAIL: &'static str = "> .\n    }\n}";

/// The body of the INSERT DATA statement that registers a submitted load
/// request: the pipeline, the queued request and the dataset it loads.
pub open spec fn registration_body(
    graph: Seq<char>,
    pipeline_iri: Seq<char>,
    pipeline_id: Seq<char>,
    load_request_iri: Seq<char>,
    source: Seq<char>,
) -> Seq<char> {
    REGISTER_HEAD@ + graph + REGISTER_PIPELINE@ + pipeline_iri + REGISTER_PIPELINE_LABEL@
        + pipeline_id + REGISTER_REQUEST@ + load_request_iri + REGISTER_REQUEST_LABEL@ + source
        + REGISTER_IN_PIPELINE@ + pipeline_iri + REGISTER_DATASET@ + source
        + REGISTER_DATASET_LABEL@ + source + REGISTER_LOADED_BY@ + load_request_iri
        + REGISTER_TAIL@
}

/// The registration body for a load request of `source` in a pipeline.
pub open spec fn registration_spec(
    context: EkgIdentifierContext,
    pipeline_id: Seq<char>,
    load_request_id: Seq<char>,
    source: Seq<char>,
) -> Seq<char> {
    registration_body(
        graph_iri_spec(context.ekg_graph_base@, pipeline_id),
        pipeline_iri_spec(context.ekg_id_base@, pipeline_id),
        pipeline_id,
        load_request_iri_spec(context.ekg_id_base@, load_request_id),
        source,
    )
}

/// The statement that registers a freshly submitted load request as queued.
pub fn registration_statement(
    context: &EkgIdentifierContext,
    pipeline_id: &str,
    load_request_id: &str,
    source: &str,
) -> (r: Result<Statement, Error>)
    ensures
        r matches Ok(s) && s@ == statement_text(
            ledger_prefixes(),
            registration_spec(*context, pipeline_id@, load_request_id@, source@),
        ),
{
    let graph = load_requests_graph_iri(context.ekg_graph_base.as_str(), pipeline_id);
    let pipeline = pipeline_iri(context.ekg_id_base.as_str(), pipeline_id);
    let request = load_request_iri(context.ekg_id_base.as_str(), load_request_id);
    let mut t = String::from_str(REGISTER_HEAD);
    t.append(graph.as_str());
    t.append(REGISTER_PIPELINE);
    t.append(pipeline.as_str());
    t.append(REGISTER_PIPELINE_LABEL);
    t.append(pipeline_id);
    t.append(REGISTER_REQUEST);
    t.append(request.as_str());
    t.append(REGISTER_REQUEST_LABEL);
    t.append(source);
    t.append(REGISTER_IN_PIPELINE);
    t.append(pipeline.as_str());
    t.append(REGISTER_DATASET);
    t.append(source);
    t.append(REGISTER_DATASET_LABEL);
    t.append(source);
    t.append(REGISTER_LOADED_BY);
    t.append(request.as_str());
    t.append(REGISTER_TAIL);
    let prefixes = ledger_prefix_block();
    Statement::new(&prefixes, t.as_str())
}

} // verus!
