//! A bulk-load request: what the loader is asked to ingest, and how.

use vstd::prelude::*;
use vstd::string::*;
use crate::error::Error;
use crate::events::{S3EventRecord, S3EventRecords};
use crate::identifier::{base_iri_spec, BaseIRI, EkgIdentifierContexts};

verus! {

/// The serialization of the file to load.
#[derive(Debug, Clone, Copy, PartialEq, Eq, Structural)]
pub enum Format {
    Csv,
    OpenCypher,
    NTriples,
    NQuads,
    RdfXml,
    Turtle,
}

impl Format {
    pub open spec fn name_spec(self) -> Seq<char> {
        match self {
            Format::Csv => "csv"@,
            Format::OpenCypher => "opencypher"@,
            Format::NTriples => "ntriples"@,
            Format::NQuads => "nquads"@,
            Format::RdfXml => "rdfxml"@,
            Format::Turtle => "turtle"@,
        }
    }

    /// The name the loader knows the format by.
    pub fn as_str(&self) -> (r: &'static str)
        ensures
            r@ == self.name_spec(),
    {
        match self {
            Format::Csv => "csv",
            Format::OpenCypher => "opencypher",
            Format::NTriples => "ntriples",
            Format::NQuads => "nquads",
            Format::RdfXml => "rdfxml",
            Format::Turtle => "turtle",
        }
    }
}

/// How the loader treats an earlier load of the same source.
#[allow(non_camel_case_types, clippy::upper_case_acronyms)]
#[derive(Debug, Clone, Copy, PartialEq, Eq, Structural)]
pub enum Mode {
    NEW,
    RESUME,
    AUTO,
}

/// How the loader parses the file.
#[derive(Debug, Clone)]
pub struct ParserConfiguration {
    pub base_uri: BaseIRI,
    pub named_graph_uri: String,
    pub allow_empty_strings: bool,
}

impl ParserConfiguration {
    /// The configuration as the loader's parameter map: `baseUri` and
    /// `namedGraphUri`.
    pub fn as_hash_map(&self) -> (r: Vec<(String, String)>)
        ensures
            r@.len() == 2,
            r@[0].0@ == "baseUri"@,
            r@[0].1@ == base_iri_spec(self.base_uri.0@),
            r@[1].0@ == "namedGraphUri"@,
            r@[1].1@ == self.named_graph_uri@,
    {
        let mut v: Vec<(String, String)> = Vec::new();
        v.push((String::from_str("baseUri"), self.base_uri.as_base_iri()));
        v.push((String::from_str("namedGraphUri"), self.named_graph_uri.clone()));
        v
    }
}

/// A request to load one file into its own named graph, whose IRI is the
/// file's location.
#[derive(Debug, Clone)]
pub struct LoadRequest {
    pub source: String,
    pub format: Format,
    pub iam_role_arn: String,
    pub mode: Mode,
    pub region: String,
    pub fail_on_error: bool,
    pub parallelism: String,
    pub parser_configuration: ParserConfiguration,
    pub update_single_cardinality_properties: bool,
    pub queue_request: bool,
    pub dependencies: Vec<String>,
}

/// The location of a stored object: `s3://bucket/key`.
pub open spec fn s3_uri_spec(bucket: Seq<char>, key: Seq<char>) -> Seq<char> {
    "s3://"@ + bucket + "/"@ + key
}

impl LoadRequest {
    /// The request for the file that a storage event announces: Turtle, a new
    /// load that fails on error, queued, into the graph named by the file's
    /// location, with the internal identifier base as the parser's base IRI.
    pub fn from_s3_event_record(
        s3_event_record: &S3EventRecord,
        identifier_contexts: &EkgIdentifierContexts,
        iam_role_arn: &str,
        region: &str,
    ) -> (r: Result<LoadRequest, Error>)
        ensures
            r matches Ok(q) && {
                let uri = s3_uri_spec(
                    s3_event_record.s3.bucket.name@,
                    s3_event_record.s3.object.key@,
                );
                &&& q.source@ == uri
                &&& q.format == Format::Turtle
                &&& q.iam_role_arn@ == iam_role_arn@
                &&& q.mode == Mode::NEW
                &&& q.region@ == region@
                &&& q.fail_on_error
                &&& q.parallelism@ == "OVERSUBSCRIBE"@
                &&& q.parser_configuration.base_uri.0@ == identifier_contexts.internal.ekg_id_base@
                &&& q.parser_configuration.named_graph_uri@ == uri
                &&& !q.parser_configuration.allow_empty_strings
                &&& !q.update_single_cardinality_properties
                &&& q.queue_request
                &&& q.dependencies@.len() == 0
            },
    {
        let uri = String::from_str("s3://").concat(s3_event_record.s3.bucket.name.as_str()).concat(
            "/",
        ).concat(s3_event_record.s3.object.key.as_str());
        Ok(
            LoadRequest {
                source: uri.clone(),
                format: Format::Turtle,
                iam_role_arn: iam_role_arn.to_string(),
                mode: Mode::NEW,
                region: region.to_string(),
                fail_on_error: true,
                parallelism: String::from_str("OVERSUBSCRIBE"),
                parser_configuration: ParserConfiguration {
                    base_uri: BaseIRI(identifier_contexts.internal.ekg_id_base.clone()),
                    named_graph_uri: uri,
                    allow_empty_strings: false,
                },
                update_single_cardinality_properties: false,
                queue_request: true,
                dependencies: Vec::new(),
            },
        )
    }
}

/// A notification must carry at least one record.
pub fn require_records(records: &S3EventRecords) -> (r: Result<(), Error>)
    ensures
        r is Ok <==> records.records@.len() > 0,
        r matches Err(e) ==> e is NoInputRecords,
{
    if records.records.len() == 0 {
        Err(Error::NoInputRecords)
    } else {
        Ok(())
    }
}

} // verus!
