//! Load-lifecycle tracking for bulk RDF loads: the status taxonomy, the
//! response envelope, SPARQL statement composition and the status ledger.

pub mod text;
pub mod error;
pub mod namespace;
pub mod status;
pub mod response;
pub mod prefixes;
pub mod statement;
pub mod statement_type;
pub mod identifier;
pub mod ledger;
pub mod client;
pub mod orchestrator;
pub mod events;
pub mod load_request;
pub mod load_response;
