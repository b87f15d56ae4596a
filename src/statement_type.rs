//! Statement kinds, which decide the endpoint and the accepted response type.

use vstd::prelude::*;

verus! {

/// The SPARQL version a statement is written in.
#[derive(Debug, Clone, Copy, PartialEq, Eq, Hash, Structural)]
pub enum SPARQLFlavor {
    SPARQL10,
    SPARQL11,
}

/// The form of a SPARQL statement.
#[allow(non_camel_case_types)]
#[derive(Debug, Clone, Copy, PartialEq, Eq, Hash, Structural)]
pub enum SPARQLStatementType {
    SELECT(SPARQLFlavor),
    ASK(SPARQLFlavor),
    CONSTRUCT(SPARQLFlavor),
    DESCRIBE(SPARQLFlavor),
    UPDATE(SPARQLFlavor),
    DELETE(SPARQLFlavor),
}

impl SPARQLStatementType {
    pub open spec fn is_query_spec(self) -> bool {
        self is SELECT || self is ASK || self is CONSTRUCT || self is DESCRIBE
    }

    pub open spec fn mime_type_spec(self) -> Seq<char> {
        match self {
            SPARQLStatementType::SELECT(_) => "application/sparql-results+json"@,
            SPARQLStatementType::ASK(_) => "application/sparql-results+json"@,
            SPARQLStatementType::CONSTRUCT(_) => "application/n-quads"@,
            SPARQLStatementType::DESCRIBE(_) => "application/n-quads"@,
            SPARQLStatementType::UPDATE(_) => "text/plain"@,
            SPARQLStatementType::DELETE(_) => "text/plain"@,
        }
    }

    /// Query forms go to the query endpoint.
    pub fn is_query_statement(&self) -> (r: bool)
        ensures
            r == self.is_query_spec(),
    {
        match self {
            SPARQLStatementType::SELECT(_)
            | SPARQLStatementType::ASK(_)
            | SPARQLStatementType::CONSTRUCT(_)
            | SPARQLStatementType::DESCRIBE(_) => true,
            _ => false,
        }
    }

    /// Update forms go to the update endpoint.
    pub fn is_update_statement(&self) -> (r: bool)
        ensures
            r == !self.is_query_spec(),
    {
        match self {
            SPARQLStatementType::UPDATE(_) | SPARQLStatementType::DELETE(_) => true,
            _ => false,
        }
    }

    /// The response type to ask for: result JSON for SELECT and ASK,
    /// N-Quads for CONSTRUCT and DESCRIBE, plain text for updates.
    pub fn default_statement_response_mime_type(&self) -> (r: &'static str)
        ensures
            r@ == self.mime_type_spec(),
    {
        match self {
            SPARQLStatementType::SELECT(_) => "application/sparql-results+json",
            SPARQLStatementType::ASK(_) => "application/sparql-results+json",
            SPARQLStatementType::CONSTRUCT(_) => "application/n-quads",
            SPARQLStatementType::DESCRIBE(_) => "application/n-quads",
            SPARQLStatementType::UPDATE(_) => "text/plain",
            SPARQLStatementType::DELETE(_) => "text/plain",
        }
    }
}

} // verus!
