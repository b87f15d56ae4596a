//! The HTTP request that carries a SPARQL statement to its endpoint.

use vstd::prelude::*;
use vstd::string::*;
use crate::error::Error;
use crate::statement::Statement;
use crate::statement_type::SPARQLStatementType;

verus! {

/// The upper-case hexadecimal digits.
pub const HEX_DIGITS: &'static str = "0123456789ABCDEF";

/// Bytes that the form encoding leaves as they are: `*-._`, digits and
/// ASCII letters.
pub open spec fn form_unchanged(b: u8) -> bool {
    b == 0x2A || b == 0x2D || b == 0x2E || b == 0x5F || (0x30 <= b <= 0x39) || (0x41 <= b <= 0x5A)
        || (0x61 <= b <= 0x7A)
}

/// One byte in the form encoding: itself, `+` for a space, `%XX` otherwise.
pub open spec fn form_byte(b: u8) -> Seq<char> {
    if form_unchanged(b) {
        seq![b as char]
    } else if b == 0x20 {
        "+"@
    } else {
        seq!['%', HEX_DIGITS@[(b / 16) as int], HEX_DIGITS@[(b % 16) as int]]
    }
}

/// A byte string in the form encoding.
pub open spec fn form_bytes(bs: Seq<u8>) -> Seq<char>
    decreases bs.len(),
{
    if bs.len() == 0 {
        Seq::empty()
    } else {
        form_byte(bs[0]) + form_bytes(bs.subrange(1, bs.len() as int))
    }
}

/// What `application/x-www-form-urlencoded` makes of a single field: the
/// UTF-8 bytes of key and value encoded, joined by `=`.
pub open spec fn form_encoded(key: Seq<char>, value: Seq<char>) -> Seq<char> {
    form_bytes(vstd::utf8::encode_utf8(key)) + "="@ + form_bytes(vstd::utf8::encode_utf8(value))
}

/// Relies on `serde_urlencoded::to_string` over one `(key, value)` pair of
/// strings, which has no error path and appends `key=value` through
/// `form_urlencoded::byte_serialize` on the UTF-8 bytes of each part.
#[verifier::external_body]
fn encode_form_field(key: &str, value: &str) -> (r: Option<String>)
    ensures
        r is Some,
        r matches Some(s) ==> s@ == form_encoded(key@, value@),
{
    serde_urlencoded::to_string([(key, value)]).ok()
}

/// The content type of every statement request.
pub const FORM_CONTENT_TYPE: &'static str = "application/x-www-form-urlencoded";

/// A POST request ready to be sent.
#[derive(Debug, Clone)]
pub struct SparqlRequest {
    pub endpoint: String,
    pub content_type: &'static str,
    pub accept: &'static str,
    pub body: String,
}

/// The form field that carries the statement: `update` or `query`.
pub open spec fn operation_spec(statement_type: SPARQLStatementType) -> Seq<char> {
    if statement_type.is_query_spec() {
        "query"@
    } else {
        "update"@
    }
}

/// The request for a statement: queries go to the query endpoint and
/// updates to the update endpoint, each with the response type of its form,
/// and the statement travels form-encoded in the `query` or `update` field.
pub fn build_request(
    statement: &Statement,
    statement_type: SPARQLStatementType,
    query_endpoint: &str,
    update_endpoint: &str,
) -> (r: Result<SparqlRequest, Error>)
    ensures
        r is Ok,
        r matches Ok(q) ==> {
            &&& q.endpoint@ == (if statement_type.is_query_spec() {
                query_endpoint@
            } else {
                update_endpoint@
            })
            &&& q.content_type@ == FORM_CONTENT_TYPE@
            &&& q.accept@ == statement_type.mime_type_spec()
            &&& q.body@ == form_encoded(operation_spec(statement_type), statement@)
        },
{
    let is_query = statement_type.is_query_statement();
    let operation = if is_query {
        "query"
    } else {
        "update"
    };
    let endpoint = if is_query {
        query_endpoint.to_string()
    } else {
        update_endpoint.to_string()
    };
    match encode_form_field(operation, statement.as_str()) {
        Some(body) => Ok(
            SparqlRequest {
                endpoint,
                content_type: FORM_CONTENT_TYPE,
                accept: statement_type.default_statement_response_mime_type(),
                body,
            },
        ),
        None => Err(Error::EncodingFailed),
    }
}

} // verus!
