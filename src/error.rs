//! The library's error type.

use vstd::prelude::*;

verus! {

/// Failures that the library reports to its callers.
#[derive(Debug)]
pub enum Error {
    /// A namespace IRI that does not end with `/` or `#`.
    IncorrectBaseIRI { iri: String },
    /// Text that does not parse as a URI reference.
    InvalidUri(String),
    /// A mandatory setting whose value is empty or only whitespace.
    EnvironmentVariableEmpty(String),
    /// A mandatory setting that has no value at all.
    MandatoryEnvironmentVariableMissing(String),
    /// A notification that carried no storage event records.
    NoInputRecords,
    /// A request that lacks a field the step cannot do without.
    MissingField(String),
    /// The statement body could not be form-encoded.
    EncodingFailed,
}

} // verus!
