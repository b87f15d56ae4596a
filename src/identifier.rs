//! The base IRIs from which identifiers and graph names are derived.

use vstd::prelude::*;
use vstd::string::*;
use crate::error::Error;
use crate::namespace::ends_with_separator;
use crate::text::{trim, trim_spec};

verus! {

/// The text as a base for appending names: unchanged when it already ends
/// with `/` or `#`, with `/` appended otherwise.
pub open spec fn base_iri_spec(s: Seq<char>) -> Seq<char> {
    if ends_with_separator(s) {
        s
    } else {
        s + "/"@
    }
}

/// The text as a base for appending names.
pub fn as_base_iri(s: &str) -> (r: String)
    ensures
        r@ == base_iri_spec(s@),
{
    let n = s.unicode_len();
    if n > 0 {
        let c = s.get_char(n - 1);
        if c == '/' || c == '#' {
            return s.to_string();
        }
    }
    s.to_string().concat("/")
}

/// A base IRI.
#[derive(Debug, Clone)]
pub struct BaseIRI(pub String);

impl BaseIRI {
    pub fn as_str(&self) -> (r: &str)
        ensures
            r@ == self.0@,
    {
        self.0.as_str()
    }

    /// The IRI as a base for appending names.
    pub fn as_base_iri(&self) -> (r: String)
        ensures
            r@ == base_iri_spec(self.0@),
    {
        as_base_iri(self.0.as_str())
    }
}

/// The base IRIs of one identifier context.
#[derive(Debug, Clone)]
pub struct EkgIdentifierContext {
    pub ekg_base: String,
    pub ekg_id_base: String,
    pub ekg_graph_base: String,
    pub ekg_ontology_base: String,
}

/// The internal and the external identifier contexts.
#[derive(Debug, Clone)]
pub struct EkgIdentifierContexts {
    pub internal: EkgIdentifierContext,
    pub external: EkgIdentifierContext,
}

/// The name of a setting: the name followed by the suffix, if any.
pub open spec fn setting_name(name: Seq<char>, suffix: Option<Seq<char>>) -> Seq<char> {
    match suffix {
        Some(s) => name + s,
        None => name,
    }
}

/// The value of a mandatory setting, given what the environment held for
/// it: missing and blank values are refused.
pub fn mandatory_value(name: &str, suffix: Option<&str>, value: Option<String>) -> (r: Result<
    String,
    Error,
>)
    ensures
        value is None ==> (r matches Err(Error::MandatoryEnvironmentVariableMissing(n)) && n@
            == setting_name(name@, crate::text::opt_str_view(suffix))),
        value is Some && trim_spec(value->0@).len() == 0 ==> (r matches Err(
            Error::EnvironmentVariableEmpty(n),
        ) && n@ == setting_name(name@, crate::text::opt_str_view(suffix))),
        value is Some && trim_spec(value->0@).len() != 0 ==> (r matches Ok(s) && s@
            == value->0@),
{
    let full = match suffix {
        Some(s) => name.to_string().concat(s),
        None => name.to_string(),
    };
    match value {
        None => Err(Error::MandatoryEnvironmentVariableMissing(full)),
        Some(v) => {
            let t = trim(v.as_str());
            if t.as_str().unicode_len() == 0 {
                Err(Error::EnvironmentVariableEmpty(full))
            } else {
                Ok(v)
            }
        },
    }
}

} // verus!
