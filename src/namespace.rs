//! RDF namespaces, classes and terms, and the fixed namespaces that the
//! status ledger uses.

use vstd::prelude::*;
use vstd::string::*;
use crate::error::Error;

verus! {

/// What the URI parser accepts: a URI reference in the sense of RFC 3986.
pub uninterp spec fn is_uri_reference(s: Seq<char>) -> bool;

/// Relies on `fluent_uri::Uri::parse`: whether the text is a URI reference.
/// It panics above `i32::MAX` bytes, which `requires` leaves out.
#[verifier::external_body]
pub(crate) fn parses_as_uri(s: &str) -> (r: bool)
    requires
        s.spec_bytes().len() <= 0x7fff_ffff,
    ensures
        r == is_uri_reference(s@),
{
    fluent_uri::Uri::parse(s).is_ok()
}

/// Text within the parser's size limit that parses as a URI reference.
pub open spec fn is_valid_uri_text(s: Seq<char>) -> bool {
    vstd::utf8::encode_utf8(s).len() <= 0x7fff_ffff && is_uri_reference(s)
}

pub open spec fn is_valid_uri(s: &str) -> bool {
    is_valid_uri_text(s@)
}

/// Whether `s` is a URI reference; text over `i32::MAX` bytes is refused
/// before it reaches the parser.
pub fn check_uri(s: &str) -> (r: bool)
    ensures
        r == is_valid_uri(s),
{
    if s.as_bytes().len() > 0x7fff_ffff {
        return false;
    }
    parses_as_uri(s)
}

/// The last character is `/` or `#`.
pub open spec fn ends_with_separator(iri: Seq<char>) -> bool {
    iri.len() > 0 && (iri.last() == '/' || iri.last() == '#')
}

/// A namespace IRI together with its prefix name (`rdfs:`).
#[derive(Debug, Clone)]
pub struct Namespace {
    /// The prefix name, conventionally ending with `:`.
    pub name: String,
    /// The namespace IRI, ending with `/` or `#`.
    pub iri: String,
}

impl Namespace {
    pub open spec fn wf(&self) -> bool {
        ends_with_separator(self.iri@)
    }

    /// A copy with the same name and IRI.
    pub fn duplicate(&self) -> (r: Namespace)
        ensures
            r.name@ == self.name@,
            r.iri@ == self.iri@,
    {
        Namespace { name: self.name.clone(), iri: self.iri.clone() }
    }

    /// Declares a namespace; the IRI must end with `/` or `#`.
    pub fn declare(name: &str, iri: &str) -> (r: Result<Namespace, Error>)
        ensures
            ends_with_separator(iri@) <==> r is Ok,
            r matches Ok(ns) ==> ns.name@ == name@ && ns.iri@ == iri@ && ns.wf(),
            r matches Err(e) ==> e matches Error::IncorrectBaseIRI { iri: i } && i@ == iri@,
    {
        let n = iri.unicode_len();
        if n > 0 {
            let c = iri.get_char(n - 1);
            if c == '/' || c == '#' {
                return Ok(Namespace { name: name.to_string(), iri: iri.to_string() });
            }
        }
        Err(Error::IncorrectBaseIRI { iri: iri.to_string() })
    }

    /// Declares a namespace from text that must first parse as a URI.
    pub fn declare_from_str(name: &str, iri: &str) -> (r: Result<Namespace, Error>)
        ensures
            (is_valid_uri(iri) && ends_with_separator(iri@)) <==> r is Ok,
            r matches Ok(ns) ==> ns.name@ == name@ && ns.iri@ == iri@ && ns.wf(),
            !is_valid_uri(iri) ==> (r matches Err(Error::InvalidUri(t)) && t@ == iri@),
            is_valid_uri(iri) && !ends_with_separator(iri@) ==> (r matches Err(
                Error::IncorrectBaseIRI { iri: i },
            ) && i@ == iri@),
    {
        if !check_uri(iri) {
            return Err(Error::InvalidUri(iri.to_string()));
        }
        Self::declare(name, iri)
    }

    /// The IRI of `name` within this namespace, if the result parses as a URI.
    pub fn with_local_name(&self, name: &str) -> (r: Result<String, Error>)
        requires
            self.wf(),
        ensures
            r is Ok <==> is_valid_uri_text(self.iri@ + name@),
            r matches Ok(s) ==> s@ == self.iri@ + name@,
            r matches Err(e) ==> e matches Error::InvalidUri(t) && t@ == self.iri@ + name@,
    {
        let iri = self.iri.clone().concat(name);
        if check_uri(iri.as_str()) {
            Ok(iri)
        } else {
            Err(Error::InvalidUri(iri))
        }
    }

    /// `PREFIX name <iri>`
    pub open spec fn sparql_prefix_spec(&self) -> Seq<char> {
        "PREFIX "@ + self.name@ + " <"@ + self.iri@ + ">"@
    }

    /// The SPARQL declaration of this prefix: `PREFIX name <iri>`.
    pub fn as_sparql_prefix(&self) -> (r: String)
        ensures
            r@ == self.sparql_prefix_spec(),
    {
        String::from_str("PREFIX ").concat(self.name.as_str()).concat(" <").concat(
            self.iri.as_str(),
        ).concat(">")
    }

    /// The Turtle declaration of this prefix: `@prefix name <iri> .`.
    pub fn as_turtle_prefix(&self) -> (r: String)
        ensures
            r@ == "@prefix "@ + self.name@ + " <"@ + self.iri@ + "> ."@,
    {
        String::from_str("@prefix ").concat(self.name.as_str()).concat(" <").concat(
            self.iri.as_str(),
        ).concat("> .")
    }
}

/// The prefix name of the data-operations ontology.
pub const PREFIX_NAME_DATAOPS: &'static str = "dataops:";

/// The data-operations ontology namespace.
pub const NS_DATAOPS: &'static str = "https://ekgf.org/ontology/dataops/";

/// The prefix name of RDF Schema.
pub const PREFIX_NAME_RDFS: &'static str = "rdfs:";

/// The RDF Schema namespace.
pub const NS_RDFS: &'static str = "http://www.w3.org/2000/01/rdf-schema#";

/// The prefix name of RDF.
pub const PREFIX_NAME_RDF: &'static str = "rdf:";

/// The RDF namespace.
pub const NS_RDF: &'static str = "http://www.w3.org/1999/02/22-rdf-syntax-ns#";

/// The prefix name of OWL.
pub const PREFIX_NAME_OWL: &'static str = "owl:";

/// The OWL namespace.
pub const NS_OWL: &'static str = "http://www.w3.org/2002/07/owl#";

/// The prefix name of XML Schema datatypes.
pub const PREFIX_NAME_XSD: &'static str = "xsd:";

/// The XML Schema datatypes namespace.
pub const NS_XSD: &'static str = "http://www.w3.org/2001/XMLSchema#";

pub open spec fn dataops_spec() -> (Seq<char>, Seq<char>) {
    (PREFIX_NAME_DATAOPS@, NS_DATAOPS@)
}

pub open spec fn rdfs_spec() -> (Seq<char>, Seq<char>) {
    (PREFIX_NAME_RDFS@, NS_RDFS@)
}

fn fixed_namespace(name: &str, iri: &str) -> (r: Namespace)
    requires
        ends_with_separator(iri@),
    ensures
        r.name@ == name@,
        r.iri@ == iri@,
        r.wf(),
{
    Namespace { name: name.to_string(), iri: iri.to_string() }
}

impl Namespace {
    /// `dataops:`, the data-operations ontology.
    pub fn dataops() -> (r: Namespace)
        ensures
            r.name@ == PREFIX_NAME_DATAOPS@,
            r.iri@ == NS_DATAOPS@,
            r.wf(),
    {
        proof {
            reveal_strlit("https://ekgf.org/ontology/dataops/");
        }
        fixed_namespace(PREFIX_NAME_DATAOPS, NS_DATAOPS)
    }

    /// `rdfs:`, RDF Schema.
    pub fn rdfs() -> (r: Namespace)
        ensures
            r.name@ == PREFIX_NAME_RDFS@,
            r.iri@ == NS_RDFS@,
            r.wf(),
    {
        proof {
            reveal_strlit("http://www.w3.org/2000/01/rdf-schema#");
        }
        fixed_namespace(PREFIX_NAME_RDFS, NS_RDFS)
    }

    /// `rdf:`, RDF itself.
    pub fn rdf() -> (r: Namespace)
        ensures
            r.name@ == PREFIX_NAME_RDF@,
            r.iri@ == NS_RDF@,
            r.wf(),
    {
        proof {
            reveal_strlit("http://www.w3.org/1999/02/22-rdf-syntax-ns#");
        }
        fixed_namespace(PREFIX_NAME_RDF, NS_RDF)
    }

    /// `owl:`, the Web Ontology Language.
    pub fn owl() -> (r: Namespace)
        ensures
            r.name@ == PREFIX_NAME_OWL@,
            r.iri@ == NS_OWL@,
            r.wf(),
    {
        proof {
            reveal_strlit("http://www.w3.org/2002/07/owl#");
        }
        fixed_namespace(PREFIX_NAME_OWL, NS_OWL)
    }

    /// `xsd:`, XML Schema datatypes.
    pub fn xsd() -> (r: Namespace)
        ensures
            r.name@ == PREFIX_NAME_XSD@,
            r.iri@ == NS_XSD@,
            r.wf(),
    {
        proof {
            reveal_strlit("http://www.w3.org/2001/XMLSchema#");
        }
        fixed_namespace(PREFIX_NAME_XSD, NS_XSD)
    }
}

/// An RDFS or OWL class: a namespace and a local name within it.
#[derive(Debug, Clone)]
pub struct Class {
    pub namespace: Namespace,
    pub local_name: String,
}

impl Class {
    /// `prefix:LocalName`
    pub open spec fn turtle_spec(&self) -> Seq<char> {
        self.namespace.name@ + self.local_name@
    }

    /// The full IRI text of the class.
    pub open spec fn iri_spec(&self) -> Seq<char> {
        self.namespace.iri@ + self.local_name@
    }

    pub fn declare(namespace: Namespace, local_name: &str) -> (r: Class)
        ensures
            r.namespace == namespace,
            r.local_name@ == local_name@,
    {
        Class { namespace, local_name: local_name.to_string() }
    }

    /// The class in prefixed form, as Turtle and SPARQL write it.
    pub fn display_turtle(&self) -> (r: String)
        ensures
            r@ == self.turtle_spec(),
    {
        self.namespace.name.clone().concat(self.local_name.as_str())
    }

    /// The full IRI of the class, if it parses as a URI.
    pub fn as_iri(&self) -> (r: Result<String, Error>)
        ensures
            r is Ok <==> is_valid_uri_text(self.iri_spec()),
            r matches Ok(s) ==> s@ == self.iri_spec(),
    {
        let iri = self.namespace.iri.clone().concat(self.local_name.as_str());
        if check_uri(iri.as_str()) {
            Ok(iri)
        } else {
            Err(Error::InvalidUri(iri))
        }
    }

    /// The local name with an `s` appended.
    pub fn plural_label(&self) -> (r: String)
        ensures
            r@ == self.local_name@ + "s"@,
    {
        self.local_name.clone().concat("s")
    }
}

/// An RDF term: an IRI, a literal or a blank node.
#[derive(Debug, Clone)]
pub enum Term {
    Iri(String),
    Literal(String),
    BlankNode(String),
}

impl Term {
    /// The Turtle rendering: `<iri>`, `"literal"` or `_:label`.
    pub open spec fn turtle_spec(&self) -> Seq<char> {
        match self {
            Term::Iri(s) => "<"@ + s@ + ">"@,
            Term::Literal(s) => "\""@ + s@ + "\""@,
            Term::BlankNode(s) => "_:"@ + s@,
        }
    }

    /// An IRI term from text that must parse as a URI.
    pub fn from_static(iri_str: &'static str) -> (r: Result<Term, Error>)
        ensures
            r is Ok <==> is_valid_uri(iri_str),
            r matches Ok(t) ==> (t matches Term::Iri(s) && s@ == iri_str@),
            r matches Err(e) ==> (e matches Error::InvalidUri(s) && s@ == iri_str@),
    {
        Self::new_iri_from_str(iri_str)
    }

    /// An IRI term from text that must parse as a URI.
    pub fn new_iri_from_str(iri_str: &str) -> (r: Result<Term, Error>)
        ensures
            r is Ok <==> is_valid_uri(iri_str),
            r matches Ok(t) ==> (t matches Term::Iri(s) && s@ == iri_str@),
            r matches Err(e) ==> (e matches Error::InvalidUri(s) && s@ == iri_str@),
    {
        if check_uri(iri_str) {
            Ok(Term::Iri(iri_str.to_string()))
        } else {
            Err(Error::InvalidUri(iri_str.to_string()))
        }
    }

    /// A plain string literal.
    pub fn new_str(str: &str) -> (r: Result<Term, Error>)
        ensures
            r matches Ok(t) && (t matches Term::Literal(s) && s@ == str@),
    {
        Ok(Term::Literal(str.to_string()))
    }

    /// A blank node with the given label.
    pub fn new_blank_node(str: &str) -> (r: Result<Term, Error>)
        ensures
            r matches Ok(t) && (t matches Term::BlankNode(s) && s@ == str@),
    {
        Ok(Term::BlankNode(str.to_string()))
    }

    /// The term as Turtle writes it.
    pub fn display_turtle(&self) -> (r: String)
        ensures
            r@ == self.turtle_spec(),
    {
        match self {
            Term::Iri(s) => String::from_str("<").concat(s.as_str()).concat(">"),
            Term::Literal(s) => String::from_str("\"").concat(s.as_str()).concat("\""),
            Term::BlankNode(s) => String::from_str("_:").concat(s.as_str()),
        }
    }
}

} // verus!
