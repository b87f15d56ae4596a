//! An ordered set of prefix declarations, rendered as the `PREFIX` block
//! of a SPARQL statement.

use vstd::prelude::*;
use vstd::string::*;
use crate::error::Error;
use crate::namespace::{Class, Namespace, PREFIX_NAME_OWL, PREFIX_NAME_RDF, PREFIX_NAME_RDFS, PREFIX_NAME_XSD};
use crate::text::str_eq;

verus! {

/// A declaration as plain values: the prefix name and the namespace IRI.
pub type PrefixPair = (Seq<char>, Seq<char>);

/// The outcome of declaring a prefix.
#[allow(non_camel_case_types)]
#[derive(Debug, Clone, Copy, PartialEq, Eq, Structural)]
pub enum PrefixesDeclareResult {
    PREFIXES_INVALID_PREFIX_NAME,
    PREFIXES_NO_CHANGE,
    PREFIXES_REPLACED_EXISTING,
    PREFIXES_DECLARED_NEW,
}

/// No name is declared twice.
pub open spec fn names_unique(s: Seq<PrefixPair>) -> bool {
    forall|i: int, j: int| 0 <= i < s.len() && 0 <= j < s.len() && i != j ==> s[i].0 != s[j].0
}

/// `name` is declared in `s`.
pub open spec fn has_name(s: Seq<PrefixPair>, name: Seq<char>) -> bool {
    exists|i: int| 0 <= i < s.len() && #[trigger] s[i].0 == name
}

/// The position at which `name` is declared.
pub open spec fn name_index(s: Seq<PrefixPair>, name: Seq<char>) -> int {
    choose|i: int| 0 <= i < s.len() && #[trigger] s[i].0 == name
}

/// Declaring `(name, iri)`: no change where the same pair is declared, the
/// IRI replaced where the name is bound to another one, appended otherwise.
pub open spec fn declare_spec(s: Seq<PrefixPair>, name: Seq<char>, iri: Seq<char>) -> (
    Seq<PrefixPair>,
    PrefixesDeclareResult,
) {
    if has_name(s, name) {
        if s[name_index(s, name)].1 == iri {
            (s, PrefixesDeclareResult::PREFIXES_NO_CHANGE)
        } else {
            (s.update(name_index(s, name), (name, iri)), PrefixesDeclareResult::PREFIXES_REPLACED_EXISTING)
        }
    } else {
        (s.push((name, iri)), PrefixesDeclareResult::PREFIXES_DECLARED_NEW)
    }
}

/// Declaring each pair of `list` in turn.
pub open spec fn declare_all(s: Seq<PrefixPair>, list: Seq<PrefixPair>) -> Seq<PrefixPair>
    decreases list.len(),
{
    if list.len() == 0 {
        s
    } else {
        declare_spec(declare_all(s, list.drop_last()), list.last().0, list.last().1).0
    }
}

/// One declaration line, with its line break.
pub open spec fn prefix_line(p: PrefixPair) -> Seq<char> {
    "PREFIX "@ + p.0 + " <"@ + p.1 + ">"@ + "\n"@
}

/// The rendered block: one line per declaration, in declaration order.
pub open spec fn render(s: Seq<PrefixPair>) -> Seq<char>
    decreases s.len(),
{
    if s.len() == 0 {
        Seq::empty()
    } else {
        render(s.drop_last()) + prefix_line(s.last())
    }
}

/// The pairs of a list of namespaces.
pub open spec fn pairs_of(v: Seq<Namespace>) -> Seq<PrefixPair> {
    v.map_values(|ns: Namespace| (ns.name@, ns.iri@))
}

/// An ordered set of prefix declarations with unique names.
#[derive(Debug, Clone)]
pub struct Prefixes {
    pub prefixes: Vec<Namespace>,
}

impl View for Prefixes {
    type V = Seq<PrefixPair>;

    open spec fn view(&self) -> Seq<PrefixPair> {
        pairs_of(self.prefixes@)
    }
}

impl Prefixes {
    pub open spec fn wf(&self) -> bool {
        &&& names_unique(self@)
        &&& forall|i: int| 0 <= i < self.prefixes@.len() ==> #[trigger] self.prefixes@[i].wf()
    }

    /// A builder that collects namespaces to declare.
    pub fn builder() -> (r: PrefixesBuilder)
        ensures
            r@ == Seq::<PrefixPair>::empty(),
            r.wf(),
    {
        PrefixesBuilder::default_builder()
    }

    /// No declarations.
    pub fn empty() -> (r: Result<Prefixes, Error>)
        ensures
            r matches Ok(p) && p@ == Seq::<PrefixPair>::empty() && p.wf(),
    {
        let r = Prefixes { prefixes: Vec::new() };
        assert(r@ =~= Seq::<PrefixPair>::empty());
        Ok(r)
    }

    /// The namespaces as declared, in order.
    pub fn namespaces(&self) -> (r: &Vec<Namespace>)
        ensures
            pairs_of(r@) == self@,
    {
        &self.prefixes
    }

    /// Declares a namespace, keyed on its prefix name.
    pub fn declare_namespace(&mut self, namespace: &Namespace) -> (r: Result<
        PrefixesDeclareResult,
        Error,
    >)
        requires
            old(self).wf(),
            namespace.wf(),
        ensures
            final(self).wf(),
            r matches Ok(d) && (final(self)@, d) == declare_spec(
                old(self)@,
                namespace.name@,
                namespace.iri@,
            ),
    {
        let n = self.prefixes.len();
        let mut i: usize = 0;
        while i < n
            invariant
                n == self.prefixes@.len(),
                self.wf(),
                namespace.wf(),
                *self == *old(self),
                i <= n,
                forall|j: int| 0 <= j < i ==> #[trigger] self@[j].0 != namespace.name@,
            decreases n - i,
        {
            if str_eq(self.prefixes[i].name.as_str(), namespace.name.as_str()) {
                proof {
                    assert(self@[i as int].0 == namespace.name@);
                    assert(has_name(self@, namespace.name@));
                    let k = name_index(self@, namespace.name@);
                    assert(k == i);
                }
                if str_eq(self.prefixes[i].iri.as_str(), namespace.iri.as_str()) {
                    return Ok(PrefixesDeclareResult::PREFIXES_NO_CHANGE);
                }
                let ghost before = self@;
                let ghost before_v = self.prefixes@;
                assert(forall|j: int| 0 <= j < before_v.len() ==> #[trigger] before_v[j].wf());
                let dup = namespace.duplicate();
                let ghost g = dup;
                self.prefixes.set(i, dup);
                proof {
                    assert forall|j: int| 0 <= j < self.prefixes@.len() implies #[trigger] self.prefixes@[j].wf() by {
                        if j == i {
                            assert(self.prefixes@[j] == g);
                        } else {
                            assert(self.prefixes@[j] == before_v[j]);
                        }
                    }
                    assert(self@ =~= before.update(i as int, (namespace.name@, namespace.iri@)));
                    assert forall|a: int, b: int|
                        0 <= a < self@.len() && 0 <= b < self@.len() && a != b implies self@[a].0
                        != self@[b].0 by {
                        assert(before[a].0 != before[b].0);
                    }
                }
                return Ok(PrefixesDeclareResult::PREFIXES_REPLACED_EXISTING);
            }
            i = i + 1;
        }
        let ghost before = self@;
        assert(!has_name(before, namespace.name@));
        self.prefixes.push(namespace.duplicate());
        proof {
            assert(self@ =~= before.push((namespace.name@, namespace.iri@)));
            assert forall|a: int, b: int|
                0 <= a < self@.len() && 0 <= b < self@.len() && a != b implies self@[a].0
                != self@[b].0 by {
                if a < before.len() && b < before.len() {
                    assert(before[a].0 != before[b].0);
                } else if a < before.len() {
                    assert(before[a].0 != namespace.name@);
                } else if b < before.len() {
                    assert(before[b].0 != namespace.name@);
                }
            }
        }
        Ok(PrefixesDeclareResult::PREFIXES_DECLARED_NEW)
    }

    /// Declares `name` for `iri`, which must end with `/` or `#`.
    pub fn declare(&mut self, name: &str, iri: &str) -> (r: Result<PrefixesDeclareResult, Error>)
        requires
            old(self).wf(),
        ensures
            final(self).wf(),
            crate::namespace::ends_with_separator(iri@) ==> (r matches Ok(d) && (final(self)@, d)
                == declare_spec(old(self)@, name@, iri@)),
            !crate::namespace::ends_with_separator(iri@) ==> (r is Err && final(self)@ == old(
                self,
            )@),
    {
        let namespace = Namespace::declare(name, iri)?;
        self.declare_namespace(&namespace)
    }

    /// Declares a namespace and returns a copy of the result.
    pub fn add_namespace(&mut self, namespace: &Namespace) -> (r: Result<Prefixes, Error>)
        requires
            old(self).wf(),
            namespace.wf(),
        ensures
            final(self).wf(),
            final(self)@ == declare_spec(old(self)@, namespace.name@, namespace.iri@).0,
            r matches Ok(p) && p@ == final(self)@ && p.wf(),
    {
        let _ = self.declare_namespace(namespace);
        Ok(self.clone_prefixes())
    }

    /// Declares the namespace of a class and returns a copy of the result.
    pub fn add_class(&mut self, clazz: &Class) -> (r: Result<Prefixes, Error>)
        requires
            old(self).wf(),
            clazz.namespace.wf(),
        ensures
            final(self).wf(),
            final(self)@ == declare_spec(old(self)@, clazz.namespace.name@, clazz.namespace.iri@).0,
            r matches Ok(p) && p@ == final(self)@ && p.wf(),
    {
        self.add_namespace(&clazz.namespace)
    }

    /// A copy with the same declarations.
    pub fn clone_prefixes(&self) -> (r: Prefixes)
        requires
            self.wf(),
        ensures
            r@ == self@,
            r.wf(),
    {
        let mut v: Vec<Namespace> = Vec::new();
        let n = self.prefixes.len();
        let mut i: usize = 0;
        while i < n
            invariant
                n == self.prefixes@.len(),
                i <= n,
                v@.len() == i,
                self.wf(),
                forall|j: int| 0 <= j < i ==> #[trigger] v@[j].wf(),
                forall|j: int|
                    0 <= j < i ==> #[trigger] v@[j].name@ == self.prefixes@[j].name@ && v@[j].iri@
                        == self.prefixes@[j].iri@,
            decreases n - i,
        {
            let ns = &self.prefixes[i];
            assert(self.prefixes@[i as int].wf());
            v.push(ns.duplicate());
            i = i + 1;
        }
        let r = Prefixes { prefixes: v };
        assert(r@ =~= self@);
        r
    }

    /// The `PREFIX` block: one line per declaration, in declaration order.
    pub fn to_string(&self) -> (r: String)
        ensures
            r@ == render(self@),
    {
        let mut out = String::new();
        let n = self.prefixes.len();
        let mut i: usize = 0;
        while i < n
            invariant
                n == self.prefixes@.len(),
                i <= n,
                out@ == render(self@.subrange(0, i as int)),
            decreases n - i,
        {
            let line = self.prefixes[i].as_sparql_prefix();
            out.append(line.as_str());
            out.append("\n");
            proof {
                let s = self@.subrange(0, i + 1);
                assert(s.drop_last() =~= self@.subrange(0, i as int));
            }
            i = i + 1;
        }
        assert(self@.subrange(0, n as int) =~= self@);
        out
    }

    /// The default declarations: `rdf:`, `rdfs:`, `owl:` and `xsd:`.
    pub fn try_default() -> (r: Result<Prefixes, Error>)
        ensures
            r matches Ok(p) && p.wf() && p@ == seq![
                (crate::namespace::PREFIX_NAME_RDF@, crate::namespace::NS_RDF@),
                (crate::namespace::PREFIX_NAME_RDFS@, crate::namespace::NS_RDFS@),
                (crate::namespace::PREFIX_NAME_OWL@, crate::namespace::NS_OWL@),
                (crate::namespace::PREFIX_NAME_XSD@, crate::namespace::NS_XSD@),
            ],
    {
        let mut v: Vec<Namespace> = Vec::new();
        v.push(Namespace::rdf());
        v.push(Namespace::rdfs());
        v.push(Namespace::owl());
        v.push(Namespace::xsd());
        proof {
            reveal_strlit("rdf:");
            reveal_strlit("rdfs:");
            reveal_strlit("owl:");
            reveal_strlit("xsd:");
            assert(PREFIX_NAME_RDF@[0] != PREFIX_NAME_OWL@[0]);
            assert(PREFIX_NAME_RDF@[0] != PREFIX_NAME_XSD@[0]);
            assert(PREFIX_NAME_OWL@[0] != PREFIX_NAME_XSD@[0]);
            assert(PREFIX_NAME_RDFS@[0] != PREFIX_NAME_OWL@[0]);
            assert(PREFIX_NAME_RDFS@[0] != PREFIX_NAME_XSD@[0]);
            assert(PREFIX_NAME_RDFS@.len() != PREFIX_NAME_RDF@.len());
        }
        let r = Prefixes { prefixes: v };
        assert(r@ =~= seq![
            (crate::namespace::PREFIX_NAME_RDF@, crate::namespace::NS_RDF@),
            (crate::namespace::PREFIX_NAME_RDFS@, crate::namespace::NS_RDFS@),
            (crate::namespace::PREFIX_NAME_OWL@, crate::namespace::NS_OWL@),
            (crate::namespace::PREFIX_NAME_XSD@, crate::namespace::NS_XSD@),
        ]);
        Ok(r)
    }
}

/// Collects namespaces, then declares them in order.
#[derive(Debug, Clone)]
pub struct PrefixesBuilder {
    pub prefixes: Vec<Namespace>,
}

impl View for PrefixesBuilder {
    type V = Seq<PrefixPair>;

    open spec fn view(&self) -> Seq<PrefixPair> {
        pairs_of(self.prefixes@)
    }
}

impl PrefixesBuilder {
    pub open spec fn wf(&self) -> bool {
        forall|i: int| 0 <= i < self.prefixes@.len() ==> #[trigger] self.prefixes@[i].wf()
    }

    pub fn default_builder() -> (r: PrefixesBuilder)
        ensures
            r@ == Seq::<PrefixPair>::empty(),
            r.wf(),
    {
        let r = PrefixesBuilder { prefixes: Vec::new() };
        assert(r@ =~= Seq::<PrefixPair>::empty());
        r
    }

    /// Adds a namespace to declare.
    pub fn declare(self, namespace: &Namespace) -> (r: PrefixesBuilder)
        requires
            self.wf(),
            namespace.wf(),
        ensures
            r@ == self@.push((namespace.name@, namespace.iri@)),
            r.wf(),
    {
        let mut v = self.prefixes;
        v.push(namespace.duplicate());
        let r = PrefixesBuilder { prefixes: v };
        assert(r@ =~= self@.push((namespace.name@, namespace.iri@)));
        r
    }

    /// Declares `name` for `iri`, which must end with `/` or `#`.
    pub fn declare_with_name_and_iri(self, name: &str, iri: &str) -> (r: Result<PrefixesBuilder, Error>)
        requires
            self.wf(),
        ensures
            crate::namespace::ends_with_separator(iri@) <==> r is Ok,
            r matches Ok(b) ==> b@ == self@.push((name@, iri@)) && b.wf(),
    {
        let namespace = Namespace::declare(name, iri)?;
        Ok(self.declare(&namespace))
    }

    /// Declares the collected namespaces in order.
    pub fn build(self) -> (r: Result<Prefixes, Error>)
        requires
            self.wf(),
        ensures
            r matches Ok(p) && p.wf() && p@ == declare_all(Seq::empty(), self@),
    {
        let mut to_build = Prefixes { prefixes: Vec::new() };
        assert(to_build@ =~= Seq::<PrefixPair>::empty());
        let n = self.prefixes.len();
        let mut i: usize = 0;
        while i < n
            invariant
                n == self.prefixes@.len(),
                self.wf(),
                i <= n,
                to_build.wf(),
                to_build@ == declare_all(Seq::empty(), self@.subrange(0, i as int)),
            decreases n - i,
        {
            let _ = to_build.declare_namespace(&self.prefixes[i]);
            proof {
                let s = self@.subrange(0, i + 1);
                assert(s.drop_last() =~= self@.subrange(0, i as int));
            }
            i = i + 1;
        }
        assert(self@.subrange(0, n as int) =~= self@);
        Ok(to_build)
    }
}

/// Declaring the same pair twice in a row: the second declaration changes
/// nothing and reports so, and the name is declared exactly once.
pub proof fn lemma_declare_twice(s: Seq<PrefixPair>, name: Seq<char>, iri: Seq<char>)
    requires
        names_unique(s),
    ensures
        ({
            let (s1, _) = declare_spec(s, name, iri);
            let (s2, d2) = declare_spec(s1, name, iri);
            &&& d2 == PrefixesDeclareResult::PREFIXES_NO_CHANGE
            &&& s2 == s1
            &&& names_unique(s2)
            &&& s2.filter(|p: PrefixPair| p.0 == name).len() == 1
        }),
{
    let s1 = declare_spec(s, name, iri).0;
    if has_name(s, name) {
        let k = name_index(s, name);
        assert(s1[k].0 == name);
        assert(has_name(s1, name));
    } else {
        assert(s1[s.len() as int].0 == name);
        assert(has_name(s1, name));
    }
    lemma_declare_keeps_unique(s, name, iri);
    let k1 = name_index(s1, name);
    lemma_unique_name_at(s1, name, k1);
    lemma_filter_single(s1, name, k1);
}

/// Declaring keeps the names unique.
pub proof fn lemma_declare_keeps_unique(s: Seq<PrefixPair>, name: Seq<char>, iri: Seq<char>)
    requires
        names_unique(s),
    ensures
        names_unique(declare_spec(s, name, iri).0),
{
    let s1 = declare_spec(s, name, iri).0;
    if has_name(s, name) {
        let k = name_index(s, name);
        assert forall|a: int, b: int| 0 <= a < s1.len() && 0 <= b < s1.len() && a != b implies s1[a].0
            != s1[b].0 by {
            assert(s[a].0 != s[b].0);
        }
    } else {
        assert forall|a: int, b: int| 0 <= a < s1.len() && 0 <= b < s1.len() && a != b implies s1[a].0
            != s1[b].0 by {
            if a < s.len() && b < s.len() {
                assert(s[a].0 != s[b].0);
            } else if a < s.len() {
                assert(s[a].0 != name);
            } else if b < s.len() {
                assert(s[b].0 != name);
            }
        }
    }
}

proof fn lemma_unique_name_at(s: Seq<PrefixPair>, name: Seq<char>, k: int)
    requires
        names_unique(s),
        0 <= k < s.len(),
        s[k].0 == name,
    ensures
        forall|i: int| 0 <= i < s.len() && i != k ==> s[i].0 != name,
{
}

proof fn lemma_filter_single(s: Seq<PrefixPair>, name: Seq<char>, k: int)
    requires
        0 <= k < s.len(),
        s[k].0 == name,
        forall|i: int| 0 <= i < s.len() && i != k ==> s[i].0 != name,
    ensures
        s.filter(|p: PrefixPair| p.0 == name).len() == 1,
    decreases s.len(),
{
    reveal(Seq::filter);
    if k == s.len() - 1 {
        lemma_filter_none(s.drop_last(), name);
    } else {
        lemma_filter_single(s.drop_last(), name, k);
    }
}

proof fn lemma_filter_none(s: Seq<PrefixPair>, name: Seq<char>)
    requires
        forall|i: int| 0 <= i < s.len() ==> s[i].0 != name,
    ensures
        s.filter(|p: PrefixPair| p.0 == name).len() == 0,
    decreases s.len(),
{
    reveal(Seq::filter);
    if s.len() > 0 {
        lemma_filter_none(s.drop_last(), name);
    }
}

} // verus!
