//! The storage model a Schema Viewer presents, and how metadata availability
//! is graded.

use vstd::prelude::*;
use crate::text::{chars_of, chars_eq};

verus! {

/// The view a connection's storage model selects.
#[derive(Debug, Clone, Copy, PartialEq, Eq, Structural)]
pub enum SchemaViewerKind {
    Relational,
    Document,
    Graph,
    Hybrid,
    Vector,
    Timeseries,
    WideColumn,
    KeyValue,
    Service,
    Dynamic,
}

/// How much of a metadata facet the engine declared.
#[derive(Debug, Clone, Copy, PartialEq, Eq, Structural)]
pub enum MetadataAvailability {
    Complete,
    Partial,
    Absent,
    NotExposed,
}

/// The transport name of a kind (kebab-case).
pub open spec fn kind_name(k: SchemaViewerKind) -> Seq<char> {
    match k {
        SchemaViewerKind::Relational => "relational"@,
        SchemaViewerKind::Document => "document"@,
        SchemaViewerKind::Graph => "graph"@,
        SchemaViewerKind::Hybrid => "hybrid"@,
        SchemaViewerKind::Vector => "vector"@,
        SchemaViewerKind::Timeseries => "timeseries"@,
        SchemaViewerKind::WideColumn => "wide-column"@,
        SchemaViewerKind::KeyValue => "key-value"@,
        SchemaViewerKind::Service => "service"@,
        SchemaViewerKind::Dynamic => "dynamic"@,
    }
}

/// The kind whose transport name is `s`, if any.
pub open spec fn kind_named(s: Seq<char>) -> Option<SchemaViewerKind> {
    if s == kind_name(SchemaViewerKind::Relational) {
        Some(SchemaViewerKind::Relational)
    } else if s == kind_name(SchemaViewerKind::Document) {
        Some(SchemaViewerKind::Document)
    } else if s == kind_name(SchemaViewerKind::Graph) {
        Some(SchemaViewerKind::Graph)
    } else if s == kind_name(SchemaViewerKind::Hybrid) {
        Some(SchemaViewerKind::Hybrid)
    } else if s == kind_name(SchemaViewerKind::Vector) {
        Some(SchemaViewerKind::Vector)
    } else if s == kind_name(SchemaViewerKind::Timeseries) {
        Some(SchemaViewerKind::Timeseries)
    } else if s == kind_name(SchemaViewerKind::WideColumn) {
        Some(SchemaViewerKind::WideColumn)
    } else if s == kind_name(SchemaViewerKind::KeyValue) {
        Some(SchemaViewerKind::KeyValue)
    } else if s == kind_name(SchemaViewerKind::Service) {
        Some(SchemaViewerKind::Service)
    } else if s == kind_name(SchemaViewerKind::Dynamic) {
        Some(SchemaViewerKind::Dynamic)
    } else {
        None
    }
}

/// The message that rejects an unknown kind name.
pub open spec fn unknown_kind_message(s: Seq<char>) -> Seq<char> {
    "Unknown Schema Viewer kind '"@ + s + "'"@
}

/// Every kind in declaration order.
pub open spec fn all_kinds() -> Seq<SchemaViewerKind> {
    seq![
        SchemaViewerKind::Relational,
        SchemaViewerKind::Document,
        SchemaViewerKind::Graph,
        SchemaViewerKind::Hybrid,
        SchemaViewerKind::Vector,
        SchemaViewerKind::Timeseries,
        SchemaViewerKind::WideColumn,
        SchemaViewerKind::KeyValue,
        SchemaViewerKind::Service,
        SchemaViewerKind::Dynamic,
    ]
}

impl SchemaViewerKind {
    /// The transport (kebab-case) name of this kind.
    pub fn name(&self) -> (r: &'static str)
        ensures
            r@ == kind_name(*self),
    {
        match self {
            SchemaViewerKind::Relational => "relational",
            SchemaViewerKind::Document => "document",
            SchemaViewerKind::Graph => "graph",
            SchemaViewerKind::Hybrid => "hybrid",
            SchemaViewerKind::Vector => "vector",
            SchemaViewerKind::Timeseries => "timeseries",
            SchemaViewerKind::WideColumn => "wide-column",
            SchemaViewerKind::KeyValue => "key-value",
            SchemaViewerKind::Service => "service",
            SchemaViewerKind::Dynamic => "dynamic",
        }
    }

    /// Reads a kind from its transport name; any other text is an error
    /// that quotes it.
    pub fn parse(value: &str) -> (r: Result<SchemaViewerKind, String>)
        ensures
            match kind_named(value@) {
                Some(k) => r == Ok::<SchemaViewerKind, String>(k),
                None => r matches Err(e) && e@ == unknown_kind_message(value@),
            },
    {
        let v = chars_of(value);
        let mut i: usize = 0;
        while i < 10
            invariant
                v@ == value@,
                i <= 10,
                forall|j: int| 0 <= j < i ==> kind_name(#[trigger] all_kinds()[j]) != value@,
            decreases 10 - i,
        {
            let k = kind_at(i);
            let n = chars_of(k.name());
            if chars_eq(&v, &n) {
                proof {
                    lemma_kind_named_of_name(k);
                }
                return Ok(k);
            }
            i = i + 1;
        }
        proof {
            lemma_unnamed(value@);
        }
        let mut e = String::from_str("Unknown Schema Viewer kind '");
        e.append(value);
        e.append("'");
        Err(e)
    }
}

/// The kind at position `i` of declaration order.
fn kind_at(i: usize) -> (k: SchemaViewerKind)
    requires
        i < 10,
    ensures
        k == all_kinds()[i as int],
{
    match i {
        0 => SchemaViewerKind::Relational,
        1 => SchemaViewerKind::Document,
        2 => SchemaViewerKind::Graph,
        3 => SchemaViewerKind::Hybrid,
        4 => SchemaViewerKind::Vector,
        5 => SchemaViewerKind::Timeseries,
        6 => SchemaViewerKind::WideColumn,
        7 => SchemaViewerKind::KeyValue,
        8 => SchemaViewerKind::Service,
        _ => SchemaViewerKind::Dynamic,
    }
}

/// Law: distinct kinds have distinct transport names.
pub proof fn lemma_kind_names_distinct(a: SchemaViewerKind, b: SchemaViewerKind)
    ensures
        kind_name(a) == kind_name(b) ==> a == b,
{
    reveal_strlit("relational");
    reveal_strlit("document");
    reveal_strlit("graph");
    reveal_strlit("hybrid");
    reveal_strlit("vector");
    reveal_strlit("timeseries");
    reveal_strlit("wide-column");
    reveal_strlit("key-value");
    reveal_strlit("service");
    reveal_strlit("dynamic");
    if kind_name(a) == kind_name(b) && a != b {
        assert(kind_name(a).len() == kind_name(b).len());
        assert(kind_name(a)[0] == kind_name(b)[0]);
        assert(kind_name(a)[1] == kind_name(b)[1]);
    }
}

/// Law: reading the transport name of a kind gives back that kind, so
/// every kind survives the trip through its name.
pub proof fn lemma_kind_named_of_name(k: SchemaViewerKind)
    ensures
        kind_named(kind_name(k)) == Some(k),
{
    lemma_kind_names_distinct(k, SchemaViewerKind::Relational);
    lemma_kind_names_distinct(k, SchemaViewerKind::Document);
    lemma_kind_names_distinct(k, SchemaViewerKind::Graph);
    lemma_kind_names_distinct(k, SchemaViewerKind::Hybrid);
    lemma_kind_names_distinct(k, SchemaViewerKind::Vector);
    lemma_kind_names_distinct(k, SchemaViewerKind::Timeseries);
    lemma_kind_names_distinct(k, SchemaViewerKind::WideColumn);
    lemma_kind_names_distinct(k, SchemaViewerKind::KeyValue);
    lemma_kind_names_distinct(k, SchemaViewerKind::Service);
    lemma_kind_names_distinct(k, SchemaViewerKind::Dynamic);
}

proof fn lemma_unnamed(s: Seq<char>)
    requires
        forall|j: int| 0 <= j < 10 ==> kind_name(#[trigger] all_kinds()[j]) != s,
    ensures
        kind_named(s) == None::<SchemaViewerKind>,
{
    assert(kind_name(all_kinds()[0]) != s);
    assert(kind_name(all_kinds()[1]) != s);
    assert(kind_name(all_kinds()[2]) != s);
    assert(kind_name(all_kinds()[3]) != s);
    assert(kind_name(all_kinds()[4]) != s);
    assert(kind_name(all_kinds()[5]) != s);
    assert(kind_name(all_kinds()[6]) != s);
    assert(kind_name(all_kinds()[7]) != s);
    assert(kind_name(all_kinds()[8]) != s);
    assert(kind_name(all_kinds()[9]) != s);
}

} // verus!
