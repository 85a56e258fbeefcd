//! The graph metagraph of a Neo4j database: the topology Neo4j declares
//! (labels, relationship types, their endpoints), normalised to nodes and
//! edges, with fallbacks that never read graph data.

use vstd::prelude::*;
use crate::facets::{MetadataFacetStatus, facet, facet_is, partial_unless_complete, overall_availability};
use crate::failure::{is_fatal_failure, metadata_failure_is_fatal};
use crate::json::{JsonValue, decode_json_text, is_text, json_get, json_text, json_text_value, member, take_member};
use crate::kind::MetadataAvailability;
use crate::view::{SchemaViewPayload, ViewParts, texts};

verus! {

/// The query that reads the declared metagraph.
pub fn schema_visualization_query() -> (r: &'static str)
    ensures
        r@ == "CALL db.schema.visualization() YIELD nodes, relationships RETURN nodes, relationships"@,
{
    "CALL db.schema.visualization() YIELD nodes, relationships RETURN nodes, relationships"
}

/// The query that lists node labels, when the metagraph is unavailable.
pub fn labels_query() -> (r: &'static str)
    ensures
        r@ == "CALL db.labels() YIELD label RETURN label ORDER BY label"@,
{
    "CALL db.labels() YIELD label RETURN label ORDER BY label"
}

/// The query that lists relationship types, when the metagraph is
/// unavailable.
pub fn relationship_types_query() -> (r: &'static str)
    ensures
        r@ == "CALL db.relationshipTypes() YIELD relationshipType RETURN relationshipType ORDER BY relationshipType"@,
{
    "CALL db.relationshipTypes() YIELD relationshipType RETURN relationshipType ORDER BY relationshipType"
}

/// The native metadata a graph view reads: name and query.
pub open spec fn native_queries() -> Seq<(Seq<char>, Seq<char>)> {
    seq![
        ("nodeTypeProperties"@, "CALL db.schema.nodeTypeProperties()"@),
        ("relationshipTypeProperties"@, "CALL db.schema.relTypeProperties()"@),
        ("indexes"@, "SHOW INDEXES"@),
        ("constraints"@, "SHOW CONSTRAINTS"@),
    ]
}

/// The number of native metadata queries of a graph view.
pub fn native_query_count() -> (r: usize)
    ensures
        r == native_queries().len(),
{
    4
}

/// Native metadata query `i`: its name and its query.
pub fn native_query(i: usize) -> (r: (&'static str, &'static str))
    requires
        i < native_queries().len(),
    ensures
        r.0@ == native_queries()[i as int].0,
        r.1@ == native_queries()[i as int].1,
{
    match i {
        0 => ("nodeTypeProperties", "CALL db.schema.nodeTypeProperties()"),
        1 => ("relationshipTypeProperties", "CALL db.schema.relTypeProperties()"),
        2 => ("indexes", "SHOW INDEXES"),
        _ => ("constraints", "SHOW CONSTRAINTS"),
    }
}

/// The value of a metagraph cell: a string cell whose text is JSON stands
/// for the value that text denotes; any other cell stands for itself.
pub open spec fn cell_value(raw: JsonValue) -> JsonValue {
    match raw {
        JsonValue::Str(t) => match json_text_value(t@) {
            Some(d) => d,
            None => raw,
        },
        _ => raw,
    }
}

/// The value a metagraph cell stands for: its text decoded as JSON when it
/// is a string that holds JSON.
pub fn neo4j_schema_value(raw: JsonValue) -> (r: JsonValue)
    ensures
        r == cell_value(raw),
{
    match raw {
        JsonValue::Str(t) => match decode_json_text(t.as_str()) {
            Some(d) => d,
            None => JsonValue::Str(t),
        },
        other => other,
    }
}

/// `parts` joined with `sep` between them.
pub open spec fn join(parts: Seq<Seq<char>>, sep: Seq<char>) -> Seq<char>
    decreases parts.len(),
{
    if parts.len() == 0 {
        Seq::empty()
    } else if parts.len() == 1 {
        parts[0]
    } else {
        join(parts.drop_last(), sep) + sep + parts.last()
    }
}

/// The texts among a list of values.
pub open spec fn value_texts(values: Seq<JsonValue>) -> Seq<Seq<char>> {
    values.filter_map(|v: JsonValue| json_text(v))
}

/// The first of two members that is present.
pub open spec fn either_member(f: Seq<(String, JsonValue)>, primary: Seq<char>, fallback: Seq<char>) -> Option<JsonValue> {
    match member(f, primary) {
        Some(x) => Some(x),
        None => member(f, fallback),
    }
}

/// The text of the first of two members that is present, if it is a string.
pub open spec fn either_text(f: Seq<(String, JsonValue)>, primary: Seq<char>, fallback: Seq<char>) -> Option<Seq<char>> {
    match either_member(f, primary, fallback) {
        Some(x) => json_text(x),
        None => None,
    }
}

/// The identifier of a metagraph node: its `elementId`, else its `id`,
/// when that is a string.
pub open spec fn node_id(n: JsonValue) -> Option<Seq<char>> {
    match n {
        JsonValue::Object(f) => either_text(f@, "elementId"@, "id"@),
        _ => None,
    }
}

/// The labels of a node object, when its `labels` member is a list.
pub open spec fn node_labels(f: Seq<(String, JsonValue)>) -> Seq<JsonValue> {
    match member(f, "labels"@) {
        Some(JsonValue::Array(v)) => v@,
        _ => Seq::empty(),
    }
}

/// The property names of a node object: the keys of its `properties`
/// object, in order.
pub open spec fn property_names(f: Seq<(String, JsonValue)>) -> Seq<Seq<char>> {
    match member(f, "properties"@) {
        Some(JsonValue::Object(p)) => p@.map_values(|m: (String, JsonValue)| m.0@),
        _ => Seq::empty(),
    }
}

/// `out` is a list of JSON strings with the given texts.
pub open spec fn text_list(out: JsonValue, items: Seq<Seq<char>>) -> bool {
    out matches JsonValue::Array(v) && v@.len() == items.len()
        && forall|i: int| 0 <= i < items.len() ==> is_text(#[trigger] v@[i], items[i])
}

/// `out` is the normalised form of metagraph node `n`: its identifier, its
/// string labels joined by ':', its labels as given, and its property names.
pub open spec fn normalized_node(out: JsonValue, n: JsonValue) -> bool {
    &&& n matches JsonValue::Object(f)
    &&& node_id(n) matches Some(id)
    &&& out matches JsonValue::Object(g)
    &&& g@.len() == 4
    &&& g@[0].0@ == "id"@ && is_text(g@[0].1, id)
    &&& g@[1].0@ == "label"@ && is_text(g@[1].1, join(value_texts(node_labels(f@)), ":"@))
    &&& g@[2].0@ == "labels"@ && (g@[2].1 matches JsonValue::Array(l) && l@ == node_labels(f@))
    &&& g@[3].0@ == "properties"@ && text_list(g@[3].1, property_names(f@))
}

/// The nodes a metagraph keeps: objects with a string identifier.
pub open spec fn kept_nodes(nodes: Seq<JsonValue>) -> Seq<JsonValue> {
    nodes.filter(|n: JsonValue| node_id(n) is Some)
}

/// The endpoints and type of a metagraph relationship, when all are strings.
pub open spec fn edge_parts(e: JsonValue) -> Option<(Seq<char>, Seq<char>, Seq<char>)> {
    match e {
        JsonValue::Object(f) => match (json_get(e, "type"@), either_text(f@, "startElementId"@, "start"@),
            either_text(f@, "endElementId"@, "end"@)) {
            (Some(t), Some(s), Some(d)) => match json_text(t) {
                Some(tt) => Some((tt, s, d)),
                None => None,
            },
            _ => None,
        },
        _ => None,
    }
}

/// `out` is the normalised form of metagraph relationship `e`: its
/// properties (an empty object when absent), source, target and type.
pub open spec fn normalized_edge(out: JsonValue, e: JsonValue) -> bool {
    &&& e matches JsonValue::Object(f)
    &&& edge_parts(e) matches Some(parts)
    &&& out matches JsonValue::Object(g)
    &&& g@.len() == 4
    &&& g@[0].0@ == "properties"@ && match member(f@, "properties"@) {
        Some(p) => g@[0].1 == p,
        None => g@[0].1 matches JsonValue::Object(q) && q@.len() == 0,
    }
    &&& g@[1].0@ == "source"@ && is_text(g@[1].1, parts.1)
    &&& g@[2].0@ == "target"@ && is_text(g@[2].1, parts.2)
    &&& g@[3].0@ == "type"@ && is_text(g@[3].1, parts.0)
}

/// The relationships a metagraph keeps: objects with string type and
/// endpoints.
pub open spec fn kept_edges(edges: Seq<JsonValue>) -> Seq<JsonValue> {
    edges.filter(|e: JsonValue| edge_parts(e) is Some)
}

/// `out` normalises every item of `kept`, in order.
pub open spec fn all_normalized(out: Seq<JsonValue>, kept: Seq<JsonValue>, nodes: bool) -> bool {
    &&& out.len() == kept.len()
    &&& forall|i: int| 0 <= i < kept.len() ==> if nodes {
        normalized_node(#[trigger] out[i], kept[i])
    } else {
        normalized_edge(#[trigger] out[i], kept[i])
    }
}

fn joined_labels(labels: &Vec<JsonValue>) -> (r: String)
    ensures
        r@ == join(value_texts(labels@), ":"@),
{
    let mut out = String::new();
    let mut first = true;
    let mut i: usize = 0;
    while i < labels.len()
        invariant
            i <= labels@.len(),
            out@ == join(value_texts(labels@.take(i as int)), ":"@),
            first == (value_texts(labels@.take(i as int)).len() == 0),
        decreases labels@.len() - i,
    {
        let ghost before = labels@.take(i as int);
        assert(labels@.take(i + 1).drop_last() =~= before);
        assert(labels@.take(i + 1).last() == labels@[i as int]);
        match labels[i].as_text() {
            Some(s) => {
                let ghost prev = value_texts(before);
                if !first {
                    out.append(":");
                }
                out.append(s.as_str());
                first = false;
                assert(value_texts(labels@.take(i + 1)) =~= prev.push(s@));
                assert(prev.push(s@).drop_last() =~= prev);
                proof {
                    if prev.len() == 0 {
                        assert(out@ =~= s@);
                        assert(join(prev.push(s@), ":"@) == prev.push(s@)[0]);
                    }
                }
            },
            None => {
                assert(value_texts(labels@.take(i + 1)) =~= value_texts(before));
            },
        }
        i = i + 1;
    }
    assert(labels@.take(labels@.len() as int) =~= labels@);
    out
}

fn property_list(node: &JsonValue) -> (r: JsonValue)
    ensures
        node matches JsonValue::Object(f) ==> text_list(r, property_names(f@)),
{
    let mut out: Vec<JsonValue> = Vec::new();
    match node.get("properties") {
        Some(JsonValue::Object(p)) => {
            let mut i: usize = 0;
            while i < p.len()
                invariant
                    i <= p@.len(),
                    out@.len() == i,
                    forall|j: int| 0 <= j < i ==> is_text(#[trigger] out@[j], p@[j].0@),
                decreases p@.len() - i,
            {
                out.push(JsonValue::Str(p[i].0.clone()));
                i = i + 1;
            }
        },
        _ => {},
    }
    JsonValue::Array(out)
}

fn id_text(f: &Vec<(String, JsonValue)>, node: &JsonValue, primary: &str, fallback: &str) -> (r: Option<String>)
    requires
        *node == JsonValue::Object(*f),
    ensures
        match r {
            Some(s) => either_text(f@, primary@, fallback@) == Some(s@),
            None => either_text(f@, primary@, fallback@) is None,
        },
{
    let found = match node.get(primary) {
        Some(x) => Some(x),
        None => node.get(fallback),
    };
    match found {
        Some(x) => match x.as_text() {
            Some(s) => Some(s.clone()),
            None => None,
        },
        None => None,
    }
}

fn normalize_node(n: JsonValue) -> (r: Option<JsonValue>)
    ensures
        match r {
            Some(out) => node_id(n) is Some && normalized_node(out, n),
            None => node_id(n) is None,
        },
{
    match n {
        JsonValue::Object(fields) => {
            let node = JsonValue::Object(fields);
            let id = match &node {
                JsonValue::Object(f) => id_text(f, &node, "elementId", "id"),
                _ => None,
            };
            let id = match id {
                Some(id) => id,
                None => return None,
            };
            let properties = property_list(&node);
            let mut fields = match node {
                JsonValue::Object(f) => f,
                _ => Vec::new(),
            };
            let ghost f0 = fields@;
            let labels: Vec<JsonValue> = match take_member(&mut fields, "labels") {
                Some(JsonValue::Array(v)) => v,
                _ => Vec::new(),
            };
            assert(labels@ == node_labels(f0));
            let label = joined_labels(&labels);
            let mut g: Vec<(String, JsonValue)> = Vec::new();
            g.push((String::from_str("id"), JsonValue::Str(id)));
            g.push((String::from_str("label"), JsonValue::Str(label)));
            g.push((String::from_str("labels"), JsonValue::Array(labels)));
            g.push((String::from_str("properties"), properties));
            Some(JsonValue::Object(g))
        },
        _ => None,
    }
}

fn normalize_edge(e: JsonValue) -> (r: Option<JsonValue>)
    ensures
        match r {
            Some(out) => edge_parts(e) is Some && normalized_edge(out, e),
            None => edge_parts(e) is None,
        },
{
    match e {
        JsonValue::Object(fields) => {
            let edge = JsonValue::Object(fields);
            let kind = match edge.get("type") {
                Some(t) => match t.as_text() {
                    Some(s) => s.clone(),
                    None => return None,
                },
                None => return None,
            };
            let (source, target) = match &edge {
                JsonValue::Object(f) => (id_text(f, &edge, "startElementId", "start"), id_text(f, &edge, "endElementId", "end")),
                _ => (None, None),
            };
            let source = match source {
                Some(s) => s,
                None => return None,
            };
            let target = match target {
                Some(s) => s,
                None => return None,
            };
            let mut fields = match edge {
                JsonValue::Object(f) => f,
                _ => Vec::new(),
            };
            let properties = match take_member(&mut fields, "properties") {
                Some(p) => p,
                None => JsonValue::Object(Vec::new()),
            };
            let mut g: Vec<(String, JsonValue)> = Vec::new();
            g.push((String::from_str("properties"), properties));
            g.push((String::from_str("source"), JsonValue::Str(source)));
            g.push((String::from_str("target"), JsonValue::Str(target)));
            g.push((String::from_str("type"), JsonValue::Str(kind)));
            Some(JsonValue::Object(g))
        },
        _ => None,
    }
}

/// Normalises every metagraph node (`nodes == true`) or relationship,
/// dropping those that lack a string identifier, type or endpoint.
fn normalize_all(items: Vec<JsonValue>, nodes: bool) -> (r: Vec<JsonValue>)
    ensures
        nodes ==> all_normalized(r@, kept_nodes(items@), true),
        !nodes ==> all_normalized(r@, kept_edges(items@), false),
{
    let ghost all = items@;
    let n = items.len();
    let mut rest = items;
    let mut out: Vec<JsonValue> = Vec::new();
    let mut i: usize = 0;
    while rest.len() > 0
        invariant
            n == all.len(),
            i <= all.len(),
            rest@ == all.skip(i as int),
            nodes ==> all_normalized(out@, kept_nodes(all.take(i as int)), true),
            !nodes ==> all_normalized(out@, kept_edges(all.take(i as int)), false),
        decreases rest@.len(),
    {
        proof {
            reveal_with_fuel(Seq::<_>::filter, 1);
        }
        let item = rest.remove(0);
        assert(item == all[i as int]);
        assert(all.take(i + 1).drop_last() =~= all.take(i as int));
        assert(all.take(i + 1).last() == item);
        let normalized = if nodes { normalize_node(item) } else { normalize_edge(item) };
        match normalized {
            Some(o) => {
                out.push(o);
            },
            None => {},
        }
        i = i + 1;
        assert(rest@ =~= all.skip(i as int));
    }
    assert(all.take(i as int) =~= all);
    out
}

/// The message of a metagraph query that returned no row.
pub open spec fn no_metagraph_message() -> Seq<char> {
    "Neo4j schema visualization returned no metadata"@
}

/// The message of a metagraph whose nodes are not a list.
pub open spec fn malformed_nodes_message() -> Seq<char> {
    "Neo4j schema visualization returned malformed nodes"@
}

/// The message of a metagraph whose relationships are not a list.
pub open spec fn malformed_edges_message() -> Seq<char> {
    "Neo4j schema visualization returned malformed relationships"@
}

/// The value of cell `k` of a metagraph row, if the row has that cell.
pub open spec fn row_cell(row: Seq<JsonValue>, k: int) -> Option<JsonValue> {
    if k < row.len() {
        Some(cell_value(row[k]))
    } else {
        None
    }
}

/// The items of a metagraph cell: an absent cell has none, a list has its
/// items, anything else is malformed.
pub open spec fn cell_items(c: Option<JsonValue>) -> Option<Seq<JsonValue>> {
    match c {
        None => Some(Seq::empty()),
        Some(JsonValue::Array(v)) => Some(v@),
        Some(_) => None,
    }
}

/// Whether a value is an empty list.
pub open spec fn is_empty_list(v: JsonValue) -> bool {
    v matches JsonValue::Array(a) && a@.len() == 0
}

fn take_cell(row: &mut Vec<JsonValue>) -> (r: JsonValue)
    ensures
        final(row)@ == if old(row)@.len() > 0 { old(row)@.drop_first() } else { old(row)@ },
        cell_items(row_cell(old(row)@, 0)) == match r {
            JsonValue::Array(v) => Some(v@),
            _ => None::<Seq<JsonValue>>,
        },
{
    if row.len() > 0 {
        let raw = row.remove(0);
        neo4j_schema_value(raw)
    } else {
        let r = JsonValue::Array(Vec::new());
        assert(cell_items(None) == Some(Seq::<JsonValue>::empty()));
        r
    }
}

/// What normalising the metagraph rows `rows` yields: no row is an error;
/// otherwise the first row's first cell gives the nodes and its second the
/// relationships (read as `cell_value` reads them; an absent cell is an empty
/// list, any other non-list is an error), each normalised and kept in order.
pub open spec fn metagraph_result(r: Result<(Vec<JsonValue>, Vec<JsonValue>), String>, rows: Seq<Vec<JsonValue>>) -> bool {
    if rows.len() == 0 {
        r matches Err(e) && e@ == no_metagraph_message()
    } else {
        match cell_items(row_cell(rows[0]@, 0)) {
            Some(ns) => match cell_items(row_cell(rows[0]@, 1)) {
                Some(es) => r matches Ok((n, e)) && all_normalized(n@, kept_nodes(ns), true)
                    && all_normalized(e@, kept_edges(es), false),
                None => r matches Err(m) && m@ == malformed_edges_message(),
            },
            None => r matches Err(m) && m@ == malformed_nodes_message(),
        }
    }
}

/// Normalises the metagraph that `db.schema.visualization()` returned: the
/// first row's first cell holds the nodes and its second the relationships,
/// either as lists or as JSON text of lists. Nodes and relationships without
/// a string identifier, type or endpoint are dropped.
pub fn normalize_neo4j_schema_visualization(rows: Vec<Vec<JsonValue>>) -> (r: Result<(Vec<JsonValue>, Vec<JsonValue>), String>)
    ensures
        metagraph_result(r, rows@),
{
    let ghost all = rows@;
    let mut rows = rows;
    if rows.len() == 0 {
        return Err(String::from_str("Neo4j schema visualization returned no metadata"));
    }
    let mut row = rows.remove(0);
    assert(row == all[0]);
    let ghost row0 = row@;
    let raw_nodes = take_cell(&mut row);
    let raw_edges = take_cell(&mut row);
    proof {
        if row0.len() > 1 {
            assert(row0.drop_first()[0] == row0[1]);
        }
    }
    let nodes = match raw_nodes {
        JsonValue::Array(v) => v,
        _ => return Err(String::from_str("Neo4j schema visualization returned malformed nodes")),
    };
    let edges = match raw_edges {
        JsonValue::Array(v) => v,
        _ => return Err(String::from_str("Neo4j schema visualization returned malformed relationships")),
    };
    let n = normalize_all(nodes, true);
    let e = normalize_all(edges, false);
    Ok((n, e))
}

/// `new` is `old` with one more facet, as given.
pub open spec fn pushed_facet(old: Seq<MetadataFacetStatus>, new: Seq<MetadataFacetStatus>, name: Seq<char>, availability: MetadataAvailability, error: Option<String>) -> bool {
    new.len() == old.len() + 1 && new.drop_last() == old && facet_is(new.last(), name, availability, error)
}

fn push_facet(facets: &mut Vec<MetadataFacetStatus>, name: &str, availability: MetadataAvailability, error: Option<String>)
    ensures
        pushed_facet(old(facets)@, final(facets)@, name@, availability, error),
{
    facets.push(facet(name, availability, error));
    assert(facets@.drop_last() =~= old(facets)@);
}

/// Takes in the outcome of reading the metagraph. Read: the topology facet
/// is complete. A fatal failure is the error. Any other failure makes the
/// topology facet partial, and the labels and relationship types must be
/// read instead (`Ok(None)`).
pub fn record_topology(facets: &mut Vec<MetadataFacetStatus>, result: Result<(Vec<JsonValue>, Vec<JsonValue>), String>) -> (r: Result<Option<(Vec<JsonValue>, Vec<JsonValue>)>, String>)
    ensures
        match result {
            Ok(g) => r == Ok::<Option<(Vec<JsonValue>, Vec<JsonValue>)>, String>(Some(g))
                && pushed_facet(old(facets)@, final(facets)@, "topology"@, MetadataAvailability::Complete, None),
            Err(e) => if is_fatal_failure(e@) {
                r == Err::<Option<(Vec<JsonValue>, Vec<JsonValue>)>, String>(e) && final(facets)@ == old(facets)@
            } else {
                r == Ok::<Option<(Vec<JsonValue>, Vec<JsonValue>)>, String>(None)
                    && pushed_facet(old(facets)@, final(facets)@, "topology"@, MetadataAvailability::Partial, Some(e))
            },
        },
{
    match result {
        Ok(g) => {
            push_facet(facets, "topology", MetadataAvailability::Complete, None);
            Ok(Some(g))
        },
        Err(e) => {
            if metadata_failure_is_fatal(e.as_str()) {
                Err(e)
            } else {
                push_facet(facets, "topology", MetadataAvailability::Partial, Some(e));
                Ok(None)
            }
        },
    }
}

/// The text in the first cell of a row, if it is a string.
pub open spec fn first_text(row: Seq<JsonValue>) -> Option<Seq<char>> {
    if row.len() > 0 {
        json_text(row[0])
    } else {
        None
    }
}

/// The first-cell texts of the rows that have one.
pub open spec fn first_texts(rows: Seq<Vec<JsonValue>>) -> Seq<Seq<char>> {
    rows.filter_map(|row: Vec<JsonValue>| first_text(row@))
}

fn row_text(row: &Vec<JsonValue>) -> (r: Option<String>)
    ensures
        match r {
            Some(s) => first_text(row@) == Some(s@),
            None => first_text(row@) is None,
        },
{
    if row.len() > 0 {
        match row[0].as_text() {
            Some(s) => Some(s.clone()),
            None => None,
        }
    } else {
        None
    }
}

/// A node of the fallback metagraph: a label, with no known properties.
pub open spec fn label_node(out: JsonValue, label: Seq<char>) -> bool {
    out matches JsonValue::Object(g) && g@.len() == 3
        && g@[0].0@ == "id"@ && is_text(g@[0].1, label)
        && g@[1].0@ == "label"@ && is_text(g@[1].1, label)
        && g@[2].0@ == "properties"@ && is_empty_list(g@[2].1)
}

/// The fallback nodes: one per label the label listing returned, in order.
pub fn label_nodes(rows: &Vec<Vec<JsonValue>>) -> (r: Vec<JsonValue>)
    ensures
        r@.len() == first_texts(rows@).len(),
        forall|i: int| 0 <= i < r@.len() ==> label_node(#[trigger] r@[i], first_texts(rows@)[i]),
{
    let mut out: Vec<JsonValue> = Vec::new();
    let mut i: usize = 0;
    while i < rows.len()
        invariant
            i <= rows@.len(),
            out@.len() == first_texts(rows@.take(i as int)).len(),
            forall|j: int| 0 <= j < out@.len() ==> label_node(#[trigger] out@[j], first_texts(rows@.take(i as int))[j]),
        decreases rows@.len() - i,
    {
        let ghost before = rows@.take(i as int);
        assert(rows@.take(i + 1).drop_last() =~= before);
        match row_text(&rows[i]) {
            Some(l) => {
                let mut g: Vec<(String, JsonValue)> = Vec::new();
                g.push((String::from_str("id"), JsonValue::Str(l.clone())));
                g.push((String::from_str("label"), JsonValue::Str(l)));
                g.push((String::from_str("properties"), JsonValue::Array(Vec::new())));
                out.push(JsonValue::Object(g));
                assert(first_texts(rows@.take(i + 1)) =~= first_texts(before).push(l@));
            },
            None => {
                assert(first_texts(rows@.take(i + 1)) =~= first_texts(before));
            },
        }
        i = i + 1;
    }
    assert(rows@.take(rows@.len() as int) =~= rows@);
    out
}

/// A relationship type of the fallback metagraph: its endpoints unknown.
pub open spec fn type_edge(out: JsonValue, kind: Seq<char>) -> bool {
    out matches JsonValue::Object(g) && g@.len() == 3
        && g@[0].0@ == "source"@ && g@[0].1 is Null
        && g@[1].0@ == "target"@ && g@[1].1 is Null
        && g@[2].0@ == "type"@ && is_text(g@[2].1, kind)
}

/// The fallback relationships: one per relationship type the listing
/// returned, in order, with unknown endpoints.
pub fn relationship_type_edges(rows: &Vec<Vec<JsonValue>>) -> (r: Vec<JsonValue>)
    ensures
        r@.len() == first_texts(rows@).len(),
        forall|i: int| 0 <= i < r@.len() ==> type_edge(#[trigger] r@[i], first_texts(rows@)[i]),
{
    let mut out: Vec<JsonValue> = Vec::new();
    let mut i: usize = 0;
    while i < rows.len()
        invariant
            i <= rows@.len(),
            out@.len() == first_texts(rows@.take(i as int)).len(),
            forall|j: int| 0 <= j < out@.len() ==> type_edge(#[trigger] out@[j], first_texts(rows@.take(i as int))[j]),
        decreases rows@.len() - i,
    {
        let ghost before = rows@.take(i as int);
        assert(rows@.take(i + 1).drop_last() =~= before);
        match row_text(&rows[i]) {
            Some(t) => {
                let mut g: Vec<(String, JsonValue)> = Vec::new();
                g.push((String::from_str("source"), JsonValue::Null));
                g.push((String::from_str("target"), JsonValue::Null));
                g.push((String::from_str("type"), JsonValue::Str(t)));
                out.push(JsonValue::Object(g));
                assert(first_texts(rows@.take(i + 1)) =~= first_texts(before).push(t@));
            },
            None => {
                assert(first_texts(rows@.take(i + 1)) =~= first_texts(before));
            },
        }
        i = i + 1;
    }
    assert(rows@.take(rows@.len() as int) =~= rows@);
    out
}

/// Takes in the outcome of listing relationship types after the metagraph
/// failed. A fatal failure is the error; any other leaves no relationships
/// and a partial relationship-type facet.
pub fn record_relationship_types(facets: &mut Vec<MetadataFacetStatus>, result: Result<Vec<JsonValue>, String>) -> (r: Result<Vec<JsonValue>, String>)
    ensures
        match result {
            Ok(edges) => r == Ok::<Vec<JsonValue>, String>(edges) && final(facets)@ == old(facets)@,
            Err(e) => if is_fatal_failure(e@) {
                r == Err::<Vec<JsonValue>, String>(e) && final(facets)@ == old(facets)@
            } else {
                (r matches Ok(v) && v@.len() == 0)
                    && pushed_facet(old(facets)@, final(facets)@, "relationshipTypes"@, MetadataAvailability::Partial, Some(e))
            },
        },
{
    match result {
        Ok(edges) => Ok(edges),
        Err(e) => {
            if metadata_failure_is_fatal(e.as_str()) {
                Err(e)
            } else {
                push_facet(facets, "relationshipTypes", MetadataAvailability::Partial, Some(e));
                Ok(Vec::new())
            }
        },
    }
}

/// Takes in the outcome of one native metadata query: read, it is kept
/// under its name and its facet is complete; a fatal failure is the error;
/// any other failure keeps `null` and makes the facet partial.
pub fn record_native(native: &mut Vec<(String, JsonValue)>, facets: &mut Vec<MetadataFacetStatus>, name: &str, result: Result<JsonValue, String>) -> (r: Result<(), String>)
    ensures
        match result {
            Ok(v) => r is Ok && final(native)@.len() == old(native)@.len() + 1 && final(native)@.drop_last() == old(native)@
                && final(native)@.last().0@ == name@ && final(native)@.last().1 == v
                && pushed_facet(old(facets)@, final(facets)@, name@, MetadataAvailability::Complete, None),
            Err(e) => if is_fatal_failure(e@) {
                r == Err::<(), String>(e) && final(native)@ == old(native)@ && final(facets)@ == old(facets)@
            } else {
                r is Ok && final(native)@.len() == old(native)@.len() + 1 && final(native)@.drop_last() == old(native)@
                    && final(native)@.last().0@ == name@ && final(native)@.last().1 is Null
                    && pushed_facet(old(facets)@, final(facets)@, name@, MetadataAvailability::Partial, Some(e))
            },
        },
{
    match result {
        Ok(v) => {
            native.push((String::from_str(name), v));
            assert(native@.drop_last() =~= old(native)@);
            push_facet(facets, name, MetadataAvailability::Complete, None);
            Ok(())
        },
        Err(e) => {
            if metadata_failure_is_fatal(e.as_str()) {
                Err(e)
            } else {
                native.push((String::from_str(name), JsonValue::Null));
                assert(native@.drop_last() =~= old(native)@);
                push_facet(facets, name, MetadataAvailability::Partial, Some(e));
                Ok(())
            }
        },
    }
}

/// Some relationship has a `null` source: its endpoints were not declared.
pub open spec fn endpoints_unknown(edges: Seq<JsonValue>) -> bool {
    exists|i: int| 0 <= i < edges.len() && json_get(#[trigger] edges[i], "source"@) == Some(JsonValue::Null)
}

/// The notice of a metagraph without declared endpoints.
pub open spec fn endpoints_notice() -> Seq<char> {
    "Relationship types are shown, but this Neo4j version did not expose source/target schema endpoints without inspecting graph data."@
}

/// Law: a relationship whose source is `null`, wherever it stands among the
/// edges, marks the endpoints as unknown; with no such relationship they
/// are known.
pub proof fn lemma_unknown_endpoint_marks_graph(edges: Seq<JsonValue>, i: int)
    ensures
        0 <= i < edges.len() && json_get(edges[i], "source"@) == Some(JsonValue::Null) ==> endpoints_unknown(edges),
        (forall|j: int| 0 <= j < edges.len() ==> json_get(edges[j], "source"@) != Some(JsonValue::Null)) ==> !endpoints_unknown(edges),
{
    if 0 <= i < edges.len() && json_get(edges[i], "source"@) == Some(JsonValue::Null) {
        assert(endpoints_unknown(edges));
    }
}

/// The view of a Neo4j metagraph: partial when any facet is, with a notice
/// when some relationship's endpoints are unknown.
pub fn graph_view(nodes: Vec<JsonValue>, edges: Vec<JsonValue>, native: Vec<(String, JsonValue)>, facets: Vec<MetadataFacetStatus>) -> (r: ViewParts)
    ensures
        r.availability == partial_unless_complete(facets@),
        r.facets@ == facets@,
        texts(r.notices@) == (if endpoints_unknown(edges@) { seq![endpoints_notice()] } else { Seq::empty() }),
        r.payload == (SchemaViewPayload::Graph { nodes, edges, metadata: JsonValue::Object(native) }),
{
    let mut unknown = false;
    let mut i: usize = 0;
    while i < edges.len()
        invariant
            i <= edges@.len(),
            unknown == exists|j: int| 0 <= j < i && json_get(#[trigger] edges@[j], "source"@) == Some(JsonValue::Null),
        decreases edges@.len() - i,
    {
        match edges[i].get("source") {
            Some(v) => {
                if v.is_null() {
                    unknown = true;
                }
            },
            None => {},
        }
        i = i + 1;
    }
    let mut notices: Vec<String> = Vec::new();
    if unknown {
        notices.push(String::from_str("Relationship types are shown, but this Neo4j version did not expose source/target schema endpoints without inspecting graph data."));
        assert(texts(notices@) =~= seq![endpoints_notice()]);
    } else {
        assert(texts(notices@) =~= Seq::<Seq<char>>::empty());
    }
    let availability = overall_availability(&facets);
    ViewParts { availability, facets, notices, payload: SchemaViewPayload::Graph { nodes, edges, metadata: JsonValue::Object(native) } }
}

/// A Neo4j metadata query's reply: its rows, and the whole result as JSON.
#[derive(Debug)]
pub struct GraphReply {
    pub rows: Vec<Vec<JsonValue>>,
    pub result: JsonValue,
}

/// The query a graph view waits on next.
#[derive(Debug, Clone, Copy, PartialEq, Eq, Structural)]
pub enum GraphStage {
    /// The declared metagraph.
    Metagraph,
    /// The node labels, once the metagraph failed.
    Labels,
    /// The relationship types, after the labels.
    RelationshipTypes,
    /// Native metadata query `i`.
    Native(usize),
    /// Nothing more: the view can be built.
    Done,
}

/// The reading of a Neo4j graph view: what the queries so far gave.
#[derive(Debug)]
pub struct GraphLoad {
    pub stage: GraphStage,
    pub nodes: Vec<JsonValue>,
    pub edges: Vec<JsonValue>,
    pub native: Vec<(String, JsonValue)>,
    pub facets: Vec<MetadataFacetStatus>,
}

impl GraphLoad {
    /// A native stage names one of the native queries.
    pub open spec fn wf(&self) -> bool {
        self.stage matches GraphStage::Native(i) ==> i < native_queries().len()
    }
}

/// The stage after native query `i`.
pub open spec fn after_native(i: int) -> GraphStage {
    if i + 1 < native_queries().len() {
        GraphStage::Native((i + 1) as usize)
    } else {
        GraphStage::Done
    }
}

/// The metagraph outcome a reply gives: its rows normalised, or the query's
/// error.
pub open spec fn metagraph_outcome(m: Result<(Vec<JsonValue>, Vec<JsonValue>), String>, reply: Result<GraphReply, String>) -> bool {
    match reply {
        Ok(g) => metagraph_result(m, g.rows@),
        Err(e) => m == Err::<(Vec<JsonValue>, Vec<JsonValue>), String>(e),
    }
}

/// One step of a graph view's reading: what the reply to the query of
/// `old`'s stage makes of the load (`new`) and the step's result (`r`).
/// The metagraph read gives the topology and moves on to the native
/// queries; a metagraph failure that is not fatal makes the topology partial
/// and moves on to the labels, whose failure is always the error; the
/// relationship types follow, a failure that is not fatal leaving none;
/// each native query is kept under its name, `null` when it failed. A fatal
/// failure is the error and stops the reading.
pub open spec fn graph_step(old: GraphLoad, new: GraphLoad, reply: Result<GraphReply, String>, r: Result<(), String>) -> bool {
    match old.stage {
        GraphStage::Metagraph => exists|m: Result<(Vec<JsonValue>, Vec<JsonValue>), String>| #[trigger] metagraph_outcome(m, reply) && match m {
            Ok((n, e)) => r is Ok && new.stage == GraphStage::Native(0) && new.nodes == n && new.edges == e
                && new.native == old.native
                && pushed_facet(old.facets@, new.facets@, "topology"@, MetadataAvailability::Complete, None),
            Err(e) => if is_fatal_failure(e@) {
                r == Err::<(), String>(e)
            } else {
                r is Ok && new.stage == GraphStage::Labels && new.nodes == old.nodes && new.edges == old.edges
                    && new.native == old.native
                    && pushed_facet(old.facets@, new.facets@, "topology"@, MetadataAvailability::Partial, Some(e))
            },
        },
        GraphStage::Labels => match reply {
            Err(e) => r == Err::<(), String>(e),
            Ok(g) => r is Ok && new.stage == GraphStage::RelationshipTypes
                && new.nodes@.len() == first_texts(g.rows@).len()
                && (forall|i: int| 0 <= i < new.nodes@.len() ==> label_node(#[trigger] new.nodes@[i], first_texts(g.rows@)[i]))
                && new.edges == old.edges && new.native == old.native && new.facets@ == old.facets@,
        },
        GraphStage::RelationshipTypes => match reply {
            Ok(g) => r is Ok && new.stage == GraphStage::Native(0) && new.nodes == old.nodes
                && new.edges@.len() == first_texts(g.rows@).len()
                && (forall|i: int| 0 <= i < new.edges@.len() ==> type_edge(#[trigger] new.edges@[i], first_texts(g.rows@)[i]))
                && new.native == old.native && new.facets@ == old.facets@,
            Err(e) => if is_fatal_failure(e@) {
                r == Err::<(), String>(e)
            } else {
                r is Ok && new.stage == GraphStage::Native(0) && new.nodes == old.nodes && new.edges@.len() == 0
                    && new.native == old.native
                    && pushed_facet(old.facets@, new.facets@, "relationshipTypes"@, MetadataAvailability::Partial, Some(e))
            },
        },
        GraphStage::Native(i) => {
            let name = native_queries()[i as int].0;
            match reply {
                Ok(g) => r is Ok && new.stage == after_native(i as int) && new.nodes == old.nodes && new.edges == old.edges
                    && new.native@.len() == old.native@.len() + 1 && new.native@.drop_last() == old.native@
                    && new.native@.last().0@ == name && new.native@.last().1 == g.result
                    && pushed_facet(old.facets@, new.facets@, name, MetadataAvailability::Complete, None),
                Err(e) => if is_fatal_failure(e@) {
                    r == Err::<(), String>(e)
                } else {
                    r is Ok && new.stage == after_native(i as int) && new.nodes == old.nodes && new.edges == old.edges
                        && new.native@.len() == old.native@.len() + 1 && new.native@.drop_last() == old.native@
                        && new.native@.last().0@ == name && new.native@.last().1 is Null
                        && pushed_facet(old.facets@, new.facets@, name, MetadataAvailability::Partial, Some(e))
                },
            }
        },
        GraphStage::Done => false,
    }
}

/// A graph view's reading before any query: it waits on the metagraph.
pub fn start_graph_load() -> (r: GraphLoad)
    ensures
        r.wf(),
        r.stage == GraphStage::Metagraph,
        r.nodes@.len() == 0,
        r.edges@.len() == 0,
        r.native@.len() == 0,
        r.facets@.len() == 0,
{
    GraphLoad { stage: GraphStage::Metagraph, nodes: Vec::new(), edges: Vec::new(), native: Vec::new(), facets: Vec::new() }
}

impl GraphLoad {
    /// The query to run next, or `None` once the view can be built.
    pub fn next_graph_query(&self) -> (r: Option<&'static str>)
        requires
            self.wf(),
        ensures
            match self.stage {
                GraphStage::Metagraph => r matches Some(q) && q@ == "CALL db.schema.visualization() YIELD nodes, relationships RETURN nodes, relationships"@,
                GraphStage::Labels => r matches Some(q) && q@ == "CALL db.labels() YIELD label RETURN label ORDER BY label"@,
                GraphStage::RelationshipTypes => r matches Some(q) && q@ == "CALL db.relationshipTypes() YIELD relationshipType RETURN relationshipType ORDER BY relationshipType"@,
                GraphStage::Native(i) => r matches Some(q) && q@ == native_queries()[i as int].1,
                GraphStage::Done => r is None,
            },
    {
        match self.stage {
            GraphStage::Metagraph => Some(schema_visualization_query()),
            GraphStage::Labels => Some(labels_query()),
            GraphStage::RelationshipTypes => Some(relationship_types_query()),
            GraphStage::Native(i) => Some(native_query(i).1),
            GraphStage::Done => None,
        }
    }

    /// Takes in the reply to the query of the current stage; see
    /// `graph_step`.
    pub fn record_graph_reply(&mut self, reply: Result<GraphReply, String>) -> (r: Result<(), String>)
        requires
            old(self).wf(),
            old(self).stage != GraphStage::Done,
        ensures
            graph_step(*old(self), *final(self), reply, r),
            r is Ok ==> final(self).wf(),
    {
        match self.stage {
            GraphStage::Metagraph => {
                let m = match reply {
                    Ok(g) => normalize_neo4j_schema_visualization(g.rows),
                    Err(e) => Err(e),
                };
                let ghost mm = m;
                assert(metagraph_outcome(mm, reply));
                match record_topology(&mut self.facets, m) {
                    Err(e) => Err(e),
                    Ok(Some((n, e))) => {
                        self.nodes = n;
                        self.edges = e;
                        self.stage = GraphStage::Native(0);
                        Ok(())
                    },
                    Ok(None) => {
                        self.stage = GraphStage::Labels;
                        Ok(())
                    },
                }
            },
            GraphStage::Labels => match reply {
                Err(e) => Err(e),
                Ok(g) => {
                    self.nodes = label_nodes(&g.rows);
                    self.stage = GraphStage::RelationshipTypes;
                    Ok(())
                },
            },
            GraphStage::RelationshipTypes => {
                let types = match reply {
                    Ok(g) => Ok(relationship_type_edges(&g.rows)),
                    Err(e) => Err(e),
                };
                match record_relationship_types(&mut self.facets, types) {
                    Err(e) => Err(e),
                    Ok(edges) => {
                        self.edges = edges;
                        self.stage = GraphStage::Native(0);
                        Ok(())
                    },
                }
            },
            GraphStage::Native(i) => {
                let (name, _) = native_query(i);
                let result = match reply {
                    Ok(g) => Ok(g.result),
                    Err(e) => Err(e),
                };
                match record_native(&mut self.native, &mut self.facets, name, result) {
                    Err(e) => Err(e),
                    Ok(()) => {
                        self.stage = if i + 1 < native_query_count() { GraphStage::Native(i + 1) } else { GraphStage::Done };
                        Ok(())
                    },
                }
            },
            GraphStage::Done => Ok(()),
        }
    }

    /// The view of what was read: partial when any facet is, with a notice
    /// when some relationship's endpoints are unknown.
    pub fn finish_graph_load(self) -> (r: ViewParts)
        requires
            self.stage == GraphStage::Done,
        ensures
            r.availability == partial_unless_complete(self.facets@),
            r.facets@ == self.facets@,
            texts(r.notices@) == (if endpoints_unknown(self.edges@) { seq![endpoints_notice()] } else { Seq::empty() }),
            r.payload == (SchemaViewPayload::Graph { nodes: self.nodes, edges: self.edges, metadata: JsonValue::Object(self.native) }),
    {
        graph_view(self.nodes, self.edges, self.native, self.facets)
    }
}

/// Law: only the first row's first two cells, as read, decide the
/// metagraph: row lists whose first rows read alike normalise alike.
pub proof fn lemma_metagraph_reads_first_row(r: Result<(Vec<JsonValue>, Vec<JsonValue>), String>, rows: Seq<Vec<JsonValue>>, other: Seq<Vec<JsonValue>>)
    requires
        (rows.len() == 0) == (other.len() == 0),
        rows.len() > 0 ==> row_cell(rows[0]@, 0) == row_cell(other[0]@, 0) && row_cell(rows[0]@, 1) == row_cell(other[0]@, 1),
    ensures
        metagraph_result(r, rows) == metagraph_result(r, other),
{
}

/// Law: a string cell holding the JSON text of a list reads as that list,
/// so a metagraph whose first row carries its nodes or relationships as JSON
/// text normalises like one that carries the lists themselves (and later
/// rows never matter).
pub proof fn lemma_encoded_cells_read_as_lists(r: Result<(Vec<JsonValue>, Vec<JsonValue>), String>, rows: Seq<Vec<JsonValue>>, other: Seq<Vec<JsonValue>>)
    requires
        (rows.len() == 0) == (other.len() == 0),
        rows.len() > 0 ==> rows[0]@.len() == other[0]@.len(),
        rows.len() > 0 ==> forall|k: int| 0 <= k < 2 && k < rows[0]@.len() ==> {
            ||| other[0]@[k] == rows[0]@[k]
            ||| (rows[0]@[k] is Array && (other[0]@[k] matches JsonValue::Str(t) && json_text_value(t@) == Some(rows[0]@[k])))
        },
    ensures
        metagraph_result(r, rows) == metagraph_result(r, other),
{
    if rows.len() > 0 {
        assert forall|k: int| 0 <= k < 2 implies row_cell(rows[0]@, k) == row_cell(other[0]@, k) by {
            if k < rows[0]@.len() && other[0]@[k] != rows[0]@[k] {
                assert(cell_value(rows[0]@[k]) == rows[0]@[k]);
            }
        }
        assert(row_cell(rows[0]@, 0) == row_cell(other[0]@, 0));
        assert(row_cell(rows[0]@, 1) == row_cell(other[0]@, 1));
    }
    lemma_metagraph_reads_first_row(r, rows, other);
}

} // verus!
