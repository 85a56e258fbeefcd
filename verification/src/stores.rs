//! The views of document, vector, composite, key-value and service stores:
//! declared metadata only, never sampled data.

use vstd::prelude::*;
use crate::facets::{MetadataFacetStatus, facet, facet_is};
use crate::failure::{is_fatal_failure, metadata_failure_is_fatal};
use crate::json::{JsonValue, follow, insert_member, is_text, json_path, json_text, member, take_member, with_member};
use crate::kind::MetadataAvailability;
use crate::number::{decimal, digit_char};
use crate::scope::SchemaViewScope;
use crate::text::str_eq;
use crate::view::{DocumentSource, SchemaViewPayload, ViewParts, texts};

verus! {

/// The declared metadata of a document collection once read: a MongoDB
/// collection whose declared schema could not be read (short of a fatal
/// failure) shows `null` and keeps the error; any other failure is the error.
pub fn document_declared(source: DocumentSource, declared: Result<JsonValue, String>) -> (r: Result<(JsonValue, Option<String>), String>)
    ensures
        match declared {
            Ok(m) => r == Ok::<(JsonValue, Option<String>), String>((m, None)),
            Err(e) => if source == DocumentSource::MongoDb && !is_fatal_failure(e@) {
                r == Ok::<(JsonValue, Option<String>), String>((JsonValue::Null, Some(e)))
            } else {
                r == Err::<(JsonValue, Option<String>), String>(e)
            },
        },
{
    match declared {
        Ok(m) => Ok((m, None)),
        Err(e) => {
            if source == DocumentSource::MongoDb && !metadata_failure_is_fatal(e.as_str()) {
                Ok((JsonValue::Null, Some(e)))
            } else {
                Err(e)
            }
        },
    }
}

/// The declared metadata of an Elasticsearch index: the aliases of the
/// first listed index (name and aliases) named `object`, or an empty list
/// when none is; then its mapping and settings.
pub fn elasticsearch_metadata(mapping: JsonValue, settings: JsonValue, indexes: Vec<(String, JsonValue)>, object: &str) -> (r: JsonValue)
    ensures
        r matches JsonValue::Object(f) && f@.len() == 3
            && f@[0].0@ == "aliases"@ && match member(indexes@, object@) {
                Some(a) => f@[0].1 == a,
                None => f@[0].1 matches JsonValue::Array(v) && v@.len() == 0,
            }
            && f@[1].0@ == "mapping"@ && f@[1].1 == mapping
            && f@[2].0@ == "settings"@ && f@[2].1 == settings,
{
    let mut indexes = indexes;
    let aliases = match take_member(&mut indexes, object) {
        Some(a) => a,
        None => JsonValue::Array(Vec::new()),
    };
    let mut f: Vec<(String, JsonValue)> = Vec::new();
    f.push((String::from_str("aliases"), aliases));
    f.push((String::from_str("mapping"), mapping));
    f.push((String::from_str("settings"), settings));
    JsonValue::Object(f)
}

/// Whether a document view also reads search indexes: only a MongoDB
/// collection's.
pub fn reads_search_indexes(source: DocumentSource) -> (r: bool)
    ensures
        r == (source == DocumentSource::MongoDb),
{
    source == DocumentSource::MongoDb
}

/// Whether a collection declares a schema: a MongoDB collection by a
/// non-null `options.validator`, any other store by non-null metadata.
pub open spec fn declares_schema(source: DocumentSource, metadata: JsonValue) -> bool {
    if source == DocumentSource::MongoDb {
        json_path(metadata, seq!["options"@, "validator"@]) matches Some(v) && !(v is Null)
    } else {
        !(metadata is Null)
    }
}

/// The availability of the declared-schema facet.
pub open spec fn declared_availability(declared_error: Option<String>, declared: bool) -> MetadataAvailability {
    if declared_error is Some {
        MetadataAvailability::NotExposed
    } else if declared {
        MetadataAvailability::Complete
    } else {
        MetadataAvailability::Absent
    }
}

/// The notice of a MongoDB collection without a validator.
pub open spec fn no_validator_notice() -> Seq<char> {
    "This collection has no declared validator. Collection metadata is shown, and documents were not sampled."@
}

fn has_declared_schema(source: DocumentSource, metadata: &JsonValue) -> (r: bool)
    ensures
        r == declares_schema(source, *metadata),
{
    if source == DocumentSource::MongoDb {
        let path: [&str; 2] = ["options", "validator"];
        let found = follow(metadata, &path);
        proof {
            reveal_strlit("options");
            reveal_strlit("validator");
            assert(path@.map_values(|k: &str| k@) =~= seq!["options"@, "validator"@]);
        }
        match found {
            Some(v) => !v.is_null(),
            None => false,
        }
    } else {
        !metadata.is_null()
    }
}

/// The view of a document collection. Availability is not exposed when every
/// facet is not exposed, partial when some is, and otherwise complete or
/// absent as the collection declares a schema or not. For MongoDB the search
/// indexes are a second facet (a fatal failure reading them is the error)
/// and are added to an object's metadata; the outcome is ignored elsewhere.
pub fn document_view(source: DocumentSource, metadata: JsonValue, declared_error: Option<String>, search_indexes: Result<JsonValue, String>) -> (r: Result<ViewParts, String>)
    ensures
        ({
            let declared = declares_schema(source, metadata);
            let first = declared_availability(declared_error, declared);
            if source != DocumentSource::MongoDb {
                r matches Ok(p) && p.facets@.len() == 1 && facet_is(p.facets@[0], "declaredSchema"@, first, declared_error)
                    && p.availability == first && p.notices@.len() == 0
                    && p.payload == (SchemaViewPayload::Document { metadata })
            } else {
                match search_indexes {
                    Err(e) => if is_fatal_failure(e@) {
                        r == Err::<ViewParts, String>(e)
                    } else {
                        r matches Ok(p) && p.facets@.len() == 2
                            && facet_is(p.facets@[0], "declaredSchema"@, first, declared_error)
                            && facet_is(p.facets@[1], "searchIndexes"@, MetadataAvailability::NotExposed, Some(e))
                            && p.availability == (if declared_error is Some { MetadataAvailability::NotExposed } else { MetadataAvailability::Partial })
                            && texts(p.notices@) == (if !declared && declared_error is None { seq![no_validator_notice()] } else { Seq::empty() })
                            && p.payload == (SchemaViewPayload::Document { metadata })
                    },
                    Ok(idx) => r matches Ok(p) && p.facets@.len() == 2
                        && facet_is(p.facets@[0], "declaredSchema"@, first, declared_error)
                        && facet_is(p.facets@[1], "searchIndexes"@, MetadataAvailability::Complete, None)
                        && p.availability == (if declared_error is Some { MetadataAvailability::Partial } else { first })
                        && texts(p.notices@) == (if !declared && declared_error is None { seq![no_validator_notice()] } else { Seq::empty() })
                        && match metadata {
                            JsonValue::Object(fields) => p.payload matches SchemaViewPayload::Document { metadata: JsonValue::Object(g) }
                                && with_member(fields@, "searchIndexes"@, idx, g@),
                            _ => p.payload == (SchemaViewPayload::Document { metadata }),
                        },
                }
            }
        }),
{
    let declared = has_declared_schema(source, &metadata);
    let first = if declared_error.is_some() {
        MetadataAvailability::NotExposed
    } else if declared {
        MetadataAvailability::Complete
    } else {
        MetadataAvailability::Absent
    };
    let no_error = declared_error.is_none();
    let mut facets: Vec<MetadataFacetStatus> = Vec::new();
    facets.push(facet("declaredSchema", first, declared_error));
    if source != DocumentSource::MongoDb {
        return Ok(ViewParts { availability: first, facets, notices: Vec::new(), payload: SchemaViewPayload::Document { metadata } });
    }
    let mut metadata = metadata;
    let second = match search_indexes {
        Ok(idx) => {
            match &mut metadata {
                JsonValue::Object(fields) => insert_member(fields, "searchIndexes", idx),
                _ => {},
            }
            MetadataAvailability::Complete
        },
        Err(e) => {
            if metadata_failure_is_fatal(e.as_str()) {
                return Err(e);
            }
            facets.push(facet("searchIndexes", MetadataAvailability::NotExposed, Some(e)));
            MetadataAvailability::NotExposed
        },
    };
    if second == MetadataAvailability::Complete {
        facets.push(facet("searchIndexes", MetadataAvailability::Complete, None));
    }
    let mut notices: Vec<String> = Vec::new();
    if !declared && no_error {
        notices.push(String::from_str("This collection has no declared validator. Collection metadata is shown, and documents were not sampled."));
        assert(texts(notices@) =~= seq![no_validator_notice()]);
    } else {
        assert(texts(notices@) =~= Seq::<Seq<char>>::empty());
    }
    let availability = if !no_error && second == MetadataAvailability::NotExposed {
        MetadataAvailability::NotExposed
    } else if !no_error || second == MetadataAvailability::NotExposed {
        MetadataAvailability::Partial
    } else {
        first
    };
    Ok(ViewParts { availability, facets, notices, payload: SchemaViewPayload::Document { metadata } })
}

/// The index error a vector collection's native metadata reports, if any.
pub open spec fn vector_index_error(metadata: JsonValue) -> Option<Seq<char>> {
    match json_path(metadata, seq!["nativeMetadata"@, "data"@, "schemaViewerIndexDetailsError"@]) {
        Some(v) => json_text(v),
        None => None,
    }
}

/// The view of a vector collection: its index facet (and the whole view) is
/// partial exactly when the native metadata reports an index error.
pub fn vector_view(metadata: JsonValue) -> (r: ViewParts)
    ensures
        r.facets@.len() == 1,
        r.facets@[0].name@ == "vectorIndexes"@,
        match vector_index_error(metadata) {
            Some(e) => r.availability == MetadataAvailability::Partial && (r.facets@[0].error matches Some(x) && x@ == e),
            None => r.availability == MetadataAvailability::Complete && r.facets@[0].error is None,
        },
        r.facets@[0].availability == r.availability,
        r.notices@.len() == 0,
        r.payload == (SchemaViewPayload::Vector { metadata }),
{
    let path: [&str; 3] = ["nativeMetadata", "data", "schemaViewerIndexDetailsError"];
    proof {
        reveal_strlit("nativeMetadata");
        reveal_strlit("data");
        reveal_strlit("schemaViewerIndexDetailsError");
        assert(path@.map_values(|k: &str| k@) =~= seq!["nativeMetadata"@, "data"@, "schemaViewerIndexDetailsError"@]);
    }
    let error: Option<String> = match follow(&metadata, &path) {
        Some(v) => match v.as_text() {
            Some(s) => Some(s.clone()),
            None => None,
        },
        None => None,
    };
    let availability = if error.is_some() { MetadataAvailability::Partial } else { MetadataAvailability::Complete };
    let mut facets: Vec<MetadataFacetStatus> = Vec::new();
    facets.push(facet("vectorIndexes", availability, error));
    ViewParts { availability, facets, notices: Vec::new(), payload: SchemaViewPayload::Vector { metadata } }
}

fn digit_text(d: u64) -> (r: &'static str)
    requires
        d < 10,
    ensures
        r@ == seq![digit_char(d as nat)],
{
    proof {
        reveal_strlit("0"); reveal_strlit("1"); reveal_strlit("2"); reveal_strlit("3"); reveal_strlit("4");
        reveal_strlit("5"); reveal_strlit("6"); reveal_strlit("7"); reveal_strlit("8"); reveal_strlit("9");
    }
    let r = match d {
        0 => "0", 1 => "1", 2 => "2", 3 => "3", 4 => "4",
        5 => "5", 6 => "6", 7 => "7", 8 => "8", _ => "9",
    };
    assert(r@ =~= seq![digit_char(d as nat)]);
    r
}

/// Appends the decimal digits of `n`.
pub fn append_decimal(out: &mut String, n: u64)
    ensures
        final(out)@ == old(out)@ + decimal(n as nat),
    decreases n,
{
    if n < 10 {
        out.append(digit_text(n));
    } else {
        append_decimal(out, n / 10);
        out.append(digit_text(n % 10));
        assert(old(out)@ + decimal((n / 10) as nat) + seq![digit_char((n % 10) as nat)]
            =~= old(out)@ + decimal(n as nat));
    }
}

/// The message of a failed ChironDB metadata request.
pub open spec fn composite_failure(status: u16) -> Seq<char> {
    "ChironDB metadata request failed (HTTP "@ + decimal(status as nat) + ")"@
}

/// The view of ChironDB's composite metadata: complete when the request
/// succeeded (an HTTP status from 200 to 299), an error naming the status
/// otherwise.
pub fn composite_view(status: u16, body: JsonValue) -> (r: Result<ViewParts, String>)
    ensures
        200 <= status < 300 ==> (r matches Ok(p) && p.availability == MetadataAvailability::Complete
            && p.facets@.len() == 0 && p.notices@.len() == 0 && p.payload == (SchemaViewPayload::Composite { metadata: body })),
        !(200 <= status < 300) ==> (r matches Err(e) && e@ == composite_failure(status)),
{
    if 200 <= status && status < 300 {
        Ok(ViewParts {
            availability: MetadataAvailability::Complete,
            facets: Vec::new(),
            notices: Vec::new(),
            payload: SchemaViewPayload::Composite { metadata: body },
        })
    } else {
        let mut e = String::from_str("ChironDB metadata request failed (HTTP ");
        append_decimal(&mut e, status as u64);
        e.append(")");
        Err(e)
    }
}

/// The view of a key-value store's key listing (Redis, etcd): complete, no
/// facets.
pub fn key_value_view(metadata: JsonValue) -> (r: ViewParts)
    ensures
        r.availability == MetadataAvailability::Complete,
        r.facets@.len() == 0,
        r.notices@.len() == 0,
        r.payload == (SchemaViewPayload::KeyValue { metadata }),
{
    ViewParts { availability: MetadataAvailability::Complete, facets: Vec::new(), notices: Vec::new(), payload: SchemaViewPayload::KeyValue { metadata } }
}

/// 1 for a present level, 0 for an absent one.
pub open spec fn present(o: Option<String>) -> nat {
    if o is Some { 1 } else { 0 }
}

/// The number of levels a scope names.
pub open spec fn present_levels(s: SchemaViewScope) -> nat {
    present(s.catalog) + present(s.database) + present(s.schema) + present(s.object) + present(s.object_kind)
}

/// The JSON form of a scope: its present levels, each once, by transport
/// name.
pub open spec fn scope_json(s: SchemaViewScope, v: JsonValue) -> bool {
    v matches JsonValue::Object(f) && f@.len() == present_levels(s) && {
        let present = |name: Seq<char>, o: Option<String>| match o {
            Some(x) => exists|i: int| 0 <= i < f@.len() && (#[trigger] f@[i]).0@ == name && is_text(f@[i].1, x@),
            None => forall|i: int| 0 <= i < f@.len() ==> (#[trigger] f@[i]).0@ != name,
        };
        &&& present("catalog"@, s.catalog)
        &&& present("database"@, s.database)
        &&& present("object"@, s.object)
        &&& present("objectKind"@, s.object_kind)
        &&& present("schema"@, s.schema)
        &&& forall|i: int| 0 <= i < f@.len() ==> {
            let n = (#[trigger] f@[i]).0@;
            n == "catalog"@ || n == "database"@ || n == "object"@ || n == "objectKind"@ || n == "schema"@
        }
    }
}

fn push_level(f: &mut Vec<(String, JsonValue)>, name: &str, o: &Option<String>)
    ensures
        match o {
            Some(x) => final(f)@.len() == old(f)@.len() + 1 && final(f)@.last().0@ == name@
                && is_text(final(f)@.last().1, x@),
            None => final(f)@ == old(f)@,
        },
        forall|i: int| 0 <= i < old(f)@.len() ==> #[trigger] final(f)@[i] == old(f)@[i],
{
    match o {
        Some(x) => {
            f.push((String::from_str(name), JsonValue::Str(x.clone())));
        },
        None => {},
    }
}

proof fn lemma_distinct_level_names()
    ensures
        "catalog"@ != "database"@, "catalog"@ != "object"@, "catalog"@ != "objectKind"@, "catalog"@ != "schema"@,
        "database"@ != "object"@, "database"@ != "objectKind"@, "database"@ != "schema"@,
        "object"@ != "objectKind"@, "object"@ != "schema"@, "objectKind"@ != "schema"@,
{
    reveal_strlit("catalog");
    reveal_strlit("database");
    reveal_strlit("object");
    reveal_strlit("objectKind");
    reveal_strlit("schema");
    assert("catalog"@[0] != "database"@[0]);
    assert("catalog"@[0] != "object"@[0]);
    assert("catalog"@[0] != "objectKind"@[0]);
    assert("catalog"@[0] != "schema"@[0]);
    assert("database"@[0] != "object"@[0]);
    assert("database"@[0] != "objectKind"@[0]);
    assert("database"@[0] != "schema"@[0]);
    assert("object"@.len() != "objectKind"@.len());
    assert("object"@[0] != "schema"@[0]);
    assert("objectKind"@[0] != "schema"@[0]);
}

/// The JSON form of a scope.
pub fn scope_to_json(s: &SchemaViewScope) -> (r: JsonValue)
    ensures
        scope_json(*s, r),
{
    proof {
        lemma_distinct_level_names();
    }
    let mut f: Vec<(String, JsonValue)> = Vec::new();
    push_level(&mut f, "catalog", &s.catalog);
    let ghost f1 = f@;
    push_level(&mut f, "database", &s.database);
    let ghost f2 = f@;
    push_level(&mut f, "object", &s.object);
    let ghost f3 = f@;
    push_level(&mut f, "objectKind", &s.object_kind);
    let ghost f4 = f@;
    push_level(&mut f, "schema", &s.schema);
    proof {
        // each entry stays where it was pushed
        assert(forall|i: int| 0 <= i < f4.len() ==> f@[i] == f4[i]);
        assert(forall|i: int| 0 <= i < f3.len() ==> f@[i] == f3[i]);
        assert(forall|i: int| 0 <= i < f2.len() ==> f@[i] == f2[i]);
        assert(forall|i: int| 0 <= i < f1.len() ==> f@[i] == f1[i]);
    }
    JsonValue::Object(f)
}

/// The notice of a key-value store whose protocol exposes no schema.
pub open spec fn unexposed_notice() -> Seq<char> {
    "The active key-value protocol does not expose additional schema metadata for this scope."@
}

/// The view of a key-value store whose protocol exposes no schema: not
/// exposed, with the scope as its only metadata.
pub fn key_value_unexposed_view(scope: &SchemaViewScope) -> (r: ViewParts)
    ensures
        r.availability == MetadataAvailability::NotExposed,
        r.facets@.len() == 0,
        texts(r.notices@) == seq![unexposed_notice()],
        r.payload matches SchemaViewPayload::KeyValue { metadata: JsonValue::Object(f) }
            && f@.len() == 1 && f@[0].0@ == "scope"@ && scope_json(*scope, f@[0].1),
{
    let mut notices: Vec<String> = Vec::new();
    notices.push(String::from_str("The active key-value protocol does not expose additional schema metadata for this scope."));
    assert(texts(notices@) =~= seq![unexposed_notice()]);
    let mut f: Vec<(String, JsonValue)> = Vec::new();
    f.push((String::from_str("scope"), scope_to_json(scope)));
    ViewParts {
        availability: MetadataAvailability::NotExposed,
        facets: Vec::new(),
        notices,
        payload: SchemaViewPayload::KeyValue { metadata: JsonValue::Object(f) },
    }
}

/// The notice of a service view.
pub open spec fn service_notice() -> Seq<char> {
    "Only protocol metadata is displayed. Message payloads, configuration bodies, secrets, and registry values are never read."@
}

/// The view of a service's protocol metadata: complete, no facets, with the
/// notice that no payload or value is read.
pub fn service_view(metadata: JsonValue) -> (r: ViewParts)
    ensures
        r.availability == MetadataAvailability::Complete,
        r.facets@.len() == 0,
        texts(r.notices@) == seq![service_notice()],
        r.payload == (SchemaViewPayload::Service { metadata }),
{
    let mut notices: Vec<String> = Vec::new();
    notices.push(String::from_str("Only protocol metadata is displayed. Message payloads, configuration bodies, secrets, and registry values are never read."));
    assert(texts(notices@) =~= seq![service_notice()]);
    ViewParts { availability: MetadataAvailability::Complete, facets: Vec::new(), notices, payload: SchemaViewPayload::Service { metadata } }
}

/// The namespaces (identifier and record) a Nacos view keeps: the one the
/// scope's database names, or all of them.
pub open spec fn kept_namespaces(namespaces: Seq<(String, JsonValue)>, scope: SchemaViewScope) -> Seq<(String, JsonValue)> {
    match scope.database {
        Some(d) => namespaces.filter(|p: (String, JsonValue)| p.0@ == d@),
        None => namespaces,
    }
}

/// The records of a list of (identifier, record) pairs.
pub open spec fn records(pairs: Seq<(String, JsonValue)>) -> Seq<JsonValue> {
    pairs.map_values(|p: (String, JsonValue)| p.1)
}

/// Nacos metadata: the records of the kept namespaces.
pub fn nacos_metadata(namespaces: Vec<(String, JsonValue)>, scope: &SchemaViewScope) -> (r: JsonValue)
    ensures
        r matches JsonValue::Object(f) && f@.len() == 1 && f@[0].0@ == "namespaces"@
            && (f@[0].1 matches JsonValue::Array(v) && v@ == records(kept_namespaces(namespaces@, *scope))),
{
    let ghost all = namespaces@;
    let n = namespaces.len();
    let mut rest = namespaces;
    let mut out: Vec<JsonValue> = Vec::new();
    let mut i: usize = 0;
    proof {
        reveal_with_fuel(Seq::<_>::filter, 1);
    }
    while rest.len() > 0
        invariant
            n == all.len(),
            i <= all.len(),
            rest@ == all.skip(i as int),
            out@ == records(kept_namespaces(all.take(i as int), *scope)),
        decreases rest@.len(),
    {
        proof {
            reveal_with_fuel(Seq::<_>::filter, 1);
        }
        let (id, record) = rest.remove(0);
        assert((id, record) == all[i as int]);
        assert(all.take(i + 1).drop_last() =~= all.take(i as int));
        let keep = match &scope.database {
            Some(d) => id == *d,
            None => true,
        };
        if keep {
            out.push(record);
        }
        i = i + 1;
        assert(rest@ =~= all.skip(i as int));
        assert(out@ =~= records(kept_namespaces(all.take(i as int), *scope)));
    }
    assert(all.take(i as int) =~= all);
    let mut f: Vec<(String, JsonValue)> = Vec::new();
    f.push((String::from_str("namespaces"), JsonValue::Array(out)));
    JsonValue::Object(f)
}

/// Consul metadata: the scope's datacenter (`null` when unset), the
/// datacenters, the response metadata and the services.
pub fn consul_metadata(datacenter: &Option<String>, datacenters: JsonValue, services: JsonValue, response_metadata: JsonValue) -> (r: JsonValue)
    ensures
        r matches JsonValue::Object(f) && f@.len() == 4
            && f@[0].0@ == "datacenter"@ && match datacenter {
                Some(d) => is_text(f@[0].1, d@),
                None => f@[0].1 is Null,
            }
            && f@[1].0@ == "datacenters"@ && f@[1].1 == datacenters
            && f@[2].0@ == "responseMetadata"@ && f@[2].1 == response_metadata
            && f@[3].0@ == "services"@ && f@[3].1 == services,
{
    let dc = match datacenter {
        Some(d) => JsonValue::Str(d.clone()),
        None => JsonValue::Null,
    };
    let mut f: Vec<(String, JsonValue)> = Vec::new();
    f.push((String::from_str("datacenter"), dc));
    f.push((String::from_str("datacenters"), datacenters));
    f.push((String::from_str("responseMetadata"), response_metadata));
    f.push((String::from_str("services"), services));
    JsonValue::Object(f)
}

/// Message-queue metadata: the cluster, and the listed topics (none when no
/// namespace was listed).
pub fn message_queue_metadata(cluster: JsonValue, topics: Option<JsonValue>) -> (r: JsonValue)
    ensures
        r matches JsonValue::Object(f) && f@.len() == 2
            && f@[0].0@ == "cluster"@ && f@[0].1 == cluster
            && f@[1].0@ == "topics"@ && match topics {
                Some(t) => f@[1].1 == t,
                None => f@[1].1 matches JsonValue::Array(v) && v@.len() == 0,
            },
{
    let t = match topics {
        Some(t) => t,
        None => JsonValue::Array(Vec::new()),
    };
    let mut f: Vec<(String, JsonValue)> = Vec::new();
    f.push((String::from_str("cluster"), cluster));
    f.push((String::from_str("topics"), t));
    JsonValue::Object(f)
}

/// MQTT metadata: the broker and its subscriptions.
pub fn mqtt_metadata(broker: JsonValue, subscriptions: JsonValue) -> (r: JsonValue)
    ensures
        r matches JsonValue::Object(f) && f@.len() == 2
            && f@[0].0@ == "broker"@ && f@[0].1 == broker
            && f@[1].0@ == "subscriptions"@ && f@[1].1 == subscriptions,
{
    let mut f: Vec<(String, JsonValue)> = Vec::new();
    f.push((String::from_str("broker"), broker));
    f.push((String::from_str("subscriptions"), subscriptions));
    JsonValue::Object(f)
}

/// The metadata of any other service: its database type and the scope.
pub fn other_service_metadata(database_type: &str, scope: &SchemaViewScope) -> (r: JsonValue)
    ensures
        r matches JsonValue::Object(f) && f@.len() == 2
            && f@[0].0@ == "databaseType"@ && is_text(f@[0].1, database_type@)
            && f@[1].0@ == "scope"@ && scope_json(*scope, f@[1].1),
{
    let mut f: Vec<(String, JsonValue)> = Vec::new();
    f.push((String::from_str("databaseType"), JsonValue::Str(String::from_str(database_type))));
    f.push((String::from_str("scope"), scope_to_json(scope)));
    JsonValue::Object(f)
}

/// `new` is the key listing `old` with every key's value dropped: each
/// object in its `keys` list that has a `value` member has it `null`.
pub open spec fn values_dropped(old: JsonValue, new: JsonValue) -> bool {
    match old {
        JsonValue::Object(f) => new matches JsonValue::Object(g) && g@.len() == f@.len()
            && forall|i: int| 0 <= i < f@.len() ==> (#[trigger] g@[i]).0 == f@[i].0 && if f@[i].0@ == "keys"@ {
                match f@[i].1 {
                    JsonValue::Array(items) => g@[i].1 matches JsonValue::Array(out) && out@.len() == items@.len()
                        && forall|k: int| 0 <= k < items@.len() ==> value_dropped(#[trigger] items@[k], out@[k]),
                    _ => g@[i].1 == f@[i].1,
                }
            } else {
                g@[i].1 == f@[i].1
            },
        _ => new == old,
    }
}

/// `new` is the key record `old` with its `value` member, if any, `null`.
pub open spec fn value_dropped(old: JsonValue, new: JsonValue) -> bool {
    match old {
        JsonValue::Object(f) => new matches JsonValue::Object(g) && g@.len() == f@.len()
            && forall|i: int| 0 <= i < f@.len() ==> (#[trigger] g@[i]).0 == f@[i].0
                && g@[i].1 == (if f@[i].0@ == "value"@ { JsonValue::Null } else { f@[i].1 }),
        _ => new == old,
    }
}

fn drop_value(item: JsonValue) -> (r: JsonValue)
    ensures
        value_dropped(item, r),
{
    match item {
        JsonValue::Object(fields) => {
            let ghost all = fields@;
            let n = fields.len();
            let mut rest = fields;
            let mut out: Vec<(String, JsonValue)> = Vec::new();
            let mut i: usize = 0;
            while rest.len() > 0
                invariant
                    n == all.len(),
                    i <= all.len(),
                    rest@ == all.skip(i as int),
                    out@.len() == i,
                    forall|j: int| 0 <= j < i ==> (#[trigger] out@[j]).0 == all[j].0
                        && out@[j].1 == (if all[j].0@ == "value"@ { JsonValue::Null } else { all[j].1 }),
                decreases rest@.len(),
            {
                let (k, v) = rest.remove(0);
                assert((k, v) == all[i as int]);
                let is_value = str_eq(k.as_str(), "value");
                if is_value {
                    out.push((k, JsonValue::Null));
                } else {
                    out.push((k, v));
                }
                i = i + 1;
                assert(rest@ =~= all.skip(i as int));
            }
            JsonValue::Object(out)
        },
        other => other,
    }
}

/// A key listing without the keys' values: a Schema View never returns
/// key-value values, even from an engine that sent them.
pub fn without_key_values(page: JsonValue) -> (r: JsonValue)
    ensures
        values_dropped(page, r),
{
    match page {
        JsonValue::Object(fields) => {
            let ghost all = fields@;
            let n = fields.len();
            let mut rest = fields;
            let mut out: Vec<(String, JsonValue)> = Vec::new();
            let mut i: usize = 0;
            while rest.len() > 0
                invariant
                    n == all.len(),
                    i <= all.len(),
                    rest@ == all.skip(i as int),
                    out@.len() == i,
                    forall|j: int| 0 <= j < i ==> (#[trigger] out@[j]).0 == all[j].0 && if all[j].0@ == "keys"@ {
                        match all[j].1 {
                            JsonValue::Array(items) => out@[j].1 matches JsonValue::Array(o) && o@.len() == items@.len()
                                && forall|k: int| 0 <= k < items@.len() ==> value_dropped(#[trigger] items@[k], o@[k]),
                            _ => out@[j].1 == all[j].1,
                        }
                    } else {
                        out@[j].1 == all[j].1
                    },
                decreases rest@.len(),
            {
                let (k, v) = rest.remove(0);
                assert((k, v) == all[i as int]);
                let is_keys = str_eq(k.as_str(), "keys");
                if is_keys {
                    match v {
                        JsonValue::Array(items) => {
                            let ghost src = items@;
                            let m = items.len();
                            let mut left = items;
                            let mut done: Vec<JsonValue> = Vec::new();
                            let mut t: usize = 0;
                            while left.len() > 0
                                invariant
                                    m == src.len(),
                                    t <= src.len(),
                                    left@ == src.skip(t as int),
                                    done@.len() == t,
                                    forall|q: int| 0 <= q < t ==> value_dropped(#[trigger] src[q], done@[q]),
                                decreases left@.len(),
                            {
                                let item = left.remove(0);
                                assert(item == src[t as int]);
                                done.push(drop_value(item));
                                t = t + 1;
                                assert(left@ =~= src.skip(t as int));
                            }
                            out.push((k, JsonValue::Array(done)));
                        },
                        other => {
                            out.push((k, other));
                        },
                    }
                } else {
                    out.push((k, v));
                }
                i = i + 1;
                assert(rest@ =~= all.skip(i as int));
            }
            JsonValue::Object(out)
        },
        other => other,
    }
}

/// The request that asks a plugin for a page of scopes.
pub fn plugin_scope_request(parent: &SchemaViewScope, search: Option<&str>, limit: usize, offset: usize) -> (r: JsonValue)
    ensures
        r matches JsonValue::Object(f) && f@.len() == 4
            && f@[0].0@ == "limit"@ && (f@[0].1 matches JsonValue::Number(n) && n@ == decimal(limit as nat))
            && f@[1].0@ == "offset"@ && (f@[1].1 matches JsonValue::Number(n) && n@ == decimal(offset as nat))
            && f@[2].0@ == "parentScope"@ && scope_json(*parent, f@[2].1)
            && f@[3].0@ == "search"@ && match search {
                Some(s) => is_text(f@[3].1, s@),
                None => f@[3].1 is Null,
            },
{
    let mut l = String::new();
    append_decimal(&mut l, limit as u64);
    let mut o = String::new();
    append_decimal(&mut o, offset as u64);
    let s = match search {
        Some(s) => JsonValue::Str(String::from_str(s)),
        None => JsonValue::Null,
    };
    let mut f: Vec<(String, JsonValue)> = Vec::new();
    f.push((String::from_str("limit"), JsonValue::Number(l)));
    f.push((String::from_str("offset"), JsonValue::Number(o)));
    f.push((String::from_str("parentScope"), scope_to_json(parent)));
    f.push((String::from_str("search"), s));
    JsonValue::Object(f)
}

/// The request that asks a plugin for the Schema View of a scope.
pub fn plugin_view_request(scope: &SchemaViewScope) -> (r: JsonValue)
    ensures
        r matches JsonValue::Object(f) && f@.len() == 1 && f@[0].0@ == "scope"@ && scope_json(*scope, f@[0].1),
{
    let mut f: Vec<(String, JsonValue)> = Vec::new();
    f.push((String::from_str("scope"), scope_to_json(scope)));
    JsonValue::Object(f)
}

} // verus!
