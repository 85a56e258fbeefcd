//! The Schema View of one scope: which metadata a storage model reads, and
//! how availability, facets and notices follow from what was read.

use vstd::prelude::*;
use crate::descriptor::DatabaseType;
use crate::facets::{MetadataFacetStatus, SchemaViewTable, has_partial_facet, named_partial, overall_availability, partial_unless_complete};
use crate::json::JsonValue;
use crate::kind::{MetadataAvailability, SchemaViewerKind};
use crate::listing::text_or;
use crate::number::{digits_value, index_or_zero, parse_index_or_zero};
use crate::scope::{SchemaViewScope, copy_opt};

verus! {

/// The metadata a Schema View carries, by storage model.
#[derive(Debug)]
pub enum SchemaViewPayload {
    Relational { tables: Vec<SchemaViewTable> },
    Document { metadata: JsonValue },
    Graph { nodes: Vec<JsonValue>, edges: Vec<JsonValue>, metadata: JsonValue },
    Composite { metadata: JsonValue },
    Vector { metadata: JsonValue },
    Timeseries { tables: Vec<SchemaViewTable> },
    WideColumn { tables: Vec<SchemaViewTable> },
    KeyValue { metadata: JsonValue },
    Service { metadata: JsonValue },
}

/// The Schema View of a scope.
#[derive(Debug)]
pub struct SchemaViewResponse {
    pub version: u32,
    pub kind: SchemaViewerKind,
    pub scope: SchemaViewScope,
    pub availability: MetadataAvailability,
    pub facets: Vec<MetadataFacetStatus>,
    pub notices: Vec<String>,
    pub payload: SchemaViewPayload,
}

/// What a storage model's reading yields: overall availability, facets,
/// notices and payload.
#[derive(Debug)]
pub struct ViewParts {
    pub availability: MetadataAvailability,
    pub facets: Vec<MetadataFacetStatus>,
    pub notices: Vec<String>,
    pub payload: SchemaViewPayload,
}

/// Where a document store's declared metadata is read.
#[derive(Debug, Clone, Copy, PartialEq, Eq, Structural)]
pub enum DocumentSource {
    /// The DynamoDB table description.
    DynamoDb,
    /// The Elasticsearch (or Easysearch) mapping, settings and aliases.
    Elasticsearch,
    /// The Meilisearch index settings.
    Meilisearch,
    /// The MongoDB collection's declared validator and search indexes.
    MongoDb,
    /// Nothing is declared.
    Undeclared,
}

/// What a service registry or broker exposes as protocol metadata.
#[derive(Debug)]
pub enum ServicePlan {
    /// The Nacos namespaces, kept to the scope's namespace if it names one.
    Nacos,
    /// The Consul catalog: datacenters and services.
    Consul,
    /// The message-queue cluster, and the topics of a tenant's namespace
    /// when the scope names both.
    MessageQueue { topics_of: Option<(String, String)> },
    /// The MQTT broker and its subscriptions.
    Mqtt,
    /// The ZooKeeper nodes below a path, without their values.
    ZooKeeper { prefix: String },
    /// Only the database type and the scope.
    Other,
}

/// The metadata read for a Schema View.
#[derive(Debug)]
pub enum ViewPlan {
    /// Tables with columns, indexes and foreign keys.
    Tables,
    /// The declared metadata of a collection or index.
    Document { object: String, scope_database: Option<String>, source: DocumentSource },
    /// The detail of a vector collection.
    Vector { database: String, object: String },
    /// ChironDB's composite metadata of a collection.
    Composite { object: String },
    /// The first keys of a Redis database.
    RedisKeys { db_index: u32 },
    /// The keys of etcd below a prefix, without their values.
    EtcdKeys { prefix: String },
    /// The graph metagraph of a Neo4j database.
    Graph { database: String },
    /// A key-value store whose protocol exposes no schema.
    KeyValueUnexposed,
    /// Protocol metadata of a service.
    Service(ServicePlan),
}

/// The message when a document view has no collection or index to show.
pub open spec fn select_collection_or_index() -> Seq<char> {
    "Select a collection or index"@
}

/// The message when a vector or composite view has no collection to show.
pub open spec fn select_collection() -> Seq<char> {
    "Select a collection"@
}

/// The message when no concrete payload kind was negotiated.
pub open spec fn dynamic_kind_message() -> Seq<char> {
    "The runtime provider did not negotiate a concrete Schema Viewer payload kind"@
}

/// The message when message-queue administration is not built in.
pub open spec fn message_queue_missing() -> Seq<char> {
    "Message queue metadata support is not compiled in this build"@
}

/// The message when MQTT support is not built in.
pub open spec fn mqtt_missing() -> Seq<char> {
    "MQTT support is not compiled in this build"@
}

/// `r` is an error with the given text.
pub open spec fn fails_with<T>(r: Result<T, String>, message: Seq<char>) -> bool {
    r matches Err(e) && e@ == message
}

/// The document source of an engine.
pub open spec fn document_source(db_type: DatabaseType) -> DocumentSource {
    if db_type == DatabaseType::DynamoDb {
        DocumentSource::DynamoDb
    } else if db_type == DatabaseType::Elasticsearch || db_type == DatabaseType::Easysearch {
        DocumentSource::Elasticsearch
    } else if db_type == DatabaseType::Meilisearch {
        DocumentSource::Meilisearch
    } else if db_type == DatabaseType::MongoDb {
        DocumentSource::MongoDb
    } else {
        DocumentSource::Undeclared
    }
}

/// The metadata plan of a service engine, or the error of a service that is
/// not built in.
pub open spec fn service_plan_for(r: Result<ViewPlan, String>, db_type: DatabaseType, scope: SchemaViewScope, message_queue_admin: bool) -> bool {
    if db_type == DatabaseType::Nacos {
        r matches Ok(ViewPlan::Service(ServicePlan::Nacos))
    } else if db_type == DatabaseType::Consul {
        r matches Ok(ViewPlan::Service(ServicePlan::Consul))
    } else if db_type == DatabaseType::MessageQueue {
        if message_queue_admin {
            r matches Ok(ViewPlan::Service(ServicePlan::MessageQueue { topics_of })) && match (scope.database, scope.object) {
                (Some(t), Some(n)) => topics_of == Some((t, n)),
                _ => topics_of is None,
            }
        } else {
            fails_with(r, message_queue_missing())
        }
    } else if db_type == DatabaseType::Mqtt {
        if message_queue_admin {
            r matches Ok(ViewPlan::Service(ServicePlan::Mqtt))
        } else {
            fails_with(r, mqtt_missing())
        }
    } else if db_type == DatabaseType::ZooKeeper {
        r matches Ok(ViewPlan::Service(ServicePlan::ZooKeeper { prefix })) && prefix@ == text_or(scope.object, "/"@)
    } else {
        r matches Ok(ViewPlan::Service(ServicePlan::Other))
    }
}

/// The metadata that the Schema View of `scope` reads, for storage model
/// `kind` on an engine of type `db_type`.
pub open spec fn view_plan_for(r: Result<ViewPlan, String>, kind: SchemaViewerKind, db_type: DatabaseType, scope: SchemaViewScope, message_queue_admin: bool) -> bool {
    match kind {
        SchemaViewerKind::Relational | SchemaViewerKind::Timeseries | SchemaViewerKind::WideColumn => r matches Ok(ViewPlan::Tables),
        SchemaViewerKind::Document => match scope.object {
            None => fails_with(r, select_collection_or_index()),
            Some(o) => r matches Ok(ViewPlan::Document { object, scope_database, source })
                && object == o && scope_database == scope.database && source == document_source(db_type),
        },
        SchemaViewerKind::Vector => match scope.object {
            None => fails_with(r, select_collection()),
            Some(o) => r matches Ok(ViewPlan::Vector { database, object })
                && object == o && database@ == text_or(scope.database, ""@),
        },
        SchemaViewerKind::Hybrid => match scope.object {
            None => fails_with(r, select_collection()),
            Some(o) => r matches Ok(ViewPlan::Composite { object }) && object == o,
        },
        SchemaViewerKind::KeyValue => if db_type == DatabaseType::Redis {
            r matches Ok(ViewPlan::RedisKeys { db_index }) && db_index == index_or_zero(text_or(scope.database, "0"@))
        } else if db_type == DatabaseType::Etcd {
            r matches Ok(ViewPlan::EtcdKeys { prefix }) && prefix@ == text_or(scope.object, ""@)
        } else {
            r matches Ok(ViewPlan::KeyValueUnexposed)
        },
        SchemaViewerKind::Graph => r matches Ok(ViewPlan::Graph { database }) && database@ == text_or(scope.database, ""@),
        SchemaViewerKind::Service => service_plan_for(r, db_type, scope, message_queue_admin),
        SchemaViewerKind::Dynamic => fails_with(r, dynamic_kind_message()),
    }
}

fn text_or_default(o: &Option<String>, default: &str) -> (r: String)
    ensures
        r@ == text_or(*o, default@),
{
    match o {
        Some(s) => s.clone(),
        None => String::from_str(default),
    }
}

/// Decides the metadata that the Schema View of `scope` reads.
pub fn plan_schema_view(kind: SchemaViewerKind, db_type: DatabaseType, scope: &SchemaViewScope, message_queue_admin: bool) -> (r: Result<ViewPlan, String>)
    ensures
        view_plan_for(r, kind, db_type, *scope, message_queue_admin),
{
    match kind {
        SchemaViewerKind::Relational | SchemaViewerKind::Timeseries | SchemaViewerKind::WideColumn => Ok(ViewPlan::Tables),
        SchemaViewerKind::Document => match &scope.object {
            None => Err(String::from_str("Select a collection or index")),
            Some(o) => {
                let source = if db_type == DatabaseType::DynamoDb {
                    DocumentSource::DynamoDb
                } else if db_type == DatabaseType::Elasticsearch || db_type == DatabaseType::Easysearch {
                    DocumentSource::Elasticsearch
                } else if db_type == DatabaseType::Meilisearch {
                    DocumentSource::Meilisearch
                } else if db_type == DatabaseType::MongoDb {
                    DocumentSource::MongoDb
                } else {
                    DocumentSource::Undeclared
                };
                Ok(ViewPlan::Document { object: o.clone(), scope_database: copy_opt(&scope.database), source })
            },
        },
        SchemaViewerKind::Vector => match &scope.object {
            None => Err(String::from_str("Select a collection")),
            Some(o) => Ok(ViewPlan::Vector { database: text_or_default(&scope.database, ""), object: o.clone() }),
        },
        SchemaViewerKind::Hybrid => match &scope.object {
            None => Err(String::from_str("Select a collection")),
            Some(o) => Ok(ViewPlan::Composite { object: o.clone() }),
        },
        SchemaViewerKind::KeyValue => {
            if db_type == DatabaseType::Redis {
                let text = text_or_default(&scope.database, "0");
                Ok(ViewPlan::RedisKeys { db_index: parse_index_or_zero(text.as_str()) })
            } else if db_type == DatabaseType::Etcd {
                Ok(ViewPlan::EtcdKeys { prefix: text_or_default(&scope.object, "") })
            } else {
                Ok(ViewPlan::KeyValueUnexposed)
            }
        },
        SchemaViewerKind::Graph => Ok(ViewPlan::Graph { database: text_or_default(&scope.database, "") }),
        SchemaViewerKind::Service => {
            if db_type == DatabaseType::Nacos {
                Ok(ViewPlan::Service(ServicePlan::Nacos))
            } else if db_type == DatabaseType::Consul {
                Ok(ViewPlan::Service(ServicePlan::Consul))
            } else if db_type == DatabaseType::MessageQueue {
                if message_queue_admin {
                    let topics_of = match (&scope.database, &scope.object) {
                        (Some(t), Some(n)) => Some((t.clone(), n.clone())),
                        _ => None,
                    };
                    Ok(ViewPlan::Service(ServicePlan::MessageQueue { topics_of }))
                } else {
                    Err(String::from_str("Message queue metadata support is not compiled in this build"))
                }
            } else if db_type == DatabaseType::Mqtt {
                if message_queue_admin {
                    Ok(ViewPlan::Service(ServicePlan::Mqtt))
                } else {
                    Err(String::from_str("MQTT support is not compiled in this build"))
                }
            } else if db_type == DatabaseType::ZooKeeper {
                Ok(ViewPlan::Service(ServicePlan::ZooKeeper { prefix: text_or_default(&scope.object, "/") }))
            } else {
                Ok(ViewPlan::Service(ServicePlan::Other))
            }
        },
        SchemaViewerKind::Dynamic => Err(String::from_str("The runtime provider did not negotiate a concrete Schema Viewer payload kind")),
    }
}

/// Law: a graph view reads the metagraph of the scope's database: the plan
/// names exactly the database the scope names, and the empty name (the
/// session's default database) only when the scope names none.
pub proof fn lemma_graph_view_reads_scope_database(r: Result<ViewPlan, String>, db_type: DatabaseType, scope: SchemaViewScope, message_queue_admin: bool)
    requires
        view_plan_for(r, SchemaViewerKind::Graph, db_type, scope, message_queue_admin),
    ensures
        r matches Ok(ViewPlan::Graph { database }) && match scope.database {
            Some(d) => database@ == d@,
            None => database@ == Seq::<char>::empty(),
        },
{
    reveal_strlit("");
}

/// Law: a document view of a collection or index reads the metadata its
/// engine declares: Elasticsearch and Easysearch their mapping, settings
/// and aliases, MongoDB its validator and search indexes, DynamoDB its table
/// description, Meilisearch its index settings; only other engines read
/// nothing declared. Without a collection or index there is nothing to read.
pub proof fn lemma_document_view_reads_declared_metadata(r: Result<ViewPlan, String>, db_type: DatabaseType, scope: SchemaViewScope, message_queue_admin: bool)
    requires
        view_plan_for(r, SchemaViewerKind::Document, db_type, scope, message_queue_admin),
    ensures
        scope.object is None ==> r is Err,
        scope.object matches Some(o) ==> (r matches Ok(ViewPlan::Document { object, scope_database, source }) && {
            &&& object == o
            &&& scope_database == scope.database
            &&& (db_type == DatabaseType::Elasticsearch || db_type == DatabaseType::Easysearch) ==> source == DocumentSource::Elasticsearch
            &&& db_type == DatabaseType::MongoDb ==> source == DocumentSource::MongoDb
            &&& db_type == DatabaseType::DynamoDb ==> source == DocumentSource::DynamoDb
            &&& db_type == DatabaseType::Meilisearch ==> source == DocumentSource::Meilisearch
            &&& source == DocumentSource::Undeclared <==> !(db_type == DatabaseType::Elasticsearch || db_type == DatabaseType::Easysearch
                || db_type == DatabaseType::MongoDb || db_type == DatabaseType::DynamoDb || db_type == DatabaseType::Meilisearch)
        }),
{
}

/// Law: the views of a single collection read that collection: a vector
/// view reads the scope's object in the scope's database, a hybrid view
/// reads ChironDB's composite metadata of the scope's object; without an
/// object there is nothing to read.
pub proof fn lemma_collection_views_read_scope_object(r: Result<ViewPlan, String>, kind: SchemaViewerKind, db_type: DatabaseType, scope: SchemaViewScope, message_queue_admin: bool)
    requires
        kind == SchemaViewerKind::Vector || kind == SchemaViewerKind::Hybrid,
        view_plan_for(r, kind, db_type, scope, message_queue_admin),
    ensures
        scope.object is None ==> r is Err,
        (kind == SchemaViewerKind::Vector && scope.object is Some) ==> (r matches Ok(ViewPlan::Vector { database, object })
            && object == scope.object.unwrap() && match scope.database {
                Some(d) => database@ == d@,
                None => database@ == Seq::<char>::empty(),
            }),
        (kind == SchemaViewerKind::Hybrid && scope.object is Some) ==> (r matches Ok(ViewPlan::Composite { object })
            && object == scope.object.unwrap()),
{
    reveal_strlit("");
}

/// Law: key listings read where the scope points: a Redis view reads the
/// database numbered by the scope's database (0 when it names none), an
/// etcd view the keys below the scope's object (all keys when it names
/// none), a ZooKeeper view the nodes below the scope's object (the root
/// when it names none); other key-value stores expose nothing more, and
/// table-based models read tables.
pub proof fn lemma_key_and_table_views_read_scope(r: Result<ViewPlan, String>, kind: SchemaViewerKind, db_type: DatabaseType, scope: SchemaViewScope, message_queue_admin: bool)
    requires
        view_plan_for(r, kind, db_type, scope, message_queue_admin),
    ensures
        (kind == SchemaViewerKind::KeyValue && db_type == DatabaseType::Redis) ==> (r matches Ok(ViewPlan::RedisKeys { db_index })
            && match scope.database {
                Some(d) => db_index == index_or_zero(d@),
                None => db_index == 0,
            }),
        (kind == SchemaViewerKind::KeyValue && db_type == DatabaseType::Etcd) ==> (r matches Ok(ViewPlan::EtcdKeys { prefix })
            && match scope.object {
                Some(o) => prefix@ == o@,
                None => prefix@ == Seq::<char>::empty(),
            }),
        (kind == SchemaViewerKind::KeyValue && db_type != DatabaseType::Redis && db_type != DatabaseType::Etcd)
            ==> r matches Ok(ViewPlan::KeyValueUnexposed),
        (kind == SchemaViewerKind::Service && db_type == DatabaseType::ZooKeeper) ==> (r matches Ok(ViewPlan::Service(ServicePlan::ZooKeeper { prefix }))
            && match scope.object {
                Some(o) => prefix@ == o@,
                None => prefix@ == seq!['/'],
            }),
        (kind == SchemaViewerKind::Relational || kind == SchemaViewerKind::Timeseries || kind == SchemaViewerKind::WideColumn)
            ==> r matches Ok(ViewPlan::Tables),
{
    reveal_strlit("");
    reveal_strlit("/");
    reveal_strlit("0");
    let zero = "0"@;
    assert(zero.len() == 1 && zero.last() == '0');
    assert(zero.drop_last() =~= Seq::<char>::empty());
    assert(digits_value(zero.drop_last()) == 0);
    assert(digits_value(zero) == 0);
    assert(index_or_zero(zero) == 0);
}

/// How many keys a plan that lists keys reads: the first 200 keys of a
/// Redis database, up to 500 keys below an etcd prefix or nodes below a
/// ZooKeeper path; `None` for a plan that lists no keys.
pub fn key_page_limit(plan: &ViewPlan) -> (r: Option<usize>)
    ensures
        r == match *plan {
            ViewPlan::RedisKeys { .. } => Some(200usize),
            ViewPlan::EtcdKeys { .. } => Some(500usize),
            ViewPlan::Service(ServicePlan::ZooKeeper { .. }) => Some(500usize),
            _ => None::<usize>,
        },
{
    match plan {
        ViewPlan::RedisKeys { .. } => Some(200),
        ViewPlan::EtcdKeys { .. } => Some(500),
        ViewPlan::Service(ServicePlan::ZooKeeper { .. }) => Some(500),
        _ => None,
    }
}

/// The notice of a relational view without complete foreign keys.
pub open spec fn foreign_key_notice() -> Seq<char> {
    "Tables and columns are shown, but this driver did not expose complete foreign-key metadata; the ERD may omit relationships."@
}

/// The notice of a relational view without complete indexes.
pub open spec fn index_notice() -> Seq<char> {
    "Index metadata is unavailable or incomplete for this scope."@
}

/// The notices of a relational view: the foreign-key notice when the
/// foreign-key facet is partial, then the index notice when the index facet
/// is.
pub open spec fn relational_notices(facets: Seq<MetadataFacetStatus>) -> Seq<Seq<char>> {
    let fk: Seq<Seq<char>> = if named_partial(facets, "foreignKeys"@) { seq![foreign_key_notice()] } else { Seq::empty() };
    let ix: Seq<Seq<char>> = if named_partial(facets, "indexes"@) { seq![index_notice()] } else { Seq::empty() };
    fk + ix
}

/// The texts of a list of strings.
pub open spec fn texts(v: Seq<String>) -> Seq<Seq<char>> {
    v.map_values(|s: String| s@)
}

/// The view of a table-based storage model (relational, time-series, wide
/// column): partial when any facet is, with the relational notices for a
/// relational store.
pub fn tables_view(kind: SchemaViewerKind, tables: Vec<SchemaViewTable>, facets: Vec<MetadataFacetStatus>) -> (r: ViewParts)
    requires
        kind == SchemaViewerKind::Relational || kind == SchemaViewerKind::Timeseries || kind == SchemaViewerKind::WideColumn,
    ensures
        r.availability == partial_unless_complete(facets@),
        r.facets@ == facets@,
        kind == SchemaViewerKind::Relational ==> texts(r.notices@) == relational_notices(facets@)
            && r.payload == (SchemaViewPayload::Relational { tables }),
        kind == SchemaViewerKind::Timeseries ==> r.notices@.len() == 0
            && r.payload == (SchemaViewPayload::Timeseries { tables }),
        kind == SchemaViewerKind::WideColumn ==> r.notices@.len() == 0
            && r.payload == (SchemaViewPayload::WideColumn { tables }),
{
    let availability = overall_availability(&facets);
    let mut notices: Vec<String> = Vec::new();
    if kind == SchemaViewerKind::Relational {
        if has_partial_facet(&facets, "foreignKeys") {
            notices.push(String::from_str("Tables and columns are shown, but this driver did not expose complete foreign-key metadata; the ERD may omit relationships."));
        }
        if has_partial_facet(&facets, "indexes") {
            notices.push(String::from_str("Index metadata is unavailable or incomplete for this scope."));
        }
        assert(texts(notices@) =~= relational_notices(facets@));
        ViewParts { availability, facets, notices, payload: SchemaViewPayload::Relational { tables } }
    } else if kind == SchemaViewerKind::Timeseries {
        ViewParts { availability, facets, notices, payload: SchemaViewPayload::Timeseries { tables } }
    } else {
        ViewParts { availability, facets, notices, payload: SchemaViewPayload::WideColumn { tables } }
    }
}

/// The message of a plugin response that breaks the negotiated contract.
pub open spec fn response_mismatch_message() -> Seq<char> {
    "Plugin Schema Viewer response does not match the negotiated contract"@
}

/// Holds a plugin's Schema View to the negotiated contract: version 1 and
/// the kind the descriptor announced.
pub fn check_plugin_response(response: SchemaViewResponse, negotiated: SchemaViewerKind) -> (r: Result<SchemaViewResponse, String>)
    ensures
        if response.version != 1 || response.kind != negotiated {
            fails_with(r, response_mismatch_message())
        } else {
            r == Ok::<SchemaViewResponse, String>(response)
        },
{
    if response.version != 1 || response.kind != negotiated {
        Err(String::from_str("Plugin Schema Viewer response does not match the negotiated contract"))
    } else {
        Ok(response)
    }
}

/// The Schema View of `scope`: version 1, the negotiated kind, and what the
/// storage model's reading yielded.
pub fn schema_view_response(kind: SchemaViewerKind, scope: SchemaViewScope, parts: ViewParts) -> (r: SchemaViewResponse)
    ensures
        r.version == 1,
        r.kind == kind,
        r.scope == scope,
        r.availability == parts.availability,
        r.facets == parts.facets,
        r.notices == parts.notices,
        r.payload == parts.payload,
{
    let ViewParts { availability, facets, notices, payload } = parts;
    SchemaViewResponse { version: 1, kind, scope, availability, facets, notices, payload }
}

} // verus!
