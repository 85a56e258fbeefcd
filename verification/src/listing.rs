//! Which scopes lie below a parent scope: the choice of metadata listing for
//! each storage model and engine, and how listed entries become scopes.

use vstd::prelude::*;
use crate::descriptor::{DatabaseType, SchemaViewerDescriptor};
use crate::kind::SchemaViewerKind;
use crate::number::{index_or_zero, parse_index_or_zero};
use crate::scope::{SchemaViewScope, clamp_limit, clamp_page_limit, copy_opt};
use crate::text::str_eq;

verus! {

/// A named item that a metadata listing returned, with its own kind if the
/// listing gives one (only an object's own kind is kept).
#[derive(Debug)]
pub struct ScopeEntry {
    pub name: String,
    pub kind: Option<String>,
}

/// The level at which listed entries sit below their parent.
#[derive(Debug, Clone, Copy, PartialEq, Eq, Structural)]
pub enum ChildLevel {
    /// Each entry is a database.
    Database,
    /// Each entry is a schema of the parent's database.
    Schema,
    /// Each entry is an object of the parent's database.
    Object,
    /// Each entry is an object of the parent's database and schema.
    SchemaObject,
}

/// The metadata listing that supplies the entries.
#[derive(Debug, Clone, Copy, PartialEq, Eq, Structural)]
pub enum ScopeSource {
    EtcdKeys,
    NacosNamespaces,
    MessageQueueTenants,
    MessageQueueNamespaces,
    DocumentDatabases,
    RedisDatabases,
    Databases,
    Schemas,
    DocumentCollections,
    VectorCollections,
    RedisKeys,
    Tables,
}

/// How the scopes below a parent are obtained.
#[derive(Debug)]
pub enum ScopeListing {
    /// A plugin answers the page itself, asked with this page size.
    Plugin { limit: usize },
    /// The scopes are known without asking the engine.
    Fixed(Vec<SchemaViewScope>),
    /// Entries are listed from `source` with the given arguments; each
    /// becomes a scope at `level`, of kind `label` when one is given.
    Fetch {
        source: ScopeSource,
        level: ChildLevel,
        label: Option<String>,
        database: String,
        schema: String,
        limit: usize,
        redis_db: u32,
    },
}

/// Whether `levels` names the level `name`.
pub open spec fn has_level(levels: Seq<String>, name: Seq<char>) -> bool {
    exists|i: int| 0 <= i < levels.len() && (#[trigger] levels[i])@ == name
}

fn level_listed(levels: &Vec<String>, name: &str) -> (r: bool)
    ensures
        r == has_level(levels@, name@),
{
    let mut i: usize = 0;
    while i < levels.len()
        invariant
            i <= levels@.len(),
            forall|j: int| 0 <= j < i ==> (#[trigger] levels@[j])@ != name@,
        decreases levels@.len() - i,
    {
        if str_eq(levels[i].as_str(), name) {
            return true;
        }
        i = i + 1;
    }
    false
}

/// The text of an optional string, or `default`.
pub open spec fn text_or(o: Option<String>, default: Seq<char>) -> Seq<char> {
    match o {
        Some(s) => s@,
        None => default,
    }
}

fn string_or(o: &Option<String>, default: &str) -> (r: String)
    ensures
        r@ == text_or(*o, default@),
{
    match o {
        Some(s) => s.clone(),
        None => String::from_str(default),
    }
}

/// A scope that names only a database (and perhaps a kind).
pub open spec fn is_database_scope(s: SchemaViewScope, database: Seq<char>, kind: Option<Seq<char>>) -> bool {
    &&& s.catalog is None
    &&& s.database matches Some(d) && d@ == database
    &&& s.schema is None
    &&& s.object is None
    &&& match kind {
        Some(k) => s.object_kind matches Some(x) && x@ == k,
        None => s.object_kind is None,
    }
}

/// `r` is the single scope of a database named `database`.
pub open spec fn single_database(r: ScopeListing, database: Seq<char>, kind: Option<Seq<char>>) -> bool {
    r matches ScopeListing::Fixed(v) && v@.len() == 1 && is_database_scope(v@[0], database, kind)
}

/// `r` lists nothing.
pub open spec fn no_scopes(r: ScopeListing) -> bool {
    r matches ScopeListing::Fixed(v) && v@.len() == 0
}

/// `r` fetches from `source`, placing entries at `level` with kind `label`.
pub open spec fn fetches(r: ScopeListing, source: ScopeSource, level: ChildLevel, label: Option<Seq<char>>) -> bool {
    &&& r matches ScopeListing::Fetch { source: s, level: l, label: lb, .. }
    &&& s == source
    &&& l == level
    &&& match label {
        Some(x) => lb matches Some(y) && y@ == x,
        None => lb is None,
    }
}

/// The arguments of a fetch: database, schema, page size and Redis index.
pub open spec fn fetch_args(r: ScopeListing, database: Seq<char>, schema: Seq<char>, limit: int, redis_db: u32) -> bool {
    r matches ScopeListing::Fetch { database: d, schema: s, limit: l, redis_db: x, .. }
        && d@ == database && s@ == schema && l == limit && x == redis_db
}

/// The listing of scopes below `parent`, as the storage model `kind`, the
/// scope levels, the engine and the build decide it.
pub open spec fn listing_for(
    r: ScopeListing,
    kind: SchemaViewerKind,
    levels: Seq<String>,
    db_type: DatabaseType,
    parent: SchemaViewScope,
    limit: usize,
    config_database: Option<String>,
    message_queue_admin: bool,
) -> bool {
    let database = text_or(parent.database, ""@);
    let schema = text_or(parent.schema, ""@);
    if db_type == DatabaseType::Plugin {
        r matches ScopeListing::Plugin { limit: l } && l == clamp_limit(limit)
    } else if kind == SchemaViewerKind::KeyValue && db_type == DatabaseType::Etcd {
        if parent.database is None {
            single_database(r, "default"@, None)
        } else if parent.object is None {
            fetches(r, ScopeSource::EtcdKeys, ChildLevel::Object, Some("key"@))
                && fetch_args(r, ""@, ""@, clamp_limit(limit), 0)
        } else {
            no_scopes(r)
        }
    } else if kind == SchemaViewerKind::Service {
        if db_type == DatabaseType::Nacos && parent.database is None {
            fetches(r, ScopeSource::NacosNamespaces, ChildLevel::Database, Some("namespace"@))
                && fetch_args(r, ""@, ""@, clamp_limit(limit), 0)
        } else if db_type == DatabaseType::Consul && parent.database is None {
            single_database(r, text_or(config_database, "current catalog"@), Some("catalog"@))
        } else if db_type == DatabaseType::MessageQueue && message_queue_admin && parent.database is None {
            fetches(r, ScopeSource::MessageQueueTenants, ChildLevel::Database, None)
                && fetch_args(r, ""@, ""@, clamp_limit(limit), 0)
        } else if db_type == DatabaseType::MessageQueue && message_queue_admin && parent.object is None {
            fetches(r, ScopeSource::MessageQueueNamespaces, ChildLevel::Object, Some("namespace"@))
                && fetch_args(r, database, ""@, clamp_limit(limit), 0)
        } else if db_type == DatabaseType::Mqtt && parent.database is None {
            single_database(r, "broker"@, None)
        } else if db_type == DatabaseType::ZooKeeper && parent.database is None {
            single_database(r, "/"@, None)
        } else {
            no_scopes(r)
        }
    } else if parent.database is None {
        let source = if kind == SchemaViewerKind::Document {
            ScopeSource::DocumentDatabases
        } else if kind == SchemaViewerKind::KeyValue && db_type == DatabaseType::Redis {
            ScopeSource::RedisDatabases
        } else {
            ScopeSource::Databases
        };
        fetches(r, source, ChildLevel::Database, None) && fetch_args(r, ""@, ""@, clamp_limit(limit), 0)
    } else if has_level(levels, "schema"@) && parent.schema is None {
        fetches(r, ScopeSource::Schemas, ChildLevel::Schema, None)
            && fetch_args(r, database, ""@, clamp_limit(limit), 0)
    } else if has_level(levels, "object"@) && parent.object is None {
        if kind == SchemaViewerKind::Document {
            fetches(r, ScopeSource::DocumentCollections, ChildLevel::Object, None)
                && fetch_args(r, database, ""@, clamp_limit(limit), 0)
        } else if kind == SchemaViewerKind::Vector || kind == SchemaViewerKind::Hybrid {
            fetches(r, ScopeSource::VectorCollections, ChildLevel::Object, Some("collection"@))
                && fetch_args(r, database, ""@, clamp_limit(limit), 0)
        } else if kind == SchemaViewerKind::KeyValue && db_type == DatabaseType::Redis {
            fetches(r, ScopeSource::RedisKeys, ChildLevel::Object, None)
                && fetch_args(r, database, ""@, clamp_limit(limit), index_or_zero(database))
        } else {
            fetches(r, ScopeSource::Tables, ChildLevel::SchemaObject, None)
                && fetch_args(r, database, schema, clamp_limit(limit), 0)
        }
    } else {
        no_scopes(r)
    }
}

/// Law: on a store whose scope levels include schemas (and that is not a
/// plugin, an etcd key space or a service), a parent naming a database but
/// no schema lists that database's schemas, whatever other levels are
/// declared: the schema level is never skipped on the way to objects.
pub proof fn lemma_database_parent_lists_its_schemas(
    r: ScopeListing,
    kind: SchemaViewerKind,
    levels: Seq<String>,
    db_type: DatabaseType,
    parent: SchemaViewScope,
    limit: usize,
    config_database: Option<String>,
    message_queue_admin: bool,
)
    requires
        listing_for(r, kind, levels, db_type, parent, limit, config_database, message_queue_admin),
        db_type != DatabaseType::Plugin,
        !(kind == SchemaViewerKind::KeyValue && db_type == DatabaseType::Etcd),
        kind != SchemaViewerKind::Service,
        parent.database is Some,
        parent.schema is None,
        exists|i: int| 0 <= i < levels.len() && (#[trigger] levels[i])@ == "schema"@,
    ensures
        r matches ScopeListing::Fetch { source, level, label, database, schema, limit: l, redis_db } && {
            &&& source == ScopeSource::Schemas
            &&& level == ChildLevel::Schema
            &&& label is None
            &&& database@ == parent.database.unwrap()@
            &&& schema@ == Seq::<char>::empty()
            &&& 1 <= l <= 500
            &&& (1 <= limit <= 500 ==> l == limit)
        },
{
    reveal_strlit("");
    assert(has_level(levels, "schema"@));
}

/// Law: below the root of a store (not a plugin, an etcd key space or a
/// service) the databases are listed: the engine's databases, a document
/// store's databases, or a Redis server's numbered databases.
pub proof fn lemma_root_lists_databases(
    r: ScopeListing,
    kind: SchemaViewerKind,
    levels: Seq<String>,
    db_type: DatabaseType,
    parent: SchemaViewScope,
    limit: usize,
    config_database: Option<String>,
    message_queue_admin: bool,
)
    requires
        listing_for(r, kind, levels, db_type, parent, limit, config_database, message_queue_admin),
        db_type != DatabaseType::Plugin,
        !(kind == SchemaViewerKind::KeyValue && db_type == DatabaseType::Etcd),
        kind != SchemaViewerKind::Service,
        parent.database is None,
    ensures
        r matches ScopeListing::Fetch { source, level, label, database, schema, limit: l, redis_db } && {
            &&& level == ChildLevel::Database
            &&& label is None
            &&& database@ == Seq::<char>::empty()
            &&& schema@ == Seq::<char>::empty()
            &&& 1 <= l <= 500
            &&& kind == SchemaViewerKind::Document ==> source == ScopeSource::DocumentDatabases
            &&& (kind == SchemaViewerKind::KeyValue && db_type == DatabaseType::Redis) ==> source == ScopeSource::RedisDatabases
            &&& (kind != SchemaViewerKind::Document && !(kind == SchemaViewerKind::KeyValue && db_type == DatabaseType::Redis))
                ==> source == ScopeSource::Databases
        },
{
    reveal_strlit("");
}

/// Law: once a store's parent names its database (and its schema, where
/// the store has schemas), the objects of that database are listed: a
/// document store's collections, a vector or hybrid store's collections, a
/// Redis database's keys (in the database numbered by the parent), and
/// otherwise the tables of the parent's schema.
pub proof fn lemma_database_parent_lists_its_objects(
    r: ScopeListing,
    kind: SchemaViewerKind,
    levels: Seq<String>,
    db_type: DatabaseType,
    parent: SchemaViewScope,
    limit: usize,
    config_database: Option<String>,
    message_queue_admin: bool,
)
    requires
        listing_for(r, kind, levels, db_type, parent, limit, config_database, message_queue_admin),
        db_type != DatabaseType::Plugin,
        !(kind == SchemaViewerKind::KeyValue && db_type == DatabaseType::Etcd),
        kind != SchemaViewerKind::Service,
        parent.database is Some,
        parent.schema is Some || !has_level(levels, "schema"@),
        has_level(levels, "object"@),
        parent.object is None,
    ensures
        r matches ScopeListing::Fetch { source, level, label, database, schema, limit: l, redis_db } && {
            &&& database@ == parent.database.unwrap()@
            &&& 1 <= l <= 500
            &&& kind == SchemaViewerKind::Document ==> source == ScopeSource::DocumentCollections && level == ChildLevel::Object
            &&& (kind == SchemaViewerKind::Vector || kind == SchemaViewerKind::Hybrid) ==> source == ScopeSource::VectorCollections
                && level == ChildLevel::Object && (label matches Some(x) && x@ == "collection"@)
            &&& (kind == SchemaViewerKind::KeyValue && db_type == DatabaseType::Redis) ==> source == ScopeSource::RedisKeys
                && level == ChildLevel::Object && redis_db == index_or_zero(parent.database.unwrap()@)
            &&& source == ScopeSource::Tables ==> level == ChildLevel::SchemaObject && match parent.schema {
                Some(x) => schema@ == x@,
                None => schema@ == Seq::<char>::empty(),
            }
            &&& !(kind == SchemaViewerKind::Document || kind == SchemaViewerKind::Vector || kind == SchemaViewerKind::Hybrid
                || (kind == SchemaViewerKind::KeyValue && db_type == DatabaseType::Redis)) ==> source == ScopeSource::Tables
        },
{
    reveal_strlit("");
}

fn database_scope(database: String, kind: Option<String>) -> (r: SchemaViewScope)
    ensures
        is_database_scope(r, database@, match kind { Some(k) => Some(k@), None => None }),
{
    SchemaViewScope { catalog: None, database: Some(database), schema: None, object: None, object_kind: kind }
}

fn single(s: SchemaViewScope) -> (r: ScopeListing)
    ensures
        r matches ScopeListing::Fixed(v) && v@ == seq![s],
{
    let mut v: Vec<SchemaViewScope> = Vec::new();
    v.push(s);
    assert(v@ =~= seq![s]);
    ScopeListing::Fixed(v)
}

fn nothing() -> (r: ScopeListing)
    ensures
        no_scopes(r),
{
    ScopeListing::Fixed(Vec::new())
}

fn fetch(source: ScopeSource, level: ChildLevel, label: Option<&str>, database: &str, schema: &str, limit: usize, redis_db: u32) -> (r: ScopeListing)
    ensures
        fetches(r, source, level, match label { Some(l) => Some(l@), None => None }),
        fetch_args(r, database@, schema@, limit as int, redis_db),
{
    let label = match label {
        Some(l) => Some(String::from_str(l)),
        None => None,
    };
    ScopeListing::Fetch {
        source,
        level,
        label,
        database: String::from_str(database),
        schema: String::from_str(schema),
        limit,
        redis_db,
    }
}

/// Decides how the scopes below `parent` are listed. `message_queue_admin`
/// says whether message-queue administration is built in.
pub fn plan_scope_listing(
    descriptor: &SchemaViewerDescriptor,
    db_type: DatabaseType,
    parent: &SchemaViewScope,
    limit: usize,
    config_database: &Option<String>,
    message_queue_admin: bool,
) -> (r: ScopeListing)
    ensures
        listing_for(r, descriptor.kind, descriptor.scope_levels@, db_type, *parent, limit,
            *config_database, message_queue_admin),
{
    let size = clamp_page_limit(limit);
    let kind = descriptor.kind;
    let database = string_or(&parent.database, "");
    let schema = string_or(&parent.schema, "");
    if db_type == DatabaseType::Plugin {
        return ScopeListing::Plugin { limit: size };
    }
    if kind == SchemaViewerKind::KeyValue && db_type == DatabaseType::Etcd {
        if parent.database.is_none() {
            return single(database_scope(String::from_str("default"), None));
        } else if parent.object.is_none() {
            return fetch(ScopeSource::EtcdKeys, ChildLevel::Object, Some("key"), "", "", size, 0);
        } else {
            return nothing();
        }
    }
    if kind == SchemaViewerKind::Service {
        if db_type == DatabaseType::Nacos && parent.database.is_none() {
            return fetch(ScopeSource::NacosNamespaces, ChildLevel::Database, Some("namespace"), "", "", size, 0);
        } else if db_type == DatabaseType::Consul && parent.database.is_none() {
            let name = string_or(config_database, "current catalog");
            return single(database_scope(name, Some(String::from_str("catalog"))));
        } else if db_type == DatabaseType::MessageQueue && message_queue_admin && parent.database.is_none() {
            return fetch(ScopeSource::MessageQueueTenants, ChildLevel::Database, None, "", "", size, 0);
        } else if db_type == DatabaseType::MessageQueue && message_queue_admin && parent.object.is_none() {
            return fetch(ScopeSource::MessageQueueNamespaces, ChildLevel::Object, Some("namespace"), database.as_str(), "", size, 0);
        } else if db_type == DatabaseType::Mqtt && parent.database.is_none() {
            return single(database_scope(String::from_str("broker"), None));
        } else if db_type == DatabaseType::ZooKeeper && parent.database.is_none() {
            return single(database_scope(String::from_str("/"), None));
        } else {
            return nothing();
        }
    }
    if parent.database.is_none() {
        let source = if kind == SchemaViewerKind::Document {
            ScopeSource::DocumentDatabases
        } else if kind == SchemaViewerKind::KeyValue && db_type == DatabaseType::Redis {
            ScopeSource::RedisDatabases
        } else {
            ScopeSource::Databases
        };
        return fetch(source, ChildLevel::Database, None, "", "", size, 0);
    }
    if level_listed(&descriptor.scope_levels, "schema") && parent.schema.is_none() {
        return fetch(ScopeSource::Schemas, ChildLevel::Schema, None, database.as_str(), "", size, 0);
    }
    if level_listed(&descriptor.scope_levels, "object") && parent.object.is_none() {
        if kind == SchemaViewerKind::Document {
            return fetch(ScopeSource::DocumentCollections, ChildLevel::Object, None, database.as_str(), "", size, 0);
        } else if kind == SchemaViewerKind::Vector || kind == SchemaViewerKind::Hybrid {
            return fetch(ScopeSource::VectorCollections, ChildLevel::Object, Some("collection"), database.as_str(), "", size, 0);
        } else if kind == SchemaViewerKind::KeyValue && db_type == DatabaseType::Redis {
            let db = parse_index_or_zero(database.as_str());
            return fetch(ScopeSource::RedisKeys, ChildLevel::Object, None, database.as_str(), "", size, db);
        } else {
            return fetch(ScopeSource::Tables, ChildLevel::SchemaObject, None, database.as_str(), schema.as_str(), size, 0);
        }
    }
    nothing()
}

/// The scope an entry becomes at `level` below `parent`. A database or a
/// schema carries the label as its kind (nothing when there is none); an
/// object carries the label, or else the entry's own kind.
pub open spec fn child_scope(parent: SchemaViewScope, level: ChildLevel, label: Option<String>, e: ScopeEntry) -> SchemaViewScope {
    let object_kind = match label {
        Some(l) => Some(l),
        None => e.kind,
    };
    match level {
        ChildLevel::Database => SchemaViewScope {
            catalog: None, database: Some(e.name), schema: None, object: None, object_kind: label,
        },
        ChildLevel::Schema => SchemaViewScope {
            catalog: None, database: parent.database, schema: Some(e.name), object: None, object_kind: label,
        },
        ChildLevel::Object => SchemaViewScope {
            catalog: None, database: parent.database, schema: None, object: Some(e.name), object_kind,
        },
        ChildLevel::SchemaObject => SchemaViewScope {
            catalog: None, database: parent.database, schema: parent.schema, object: Some(e.name), object_kind,
        },
    }
}

/// Whether a failed listing from `source` falls back to the configured
/// database instead of failing.
pub open spec fn falls_back(source: ScopeSource) -> bool {
    source == ScopeSource::DocumentDatabases || source == ScopeSource::RedisDatabases
        || source == ScopeSource::Databases
}

/// The names a database listing falls back to: the configured database, if any.
pub open spec fn fallback_names(config_database: Option<String>) -> Seq<String> {
    match config_database {
        Some(d) => seq![d],
        None => Seq::empty(),
    }
}

fn child(parent: &SchemaViewScope, level: ChildLevel, label: &Option<String>, e: &ScopeEntry) -> (r: SchemaViewScope)
    ensures
        r == child_scope(*parent, level, *label, *e),
{
    let kind = match label {
        Some(l) => Some(l.clone()),
        None => copy_opt(&e.kind),
    };
    let name = e.name.clone();
    match level {
        ChildLevel::Database => SchemaViewScope {
            catalog: None, database: Some(name), schema: None, object: None, object_kind: copy_opt(label),
        },
        ChildLevel::Schema => SchemaViewScope {
            catalog: None, database: copy_opt(&parent.database), schema: Some(name), object: None, object_kind: copy_opt(label),
        },
        ChildLevel::Object => SchemaViewScope {
            catalog: None, database: copy_opt(&parent.database), schema: None, object: Some(name), object_kind: kind,
        },
        ChildLevel::SchemaObject => SchemaViewScope {
            catalog: None,
            database: copy_opt(&parent.database),
            schema: copy_opt(&parent.schema),
            object: Some(name),
            object_kind: kind,
        },
    }
}

/// The scopes the entries become at `level` below `parent`, in order.
pub fn child_scopes(parent: &SchemaViewScope, level: ChildLevel, label: &Option<String>, entries: &Vec<ScopeEntry>) -> (r: Vec<SchemaViewScope>)
    ensures
        r@.len() == entries@.len(),
        forall|i: int| 0 <= i < entries@.len() ==> #[trigger] r@[i] == child_scope(*parent, level, *label, entries@[i]),
{
    let mut r: Vec<SchemaViewScope> = Vec::new();
    let mut i: usize = 0;
    while i < entries.len()
        invariant
            i <= entries@.len(),
            r@.len() == i,
            forall|j: int| 0 <= j < i ==> #[trigger] r@[j] == child_scope(*parent, level, *label, entries@[j]),
        decreases entries@.len() - i,
    {
        r.push(child(parent, level, label, &entries[i]));
        i = i + 1;
    }
    r
}

/// The scopes a listing yields once its entries were fetched (`fetched` is
/// not read for a fixed listing). A failed database listing falls back to
/// the configured database; any other failure is the error.
pub fn listed_scopes(
    parent: &SchemaViewScope,
    listing: ScopeListing,
    fetched: Result<Vec<ScopeEntry>, String>,
    config_database: &Option<String>,
) -> (r: Result<Vec<SchemaViewScope>, String>)
    requires
        !(listing is Plugin),
    ensures
        match listing {
            ScopeListing::Fixed(v) => r == Ok::<Vec<SchemaViewScope>, String>(v),
            ScopeListing::Fetch { source, level, label, .. } => match fetched {
                Ok(entries) => r matches Ok(v) && v@.len() == entries@.len()
                    && forall|i: int| 0 <= i < entries@.len() ==> #[trigger] v@[i] == child_scope(*parent, level, label, entries@[i]),
                Err(e) => if falls_back(source) {
                    r matches Ok(v) && v@.len() == fallback_names(*config_database).len()
                        && forall|i: int| 0 <= i < v@.len() ==> #[trigger] v@[i] == child_scope(*parent, level, label,
                            ScopeEntry { name: fallback_names(*config_database)[i], kind: None })
                } else {
                    r == Err::<Vec<SchemaViewScope>, String>(e)
                },
            },
            ScopeListing::Plugin { .. } => false,
        },
{
    match listing {
        ScopeListing::Fixed(v) => Ok(v),
        ScopeListing::Fetch { source, level, label, .. } => {
            let entries = match fetched {
                Ok(entries) => entries,
                Err(e) => {
                    if source == ScopeSource::DocumentDatabases || source == ScopeSource::RedisDatabases
                        || source == ScopeSource::Databases {
                        let mut fallback: Vec<ScopeEntry> = Vec::new();
                        match config_database {
                            Some(d) => fallback.push(ScopeEntry { name: d.clone(), kind: None }),
                            None => {},
                        }
                        let r = child_scopes(parent, level, &label, &fallback);
                        return Ok(r);
                    } else {
                        return Err(e);
                    }
                },
            };
            Ok(child_scopes(parent, level, &label, &entries))
        },
        ScopeListing::Plugin { .. } => Ok(Vec::new()),
    }
}

} // verus!

verus! {

/// Law: the scopes listed below a parent stay inside it. Below a database
/// they keep its database, below a schema its schema, and each names its
/// entry at its own level. A listed database or schema has the listing's
/// label as its kind; a listed object the label, or else its own kind.
pub proof fn lemma_children_stay_below(parent: SchemaViewScope, level: ChildLevel, label: Option<String>, e: ScopeEntry)
    ensures
        ({
            let c = child_scope(parent, level, label, e);
            &&& level == ChildLevel::Database ==> c.database == Some(e.name) && c.schema is None && c.object is None
            &&& level == ChildLevel::Schema ==> c.database == parent.database && c.schema == Some(e.name) && c.object is None
            &&& level == ChildLevel::Object ==> c.database == parent.database && c.object == Some(e.name)
            &&& level == ChildLevel::SchemaObject ==> c.database == parent.database && c.schema == parent.schema
                && c.object == Some(e.name)
            &&& c.catalog is None
            &&& (level == ChildLevel::Database || level == ChildLevel::Schema) ==> c.object_kind == label
            &&& (level == ChildLevel::Object || level == ChildLevel::SchemaObject) ==> c.object_kind == match label {
                Some(l) => Some(l),
                None => e.kind,
            }
        }),
{
}

/// Law: a scope that names its database, schema and object is a leaf: no
/// built-in engine lists anything below it.
pub proof fn lemma_object_scope_is_leaf(
    r: ScopeListing,
    kind: SchemaViewerKind,
    levels: Seq<String>,
    db_type: DatabaseType,
    parent: SchemaViewScope,
    limit: usize,
    config_database: Option<String>,
    message_queue_admin: bool,
)
    requires
        db_type != DatabaseType::Plugin,
        parent.database is Some,
        parent.schema is Some,
        parent.object is Some,
        listing_for(r, kind, levels, db_type, parent, limit, config_database, message_queue_admin),
    ensures
        no_scopes(r),
{
}

} // verus!
