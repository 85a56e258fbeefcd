//! What a connection's Schema Viewer offers: the descriptor, from the
//! registered manifest entry or from a plugin's runtime declaration.

use vstd::prelude::*;
use crate::kind::{SchemaViewerKind, kind_named, unknown_kind_message};

verus! {

/// The engines whose Schema Viewer handling differs from the registered
/// default; every other engine is `Other`.
#[derive(Debug, Clone, Copy, PartialEq, Eq, Structural)]
pub enum DatabaseType {
    Plugin,
    Jdbc,
    Etcd,
    Redis,
    Nacos,
    Consul,
    MessageQueue,
    Mqtt,
    ZooKeeper,
    DynamoDb,
    Elasticsearch,
    Easysearch,
    Meilisearch,
    MongoDb,
    Other,
}

/// The Schema Viewer a connection offers.
#[derive(Debug, Clone, PartialEq, Eq)]
pub struct SchemaViewerDescriptor {
    pub supported: bool,
    pub kind: SchemaViewerKind,
    pub provider: String,
    pub scope_levels: Vec<String>,
    pub reason: Option<String>,
}

/// The Schema Viewer part of a registered database type's manifest entry.
#[derive(Debug)]
pub struct ManifestSchemaViewer {
    pub kind: String,
    pub provider: String,
    pub scope_levels: Vec<String>,
}

/// The Schema Viewer contract a plugin declares in its manifest.
#[derive(Debug)]
pub struct PluginSchemaViewer {
    pub kind: String,
    pub scope_levels: Vec<String>,
}

/// The characters of each string.
pub open spec fn string_views(v: Seq<String>) -> Seq<Seq<char>> {
    v.map_values(|s: String| s@)
}

/// A copy of a list of strings.
pub fn copy_strings(v: &Vec<String>) -> (r: Vec<String>)
    ensures
        r@ == v@,
{
    let mut r: Vec<String> = Vec::new();
    let mut i: usize = 0;
    while i < v.len()
        invariant
            i <= v@.len(),
            r@ == v@.subrange(0, i as int),
        decreases v@.len() - i,
    {
        r.push(v[i].clone());
        i = i + 1;
        assert(r@ =~= v@.subrange(0, i as int));
    }
    assert(r@ =~= v@);
    r
}

/// Two lists of strings hold the same texts in the same order.
pub fn strings_eq(a: &Vec<String>, b: &Vec<String>) -> (r: bool)
    ensures
        r == (string_views(a@) == string_views(b@)),
{
    if a.len() != b.len() {
        assert(string_views(a@).len() != string_views(b@).len());
        return false;
    }
    let mut i: usize = 0;
    while i < a.len()
        invariant
            a@.len() == b@.len(),
            i <= a@.len(),
            forall|j: int| 0 <= j < i ==> a@[j]@ == b@[j]@,
        decreases a@.len() - i,
    {
        if a[i] != b[i] {
            assert(string_views(a@)[i as int] != string_views(b@)[i as int]);
            return false;
        }
        i = i + 1;
    }
    assert(string_views(a@) =~= string_views(b@));
    true
}

/// The message of a connection whose database type has no manifest entry.
pub open spec fn unregistered_message() -> Seq<char> {
    "Database type is not registered"@
}

/// The provider name of the generic JDBC metadata reader.
pub open spec fn jdbc_provider() -> Seq<char> {
    "jdbc-database-metadata"@
}

/// The reason given when a plugin declares no Schema Viewer.
pub open spec fn plugin_without_viewer_reason() -> Seq<char> {
    "The installed plugin provider does not declare Schema Viewer support."@
}

/// The message of a plugin whose runtime descriptor contradicts its manifest.
pub open spec fn plugin_mismatch_message() -> Seq<char> {
    "Plugin Schema Viewer runtime descriptor does not match its manifest declaration"@
}

/// The message when a Schema Viewer is unsupported and gives no reason.
pub open spec fn unsupported_message() -> Seq<char> {
    "Schema Viewer is not supported"@
}

/// The first step of describing a connection's Schema Viewer.
#[derive(Debug)]
pub enum DescribeStep {
    /// The descriptor, or the error that ends the description.
    Finished(Result<SchemaViewerDescriptor, String>),
    /// A plugin connection: its declared contract must be asked for.
    AskPlugin,
}

/// Describes the Schema Viewer of a connection of type `db_type` whose
/// manifest entry is `entry`; plugin connections are left to the plugin.
pub fn describe_schema_viewer(db_type: DatabaseType, entry: Option<&ManifestSchemaViewer>) -> (r: DescribeStep)
    ensures
        match entry {
            None => r matches DescribeStep::Finished(Err(e)) && e@ == unregistered_message(),
            Some(m) => if db_type == DatabaseType::Plugin {
                r is AskPlugin
            } else if db_type == DatabaseType::Jdbc {
                r matches DescribeStep::Finished(Ok(d)) && d.supported && d.kind == SchemaViewerKind::Relational
                    && d.provider@ == jdbc_provider() && d.scope_levels@ == m.scope_levels@ && d.reason is None
            } else {
                match kind_named(m.kind@) {
                    Some(k) => r matches DescribeStep::Finished(Ok(d)) && d.supported && d.kind == k
                        && d.provider == m.provider && d.scope_levels@ == m.scope_levels@ && d.reason is None,
                    None => r matches DescribeStep::Finished(Err(e)) && e@ == unknown_kind_message(m.kind@),
                }
            },
        },
{
    match entry {
        None => DescribeStep::Finished(Err(String::from_str("Database type is not registered"))),
        Some(m) => {
            if db_type == DatabaseType::Plugin {
                DescribeStep::AskPlugin
            } else if db_type == DatabaseType::Jdbc {
                DescribeStep::Finished(Ok(SchemaViewerDescriptor {
                    supported: true,
                    kind: SchemaViewerKind::Relational,
                    provider: String::from_str("jdbc-database-metadata"),
                    scope_levels: copy_strings(&m.scope_levels),
                    reason: None,
                }))
            } else {
                match SchemaViewerKind::parse(m.kind.as_str()) {
                    Ok(k) => DescribeStep::Finished(Ok(SchemaViewerDescriptor {
                        supported: true,
                        kind: k,
                        provider: m.provider.clone(),
                        scope_levels: copy_strings(&m.scope_levels),
                        reason: None,
                    })),
                    Err(e) => DescribeStep::Finished(Err(e)),
                }
            }
        },
    }
}

/// The descriptor of a plugin connection whose plugin declares no Schema
/// Viewer: unsupported, with the registered provider and scope levels.
pub fn plugin_without_viewer(entry: &ManifestSchemaViewer) -> (d: SchemaViewerDescriptor)
    ensures
        !d.supported,
        d.kind == SchemaViewerKind::Dynamic,
        d.provider == entry.provider,
        d.scope_levels@ == entry.scope_levels@,
        d.reason matches Some(s) && s@ == plugin_without_viewer_reason(),
{
    SchemaViewerDescriptor {
        supported: false,
        kind: SchemaViewerKind::Dynamic,
        provider: entry.provider.clone(),
        scope_levels: copy_strings(&entry.scope_levels),
        reason: Some(String::from_str("The installed plugin provider does not declare Schema Viewer support.")),
    }
}

/// Holds a plugin's runtime descriptor to its manifest declaration: a
/// supported runtime descriptor must repeat the declared kind and scope
/// levels. An unknown declared kind is an error first.
pub fn check_plugin_descriptor(runtime: SchemaViewerDescriptor, declared: &PluginSchemaViewer) -> (r: Result<SchemaViewerDescriptor, String>)
    ensures
        match kind_named(declared.kind@) {
            None => r matches Err(e) && e@ == unknown_kind_message(declared.kind@),
            Some(k) => if runtime.supported && (runtime.kind != k
                || string_views(runtime.scope_levels@) != string_views(declared.scope_levels@)) {
                r matches Err(e) && e@ == plugin_mismatch_message()
            } else {
                r == Ok::<SchemaViewerDescriptor, String>(runtime)
            },
        },
{
    let declared_kind = match SchemaViewerKind::parse(declared.kind.as_str()) {
        Ok(k) => k,
        Err(e) => return Err(e),
    };
    if runtime.supported && (runtime.kind != declared_kind || !strings_eq(&runtime.scope_levels, &declared.scope_levels)) {
        return Err(String::from_str("Plugin Schema Viewer runtime descriptor does not match its manifest declaration"));
    }
    Ok(runtime)
}

/// A Schema Viewer must be supported before anything is listed or shown;
/// otherwise its reason (or a generic message) is the error.
pub fn require_supported(descriptor: &SchemaViewerDescriptor) -> (r: Result<(), String>)
    ensures
        descriptor.supported <==> r is Ok,
        !descriptor.supported ==> match descriptor.reason {
            Some(reason) => r matches Err(e) && e == reason,
            None => r matches Err(e) && e@ == unsupported_message(),
        },
{
    if descriptor.supported {
        Ok(())
    } else {
        match &descriptor.reason {
            Some(reason) => Err(reason.clone()),
            None => Err(String::from_str("Schema Viewer is not supported")),
        }
    }
}

} // verus!
