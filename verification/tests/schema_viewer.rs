use schema_viewer::descriptor::{
    check_plugin_descriptor, describe_schema_viewer, plugin_without_viewer, require_supported, DescribeStep,
    ManifestSchemaViewer, PluginSchemaViewer,
};
use schema_viewer::facets::{
    begin_table_facets, record_facet, start_table_load, table_facets, tables_in_scope, TableFacet, TableFacetErrors,
};
use schema_viewer::graph::{
    graph_view, label_nodes, native_query, native_query_count, normalize_neo4j_schema_visualization, record_native,
    record_relationship_types, record_topology, relationship_type_edges, start_graph_load, GraphReply,
};
use schema_viewer::listing::{listed_scopes, plan_scope_listing, ChildLevel, ScopeEntry, ScopeListing, ScopeSource};
use schema_viewer::number::parse_index_or_zero;
use schema_viewer::scope::{page_scopes, trim};
use schema_viewer::stores::{
    composite_view, consul_metadata, document_declared, document_view, elasticsearch_metadata, key_value_unexposed_view,
    nacos_metadata, other_service_metadata, plugin_scope_request, scope_to_json, vector_view, without_key_values,
};
use schema_viewer::view::{
    check_plugin_response, key_page_limit, plan_schema_view, schema_view_response, tables_view, DocumentSource,
    ServicePlan, ViewPlan,
};
use schema_viewer::{
    metadata_failure_is_fatal, DatabaseType, JsonValue, MetadataAvailability, MetadataFacetStatus, SchemaViewPayload,
    SchemaViewResponse, SchemaViewScope, SchemaViewTable, SchemaViewerDescriptor, SchemaViewerKind, TableInfo,
};

fn json(v: &serde_json::Value) -> JsonValue {
    match v {
        serde_json::Value::Null => JsonValue::Null,
        serde_json::Value::Bool(b) => JsonValue::Bool(*b),
        serde_json::Value::Number(n) => JsonValue::Number(n.to_string()),
        serde_json::Value::String(s) => JsonValue::Str(s.clone()),
        serde_json::Value::Array(items) => JsonValue::Array(items.iter().map(json).collect()),
        serde_json::Value::Object(map) => JsonValue::Object(map.iter().map(|(k, v)| (k.clone(), json(v))).collect()),
    }
}

fn parse(text: &str) -> JsonValue {
    json(&serde_json::from_str::<serde_json::Value>(text).unwrap())
}

fn text(v: &JsonValue) -> &str {
    match v {
        JsonValue::Str(s) => s.as_str(),
        other => panic!("not a string: {other:?}"),
    }
}

fn items(v: &JsonValue) -> &Vec<JsonValue> {
    match v {
        JsonValue::Array(items) => items,
        other => panic!("not a list: {other:?}"),
    }
}

fn scope(database: Option<&str>, schema: Option<&str>, object: Option<&str>) -> SchemaViewScope {
    SchemaViewScope {
        catalog: None,
        database: database.map(str::to_string),
        schema: schema.map(str::to_string),
        object: object.map(str::to_string),
        object_kind: None,
    }
}

fn descriptor(kind: SchemaViewerKind, levels: &[&str]) -> SchemaViewerDescriptor {
    SchemaViewerDescriptor {
        supported: true,
        kind,
        provider: "native".to_string(),
        scope_levels: levels.iter().map(|l| l.to_string()).collect(),
        reason: None,
    }
}

fn facet_of(name: &str, availability: MetadataAvailability) -> MetadataFacetStatus {
    MetadataFacetStatus { name: name.to_string(), availability, error: None }
}

#[test]
fn permission_and_transport_failures_are_not_downgraded_to_partial_metadata() {
    for error in [
        "permission denied for relation pg_indexes",
        "not authorized to execute metadata command",
        "connection refused",
        "request timed out",
    ] {
        assert!(metadata_failure_is_fatal(error), "{error}");
    }
    assert!(!metadata_failure_is_fatal("indexes are not supported by this driver"));
}

#[test]
fn fatal_failures_ignore_case_and_context() {
    assert!(metadata_failure_is_fatal("ERROR: Permission Denied"));
    assert!(metadata_failure_is_fatal("upstream said: 403 FORBIDDEN (retry later)"));
    assert!(metadata_failure_is_fatal("Broken Pipe"));
    assert!(!metadata_failure_is_fatal(""));
    assert!(!metadata_failure_is_fatal("column type is unknown"));
}

#[test]
fn neo4j_schema_visualization_preserves_native_node_edge_topology() {
    let nodes_text = r#"[{"elementId":"n1","labels":["Person"],"properties":{"name":"String"}},{"elementId":"n2","labels":["Company"],"properties":{}}]"#;
    let edges_text = r#"[{"elementId":"r1","startElementId":"n1","endElementId":"n2","type":"WORKS_AT","properties":{}}]"#;
    let rows = vec![vec![JsonValue::Str(nodes_text.to_string()), JsonValue::Str(edges_text.to_string())]];
    let (nodes, edges) = normalize_neo4j_schema_visualization(rows).unwrap();
    assert_eq!(text(nodes[0].get("label").unwrap()), "Person");
    let properties = items(nodes[0].get("properties").unwrap());
    assert_eq!(properties.len(), 1);
    assert_eq!(text(&properties[0]), "name");
    assert_eq!(text(edges[0].get("source").unwrap()), "n1");
    assert_eq!(text(edges[0].get("target").unwrap()), "n2");
}

#[test]
fn neo4j_metagraph_drops_incomplete_items_and_reports_malformed_cells() {
    let rows = vec![vec![
        parse(r#"[{"id":"a","labels":["A","B",3]},{"labels":["X"]},5]"#),
        parse(r#"[{"type":"T","start":"a","end":"b"},{"type":"U","start":"a"}]"#),
    ]];
    let (nodes, edges) = normalize_neo4j_schema_visualization(rows).unwrap();
    assert_eq!(nodes.len(), 1);
    assert_eq!(text(nodes[0].get("id").unwrap()), "a");
    assert_eq!(text(nodes[0].get("label").unwrap()), "A:B");
    assert_eq!(items(nodes[0].get("labels").unwrap()).len(), 3);
    assert_eq!(edges.len(), 1);
    assert!(matches!(edges[0].get("properties"), Some(JsonValue::Object(p)) if p.is_empty()));

    let empty: Vec<Vec<JsonValue>> = vec![];
    assert_eq!(
        normalize_neo4j_schema_visualization(empty).unwrap_err(),
        "Neo4j schema visualization returned no metadata"
    );
    let bad = vec![vec![JsonValue::Str("not json".to_string())]];
    assert_eq!(
        normalize_neo4j_schema_visualization(bad).unwrap_err(),
        "Neo4j schema visualization returned malformed nodes"
    );
    let bad_edges = vec![vec![parse("[]"), JsonValue::Bool(true)]];
    assert_eq!(
        normalize_neo4j_schema_visualization(bad_edges).unwrap_err(),
        "Neo4j schema visualization returned malformed relationships"
    );
    let (n, e) = normalize_neo4j_schema_visualization(vec![vec![]]).unwrap();
    assert!(n.is_empty() && e.is_empty());
}

#[test]
fn kind_names_round_trip_and_unknown_names_are_rejected() {
    for kind in [
        SchemaViewerKind::Relational,
        SchemaViewerKind::Document,
        SchemaViewerKind::Graph,
        SchemaViewerKind::Hybrid,
        SchemaViewerKind::Vector,
        SchemaViewerKind::Timeseries,
        SchemaViewerKind::WideColumn,
        SchemaViewerKind::KeyValue,
        SchemaViewerKind::Service,
        SchemaViewerKind::Dynamic,
    ] {
        assert_eq!(SchemaViewerKind::parse(kind.name()), Ok(kind));
    }
    assert_eq!(SchemaViewerKind::parse("wide-column"), Ok(SchemaViewerKind::WideColumn));
    assert_eq!(SchemaViewerKind::parse("WideColumn"), Err("Unknown Schema Viewer kind 'WideColumn'".to_string()));
    assert_eq!(SchemaViewerKind::parse(""), Err("Unknown Schema Viewer kind ''".to_string()));
}

#[test]
fn describe_uses_manifest_jdbc_and_plugin_rules() {
    let entry = ManifestSchemaViewer {
        kind: "document".to_string(),
        provider: "mongo-native".to_string(),
        scope_levels: vec!["database".to_string(), "object".to_string()],
    };
    match describe_schema_viewer(DatabaseType::MongoDb, Some(&entry)) {
        DescribeStep::Finished(Ok(d)) => {
            assert!(d.supported);
            assert_eq!(d.kind, SchemaViewerKind::Document);
            assert_eq!(d.provider, "mongo-native");
            assert_eq!(d.scope_levels, entry.scope_levels);
            assert!(d.reason.is_none());
        }
        other => panic!("{other:?}"),
    }
    match describe_schema_viewer(DatabaseType::Jdbc, Some(&entry)) {
        DescribeStep::Finished(Ok(d)) => {
            assert_eq!(d.kind, SchemaViewerKind::Relational);
            assert_eq!(d.provider, "jdbc-database-metadata");
        }
        other => panic!("{other:?}"),
    }
    assert!(matches!(describe_schema_viewer(DatabaseType::Plugin, Some(&entry)), DescribeStep::AskPlugin));
    match describe_schema_viewer(DatabaseType::Other, None) {
        DescribeStep::Finished(Err(e)) => assert_eq!(e, "Database type is not registered"),
        other => panic!("{other:?}"),
    }
    let broken = ManifestSchemaViewer { kind: "tabular".to_string(), provider: "x".to_string(), scope_levels: vec![] };
    match describe_schema_viewer(DatabaseType::Other, Some(&broken)) {
        DescribeStep::Finished(Err(e)) => assert_eq!(e, "Unknown Schema Viewer kind 'tabular'"),
        other => panic!("{other:?}"),
    }
    let d = plugin_without_viewer(&entry);
    assert!(!d.supported);
    assert_eq!(d.kind, SchemaViewerKind::Dynamic);
    assert_eq!(
        require_supported(&d),
        Err("The installed plugin provider does not declare Schema Viewer support.".to_string())
    );
    let mut no_reason = plugin_without_viewer(&entry);
    no_reason.reason = None;
    assert_eq!(require_supported(&no_reason), Err("Schema Viewer is not supported".to_string()));
}

#[test]
fn plugin_runtime_descriptor_must_match_its_declaration() {
    let declared = PluginSchemaViewer { kind: "graph".to_string(), scope_levels: vec!["database".to_string()] };
    let ok = descriptor(SchemaViewerKind::Graph, &["database"]);
    assert!(check_plugin_descriptor(ok, &declared).is_ok());
    let wrong_kind = descriptor(SchemaViewerKind::Document, &["database"]);
    assert_eq!(
        check_plugin_descriptor(wrong_kind, &declared).unwrap_err(),
        "Plugin Schema Viewer runtime descriptor does not match its manifest declaration"
    );
    let wrong_levels = descriptor(SchemaViewerKind::Graph, &["database", "object"]);
    assert!(check_plugin_descriptor(wrong_levels, &declared).is_err());
    let mut unsupported = descriptor(SchemaViewerKind::Document, &[]);
    unsupported.supported = false;
    assert!(check_plugin_descriptor(unsupported, &declared).is_ok());
    let bad = PluginSchemaViewer { kind: "?".to_string(), scope_levels: vec![] };
    assert_eq!(
        check_plugin_descriptor(descriptor(SchemaViewerKind::Graph, &[]), &bad).unwrap_err(),
        "Unknown Schema Viewer kind '?'"
    );
}

#[test]
fn scope_pages_follow_search_limit_and_offset() {
    let items: Vec<SchemaViewScope> = ["Alpha", "beta", "ALPINE", "gamma", "alps"]
        .iter()
        .map(|n| scope(Some(n), None, None))
        .collect();
    let page = page_scopes(items, Some("  alp "), 2, 0);
    let names: Vec<_> = page.items.iter().map(|s| s.database.clone().unwrap()).collect();
    assert_eq!(names, vec!["Alpha", "ALPINE"]);
    assert_eq!(page.next_offset, Some(2));

    let items: Vec<SchemaViewScope> = ["Alpha", "beta", "ALPINE", "gamma", "alps"]
        .iter()
        .map(|n| scope(Some(n), None, None))
        .collect();
    let page = page_scopes(items, Some("alp"), 2, 2);
    assert_eq!(page.items.len(), 1);
    assert_eq!(page.items[0].database.as_deref(), Some("alps"));
    assert_eq!(page.next_offset, None);

    let items: Vec<SchemaViewScope> = (0..3).map(|i| scope(Some(&i.to_string()), None, None)).collect();
    let page = page_scopes(items, Some("   "), 0, 1);
    assert_eq!(page.items.len(), 1);
    assert_eq!(page.next_offset, Some(2));

    let items: Vec<SchemaViewScope> = (0..3).map(|i| scope(Some(&i.to_string()), None, None)).collect();
    let page = page_scopes(items, None, 10, 7);
    assert!(page.items.is_empty());
    assert_eq!(page.next_offset, None);

    let many: Vec<SchemaViewScope> = (0..600).map(|i| scope(None, None, Some(&i.to_string()))).collect();
    let page = page_scopes(many, None, 10_000, 0);
    assert_eq!(page.items.len(), 500);
    assert_eq!(page.next_offset, Some(500));
}

#[test]
fn search_matches_the_first_present_level_only() {
    let items = vec![scope(Some("db"), None, Some("orders")), scope(None, None, Some("orders"))];
    let page = page_scopes(items, Some("ORDERS"), 50, 0);
    assert_eq!(page.items.len(), 1);
    assert!(page.items[0].database.is_none());
}

#[test]
fn trim_and_index_parsing_follow_std() {
    assert_eq!(trim("\u{3000} a b \t\n"), "a b");
    assert_eq!(trim(" \u{85} "), "");
    assert_eq!(parse_index_or_zero("15"), 15);
    assert_eq!(parse_index_or_zero("+7"), 7);
    assert_eq!(parse_index_or_zero("4294967295"), 4294967295);
    assert_eq!(parse_index_or_zero("4294967296"), 0);
    assert_eq!(parse_index_or_zero("-1"), 0);
    assert_eq!(parse_index_or_zero("+"), 0);
    assert_eq!(parse_index_or_zero(""), 0);
    assert_eq!(parse_index_or_zero("1a"), 0);
}

#[test]
fn scope_listing_plans_follow_the_storage_model() {
    let kv = descriptor(SchemaViewerKind::KeyValue, &["database", "object"]);
    match plan_scope_listing(&kv, DatabaseType::Etcd, &scope(None, None, None), 0, &None, false) {
        ScopeListing::Fixed(v) => {
            assert_eq!(v.len(), 1);
            assert_eq!(v[0].database.as_deref(), Some("default"));
        }
        other => panic!("{other:?}"),
    }
    match plan_scope_listing(&kv, DatabaseType::Etcd, &scope(Some("default"), None, None), 900, &None, false) {
        ScopeListing::Fetch { source, level, label, limit, .. } => {
            assert_eq!(source, ScopeSource::EtcdKeys);
            assert_eq!(level, ChildLevel::Object);
            assert_eq!(label.as_deref(), Some("key"));
            assert_eq!(limit, 500);
        }
        other => panic!("{other:?}"),
    }
    match plan_scope_listing(&kv, DatabaseType::Redis, &scope(Some("3"), None, None), 5, &None, false) {
        ScopeListing::Fetch { source, redis_db, limit, .. } => {
            assert_eq!(source, ScopeSource::RedisKeys);
            assert_eq!(redis_db, 3);
            assert_eq!(limit, 5);
        }
        other => panic!("{other:?}"),
    }
    let service = descriptor(SchemaViewerKind::Service, &["database"]);
    match plan_scope_listing(&service, DatabaseType::Consul, &scope(None, None, None), 5, &None, false) {
        ScopeListing::Fixed(v) => {
            assert_eq!(v[0].database.as_deref(), Some("current catalog"));
            assert_eq!(v[0].object_kind.as_deref(), Some("catalog"));
        }
        other => panic!("{other:?}"),
    }
    match plan_scope_listing(&service, DatabaseType::MessageQueue, &scope(None, None, None), 5, &None, false) {
        ScopeListing::Fixed(v) => assert!(v.is_empty()),
        other => panic!("{other:?}"),
    }
    match plan_scope_listing(&service, DatabaseType::MessageQueue, &scope(Some("t"), None, None), 5, &None, true) {
        ScopeListing::Fetch { source, database, .. } => {
            assert_eq!(source, ScopeSource::MessageQueueNamespaces);
            assert_eq!(database, "t");
        }
        other => panic!("{other:?}"),
    }
    let rel = descriptor(SchemaViewerKind::Relational, &["database", "schema", "object"]);
    match plan_scope_listing(&rel, DatabaseType::Other, &scope(Some("db"), Some("public"), None), 5, &None, false) {
        ScopeListing::Fetch { source, level, database, schema, .. } => {
            assert_eq!(source, ScopeSource::Tables);
            assert_eq!(level, ChildLevel::SchemaObject);
            assert_eq!((database.as_str(), schema.as_str()), ("db", "public"));
        }
        other => panic!("{other:?}"),
    }
    match plan_scope_listing(&rel, DatabaseType::Other, &scope(Some("db"), Some("s"), Some("t")), 5, &None, false) {
        ScopeListing::Fixed(v) => assert!(v.is_empty()),
        other => panic!("{other:?}"),
    }
    assert!(matches!(
        plan_scope_listing(&rel, DatabaseType::Plugin, &scope(None, None, None), 0, &None, false),
        ScopeListing::Plugin { limit: 1 }
    ));
}

#[test]
fn listed_entries_become_child_scopes_and_database_listings_fall_back() {
    let parent = scope(Some("db"), Some("public"), None);
    let listing = ScopeListing::Fetch {
        source: ScopeSource::Tables,
        level: ChildLevel::SchemaObject,
        label: None,
        database: "db".to_string(),
        schema: "public".to_string(),
        limit: 10,
        redis_db: 0,
    };
    let entries = vec![ScopeEntry { name: "users".to_string(), kind: Some("BASE TABLE".to_string()) }];
    let scopes = listed_scopes(&parent, listing, Ok(entries), &None).unwrap();
    assert_eq!(scopes[0].database.as_deref(), Some("db"));
    assert_eq!(scopes[0].schema.as_deref(), Some("public"));
    assert_eq!(scopes[0].object.as_deref(), Some("users"));
    assert_eq!(scopes[0].object_kind.as_deref(), Some("BASE TABLE"));

    let databases = ScopeListing::Fetch {
        source: ScopeSource::Databases,
        level: ChildLevel::Database,
        label: None,
        database: String::new(),
        schema: String::new(),
        limit: 10,
        redis_db: 0,
    };
    let fallback = listed_scopes(&scope(None, None, None), databases, Err("boom".to_string()), &Some("main".to_string()));
    let fallback = fallback.unwrap();
    assert_eq!(fallback.len(), 1);
    assert_eq!(fallback[0].database.as_deref(), Some("main"));

    let schemas = ScopeListing::Fetch {
        source: ScopeSource::Schemas,
        level: ChildLevel::Schema,
        label: None,
        database: "db".to_string(),
        schema: String::new(),
        limit: 10,
        redis_db: 0,
    };
    assert_eq!(listed_scopes(&parent, schemas, Err("boom".to_string()), &None).unwrap_err(), "boom");
}

#[test]
fn table_facets_degrade_without_hiding_fatal_failures() {
    let mut errors = begin_table_facets(false);
    assert!(record_facet(&mut errors, TableFacet::Columns, Ok(vec![JsonValue::Null])).unwrap().len() == 1);
    assert!(record_facet(&mut errors, TableFacet::Indexes, Err("indexes unsupported".to_string())).unwrap().is_empty());
    assert!(record_facet(&mut errors, TableFacet::Indexes, Err("second".to_string())).unwrap().is_empty());
    assert_eq!(
        record_facet(&mut errors, TableFacet::ForeignKeys, Err("Connection reset by peer".to_string())).unwrap_err(),
        "Connection reset by peer"
    );
    assert_eq!(errors.indexes.as_deref(), Some("indexes unsupported"));
    assert!(errors.foreign_keys.is_none());
    let facets = table_facets(errors);
    let names: Vec<_> = facets.iter().map(|f| f.name.as_str()).collect();
    assert_eq!(names, vec!["tables", "columns", "indexes", "foreignKeys"]);
    assert_eq!(facets[2].availability, MetadataAvailability::Partial);
    assert_eq!(facets[3].availability, MetadataAvailability::Complete);

    let chiron = begin_table_facets(true);
    assert!(chiron.indexes.unwrap().contains("index metadata"));
    let TableFacetErrors { foreign_keys, .. } = begin_table_facets(true);
    assert!(foreign_keys.unwrap().contains("foreign-key metadata"));
}

#[test]
fn relational_view_notices_follow_partial_facets() {
    let facets = vec![
        facet_of("tables", MetadataAvailability::Complete),
        facet_of("indexes", MetadataAvailability::Partial),
        facet_of("foreignKeys", MetadataAvailability::Partial),
    ];
    let table = SchemaViewTable {
        table: TableInfo { name: "t".to_string(), table_type: "TABLE".to_string(), details: JsonValue::Null },
        columns: vec![],
        indexes: vec![],
        foreign_keys: vec![],
    };
    let parts = tables_view(SchemaViewerKind::Relational, vec![table], facets);
    assert_eq!(parts.availability, MetadataAvailability::Partial);
    assert_eq!(parts.notices.len(), 2);
    assert!(parts.notices[0].contains("foreign-key"));
    assert!(parts.notices[1].starts_with("Index metadata"));

    let parts = tables_view(SchemaViewerKind::Timeseries, vec![], vec![facet_of("tables", MetadataAvailability::Complete)]);
    assert_eq!(parts.availability, MetadataAvailability::Complete);
    assert!(parts.notices.is_empty());
    assert!(matches!(parts.payload, SchemaViewPayload::Timeseries { .. }));
}

#[test]
fn tables_are_kept_to_the_scoped_object() {
    let tables = vec![
        TableInfo { name: "a".to_string(), table_type: "TABLE".to_string(), details: JsonValue::Null },
        TableInfo { name: "b".to_string(), table_type: "VIEW".to_string(), details: JsonValue::Null },
    ];
    let kept = tables_in_scope(tables, &scope(Some("db"), None, Some("b")));
    assert_eq!(kept.len(), 1);
    assert_eq!(kept[0].table_type, "VIEW");
}

#[test]
fn mongodb_document_view_grades_declared_schema_and_search_indexes() {
    let metadata = parse(r#"{"options":{"validator":{"$jsonSchema":{}}}}"#);
    let parts = document_view(DocumentSource::MongoDb, metadata, None, Ok(parse("[]"))).unwrap();
    assert_eq!(parts.availability, MetadataAvailability::Complete);
    assert_eq!(parts.facets.len(), 2);
    assert!(parts.notices.is_empty());
    match &parts.payload {
        SchemaViewPayload::Document { metadata } => assert!(metadata.get("searchIndexes").is_some()),
        other => panic!("{other:?}"),
    }

    let parts = document_view(DocumentSource::MongoDb, parse(r#"{"options":{}}"#), None, Ok(parse("[]"))).unwrap();
    assert_eq!(parts.availability, MetadataAvailability::Absent);
    assert_eq!(parts.notices.len(), 1);

    let parts =
        document_view(DocumentSource::MongoDb, parse(r#"{"options":{}}"#), None, Err("not supported".to_string())).unwrap();
    assert_eq!(parts.availability, MetadataAvailability::Partial);
    assert_eq!(parts.facets[1].availability, MetadataAvailability::NotExposed);

    let (metadata, error) = document_declared(DocumentSource::MongoDb, Err("listCollections unsupported".to_string())).unwrap();
    assert!(metadata.is_null());
    let parts = document_view(DocumentSource::MongoDb, metadata, error, Err("nope".to_string())).unwrap();
    assert_eq!(parts.availability, MetadataAvailability::NotExposed);
    assert!(parts.notices.is_empty());

    assert_eq!(
        document_declared(DocumentSource::MongoDb, Err("Unauthorized".to_string())).unwrap_err(),
        "Unauthorized"
    );
    assert!(document_view(DocumentSource::MongoDb, JsonValue::Null, None, Err("network error".to_string())).is_err());

    let parts = document_view(DocumentSource::Undeclared, JsonValue::Null, None, Ok(JsonValue::Null)).unwrap();
    assert_eq!(parts.availability, MetadataAvailability::Absent);
    assert_eq!(parts.facets.len(), 1);
}

#[test]
fn elasticsearch_metadata_takes_aliases_of_the_named_index() {
    let indexes = vec![("logs".to_string(), parse(r#"["l"]"#)), ("other".to_string(), parse(r#"["o"]"#))];
    let m = elasticsearch_metadata(parse("{}"), parse("{}"), indexes, "other");
    assert_eq!(text(&items(m.get("aliases").unwrap())[0]), "o");
    let m = elasticsearch_metadata(parse("{}"), parse("{}"), vec![], "missing");
    assert!(items(m.get("aliases").unwrap()).is_empty());
}

#[test]
fn vector_and_composite_views() {
    let metadata = parse(r#"{"nativeMetadata":{"data":{"schemaViewerIndexDetailsError":"index api off"}}}"#);
    let parts = vector_view(metadata);
    assert_eq!(parts.availability, MetadataAvailability::Partial);
    assert_eq!(parts.facets[0].error.as_deref(), Some("index api off"));
    assert_eq!(vector_view(parse("{}")).availability, MetadataAvailability::Complete);

    assert!(composite_view(204, JsonValue::Null).is_ok());
    assert_eq!(composite_view(503, JsonValue::Null).unwrap_err(), "ChironDB metadata request failed (HTTP 503)");
    assert_eq!(composite_view(0, JsonValue::Null).unwrap_err(), "ChironDB metadata request failed (HTTP 0)");
}

#[test]
fn key_value_views_never_carry_values() {
    let page = parse(r#"{"keys":[{"key":"a","value":"secret"},{"key":"b"}],"more":false}"#);
    let stripped = without_key_values(page);
    let keys = items(stripped.get("keys").unwrap());
    assert!(keys[0].get("value").unwrap().is_null());
    assert!(keys[1].get("value").is_none());
    assert_eq!(text(keys[0].get("key").unwrap()), "a");

    let parts = key_value_unexposed_view(&scope(Some("0"), None, None));
    assert_eq!(parts.availability, MetadataAvailability::NotExposed);
    match &parts.payload {
        SchemaViewPayload::KeyValue { metadata } => {
            assert_eq!(text(metadata.get("scope").unwrap().get("database").unwrap()), "0")
        }
        other => panic!("{other:?}"),
    }
}

#[test]
fn scope_json_holds_only_present_levels() {
    let mut s = scope(Some("db"), None, Some("o"));
    s.object_kind = Some("table".to_string());
    let v = scope_to_json(&s);
    assert_eq!(text(v.get("objectKind").unwrap()), "table");
    assert!(v.get("schema").is_none());
    let request = plugin_scope_request(&s, None, 25, 100);
    assert!(matches!(request.get("limit"), Some(JsonValue::Number(n)) if n == "25"));
    assert!(matches!(request.get("offset"), Some(JsonValue::Number(n)) if n == "100"));
    assert!(request.get("search").unwrap().is_null());
}

#[test]
fn service_metadata_reads_protocol_metadata_only() {
    let namespaces = vec![("public".to_string(), parse(r#"{"n":1}"#)), ("dev".to_string(), parse(r#"{"n":2}"#))];
    let m = nacos_metadata(namespaces, &scope(Some("dev"), None, None));
    assert_eq!(items(m.get("namespaces").unwrap()).len(), 1);
    let m = consul_metadata(&None, parse("[]"), parse("{}"), parse("{}"));
    assert!(m.get("datacenter").unwrap().is_null());
    let m = other_service_metadata("zookeeper", &scope(None, None, None));
    assert_eq!(text(m.get("databaseType").unwrap()), "zookeeper");
}

#[test]
fn schema_view_plans_follow_the_kind() {
    assert!(matches!(
        plan_schema_view(SchemaViewerKind::Relational, DatabaseType::Other, &scope(None, None, None), false),
        Ok(ViewPlan::Tables)
    ));
    assert_eq!(
        plan_schema_view(SchemaViewerKind::Document, DatabaseType::MongoDb, &scope(None, None, None), false).unwrap_err(),
        "Select a collection or index"
    );
    assert_eq!(
        plan_schema_view(SchemaViewerKind::Vector, DatabaseType::Other, &scope(None, None, None), false).unwrap_err(),
        "Select a collection"
    );
    assert!(matches!(
        plan_schema_view(SchemaViewerKind::KeyValue, DatabaseType::Redis, &scope(Some("x"), None, None), false),
        Ok(ViewPlan::RedisKeys { db_index: 0 })
    ));
    assert!(matches!(
        plan_schema_view(SchemaViewerKind::Service, DatabaseType::ZooKeeper, &scope(None, None, None), false),
        Ok(ViewPlan::Service(ServicePlan::ZooKeeper { ref prefix })) if prefix == "/"
    ));
    assert_eq!(
        plan_schema_view(SchemaViewerKind::Service, DatabaseType::MessageQueue, &scope(None, None, None), false)
            .unwrap_err(),
        "Message queue metadata support is not compiled in this build"
    );
    assert_eq!(
        plan_schema_view(SchemaViewerKind::Dynamic, DatabaseType::Other, &scope(None, None, None), true).unwrap_err(),
        "The runtime provider did not negotiate a concrete Schema Viewer payload kind"
    );
    match plan_schema_view(SchemaViewerKind::Document, DatabaseType::Easysearch, &scope(None, None, Some("idx")), false) {
        Ok(ViewPlan::Document { object, source, .. }) => {
            assert_eq!(object, "idx");
            assert_eq!(source, DocumentSource::Elasticsearch);
        }
        other => panic!("{other:?}"),
    }
}

#[test]
fn graph_view_records_fallbacks_and_native_metadata() {
    let mut facets = Vec::new();
    assert!(record_topology(&mut facets, Err("procedure not found".to_string())).unwrap().is_none());
    assert_eq!(facets[0].availability, MetadataAvailability::Partial);
    let labels = vec![vec![JsonValue::Str("Person".to_string())], vec![JsonValue::Number("1".to_string())]];
    let nodes = label_nodes(&labels);
    assert_eq!(nodes.len(), 1);
    let edges = relationship_type_edges(&vec![vec![JsonValue::Str("KNOWS".to_string())]]);
    let edges = record_relationship_types(&mut facets, Ok(edges)).unwrap();
    let mut native = Vec::new();
    assert_eq!(native_query_count(), 4);
    let (name, query) = native_query(2);
    assert_eq!((name, query), ("indexes", "SHOW INDEXES"));
    record_native(&mut native, &mut facets, name, Err("no".to_string())).unwrap();
    assert!(record_native(&mut native, &mut facets, "constraints", Err("access denied".to_string())).is_err());
    let parts = graph_view(nodes, edges, native, facets);
    assert_eq!(parts.availability, MetadataAvailability::Partial);
    assert_eq!(parts.notices.len(), 1);
    assert_eq!(parts.facets.len(), 2);

    let mut facets = Vec::new();
    assert!(record_topology(&mut facets, Err("timeout".to_string())).is_err());
    assert!(facets.is_empty());
}

#[test]
fn responses_carry_version_one_and_the_negotiated_kind() {
    let parts = key_value_unexposed_view(&SchemaViewScope::default());
    let response = schema_view_response(SchemaViewerKind::KeyValue, SchemaViewScope::default(), parts);
    assert_eq!(response.version, 1);
    assert!(check_plugin_response(response, SchemaViewerKind::KeyValue).is_ok());
    let bad = SchemaViewResponse {
        version: 2,
        kind: SchemaViewerKind::Graph,
        scope: SchemaViewScope::default(),
        availability: MetadataAvailability::Complete,
        facets: vec![],
        notices: vec![],
        payload: SchemaViewPayload::Service { metadata: JsonValue::Null },
    };
    assert_eq!(
        check_plugin_response(bad, SchemaViewerKind::Graph).unwrap_err(),
        "Plugin Schema Viewer response does not match the negotiated contract"
    );
}

#[test]
fn trimming_twice_is_trimming_once() {
    for s in ["  a  ", "\u{2003}x\u{2003}", "", "   ", "a b"] {
        assert_eq!(trim(trim(s)), trim(s));
    }
}

#[test]
fn chirondb_index_and_key_facets_stay_partial() {
    let mut errors = begin_table_facets(true);
    assert!(record_facet(&mut errors, TableFacet::Columns, Ok(vec![])).is_ok());
    assert!(record_facet(&mut errors, TableFacet::Indexes, Err("later failure".to_string())).is_ok());
    let facets = table_facets(errors);
    assert_eq!(facets[1].availability, MetadataAvailability::Complete);
    assert_eq!(facets[2].availability, MetadataAvailability::Partial);
    assert!(facets[2].error.as_deref().unwrap().starts_with("ChironDB's PostgreSQL-wire preview"));
    assert_eq!(facets[3].availability, MetadataAvailability::Partial);
}

#[test]
fn consecutive_pages_cover_the_listing() {
    let make = || (0..7).map(|i| scope(Some(&format!("db{i}")), None, None)).collect::<Vec<_>>();
    let mut seen = Vec::new();
    let mut offset = 0;
    loop {
        let page = page_scopes(make(), None, 3, offset);
        seen.extend(page.items.into_iter().map(|s| s.database.unwrap()));
        match page.next_offset {
            Some(next) => offset = next,
            None => break,
        }
    }
    let expected: Vec<String> = (0..7).map(|i| format!("db{i}")).collect();
    assert_eq!(seen, expected);
}

#[test]
fn encoded_metagraph_cells_normalise_like_lists() {
    let nodes_text = r#"[{"id":"a","labels":["A"],"properties":{"p":1}}]"#;
    let edges_text = r#"[{"type":"T","start":"a","end":"a","properties":{"w":2}}]"#;
    let encoded = vec![
        vec![JsonValue::Str(nodes_text.to_string()), JsonValue::Str(edges_text.to_string())],
        vec![JsonValue::Bool(false)],
    ];
    let plain = vec![vec![parse(nodes_text), parse(edges_text)]];
    let (n1, e1) = normalize_neo4j_schema_visualization(encoded).unwrap();
    let (n2, e2) = normalize_neo4j_schema_visualization(plain).unwrap();
    assert_eq!(format!("{n1:?}"), format!("{n2:?}"));
    assert_eq!(format!("{e1:?}"), format!("{e2:?}"));
    assert_eq!(text(n1[0].get("label").unwrap()), "A");
    assert_eq!(text(e1[0].get("source").unwrap()), "a");
}

#[test]
fn listed_databases_and_schemas_carry_no_entry_kind() {
    let databases = ScopeListing::Fetch {
        source: ScopeSource::Databases,
        level: ChildLevel::Database,
        label: None,
        database: String::new(),
        schema: String::new(),
        limit: 10,
        redis_db: 0,
    };
    let entries = vec![ScopeEntry { name: "main".to_string(), kind: Some("database".to_string()) }];
    let scopes = listed_scopes(&scope(None, None, None), databases, Ok(entries), &None).unwrap();
    assert_eq!(scopes[0].database.as_deref(), Some("main"));
    assert!(scopes[0].object_kind.is_none());
}

fn table(name: &str) -> TableInfo {
    TableInfo { name: name.to_string(), table_type: "TABLE".to_string(), details: JsonValue::Null }
}

#[test]
fn table_load_reads_each_table_in_plan_order() {
    let mut load = start_table_load(vec![table("a"), table("b")], &SchemaViewScope::default(), false);
    let mut asked = Vec::new();
    while let Some((name, facet)) = load.next_table_read() {
        asked.push((name.to_string(), facet));
        let result = if name == "a" && facet == TableFacet::Indexes {
            Err("indexes unsupported".to_string())
        } else {
            Ok(vec![JsonValue::Null])
        };
        load.record_table_read(result).unwrap();
    }
    let expected: Vec<(String, TableFacet)> = ["a", "b"]
        .iter()
        .flat_map(|t| {
            [TableFacet::Columns, TableFacet::Indexes, TableFacet::ForeignKeys].map(|f| (t.to_string(), f))
        })
        .collect();
    assert_eq!(asked, expected);
    let (tables, facets) = load.finish_table_load();
    assert_eq!(tables.len(), 2);
    assert_eq!(tables[0].table.name, "a");
    assert_eq!(tables[0].columns.len(), 1);
    assert!(tables[0].indexes.is_empty());
    assert_eq!(tables[1].indexes.len(), 1);
    assert_eq!(tables[1].foreign_keys.len(), 1);
    assert_eq!(facets[2].availability, MetadataAvailability::Partial);
    assert_eq!(facets[2].error.as_deref(), Some("indexes unsupported"));
    assert_eq!(facets[1].availability, MetadataAvailability::Complete);
    assert_eq!(facets[3].availability, MetadataAvailability::Complete);
}

#[test]
fn table_load_keeps_only_the_scoped_object_and_stops_on_fatal_failure() {
    let scope = SchemaViewScope { object: Some("b".to_string()), ..SchemaViewScope::default() };
    let mut load = start_table_load(vec![table("a"), table("b")], &scope, false);
    let (name, facet) = load.next_table_read().unwrap();
    assert_eq!((name, facet), ("b", TableFacet::Columns));
    assert_eq!(load.record_table_read(Err("permission denied for table b".to_string())).unwrap_err(), "permission denied for table b");
}

#[test]
fn chirondb_table_load_reads_only_columns() {
    let mut load = start_table_load(vec![table("t")], &SchemaViewScope::default(), true);
    let mut asked = Vec::new();
    while let Some((name, facet)) = load.next_table_read() {
        asked.push((name.to_string(), facet));
        load.record_table_read(Ok(vec![JsonValue::Null, JsonValue::Null])).unwrap();
    }
    assert_eq!(asked, vec![("t".to_string(), TableFacet::Columns)]);
    let (tables, facets) = load.finish_table_load();
    assert_eq!(tables[0].columns.len(), 2);
    assert!(tables[0].indexes.is_empty() && tables[0].foreign_keys.is_empty());
    assert_eq!(facets[2].availability, MetadataAvailability::Partial);
    assert!(facets[2].error.as_deref().unwrap().contains("index metadata"));
    assert_eq!(facets[3].availability, MetadataAvailability::Partial);
}

fn reply(rows: Vec<Vec<JsonValue>>) -> Result<GraphReply, String> {
    Ok(GraphReply { rows, result: JsonValue::Bool(true) })
}

#[test]
fn graph_load_falls_back_to_labels_and_relationship_types() {
    let mut load = start_graph_load();
    let mut asked = Vec::new();
    while let Some(query) = load.next_graph_query() {
        asked.push(query.to_string());
        let answer = if query.starts_with("CALL db.schema.visualization") {
            Err("There is no procedure with the name `db.schema.visualization`".to_string())
        } else if query.starts_with("CALL db.labels") {
            reply(vec![vec![JsonValue::Str("Person".to_string())]])
        } else if query.starts_with("CALL db.relationshipTypes") {
            reply(vec![vec![JsonValue::Str("KNOWS".to_string())]])
        } else if query == "SHOW INDEXES" {
            Err("unknown command".to_string())
        } else {
            reply(vec![])
        };
        load.record_graph_reply(answer).unwrap();
    }
    assert_eq!(asked.len(), 7);
    assert_eq!(asked[1], "CALL db.labels() YIELD label RETURN label ORDER BY label");
    assert_eq!(asked[6], "SHOW CONSTRAINTS");
    let parts = load.finish_graph_load();
    assert_eq!(parts.availability, MetadataAvailability::Partial);
    let names: Vec<_> = parts.facets.iter().map(|f| f.name.as_str()).collect();
    assert_eq!(names, vec!["topology", "nodeTypeProperties", "relationshipTypeProperties", "indexes", "constraints"]);
    assert_eq!(parts.notices.len(), 1);
    match parts.payload {
        SchemaViewPayload::Graph { nodes, edges, metadata: JsonValue::Object(native) } => {
            assert_eq!(nodes.len(), 1);
            assert_eq!(edges.len(), 1);
            assert_eq!(native.len(), 4);
            assert_eq!(native[2].0, "indexes");
            assert!(matches!(native[2].1, JsonValue::Null));
            assert!(matches!(native[0].1, JsonValue::Bool(true)));
        }
        other => panic!("{other:?}"),
    }
}

#[test]
fn graph_load_reads_the_metagraph_then_native_metadata_and_stops_on_fatal_failure() {
    let mut load = start_graph_load();
    let cells = vec![JsonValue::Array(vec![]), JsonValue::Array(vec![])];
    load.record_graph_reply(reply(vec![cells])).unwrap();
    assert_eq!(load.next_graph_query(), Some("CALL db.schema.nodeTypeProperties()"));
    assert_eq!(load.facets[0].availability, MetadataAvailability::Complete);
    assert_eq!(load.record_graph_reply(Err("access denied".to_string())).unwrap_err(), "access denied");

    let mut load = start_graph_load();
    load.record_graph_reply(Err("procedure not found".to_string())).unwrap();
    assert_eq!(load.record_graph_reply(Err("labels unsupported".to_string())).unwrap_err(), "labels unsupported");
}

#[test]
fn key_listings_read_bounded_pages() {
    assert_eq!(key_page_limit(&ViewPlan::RedisKeys { db_index: 0 }), Some(200));
    assert_eq!(key_page_limit(&ViewPlan::EtcdKeys { prefix: String::new() }), Some(500));
    assert_eq!(key_page_limit(&ViewPlan::Service(ServicePlan::ZooKeeper { prefix: "/".to_string() })), Some(500));
    assert_eq!(key_page_limit(&ViewPlan::KeyValueUnexposed), None);
    assert_eq!(key_page_limit(&ViewPlan::Service(ServicePlan::Nacos)), None);
}
