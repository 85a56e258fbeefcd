//! Context-aware, read-only schema metadata: the decisions behind the Schema
//! Viewer, written as verified functions over plain values.

pub mod descriptor;
pub mod facets;
pub mod failure;
pub mod graph;
pub mod json;
pub mod kind;
pub mod listing;
pub mod number;
pub mod scope;
pub mod stores;
pub mod text;
pub mod view;

pub use descriptor::{DatabaseType, SchemaViewerDescriptor};
pub use facets::{MetadataFacetStatus, SchemaViewTable, TableInfo};
pub use failure::metadata_failure_is_fatal;
pub use json::JsonValue;
pub use kind::{MetadataAvailability, SchemaViewerKind};
pub use scope::{SchemaScopePage, SchemaViewScope};
pub use view::{SchemaViewPayload, SchemaViewResponse};
