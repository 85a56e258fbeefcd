# schema_viewer

The decisions behind a context-aware, read-only Schema Viewer, as a Verus
library: which metadata a connection's storage model reads, how a failure to
read it is graded (a fatal authorization or transport failure stays an
error; anything else degrades one facet), how scope listings are searched and
paged, and how each view's availability, facets and notices follow from what
was read. Nothing here samples user data; every plan names a metadata source.

Layout:

- `src/kind.rs`: storage-model kinds and availability grades; kind names.
- `src/failure.rs`: fatal failure detection.
- `src/descriptor.rs`: describing a connection's Schema Viewer.
- `src/scope.rs`, `src/listing.rs`: scopes, listing plans, search and paging.
- `src/facets.rs`: facets, table metadata grading, and the table-by-table reading of a listing.
- `src/view.rs`, `src/stores.rs`, `src/graph.rs`: the view of each storage model, and the query-by-query reading of a Neo4j graph view.
- `src/json.rs`, `src/text.rs`, `src/number.rs`: JSON values, text and index helpers.
- `app/`: serde wire forms and the asynchronous reads, against a host trait;
  it performs each read the library's step functions ask for and hands back the outcome.
