//! Metadata facets: which part of a schema was read completely, partly, or
//! not at all, and how a table listing grades its columns, indexes and
//! foreign keys.

use vstd::prelude::*;
use crate::failure::{is_fatal_failure, metadata_failure_is_fatal};
use crate::json::JsonValue;
use crate::kind::MetadataAvailability;
use crate::scope::SchemaViewScope;
use crate::text::str_eq;

verus! {

/// How one metadata facet was obtained, with the error that degraded it.
#[derive(Debug, Clone)]
pub struct MetadataFacetStatus {
    pub name: String,
    pub availability: MetadataAvailability,
    pub error: Option<String>,
}

/// A table as the engine lists it: its name, its type, and the full record.
#[derive(Debug)]
pub struct TableInfo {
    pub name: String,
    pub table_type: String,
    pub details: JsonValue,
}

/// A table with the column, index and foreign-key records read for it.
#[derive(Debug)]
pub struct SchemaViewTable {
    pub table: TableInfo,
    pub columns: Vec<JsonValue>,
    pub indexes: Vec<JsonValue>,
    pub foreign_keys: Vec<JsonValue>,
}

/// The per-table metadata facets.
#[derive(Debug, Clone, Copy, PartialEq, Eq, Structural)]
pub enum TableFacet {
    Columns,
    Indexes,
    ForeignKeys,
}

/// The first error that degraded each per-table facet.
#[derive(Debug)]
pub struct TableFacetErrors {
    pub columns: Option<String>,
    pub indexes: Option<String>,
    pub foreign_keys: Option<String>,
}

/// `f` has the given name, availability and error text.
pub open spec fn facet_is(f: MetadataFacetStatus, name: Seq<char>, availability: MetadataAvailability, error: Option<String>) -> bool {
    f.name@ == name && f.availability == availability && f.error == error
}

/// Some facet is partial.
pub open spec fn any_partial(facets: Seq<MetadataFacetStatus>) -> bool {
    exists|i: int| 0 <= i < facets.len() && (#[trigger] facets[i]).availability == MetadataAvailability::Partial
}

/// Some facet named `name` is partial.
pub open spec fn named_partial(facets: Seq<MetadataFacetStatus>, name: Seq<char>) -> bool {
    exists|i: int| 0 <= i < facets.len() && (#[trigger] facets[i]).name@ == name
        && facets[i].availability == MetadataAvailability::Partial
}

/// Partial when any facet is partial, complete otherwise.
pub open spec fn partial_unless_complete(facets: Seq<MetadataFacetStatus>) -> MetadataAvailability {
    if any_partial(facets) {
        MetadataAvailability::Partial
    } else {
        MetadataAvailability::Complete
    }
}

/// Partial when any facet is partial, complete otherwise.
pub fn overall_availability(facets: &Vec<MetadataFacetStatus>) -> (r: MetadataAvailability)
    ensures
        r == partial_unless_complete(facets@),
{
    let mut i: usize = 0;
    while i < facets.len()
        invariant
            i <= facets@.len(),
            forall|j: int| 0 <= j < i ==> (#[trigger] facets@[j]).availability != MetadataAvailability::Partial,
        decreases facets@.len() - i,
    {
        if facets[i].availability == MetadataAvailability::Partial {
            return MetadataAvailability::Partial;
        }
        i = i + 1;
    }
    MetadataAvailability::Complete
}

/// Law: a view is partial exactly when one of its facets is, wherever in
/// the list that facet stands; with no partial facet it is complete.
pub proof fn lemma_partial_facet_makes_view_partial(facets: Seq<MetadataFacetStatus>, i: int)
    ensures
        0 <= i < facets.len() && facets[i].availability == MetadataAvailability::Partial
            ==> partial_unless_complete(facets) == MetadataAvailability::Partial,
        (forall|j: int| 0 <= j < facets.len() ==> facets[j].availability != MetadataAvailability::Partial)
            ==> partial_unless_complete(facets) == MetadataAvailability::Complete,
        partial_unless_complete(facets) == MetadataAvailability::Partial || partial_unless_complete(facets) == MetadataAvailability::Complete,
{
    if 0 <= i < facets.len() && facets[i].availability == MetadataAvailability::Partial {
        assert(any_partial(facets));
    }
}

/// Law: a facet reads as partial by name exactly when some facet of that
/// name, wherever it stands, is partial.
pub proof fn lemma_named_facet_partial(facets: Seq<MetadataFacetStatus>, name: Seq<char>, i: int)
    ensures
        0 <= i < facets.len() && facets[i].name@ == name && facets[i].availability == MetadataAvailability::Partial
            ==> named_partial(facets, name),
        (forall|j: int| 0 <= j < facets.len() ==> !(facets[j].name@ == name && facets[j].availability == MetadataAvailability::Partial))
            ==> !named_partial(facets, name),
{
    if 0 <= i < facets.len() && facets[i].name@ == name && facets[i].availability == MetadataAvailability::Partial {
        assert(named_partial(facets, name));
    }
}

/// Whether a facet named `name` is partial.
pub fn has_partial_facet(facets: &Vec<MetadataFacetStatus>, name: &str) -> (r: bool)
    ensures
        r == named_partial(facets@, name@),
{
    let mut i: usize = 0;
    while i < facets.len()
        invariant
            i <= facets@.len(),
            forall|j: int| 0 <= j < i ==> !((#[trigger] facets@[j]).name@ == name@
                && facets@[j].availability == MetadataAvailability::Partial),
        decreases facets@.len() - i,
    {
        if facets[i].availability == MetadataAvailability::Partial && str_eq(facets[i].name.as_str(), name) {
            return true;
        }
        i = i + 1;
    }
    false
}

/// A facet status.
pub fn facet(name: &str, availability: MetadataAvailability, error: Option<String>) -> (r: MetadataFacetStatus)
    ensures
        facet_is(r, name@, availability, error),
{
    MetadataFacetStatus { name: String::from_str(name), availability, error }
}

/// The tables of a listing that lie in `scope`: those named like its object
/// when it names one, all of them otherwise.
pub fn tables_in_scope(tables: Vec<TableInfo>, scope: &SchemaViewScope) -> (r: Vec<TableInfo>)
    ensures
        r@ == match scope.object {
            Some(o) => tables@.filter(|t: TableInfo| t.name@ == o@),
            None => tables@,
        },
{
    match &scope.object {
        None => tables,
        Some(o) => {
            let ghost pred = |t: TableInfo| t.name@ == o@;
            let ghost all = tables@;
            let n = tables.len();
            let mut rest = tables;
            let mut out: Vec<TableInfo> = Vec::new();
            let mut i: usize = 0;
            while rest.len() > 0
                invariant
                    n == all.len(),
                    i <= all.len(),
                    rest@ == all.skip(i as int),
                    out@ == all.take(i as int).filter(pred),
                    pred == (|t: TableInfo| t.name@ == o@),
                decreases rest@.len(),
            {
                proof {
                    reveal_with_fuel(Seq::<_>::filter, 1);
                }
                let t = rest.remove(0);
                assert(t == all[i as int]);
                let keep = t.name == *o;
                if keep {
                    out.push(t);
                }
                assert(all.take(i + 1).drop_last() =~= all.take(i as int));
                i = i + 1;
                assert(rest@ =~= all.skip(i as int));
            }
            assert(all.take(i as int) =~= all);
            out
        },
    }
}

/// The index facet note of ChironDB's PostgreSQL-wire preview.
pub open spec fn chirondb_index_note() -> Seq<char> {
    "ChironDB's PostgreSQL-wire preview does not yet expose complete index metadata to Horizon."@
}

/// The foreign-key facet note of ChironDB's PostgreSQL-wire preview.
pub open spec fn chirondb_foreign_key_note() -> Seq<char> {
    "ChironDB's PostgreSQL-wire preview does not yet expose complete foreign-key metadata to Horizon."@
}

/// The facet errors before any table is read: ChironDB's PostgreSQL-wire
/// preview starts with its index and foreign-key facets degraded.
pub fn begin_table_facets(chirondb_relational: bool) -> (r: TableFacetErrors)
    ensures
        r.columns is None,
        chirondb_relational ==> (r.indexes matches Some(e) && e@ == chirondb_index_note()),
        chirondb_relational ==> (r.foreign_keys matches Some(e) && e@ == chirondb_foreign_key_note()),
        !chirondb_relational ==> r.indexes is None && r.foreign_keys is None,
{
    if chirondb_relational {
        TableFacetErrors {
            columns: None,
            indexes: Some(String::from_str("ChironDB's PostgreSQL-wire preview does not yet expose complete index metadata to Horizon.")),
            foreign_keys: Some(String::from_str("ChironDB's PostgreSQL-wire preview does not yet expose complete foreign-key metadata to Horizon.")),
        }
    } else {
        TableFacetErrors { columns: None, indexes: None, foreign_keys: None }
    }
}

/// The error slot of `facet`.
pub open spec fn facet_error(e: TableFacetErrors, facet: TableFacet) -> Option<String> {
    match facet {
        TableFacet::Columns => e.columns,
        TableFacet::Indexes => e.indexes,
        TableFacet::ForeignKeys => e.foreign_keys,
    }
}

/// The facet errors after one read of `facet`: a failure that is not fatal
/// becomes the facet's error unless it already has one; anything else
/// changes nothing.
pub open spec fn after_read(errors: TableFacetErrors, facet: TableFacet, result: Result<Vec<JsonValue>, String>) -> TableFacetErrors {
    match result {
        Err(e) => if !is_fatal_failure(e@) && facet_error(errors, facet) is None {
            match facet {
                TableFacet::Columns => TableFacetErrors { columns: Some(e), ..errors },
                TableFacet::Indexes => TableFacetErrors { indexes: Some(e), ..errors },
                TableFacet::ForeignKeys => TableFacetErrors { foreign_keys: Some(e), ..errors },
            }
        } else {
            errors
        },
        Ok(_) => errors,
    }
}

/// The facet errors after a sequence of reads, in order.
pub open spec fn after_reads(errors: TableFacetErrors, reads: Seq<(TableFacet, Result<Vec<JsonValue>, String>)>) -> TableFacetErrors
    decreases reads.len(),
{
    if reads.len() == 0 {
        errors
    } else {
        after_read(after_reads(errors, reads.drop_last()), reads.last().0, reads.last().1)
    }
}

/// Law: once a facet has an error, no later read changes it: a degraded
/// facet stays degraded, with its first error.
pub proof fn lemma_degraded_facet_stays(errors: TableFacetErrors, reads: Seq<(TableFacet, Result<Vec<JsonValue>, String>)>, facet: TableFacet)
    requires
        facet_error(errors, facet) is Some,
    ensures
        facet_error(after_reads(errors, reads), facet) == facet_error(errors, facet),
    decreases reads.len(),
{
    if reads.len() > 0 {
        lemma_degraded_facet_stays(errors, reads.drop_last(), facet);
    }
}

/// Law: on ChironDB's PostgreSQL-wire preview, whatever the table reads
/// return, the index and foreign-key facets end partial with the preview's
/// notes.
pub proof fn lemma_chirondb_index_and_key_facets_partial(start: TableFacetErrors, reads: Seq<(TableFacet, Result<Vec<JsonValue>, String>)>)
    requires
        start.indexes matches Some(e) && e@ == chirondb_index_note(),
        start.foreign_keys matches Some(e) && e@ == chirondb_foreign_key_note(),
    ensures
        ({
            let end = after_reads(start, reads);
            &&& graded(end.indexes) == MetadataAvailability::Partial && end.indexes == start.indexes
            &&& graded(end.foreign_keys) == MetadataAvailability::Partial && end.foreign_keys == start.foreign_keys
        }),
{
    lemma_degraded_facet_stays(start, reads, TableFacet::Indexes);
    lemma_degraded_facet_stays(start, reads, TableFacet::ForeignKeys);
}

/// Takes in the outcome of reading one facet of one table. A fatal failure
/// is the error; any other failure leaves the facet empty for this table and
/// is kept as the facet's error unless an earlier one is.
pub fn record_facet(errors: &mut TableFacetErrors, facet: TableFacet, result: Result<Vec<JsonValue>, String>) -> (r: Result<Vec<JsonValue>, String>)
    ensures
        *final(errors) == after_read(*old(errors), facet, result),
        match result {
            Ok(v) => r == Ok::<Vec<JsonValue>, String>(v) && *final(errors) == *old(errors),
            Err(e) => if is_fatal_failure(e@) {
                r == Err::<Vec<JsonValue>, String>(e) && *final(errors) == *old(errors)
            } else {
                &&& r matches Ok(v) && v@.len() == 0
                &&& facet_error(*final(errors), facet) == match facet_error(*old(errors), facet) {
                    Some(first) => Some(first),
                    None => Some(e),
                }
                &&& forall|other: TableFacet| other != facet ==> facet_error(*final(errors), other) == facet_error(*old(errors), other)
            },
        },
{
    match result {
        Ok(v) => Ok(v),
        Err(e) => {
            if metadata_failure_is_fatal(e.as_str()) {
                Err(e)
            } else {
                match facet {
                    TableFacet::Columns => {
                        if errors.columns.is_none() {
                            errors.columns = Some(e);
                        }
                    },
                    TableFacet::Indexes => {
                        if errors.indexes.is_none() {
                            errors.indexes = Some(e);
                        }
                    },
                    TableFacet::ForeignKeys => {
                        if errors.foreign_keys.is_none() {
                            errors.foreign_keys = Some(e);
                        }
                    },
                }
                Ok(Vec::new())
            }
        },
    }
}

/// Partial with an error, complete without one.
pub open spec fn graded(error: Option<String>) -> MetadataAvailability {
    if error is Some {
        MetadataAvailability::Partial
    } else {
        MetadataAvailability::Complete
    }
}

/// The facets of a table listing: tables (complete), then columns, indexes
/// and foreign keys, each partial exactly when it has an error.
pub fn table_facets(errors: TableFacetErrors) -> (r: Vec<MetadataFacetStatus>)
    ensures
        r@.len() == 4,
        facet_is(r@[0], "tables"@, MetadataAvailability::Complete, None),
        facet_is(r@[1], "columns"@, graded(errors.columns), errors.columns),
        facet_is(r@[2], "indexes"@, graded(errors.indexes), errors.indexes),
        facet_is(r@[3], "foreignKeys"@, graded(errors.foreign_keys), errors.foreign_keys),
{
    let mut r: Vec<MetadataFacetStatus> = Vec::new();
    r.push(facet("tables", MetadataAvailability::Complete, None));
    let TableFacetErrors { columns, indexes, foreign_keys } = errors;
    let a = if columns.is_some() { MetadataAvailability::Partial } else { MetadataAvailability::Complete };
    r.push(facet("columns", a, columns));
    let a = if indexes.is_some() { MetadataAvailability::Partial } else { MetadataAvailability::Complete };
    r.push(facet("indexes", a, indexes));
    let a = if foreign_keys.is_some() { MetadataAvailability::Partial } else { MetadataAvailability::Complete };
    r.push(facet("foreignKeys", a, foreign_keys));
    r
}


/// The facets read for each table, in order: only its columns on
/// ChironDB's PostgreSQL-wire preview, its columns, indexes and foreign keys
/// elsewhere.
pub open spec fn table_reads(chirondb_relational: bool) -> Seq<TableFacet> {
    if chirondb_relational {
        seq![TableFacet::Columns]
    } else {
        seq![TableFacet::Columns, TableFacet::Indexes, TableFacet::ForeignKeys]
    }
}

fn table_read_count(chirondb_relational: bool) -> (r: usize)
    ensures
        r == table_reads(chirondb_relational).len(),
{
    if chirondb_relational { 1 } else { 3 }
}

fn planned_read(chirondb_relational: bool, j: usize) -> (r: TableFacet)
    requires
        j < table_reads(chirondb_relational).len(),
    ensures
        r == table_reads(chirondb_relational)[j as int],
{
    if j == 0 {
        TableFacet::Columns
    } else if j == 1 {
        TableFacet::Indexes
    } else {
        TableFacet::ForeignKeys
    }
}

/// The records a read yields: what it returned, none when it failed.
pub open spec fn read_records(result: Result<Vec<JsonValue>, String>) -> Seq<JsonValue> {
    match result {
        Ok(v) => v@,
        Err(_) => Seq::empty(),
    }
}

/// The reads of one table, each with its facet: `results[j]` answered
/// `facets[j]`.
pub open spec fn paired_reads(facets: Seq<TableFacet>, results: Seq<Result<Vec<JsonValue>, String>>) -> Seq<(TableFacet, Result<Vec<JsonValue>, String>)> {
    Seq::new(results.len(), |j: int| (facets[j], results[j]))
}

/// The reads of a listing, table after table, each table's in order.
pub open spec fn listing_reads(facets: Seq<TableFacet>, tables: Seq<Seq<Result<Vec<JsonValue>, String>>>) -> Seq<(TableFacet, Result<Vec<JsonValue>, String>)>
    decreases tables.len(),
{
    if tables.len() == 0 {
        Seq::empty()
    } else {
        listing_reads(facets, tables.drop_last()) + paired_reads(facets, tables.last())
    }
}

/// `facets` once for each of `n` tables.
pub open spec fn planned_facets(facets: Seq<TableFacet>, n: nat) -> Seq<TableFacet>
    decreases n,
{
    if n == 0 {
        Seq::empty()
    } else {
        planned_facets(facets, (n - 1) as nat) + facets
    }
}

/// Law: the reads of a listing whose tables were all read ask, table after
/// table, for each table's facets in plan order.
pub proof fn lemma_listing_reads_follow_plan(facets: Seq<TableFacet>, tables: Seq<Seq<Result<Vec<JsonValue>, String>>>)
    requires
        forall|i: int| 0 <= i < tables.len() ==> (#[trigger] tables[i]).len() == facets.len(),
    ensures
        listing_reads(facets, tables).map_values(|r: (TableFacet, Result<Vec<JsonValue>, String>)| r.0)
            == planned_facets(facets, tables.len()),
    decreases tables.len(),
{
    if tables.len() > 0 {
        let init = tables.drop_last();
        assert forall|i: int| 0 <= i < init.len() implies (#[trigger] init[i]).len() == facets.len() by {
            assert(init[i] == tables[i]);
        }
        lemma_listing_reads_follow_plan(facets, init);
        let first = |r: (TableFacet, Result<Vec<JsonValue>, String>)| r.0;
        assert(paired_reads(facets, tables.last()).map_values(first) =~= facets);
        assert(listing_reads(facets, tables).map_values(first)
            =~= listing_reads(facets, init).map_values(first) + paired_reads(facets, tables.last()).map_values(first));
    }
}

/// `out` is `table` with the records its reads `results` returned; on
/// ChironDB's PostgreSQL-wire preview its indexes and foreign keys are empty.
pub open spec fn table_read(out: SchemaViewTable, table: TableInfo, chirondb_relational: bool, results: Seq<Result<Vec<JsonValue>, String>>) -> bool {
    &&& out.table == table
    &&& out.columns@ == read_records(results[0])
    &&& out.indexes@ == if chirondb_relational { Seq::empty() } else { read_records(results[1]) }
    &&& out.foreign_keys@ == if chirondb_relational { Seq::empty() } else { read_records(results[2]) }
}

/// A table listing being read: one facet of one table at a time, tables in
/// listing order, each table's facets in `table_reads` order.
pub struct TableLoad {
    chirondb_relational: bool,
    pending: Vec<TableInfo>,
    records: Vec<Vec<JsonValue>>,
    output: Vec<SchemaViewTable>,
    errors: TableFacetErrors,
    tables: Ghost<Seq<TableInfo>>,
    start: Ghost<TableFacetErrors>,
    done: Ghost<Seq<Seq<Result<Vec<JsonValue>, String>>>>,
    current: Ghost<Seq<Result<Vec<JsonValue>, String>>>,
}

impl TableLoad {
    /// The tables of the listing, in order.
    pub closed spec fn listed_tables(&self) -> Seq<TableInfo> {
        self.tables@
    }

    /// Whether the listing is on ChironDB's PostgreSQL-wire preview.
    pub closed spec fn on_chirondb(&self) -> bool {
        self.chirondb_relational
    }

    /// The facet errors before the first read.
    pub closed spec fn start_errors(&self) -> TableFacetErrors {
        self.start@
    }

    /// What the reads of each finished table returned, in order.
    pub closed spec fn finished(&self) -> Seq<Seq<Result<Vec<JsonValue>, String>>> {
        self.done@
    }

    /// What the reads of the table being read returned so far.
    pub closed spec fn in_progress(&self) -> Seq<Result<Vec<JsonValue>, String>> {
        self.current@
    }

    /// Every read made so far, with its facet, in order.
    pub open spec fn reads(&self) -> Seq<(TableFacet, Result<Vec<JsonValue>, String>)> {
        let facets = table_reads(self.on_chirondb());
        listing_reads(facets, self.finished()) + paired_reads(facets, self.in_progress())
    }

    /// The load is consistent: finished tables carry their records, the
    /// table being read is the next one listed, and the facet errors are
    /// those the reads so far left.
    pub closed spec fn wf(&self) -> bool {
        let facets = table_reads(self.chirondb_relational);
        &&& self.done@.len() <= self.tables@.len()
        &&& self.pending@ == self.tables@.skip(self.done@.len() as int)
        &&& self.output@.len() == self.done@.len()
        &&& forall|i: int| 0 <= i < self.done@.len() ==> (#[trigger] self.done@[i]).len() == facets.len()
            && table_read(self.output@[i], self.tables@[i], self.chirondb_relational, self.done@[i])
        &&& self.current@.len() < facets.len()
        &&& self.done@.len() == self.tables@.len() ==> self.current@.len() == 0
        &&& self.records@.len() == self.current@.len()
        &&& forall|j: int| 0 <= j < self.current@.len() ==> (#[trigger] self.records@[j])@ == read_records(self.current@[j])
        &&& self.start@.columns is None
        &&& self.chirondb_relational ==> (self.start@.indexes matches Some(e) && e@ == chirondb_index_note())
        &&& self.chirondb_relational ==> (self.start@.foreign_keys matches Some(e) && e@ == chirondb_foreign_key_note())
        &&& !self.chirondb_relational ==> self.start@.indexes is None && self.start@.foreign_keys is None
        &&& self.errors == after_reads(self.start@, self.reads())
    }
}

/// Starts reading the tables of a listing that lie in `scope`, with no
/// facet read yet.
pub fn start_table_load(tables: Vec<TableInfo>, scope: &SchemaViewScope, chirondb_relational: bool) -> (r: TableLoad)
    ensures
        r.wf(),
        r.listed_tables() == match scope.object {
            Some(o) => tables@.filter(|t: TableInfo| t.name@ == o@),
            None => tables@,
        },
        r.on_chirondb() == chirondb_relational,
        r.finished().len() == 0,
        r.in_progress().len() == 0,
        r.start_errors().columns is None,
        chirondb_relational ==> (r.start_errors().indexes matches Some(e) && e@ == chirondb_index_note()),
        chirondb_relational ==> (r.start_errors().foreign_keys matches Some(e) && e@ == chirondb_foreign_key_note()),
        !chirondb_relational ==> r.start_errors().indexes is None && r.start_errors().foreign_keys is None,
{
    let tables = tables_in_scope(tables, scope);
    let errors = begin_table_facets(chirondb_relational);
    let ghost listed = tables@;
    let ghost start = errors;
    let r = TableLoad {
        chirondb_relational,
        pending: tables,
        records: Vec::new(),
        output: Vec::new(),
        errors,
        tables: Ghost(listed),
        start: Ghost(start),
        done: Ghost(Seq::empty()),
        current: Ghost(Seq::empty()),
    };
    proof {
        assert(listed.skip(0) =~= listed);
        assert(r.reads() =~= Seq::<(TableFacet, Result<Vec<JsonValue>, String>)>::empty());
    }
    r
}

impl TableLoad {
    /// The next read: the table being read and its next facet, or `None`
    /// once every listed table is read.
    pub fn next_table_read(&self) -> (r: Option<(&str, TableFacet)>)
        requires
            self.wf(),
        ensures
            self.finished().len() < self.listed_tables().len() ==> (r matches Some((name, facet))
                && name@ == self.listed_tables()[self.finished().len() as int].name@
                && facet == table_reads(self.on_chirondb())[self.in_progress().len() as int]),
            self.finished().len() == self.listed_tables().len() ==> r is None,
    {
        if self.pending.len() == 0 {
            None
        } else {
            Some((self.pending[0].name.as_str(), planned_read(self.chirondb_relational, self.records.len())))
        }
    }

    /// Takes in the outcome of the next read. A fatal failure is the error
    /// and stops the listing; any other outcome is recorded, and a table is
    /// finished once its last facet is read.
    pub fn record_table_read(&mut self, result: Result<Vec<JsonValue>, String>) -> (r: Result<(), String>)
        requires
            old(self).wf(),
            old(self).finished().len() < old(self).listed_tables().len(),
        ensures
            match result {
                Err(e) => is_fatal_failure(e@) ==> r == Err::<(), String>(e) && *final(self) == *old(self),
                Ok(_) => true,
            },
            r is Ok ==> ({
                let read = old(self).in_progress().push(result);
                &&& final(self).wf()
                &&& final(self).listed_tables() == old(self).listed_tables()
                &&& final(self).on_chirondb() == old(self).on_chirondb()
                &&& final(self).start_errors() == old(self).start_errors()
                &&& final(self).reads() == old(self).reads().push((table_reads(old(self).on_chirondb())[old(self).in_progress().len() as int], result))
                &&& if read.len() == table_reads(old(self).on_chirondb()).len() {
                    final(self).finished() == old(self).finished().push(read) && final(self).in_progress().len() == 0
                } else {
                    final(self).finished() == old(self).finished() && final(self).in_progress() == read
                }
            }),
            r is Err <==> (result matches Err(e) && is_fatal_failure(e@)),
    {
        let ghost before = *self;
        let ghost facets = table_reads(self.chirondb_relational);
        let j = self.records.len();
        let facet = planned_read(self.chirondb_relational, j);
        let recs = match record_facet(&mut self.errors, facet, result) {
            Err(e) => {
                return Err(e);
            },
            Ok(v) => v,
        };
        self.records.push(recs);
        self.current = Ghost(self.current@.push(result));
        proof {
            assert(paired_reads(facets, self.current@) =~= paired_reads(facets, before.current@).push((facet, result)));
            assert(self.reads() =~= before.reads().push((facet, result)));
            assert(self.reads().drop_last() =~= before.reads());
            assert forall|k: int| 0 <= k < self.current@.len() implies (#[trigger] self.records@[k])@ == read_records(self.current@[k]) by {
                if k < j {
                    assert(self.records@[k] == before.records@[k]);
                }
            }
        }
        if self.records.len() == table_read_count(self.chirondb_relational) {
            let table = self.pending.remove(0);
            let ghost read = self.current@;
            let ghost recs_seq = self.records@;
            let (columns, indexes, foreign_keys) = if self.chirondb_relational {
                let columns = self.records.pop().unwrap();
                (columns, Vec::new(), Vec::new())
            } else {
                let foreign_keys = self.records.pop().unwrap();
                let indexes = self.records.pop().unwrap();
                let columns = self.records.pop().unwrap();
                (columns, indexes, foreign_keys)
            };
            self.output.push(SchemaViewTable { table, columns, indexes, foreign_keys });
            self.done = Ghost(self.done@.push(read));
            self.current = Ghost(Seq::empty());
            proof {
                let n = before.done@.len();
                assert(self.done@.drop_last() =~= before.done@);
                assert(listing_reads(facets, self.done@) == listing_reads(facets, before.done@) + paired_reads(facets, read));
                assert(paired_reads(facets, self.current@) =~= Seq::<(TableFacet, Result<Vec<JsonValue>, String>)>::empty());
                assert(self.reads() =~= before.reads().push((facet, result)));
                assert(self.pending@ =~= self.tables@.skip(self.done@.len() as int));
                assert(table_read(self.output@[n as int], self.tables@[n as int], self.chirondb_relational, read));
                assert forall|i: int| 0 <= i < self.done@.len() implies (#[trigger] self.done@[i]).len() == facets.len()
                    && table_read(self.output@[i], self.tables@[i], self.chirondb_relational, self.done@[i]) by {
                    if i < n {
                        assert(self.done@[i] == before.done@[i]);
                        assert(self.output@[i] == before.output@[i]);
                    }
                }
            }
        }
        Ok(())
    }

    /// The tables read, each with its records, and the facets of the
    /// listing: tables complete, then columns, indexes and foreign keys, each
    /// partial exactly when a read of it failed (or, on ChironDB's
    /// PostgreSQL-wire preview, for indexes and foreign keys), with its first
    /// error.
    pub fn finish_table_load(self) -> (r: (Vec<SchemaViewTable>, Vec<MetadataFacetStatus>))
        requires
            self.wf(),
            self.finished().len() == self.listed_tables().len(),
        ensures
            r.0@.len() == self.listed_tables().len(),
            forall|i: int| 0 <= i < r.0@.len() ==> (#[trigger] self.finished()[i]).len() == table_reads(self.on_chirondb()).len()
                && table_read(r.0@[i], self.listed_tables()[i], self.on_chirondb(), self.finished()[i]),
            ({
                let e = after_reads(self.start_errors(), listing_reads(table_reads(self.on_chirondb()), self.finished()));
                &&& r.1@.len() == 4
                &&& facet_is(r.1@[0], "tables"@, MetadataAvailability::Complete, None)
                &&& facet_is(r.1@[1], "columns"@, graded(e.columns), e.columns)
                &&& facet_is(r.1@[2], "indexes"@, graded(e.indexes), e.indexes)
                &&& facet_is(r.1@[3], "foreignKeys"@, graded(e.foreign_keys), e.foreign_keys)
            }),
    {
        proof {
            let facets = table_reads(self.chirondb_relational);
            assert(paired_reads(facets, self.current@) =~= Seq::<(TableFacet, Result<Vec<JsonValue>, String>)>::empty());
            assert(self.reads() =~= listing_reads(facets, self.done@));
        }
        let TableLoad { output, errors, .. } = self;
        (output, table_facets(errors))
    }
}

} // verus!
