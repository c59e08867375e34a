//! The shape of the database and how an older database is brought to it.
//!
//! Bringing the schema up to date is safe on every start. Tables and indexes
//! are created only where absent. A column is added only where the table
//! lacks it, which is found out by asking the database, so a step that has
//! been applied is never applied again, whatever version the database was
//! left at. Nothing of this removes user data.

use vstd::prelude::*;
use crate::seqs::lemma_filter_drops_all;
use crate::db::{db_query, error_text, SqlParam};
use crate::rows::{decodable_rows, DecodeError, SqlRow};
use crate::text::{contains_text, texts};

verus! {

pub const PRAGMA_WAL: &'static str = "PRAGMA journal_mode=WAL;";

pub const PRAGMA_FOREIGN_KEYS_ON: &'static str = "PRAGMA foreign_keys=ON;";

pub const PRAGMA_FOREIGN_KEYS_OFF: &'static str = "PRAGMA foreign_keys=OFF;";

pub const PRAGMA_BUSY_TIMEOUT: &'static str = "PRAGMA busy_timeout=5000;";

pub const PRAGMA_SYNCHRONOUS: &'static str = "PRAGMA synchronous=NORMAL;";

/// Creates every table and index that is absent, and drops two tables that
/// no longer hold anything.
pub const CREATE_TABLES: &'static str =
    "CREATE TABLE IF NOT EXISTS documents (
            id TEXT PRIMARY KEY,
            source TEXT NOT NULL,
            file_path TEXT,
            keep_local_id TEXT,
            title TEXT,
            author TEXT,
            url TEXT,
            word_count INTEGER DEFAULT 0,
            last_opened_at INTEGER NOT NULL,
            created_at INTEGER NOT NULL,
            UNIQUE(file_path),
            UNIQUE(keep_local_id)
        );

        CREATE TABLE IF NOT EXISTS document_tags (
            id TEXT PRIMARY KEY,
            document_id TEXT NOT NULL REFERENCES documents(id) ON DELETE CASCADE,
            tag TEXT NOT NULL,
            created_at INTEGER NOT NULL,
            UNIQUE(document_id, tag)
        );

        CREATE TABLE IF NOT EXISTS highlights (
            id TEXT PRIMARY KEY,
            document_id TEXT NOT NULL REFERENCES documents(id) ON DELETE CASCADE,
            color TEXT NOT NULL DEFAULT 'yellow',
            text_content TEXT NOT NULL,
            from_pos INTEGER NOT NULL,
            to_pos INTEGER NOT NULL,
            prefix_context TEXT,
            suffix_context TEXT,
            created_at INTEGER NOT NULL,
            updated_at INTEGER NOT NULL
        );

        CREATE TABLE IF NOT EXISTS margin_notes (
            id TEXT PRIMARY KEY,
            highlight_id TEXT NOT NULL REFERENCES highlights(id) ON DELETE CASCADE,
            content TEXT NOT NULL,
            created_at INTEGER NOT NULL,
            updated_at INTEGER NOT NULL
        );

        CREATE INDEX IF NOT EXISTS idx_highlights_document ON highlights(document_id);
        CREATE INDEX IF NOT EXISTS idx_margin_notes_highlight ON margin_notes(highlight_id);

        CREATE TABLE IF NOT EXISTS corrections (
            id TEXT PRIMARY KEY,
            highlight_id TEXT NOT NULL UNIQUE,
            document_id TEXT NOT NULL,
            session_id TEXT NOT NULL,
            original_text TEXT NOT NULL,
            prefix_context TEXT,
            suffix_context TEXT,
            extended_context TEXT,
            notes_json TEXT NOT NULL,
            document_title TEXT,
            document_source TEXT NOT NULL,
            document_path TEXT,
            category TEXT,
            highlight_color TEXT NOT NULL,
            created_at INTEGER NOT NULL,
            updated_at INTEGER NOT NULL
        );

        CREATE INDEX IF NOT EXISTS idx_corrections_document ON corrections(document_id);
        CREATE INDEX IF NOT EXISTS idx_corrections_session ON corrections(session_id);

        CREATE TABLE IF NOT EXISTS open_tabs (
            id TEXT PRIMARY KEY,
            document_id TEXT NOT NULL REFERENCES documents(id) ON DELETE CASCADE,
            tab_order INTEGER NOT NULL,
            is_active INTEGER NOT NULL DEFAULT 0,
            created_at INTEGER NOT NULL
        );

        DROP TABLE IF EXISTS comments;
        DROP TABLE IF EXISTS comment_threads;";

/// Lists the foreign keys of the corrections table, one row each.
pub const LIST_CORRECTION_FOREIGN_KEYS: &'static str = "PRAGMA foreign_key_list(corrections)";

/// Rebuilds the corrections table without foreign keys, as one transaction:
/// a table of the new shape is created, every row is copied into it, the
/// old table is dropped, the new one takes its name and the indexes are
/// created again. Rows are copied before anything is dropped.
pub const REBUILD_CORRECTIONS: &'static str =
    "BEGIN;

             CREATE TABLE corrections_new (
                 id TEXT PRIMARY KEY,
                 highlight_id TEXT NOT NULL UNIQUE,
                 document_id TEXT NOT NULL,
                 session_id TEXT NOT NULL,
                 original_text TEXT NOT NULL,
                 prefix_context TEXT,
                 suffix_context TEXT,
                 extended_context TEXT,
                 notes_json TEXT NOT NULL,
                 document_title TEXT,
                 document_source TEXT NOT NULL,
                 document_path TEXT,
                 category TEXT,
                 highlight_color TEXT NOT NULL,
                 created_at INTEGER NOT NULL,
                 updated_at INTEGER NOT NULL
             );

             INSERT INTO corrections_new SELECT * FROM corrections;

             DROP TABLE corrections;

             ALTER TABLE corrections_new RENAME TO corrections;

             CREATE INDEX IF NOT EXISTS idx_corrections_document ON corrections(document_id);
             CREATE INDEX IF NOT EXISTS idx_corrections_session ON corrections(session_id);

             COMMIT;";

/// Abandons a transaction that was left open.
pub const ROLLBACK: &'static str = "ROLLBACK;";

/// Lists the columns of the corrections table, one row each.
pub const CORRECTION_COLUMNS: &'static str = "PRAGMA table_info(corrections)";

/// Lists the columns of the documents table, one row each.
pub const DOCUMENT_COLUMNS: &'static str = "PRAGMA table_info(documents)";

pub const ADD_WRITING_TYPE: &'static str =
    "ALTER TABLE corrections ADD COLUMN writing_type TEXT;
             CREATE INDEX IF NOT EXISTS idx_corrections_writing_type ON corrections(writing_type);";

pub const ADD_ACCESS_COUNT: &'static str =
    "ALTER TABLE documents ADD COLUMN access_count INTEGER DEFAULT 0;";

pub const ADD_INDEXED_AT: &'static str = "ALTER TABLE documents ADD COLUMN indexed_at INTEGER;";

/// A step of bringing the schema up to date.
#[derive(Clone, Copy, Debug, PartialEq, Eq, Structural)]
pub enum SchemaStep {
    /// Setting the connection up: write-ahead logging, foreign keys, the
    /// busy timeout and relaxed durability.
    Pragmas,
    /// Creating the tables and indexes that are absent.
    CreateTables,
    /// Rebuilding the corrections table without foreign keys.
    RebuildCorrections,
    /// Asking for the columns of the corrections table.
    InspectCorrections,
    /// Adding the writing type to the corrections.
    AddWritingType,
    /// Asking for the columns of the documents table.
    InspectDocuments,
    /// Adding the access count to the documents.
    AddAccessCount,
    /// Adding the time of the last indexing to the documents.
    AddIndexedAt,
}

/// A failed step, in the engine's words. The schema may then lack what the
/// step and the steps after it add.
#[derive(Debug)]
pub struct SchemaError {
    pub step: SchemaStep,
    pub detail: String,
}

/// A change to the columns of a table.
#[derive(Clone, Copy, Debug, PartialEq, Eq, Structural)]
pub enum ColumnChange {
    WritingType,
    AccessCount,
    IndexedAt,
}

impl ColumnChange {
    /// The name of the column that the change adds.
    pub open spec fn column(self) -> Seq<char> {
        match self {
            ColumnChange::WritingType => "writing_type"@,
            ColumnChange::AccessCount => "access_count"@,
            ColumnChange::IndexedAt => "indexed_at"@,
        }
    }

    /// The step that the change is.
    pub open spec fn step(self) -> SchemaStep {
        match self {
            ColumnChange::WritingType => SchemaStep::AddWritingType,
            ColumnChange::AccessCount => SchemaStep::AddAccessCount,
            ColumnChange::IndexedAt => SchemaStep::AddIndexedAt,
        }
    }

    /// The name of the column that the change adds.
    pub fn column_name(self) -> (name: &'static str)
        ensures
            name@ == self.column(),
    {
        match self {
            ColumnChange::WritingType => "writing_type",
            ColumnChange::AccessCount => "access_count",
            ColumnChange::IndexedAt => "indexed_at",
        }
    }

    /// The statement that makes the change.
    pub fn statement(self) -> (sql: &'static str)
        ensures
            sql@ == (match self {
                ColumnChange::WritingType => ADD_WRITING_TYPE@,
                ColumnChange::AccessCount => ADD_ACCESS_COUNT@,
                ColumnChange::IndexedAt => ADD_INDEXED_AT@,
            }),
    {
        match self {
            ColumnChange::WritingType => ADD_WRITING_TYPE,
            ColumnChange::AccessCount => ADD_ACCESS_COUNT,
            ColumnChange::IndexedAt => ADD_INDEXED_AT,
        }
    }

    /// The step that the change is.
    pub fn as_step(self) -> (step: SchemaStep)
        ensures
            step == self.step(),
    {
        match self {
            ColumnChange::WritingType => SchemaStep::AddWritingType,
            ColumnChange::AccessCount => SchemaStep::AddAccessCount,
            ColumnChange::IndexedAt => SchemaStep::AddIndexedAt,
        }
    }
}

/// The changes that a table with the columns `columns` still needs, of the
/// changes `wanted`: those whose column the table lacks, in order.
pub open spec fn pending_changes(columns: Seq<Seq<char>>, wanted: Seq<ColumnChange>) -> Seq<
    ColumnChange,
> {
    wanted.filter(|change: ColumnChange| !columns.contains(change.column()))
}

/// The columns of a table once the changes have been made.
pub open spec fn columns_after(columns: Seq<Seq<char>>, changes: Seq<ColumnChange>) -> Seq<
    Seq<char>,
> {
    columns + changes.map_values(|change: ColumnChange| change.column())
}

/// The changes wanted of the corrections table.
pub open spec fn correction_changes() -> Seq<ColumnChange> {
    seq![ColumnChange::WritingType]
}

/// The changes wanted of the documents table.
pub open spec fn document_changes() -> Seq<ColumnChange> {
    seq![ColumnChange::AccessCount, ColumnChange::IndexedAt]
}

/// Picks the changes that a table with the columns `columns` still needs.
pub fn plan_changes(columns: &Vec<String>, wanted: &Vec<ColumnChange>) -> (plan: Vec<ColumnChange>)
    ensures
        plan@ == pending_changes(texts(columns@), wanted@),
{
    let ghost lacking = |change: ColumnChange| !texts(columns@).contains(change.column());
    let mut plan: Vec<ColumnChange> = Vec::new();
    let mut i: usize = 0;
    proof {
        reveal(Seq::filter);
        assert(wanted@.take(0) =~= Seq::<ColumnChange>::empty());
    }
    while i < wanted.len()
        invariant
            i <= wanted.len(),
            lacking == (|change: ColumnChange| !texts(columns@).contains(change.column())),
            plan@ == wanted@.take(i as int).filter(lacking),
        decreases wanted.len() - i,
    {
        proof {
            assert(wanted@.take(i + 1).drop_last() =~= wanted@.take(i as int));
            reveal(Seq::filter);
        }
        let change = wanted[i];
        if !contains_text(columns, change.column_name()) {
            plan.push(change);
        }
        i += 1;
    }
    assert(wanted@.take(i as int) =~= wanted@);
    plan
}

/// Bringing the columns up to date is idempotent: once the pending changes
/// have been made, none is pending.
pub proof fn lemma_changes_are_made_once(columns: Seq<Seq<char>>, wanted: Seq<ColumnChange>)
    ensures
        pending_changes(columns_after(columns, pending_changes(columns, wanted)), wanted)
            == Seq::<ColumnChange>::empty(),
{
    let made = pending_changes(columns, wanted);
    let after = columns_after(columns, made);
    let lacking = |change: ColumnChange| !columns.contains(change.column());
    let still = |change: ColumnChange| !after.contains(change.column());
    assert forall|i: int| 0 <= i < wanted.len() implies !still(#[trigger] wanted[i]) by {
        let change = wanted[i];
        if columns.contains(change.column()) {
            let k = choose|k: int| 0 <= k < columns.len() && columns[k] == change.column();
            assert(after[k] == change.column());
        } else {
            assert(lacking(change));
            wanted.lemma_filter_contains(lacking, i);
            let k = choose|k: int| 0 <= k < made.len() && made[k] == change;
            assert(after[columns.len() + k] == change.column());
        }
    }
    lemma_filter_drops_all(wanted, still);
}

/// A change is only made where the table lacks its column, so no column is
/// added twice: where the names of the columns differ from one another
/// before, they do so after.
pub proof fn lemma_no_column_is_added_twice(columns: Seq<Seq<char>>, change: ColumnChange)
    requires
        columns.no_duplicates(),
        pending_changes(columns, seq![change]).len() > 0,
    ensures
        columns_after(columns, seq![change]).no_duplicates(),
{
    reveal(Seq::filter);
    let lacking = |c: ColumnChange| !columns.contains(c.column());
    assert(seq![change].drop_last() =~= Seq::<ColumnChange>::empty());
    assert(Seq::<ColumnChange>::empty().filter(lacking) =~= Seq::<ColumnChange>::empty());
    assert(lacking(change));
    let after = columns_after(columns, seq![change]);
    assert(after =~= columns.push(change.column()));
    assert forall|i: int, j: int| 0 <= i < after.len() && 0 <= j < after.len() && i != j implies after[i]
        != after[j] by {
        if i == columns.len() {
            assert(columns[j] == after[j]);
        } else if j == columns.len() {
            assert(columns[i] == after[i]);
        }
    }
}

/// The name in a row of a column listing: the text in its second column.
pub open spec fn column_of_row(row: SqlRow) -> Result<String, DecodeError> {
    row.text_at(1)
}

/// Reads the names out of a column listing; a row without a name is left
/// out.
pub fn column_names(rows: &Vec<SqlRow>) -> (names: Vec<String>)
    ensures
        names@ == decodable_rows(rows@, |row: SqlRow| column_of_row(row)),
{
    let ghost decode = |row: SqlRow| column_of_row(row);
    let mut names: Vec<String> = Vec::new();
    let mut i: usize = 0;
    while i < rows.len()
        invariant
            i <= rows.len(),
            decode == (|row: SqlRow| column_of_row(row)),
            names@ == decodable_rows(rows@.take(i as int), decode),
        decreases rows.len() - i,
    {
        proof {
            assert(rows@.take(i + 1).drop_last() =~= rows@.take(i as int));
            assert(rows@.take(i + 1).last() == rows@[i as int]);
        }
        match rows[i].get_text(1) {
            Ok(name) => {
                names.push(name);
            },
            Err(_) => {},
        }
        i += 1;
    }
    assert(rows@.take(i as int) =~= rows@);
    names
}

fn run_step(conn: &rusqlite::Connection, step: SchemaStep, sql: &str) -> (r: Result<
    (),
    SchemaError,
>)
    ensures
        r is Err ==> r->Err_0.step == step,
{
    match conn.execute_batch(sql) {
        Ok(()) => Ok(()),
        Err(e) => Err(SchemaError { step, detail: error_text(&e) }),
    }
}

/// Sets the connection up: write-ahead logging, enforced foreign keys, a
/// busy timeout of five seconds and relaxed durability.
pub fn apply_pragmas(conn: &rusqlite::Connection) -> (r: Result<(), SchemaError>)
    ensures
        r is Err ==> r->Err_0.step == SchemaStep::Pragmas,
{
    run_step(conn, SchemaStep::Pragmas, PRAGMA_WAL)?;
    run_step(conn, SchemaStep::Pragmas, PRAGMA_FOREIGN_KEYS_ON)?;
    run_step(conn, SchemaStep::Pragmas, PRAGMA_BUSY_TIMEOUT)?;
    run_step(conn, SchemaStep::Pragmas, PRAGMA_SYNCHRONOUS)
}

/// The texts of a list of statements.
pub open spec fn batches_view(batches: Seq<&'static str>) -> Seq<Seq<char>> {
    Seq::new(batches.len(), |i: int| batches[i]@)
}

/// The rebuild of the corrections table: foreign keys are switched off,
/// the table is rebuilt in one transaction, foreign keys are switched on
/// again.
pub open spec fn rebuild_plan() -> Seq<Seq<char>> {
    seq![PRAGMA_FOREIGN_KEYS_OFF@, REBUILD_CORRECTIONS@, PRAGMA_FOREIGN_KEYS_ON@]
}

/// The recovery after a failed rebuild: the transaction that may have been
/// left open is abandoned, and foreign keys are switched on again.
pub open spec fn recovery_plan() -> Seq<Seq<char>> {
    seq![ROLLBACK@, PRAGMA_FOREIGN_KEYS_ON@]
}

/// Builds `rebuild_plan`.
pub fn rebuild_statements() -> (batches: Vec<&'static str>)
    ensures
        batches_view(batches@) == rebuild_plan(),
{
    let mut batches: Vec<&'static str> = Vec::new();
    batches.push(PRAGMA_FOREIGN_KEYS_OFF);
    batches.push(REBUILD_CORRECTIONS);
    batches.push(PRAGMA_FOREIGN_KEYS_ON);
    assert(batches_view(batches@) =~= rebuild_plan());
    batches
}

/// Builds `recovery_plan`.
pub fn recovery_statements() -> (batches: Vec<&'static str>)
    ensures
        batches_view(batches@) == recovery_plan(),
{
    let mut batches: Vec<&'static str> = Vec::new();
    batches.push(ROLLBACK);
    batches.push(PRAGMA_FOREIGN_KEYS_ON);
    assert(batches_view(batches@) =~= recovery_plan());
    batches
}

/// Runs the statements in order as the step `step` and stops at the first
/// that fails. No statement, no failure.
pub fn run_batches(conn: &rusqlite::Connection, step: SchemaStep, batches: &Vec<&'static str>) -> (r:
    Result<(), SchemaError>)
    ensures
        batches@.len() == 0 ==> r is Ok,
        r is Err ==> r->Err_0.step == step,
{
    let mut i: usize = 0;
    while i < batches.len()
        invariant
            i <= batches.len(),
        decreases batches.len() - i,
    {
        run_step(conn, step, batches[i])?;
        i += 1;
    }
    Ok(())
}

/// Runs every one of the statements in order, whatever becomes of each: a
/// statement that fails does not keep the next from running.
pub fn attempt_batches(conn: &rusqlite::Connection, batches: &Vec<&'static str>) {
    let mut i: usize = 0;
    while i < batches.len()
        invariant
            i <= batches.len(),
        decreases batches.len() - i,
    {
        let _ = conn.execute_batch(batches[i]);
        i += 1;
    }
}

/// Whether the recovery has to run after the rebuild: where the rebuild
/// failed at any of its statements.
pub fn recovery_is_due(rebuilt: &Result<(), SchemaError>) -> (due: bool)
    ensures
        due == (rebuilt is Err),
{
    rebuilt.is_err()
}

/// Rebuilds the corrections table where it has foreign keys, `foreign_keys`
/// being their number. A table without foreign keys is left alone.
///
/// The statements of `rebuild_plan` run in order. Where one of them fails,
/// those of `recovery_plan` run, every one of them, and the failure of the
/// rebuild is returned: the old table is then still there.
pub fn rebuild_if_constrained(conn: &rusqlite::Connection, foreign_keys: usize) -> (r: Result<
    (),
    SchemaError,
>)
    ensures
        foreign_keys == 0 ==> r is Ok,
        r is Err ==> r->Err_0.step == SchemaStep::RebuildCorrections,
{
    if foreign_keys == 0 {
        return Ok(());
    }
    let rebuilt = run_batches(conn, SchemaStep::RebuildCorrections, &rebuild_statements());
    if recovery_is_due(&rebuilt) {
        attempt_batches(conn, &recovery_statements());
    }
    rebuilt
}

/// Removes the foreign keys from the corrections table, which must accept
/// corrections for documents and highlights that are not stored.
pub fn migrate_corrections_drop_fks(conn: &rusqlite::Connection) -> (r: Result<(), SchemaError>)
    ensures
        r is Err ==> r->Err_0.step == SchemaStep::RebuildCorrections,
{
    let none: Vec<SqlParam> = Vec::new();
    match db_query(conn, LIST_CORRECTION_FOREIGN_KEYS, &none) {
        Ok(rows) => rebuild_if_constrained(conn, rows.len()),
        Err(e) => Err(SchemaError { step: SchemaStep::RebuildCorrections, detail: error_text(&e) }),
    }
}

/// Whether `step` is the step of one of the changes.
pub open spec fn is_step_of(step: SchemaStep, changes: Seq<ColumnChange>) -> bool {
    exists|i: int| 0 <= i < changes.len() && (#[trigger] changes[i]).step() == step
}

/// Makes the changes in order and stops at the first that fails.
pub fn make_changes(conn: &rusqlite::Connection, changes: &Vec<ColumnChange>) -> (r: Result<
    (),
    SchemaError,
>)
    ensures
        changes@.len() == 0 ==> r is Ok,
        r is Err ==> is_step_of(r->Err_0.step, changes@),
{
    let mut i: usize = 0;
    while i < changes.len()
        invariant
            i <= changes.len(),
        decreases changes.len() - i,
    {
        let change = changes[i];
        match run_step(conn, change.as_step(), change.statement()) {
            Ok(()) => {},
            Err(e) => {
                assert(changes@[i as int].step() == e.step);
                return Err(e);
            },
        }
        i += 1;
    }
    Ok(())
}

/// Adds to a table with the columns `columns` those of the `wanted` columns
/// that it lacks. A table that has them all is left alone.
pub fn add_missing_columns(
    conn: &rusqlite::Connection,
    columns: &Vec<String>,
    wanted: &Vec<ColumnChange>,
) -> (r: Result<(), SchemaError>)
    ensures
        pending_changes(texts(columns@), wanted@).len() == 0 ==> r is Ok,
        r is Err ==> is_step_of(r->Err_0.step, pending_changes(texts(columns@), wanted@)),
{
    let plan = plan_changes(columns, wanted);
    make_changes(conn, &plan)
}

/// Asks for the columns of a table; `step` names the question in a failure.
pub fn table_columns(conn: &rusqlite::Connection, listing: &str, step: SchemaStep) -> (r: Result<
    Vec<String>,
    SchemaError,
>)
    ensures
        r is Err ==> r->Err_0.step == step,
{
    let none: Vec<SqlParam> = Vec::new();
    match db_query(conn, listing, &none) {
        Ok(rows) => Ok(column_names(&rows)),
        Err(e) => Err(SchemaError { step, detail: error_text(&e) }),
    }
}

/// Adds the writing type to the corrections table where it lacks it.
pub fn migrate_corrections_add_writing_type(conn: &rusqlite::Connection) -> (r: Result<
    (),
    SchemaError,
>)
    ensures
        r is Err ==> r->Err_0.step == SchemaStep::InspectCorrections || r->Err_0.step
            == SchemaStep::AddWritingType,
{
    let columns = table_columns(conn, CORRECTION_COLUMNS, SchemaStep::InspectCorrections)?;
    let mut wanted: Vec<ColumnChange> = Vec::new();
    wanted.push(ColumnChange::WritingType);
    assert(wanted@ =~= correction_changes());
    let r = add_missing_columns(conn, &columns, &wanted);
    proof {
        if r is Err {
            let pending = pending_changes(texts(columns@), wanted@);
            let i = choose|i: int| 0 <= i < pending.len() && (#[trigger] pending[i]).step() == r->Err_0.step;
            wanted@.lemma_filter_contains_rev(
                |change: ColumnChange| !texts(columns@).contains(change.column()),
                pending[i],
            );
        }
    }
    r
}

/// Adds the access count and the time of the last indexing to the
/// documents table, each where the table lacks it.
pub fn migrate_documents_add_frecency_columns(conn: &rusqlite::Connection) -> (r: Result<
    (),
    SchemaError,
>)
    ensures
        r is Err ==> r->Err_0.step == SchemaStep::InspectDocuments || r->Err_0.step
            == SchemaStep::AddAccessCount || r->Err_0.step == SchemaStep::AddIndexedAt,
{
    let columns = table_columns(conn, DOCUMENT_COLUMNS, SchemaStep::InspectDocuments)?;
    let mut wanted: Vec<ColumnChange> = Vec::new();
    wanted.push(ColumnChange::AccessCount);
    wanted.push(ColumnChange::IndexedAt);
    assert(wanted@ =~= document_changes());
    let r = add_missing_columns(conn, &columns, &wanted);
    proof {
        if r is Err {
            let pending = pending_changes(texts(columns@), wanted@);
            let i = choose|i: int| 0 <= i < pending.len() && (#[trigger] pending[i]).step() == r->Err_0.step;
            wanted@.lemma_filter_contains_rev(
                |change: ColumnChange| !texts(columns@).contains(change.column()),
                pending[i],
            );
        }
    }
    r
}

/// Brings the schema up to date: the connection is set up, absent tables
/// and indexes are created, and every migration is applied where the
/// database still needs it. The first step that fails is returned, and no
/// later step is tried.
pub fn init_db(conn: &rusqlite::Connection) -> (r: Result<(), SchemaError>) {
    apply_pragmas(conn)?;
    run_step(conn, SchemaStep::CreateTables, CREATE_TABLES)?;
    migrate_corrections_drop_fks(conn)?;
    migrate_corrections_add_writing_type(conn)?;
    migrate_documents_add_frecency_columns(conn)
}

} // verus!
