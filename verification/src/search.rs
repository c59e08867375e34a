//! The full-text index: storing a document, removing it, and the ranked
//! lookup.
//!
//! The index lives in the database engine, which tokenises, matches and
//! ranks. What is decided here is which statements run in which order, what
//! is handed to them, and what becomes of each outcome.

use vstd::prelude::*;
use crate::seqs::{lemma_filter_drops_all, lemma_filter_twice};
use crate::db::{
    db_execute, db_query_staged, failure, params_view, run_all, staged_failure, statements_view,
    text_param, SqlParam, SqlParamData, PlannedStatement, StatementData,
};
use crate::query::{sanitize_fts_query, sanitized_query};
use crate::rows::{
    decoded_rows, describe_decode_error, lemma_decoded_step, lemma_failure_persists, DecodeError,
    SqlRow,
};
use crate::text::{appended, starts_with};

verus! {

/// Creates the full-text table when it is absent: title and content are
/// indexed, the document id is stored beside them, diacritics are folded and
/// prefixes of two and three characters are kept for prefix queries.
pub const CREATE_INDEX_TABLE: &'static str =
    "CREATE VIRTUAL TABLE IF NOT EXISTS documents_fts USING fts5(
            title, content, document_id UNINDEXED,
            prefix='2,3',
            tokenize='unicode61 remove_diacritics 2'
        );";

/// Removes every full-text entry of one document.
pub const DELETE_INDEX_ENTRY: &'static str = "DELETE FROM documents_fts WHERE document_id = ?1";

/// Stores the full-text entry of one document.
pub const INSERT_INDEX_ENTRY: &'static str =
    "INSERT INTO documents_fts (document_id, title, content) VALUES (?1, ?2, ?3)";

/// Counts one more access of a document.
pub const BUMP_ACCESS_COUNT: &'static str =
    "UPDATE documents SET access_count = COALESCE(access_count, 0) + 1 WHERE id = ?1";

/// The ranked lookup. The lexical rank weighs a title match ten times a body
/// match; the frecency bonus, access count over one plus a tenth of the days
/// since the document was last opened, is blended in at three tenths and
/// subtracted, lower being better. The snippet marks the matched terms and is
/// bounded to 32 tokens.
pub const RANKED_LOOKUP: &'static str =
    "SELECT f.document_id, f.title,
                    snippet(documents_fts, 1, '<mark>', '</mark>', '\u{2026}', 32) as snippet,
                    bm25(documents_fts, 10.0, 1.0) as bm25_rank
             FROM documents_fts f
             LEFT JOIN documents d ON d.id = f.document_id
             WHERE documents_fts MATCH ?1
             ORDER BY bm25(documents_fts, 10.0, 1.0)
                      - (COALESCE(d.access_count, 0) * 1.0 /
                         (1.0 + MAX(0, julianday('now') - julianday(datetime(COALESCE(d.last_opened_at, 0) / 1000, 'unixepoch'))) * 0.1))
                      * 0.3
             LIMIT ?2";

/// Whether the frecency bonus of a document opened `count` times and last
/// opened `days` days ago exceeds that of a document opened `other_count`
/// times and last opened `other_days` days ago. The lookup computes the
/// bonus as `count / (1 + days * 0.1) * 0.3`; the two bonuses are compared
/// here in exact arithmetic, both sides multiplied by the two denominators.
/// The lookup itself computes in floating point, which is not proved to
/// agree.
pub open spec fn bonus_exceeds(count: nat, days: nat, other_count: nat, other_days: nat) -> bool {
    count * (10 + other_days) > other_count * (10 + days)
}

/// Of two documents opened equally often, the one opened more recently has
/// the greater bonus.
pub proof fn lemma_recency_raises_the_bonus(count: nat, days: nat, other_days: nat)
    requires
        count > 0,
        days < other_days,
    ensures
        bonus_exceeds(count, days, count, other_days),
{
    assert(count * (10 + other_days) > count * (10 + days)) by (nonlinear_arith)
        requires
            count > 0,
            days < other_days,
    ;
}

/// Of two documents last opened on the same day, the one opened more often
/// has the greater bonus.
pub proof fn lemma_frequency_raises_the_bonus(count: nat, other_count: nat, days: nat)
    requires
        count > other_count,
    ensures
        bonus_exceeds(count, days, other_count, days),
{
    assert(count * (10 + days) > other_count * (10 + days)) by (nonlinear_arith)
        requires
            count > other_count,
    ;
}

/// Time outweighs frequency: a document opened three times and last opened
/// today has a greater bonus than one opened a hundred times and last
/// opened two years ago, and so than any document opened as often as that
/// or less and as long ago or longer.
pub proof fn lemma_decay_outweighs_frequency(other_count: nat, other_days: nat)
    requires
        other_count <= 100,
        other_days >= 730,
    ensures
        bonus_exceeds(3, 0, other_count, other_days),
{
    assert(3 * (10 + other_days) > other_count * 10) by (nonlinear_arith)
        requires
            other_count <= 100,
            other_days >= 730,
    ;
}

pub const CREATE_FAILED: &'static str = "Failed to create FTS table: ";

pub const DELETE_FAILED: &'static str = "Failed to delete existing FTS entry: ";

pub const INSERT_FAILED: &'static str = "Failed to index document: ";

pub const REMOVE_FAILED: &'static str = "Failed to remove document from index: ";

pub const PREPARE_FAILED: &'static str = "Failed to prepare search query: ";

pub const LOOKUP_FAILED: &'static str = "Search query failed: ";

pub const COLLECT_FAILED: &'static str = "Failed to collect search results: ";

pub const BUMP_FAILED: &'static str = "Failed to increment access count: ";

/// One hit of a search, best first in the list that holds it.
#[derive(Debug)]
pub struct SearchResult {
    pub document_id: String,
    pub title: String,
    pub snippet: String,
    /// The lexical rank as the engine computed it, by its IEEE-754 bit
    /// pattern.
    pub rank_bits: u64,
}

/// A file found on disk.
#[derive(Debug)]
pub struct FileSearchResult {
    pub path: String,
    pub filename: String,
}

/// The counts of one bulk re-index run.
#[derive(Debug, Clone, Copy, PartialEq, Eq, Structural)]
pub struct IndexAllResult {
    pub indexed: usize,
    pub skipped: usize,
    pub errors: usize,
}

impl SearchResult {
    /// The hit that a row of the ranked lookup stands for: document id, title
    /// and snippet as text, the rank as a floating-point value.
    pub open spec fn of_row(row: SqlRow) -> Result<SearchResult, DecodeError> {
        match (row.text_at(0), row.text_at(1), row.text_at(2), row.real_at(3)) {
            (Err(e), _, _, _) => Err(e),
            (Ok(_), Err(e), _, _) => Err(e),
            (Ok(_), Ok(_), Err(e), _) => Err(e),
            (Ok(_), Ok(_), Ok(_), Err(e)) => Err(e),
            (Ok(document_id), Ok(title), Ok(snippet), Ok(rank_bits)) => Ok(
                SearchResult { document_id, title, snippet, rank_bits },
            ),
        }
    }

    /// Decodes one row of the ranked lookup.
    pub fn from_row(row: &SqlRow) -> (r: Result<SearchResult, DecodeError>)
        ensures
            r == SearchResult::of_row(*row),
    {
        let document_id = row.get_text(0)?;
        let title = row.get_text(1)?;
        let snippet = row.get_text(2)?;
        let rank_bits = row.get_real(3)?;
        Ok(SearchResult { document_id, title, snippet, rank_bits })
    }
}

/// The hits that the rows stand for, in order; the first row that cannot be
/// decoded fails the whole list.
pub open spec fn search_results_of(rows: Seq<SqlRow>) -> Result<Seq<SearchResult>, DecodeError> {
    decoded_rows(rows, |row: SqlRow| SearchResult::of_row(row))
}

/// The first `limit` items of `hits`; all of them under a negative limit,
/// which the engine reads as no limit.
pub open spec fn limited<T>(hits: Seq<T>, limit: int) -> Seq<T> {
    if 0 <= limit < hits.len() {
        hits.take(limit)
    } else {
        hits
    }
}

/// Decodes the rows of a ranked lookup, best first, and keeps at most
/// `limit` of them.
pub fn collect_search_results(rows: &Vec<SqlRow>, limit: i32) -> (r: Result<
    Vec<SearchResult>,
    DecodeError,
>)
    ensures
        match search_results_of(rows@) {
            Ok(hits) => r is Ok && r->Ok_0@ == limited(hits, limit as int),
            Err(e) => r == Err::<Vec<SearchResult>, DecodeError>(e),
        },
{
    let ghost decode = |row: SqlRow| SearchResult::of_row(row);
    let mut hits: Vec<SearchResult> = Vec::new();
    let mut i: usize = 0;
    while i < rows.len()
        invariant
            i <= rows.len(),
            decode == (|row: SqlRow| SearchResult::of_row(row)),
            decoded_rows(rows@.take(i as int), decode) == Ok::<Seq<SearchResult>, DecodeError>(
                hits@,
            ),
        decreases rows.len() - i,
    {
        proof {
            lemma_decoded_step(rows@, decode, i as int);
        }
        match SearchResult::from_row(&rows[i]) {
            Ok(hit) => {
                hits.push(hit);
            },
            Err(e) => {
                proof {
                    lemma_failure_persists(rows@, decode, i as int + 1);
                }
                return Err(e);
            },
        }
        i += 1;
    }
    assert(rows@.take(i as int) =~= rows@);
    if limit >= 0 && (limit as usize) < hits.len() {
        hits.truncate(limit as usize);
    }
    Ok(hits)
}

/// The messages with which indexing a document fails.
pub open spec fn is_index_failure(message: Seq<char>) -> bool {
    ||| starts_with(message, CREATE_FAILED@)
    ||| starts_with(message, DELETE_FAILED@)
    ||| starts_with(message, INSERT_FAILED@)
}

/// The messages with which a search fails.
pub open spec fn is_search_failure(message: Seq<char>) -> bool {
    ||| starts_with(message, CREATE_FAILED@)
    ||| starts_with(message, PREPARE_FAILED@)
    ||| starts_with(message, LOOKUP_FAILED@)
    ||| starts_with(message, COLLECT_FAILED@)
}

/// The messages with which removing a document from the index fails.
pub open spec fn is_remove_failure(message: Seq<char>) -> bool {
    ||| starts_with(message, CREATE_FAILED@)
    ||| starts_with(message, REMOVE_FAILED@)
}

/// Makes sure the full-text table exists.
pub fn ensure_fts_table(conn: &rusqlite::Connection) -> (r: Result<(), String>)
    ensures
        r is Err ==> starts_with(r->Err_0@, CREATE_FAILED@),
{
    match conn.execute_batch(CREATE_INDEX_TABLE) {
        Ok(()) => Ok(()),
        Err(e) => Err(failure(CREATE_FAILED, &e)),
    }
}

/// What replacing the entry of a document hands to the engine: first the
/// removal of every entry of the document, then the new entry.
pub open spec fn replacement(document_id: Seq<char>, title: Seq<char>, content: Seq<char>) -> Seq<
    StatementData,
> {
    seq![
        StatementData {
            sql: DELETE_INDEX_ENTRY@,
            params: seq![SqlParamData::Text(document_id)],
            context: DELETE_FAILED@,
        },
        StatementData {
            sql: INSERT_INDEX_ENTRY@,
            params: seq![
                SqlParamData::Text(document_id),
                SqlParamData::Text(title),
                SqlParamData::Text(content),
            ],
            context: INSERT_FAILED@,
        },
    ]
}

/// What removing the entry of a document hands to the engine: the removal
/// of every entry of the document.
pub open spec fn removal(document_id: Seq<char>) -> Seq<StatementData> {
    seq![
        StatementData {
            sql: DELETE_INDEX_ENTRY@,
            params: seq![SqlParamData::Text(document_id)],
            context: REMOVE_FAILED@,
        },
    ]
}

/// An entry of the index: a document, its title and its content.
pub ghost struct IndexEntry {
    pub document_id: Seq<char>,
    pub title: Seq<char>,
    pub content: Seq<char>,
}

/// The entries of a document among `entries`.
pub open spec fn entries_of(entries: Seq<IndexEntry>, document_id: Seq<char>) -> Seq<IndexEntry> {
    entries.filter(|e: IndexEntry| e.document_id == document_id)
}

/// The entries of the index after one statement, as the statements of this
/// module are meant: `DELETE_INDEX_ENTRY` leaves the entries of every other
/// document, `INSERT_INDEX_ENTRY` adds the entry it is given. This is the
/// reading of the two statements on which the laws below rest; what the
/// engine makes of them is not proved here.
pub open spec fn entries_after(entries: Seq<IndexEntry>, statement: StatementData) -> Seq<
    IndexEntry,
> {
    if statement.sql == DELETE_INDEX_ENTRY@ && statement.params.len() == 1
        && statement.params[0] is Text {
        entries.filter(|e: IndexEntry| e.document_id != statement.params[0]->Text_0)
    } else if statement.sql == INSERT_INDEX_ENTRY@ && statement.params.len() == 3
        && statement.params[0] is Text && statement.params[1] is Text
        && statement.params[2] is Text {
        entries.push(
            IndexEntry {
                document_id: statement.params[0]->Text_0,
                title: statement.params[1]->Text_0,
                content: statement.params[2]->Text_0,
            },
        )
    } else {
        entries
    }
}

/// The entries of the index after the statements, one after the other.
pub open spec fn entries_after_all(entries: Seq<IndexEntry>, statements: Seq<StatementData>) -> Seq<
    IndexEntry,
>
    decreases statements.len(),
{
    if statements.len() == 0 {
        entries
    } else {
        entries_after(entries_after_all(entries, statements.drop_last()), statements.last())
    }
}

/// The two statements of the index differ.
pub proof fn lemma_statements_differ()
    ensures
        DELETE_INDEX_ENTRY@ != INSERT_INDEX_ENTRY@,
{
    reveal_strlit("DELETE FROM documents_fts WHERE document_id = ?1");
    reveal_strlit("INSERT INTO documents_fts (document_id, title, content) VALUES (?1, ?2, ?3)");
    assert(DELETE_INDEX_ENTRY@[0] == 'D');
    assert(INSERT_INDEX_ENTRY@[0] == 'I');
}

/// What is left of a document after its entries were removed: nothing.
pub proof fn lemma_removed_leaves_none(entries: Seq<IndexEntry>, document_id: Seq<char>)
    ensures
        entries_of(
            entries.filter(|e: IndexEntry| e.document_id != document_id),
            document_id,
        ) == Seq::<IndexEntry>::empty(),
{
    let others = |e: IndexEntry| e.document_id != document_id;
    let own = |e: IndexEntry| e.document_id == document_id;
    let removed = entries.filter(others);
    assert forall|i: int| 0 <= i < removed.len() implies !own(#[trigger] removed[i]) by {
        entries.lemma_filter_pred(others, i);
    }
    lemma_filter_drops_all(removed, own);
}

/// Removing the entries of one document leaves those of every other.
pub proof fn lemma_removal_spares_others(
    entries: Seq<IndexEntry>,
    document_id: Seq<char>,
    other: Seq<char>,
)
    requires
        other != document_id,
    ensures
        entries_of(entries.filter(|e: IndexEntry| e.document_id != document_id), other)
            == entries_of(entries, other),
{
    lemma_filter_twice(
        entries,
        |e: IndexEntry| e.document_id != document_id,
        |e: IndexEntry| e.document_id == other,
    );
}

/// After a document was indexed the index holds exactly one entry of it,
/// with the title and the content it was indexed with, whatever the index
/// held of it before. So indexing the same content twice leaves one entry
/// and no duplicate, and indexing other content replaces the old entry
/// whole.
pub proof fn lemma_indexed_document_has_one_entry(
    entries: Seq<IndexEntry>,
    document_id: Seq<char>,
    title: Seq<char>,
    content: Seq<char>,
)
    ensures
        entries_of(
            entries_after_all(entries, replacement(document_id, title, content)),
            document_id,
        ) == seq![IndexEntry { document_id, title, content }],
{
    let plan = replacement(document_id, title, content);
    lemma_statements_differ();
    reveal_with_fuel(entries_after_all, 3);
    assert(plan.drop_last().drop_last() =~= Seq::<StatementData>::empty());
    assert(plan.drop_last().last() == plan[0]);
    let removed = entries.filter(|e: IndexEntry| e.document_id != document_id);
    assert(entries_after_all(entries, plan.drop_last()) == removed);
    let entry = IndexEntry { document_id, title, content };
    assert(entries_after_all(entries, plan) == removed.push(entry));
    lemma_removed_leaves_none(entries, document_id);
    reveal(Seq::filter);
    assert(removed.push(entry).drop_last() =~= removed);
    assert(entries_of(removed, document_id) =~= Seq::<IndexEntry>::empty());
    assert(entries_of(removed.push(entry), document_id) =~= seq![entry]);
}

/// After a document was removed the index holds no entry of it, whatever it
/// held before: a document that was indexed and then removed has nothing
/// left that a term could match.
pub proof fn lemma_removed_document_has_no_entry(
    entries: Seq<IndexEntry>,
    document_id: Seq<char>,
)
    ensures
        entries_of(entries_after_all(entries, removal(document_id)), document_id)
            == Seq::<IndexEntry>::empty(),
{
    let plan = removal(document_id);
    reveal_with_fuel(entries_after_all, 2);
    assert(plan.drop_last() =~= Seq::<StatementData>::empty());
    lemma_removed_leaves_none(entries, document_id);
}

/// Indexing or removing one document leaves the entries of every other
/// document as they were.
pub proof fn lemma_other_documents_are_untouched(
    entries: Seq<IndexEntry>,
    document_id: Seq<char>,
    title: Seq<char>,
    content: Seq<char>,
    other: Seq<char>,
)
    requires
        other != document_id,
    ensures
        entries_of(entries_after_all(entries, replacement(document_id, title, content)), other)
            == entries_of(entries, other),
        entries_of(entries_after_all(entries, removal(document_id)), other) == entries_of(
            entries,
            other,
        ),
{
    lemma_statements_differ();
    lemma_removal_spares_others(entries, document_id, other);
    let removed = entries.filter(|e: IndexEntry| e.document_id != document_id);
    let plan = replacement(document_id, title, content);
    reveal_with_fuel(entries_after_all, 3);
    assert(plan.drop_last().drop_last() =~= Seq::<StatementData>::empty());
    assert(plan.drop_last().last() == plan[0]);
    assert(entries_after_all(entries, plan.drop_last()) == removed);
    let entry = IndexEntry { document_id, title, content };
    assert(entries_after_all(entries, plan) == removed.push(entry));
    assert(removal(document_id).drop_last() =~= Seq::<StatementData>::empty());
    assert(entries_after_all(entries, removal(document_id)) == removed);
    reveal(Seq::filter);
    assert(removed.push(entry).drop_last() =~= removed);
}

/// The single parameter of a statement keyed by a document id.
pub fn document_key_params(document_id: &str) -> (params: Vec<SqlParam>)
    ensures
        params_view(params@) == seq![SqlParamData::Text(document_id@)],
{
    let mut params: Vec<SqlParam> = Vec::new();
    params.push(text_param(document_id));
    assert(params_view(params@) =~= seq![SqlParamData::Text(document_id@)]);
    params
}

/// Builds `replacement`.
pub fn replacement_statements(document_id: &str, title: &str, content: &str) -> (statements: Vec<
    PlannedStatement,
>)
    ensures
        statements_view(statements@) == replacement(document_id@, title@, content@),
{
    let mut entry: Vec<SqlParam> = Vec::new();
    entry.push(text_param(document_id));
    entry.push(text_param(title));
    entry.push(text_param(content));
    assert(params_view(entry@) =~= seq![
        SqlParamData::Text(document_id@),
        SqlParamData::Text(title@),
        SqlParamData::Text(content@),
    ]);
    let mut statements: Vec<PlannedStatement> = Vec::new();
    statements.push(
        PlannedStatement {
            sql: DELETE_INDEX_ENTRY,
            params: document_key_params(document_id),
            context: DELETE_FAILED,
        },
    );
    statements.push(PlannedStatement { sql: INSERT_INDEX_ENTRY, params: entry, context: INSERT_FAILED });
    assert(statements_view(statements@) =~= replacement(document_id@, title@, content@));
    statements
}

/// Builds `removal`.
pub fn removal_statements(document_id: &str) -> (statements: Vec<PlannedStatement>)
    ensures
        statements_view(statements@) == removal(document_id@),
{
    let mut statements: Vec<PlannedStatement> = Vec::new();
    statements.push(
        PlannedStatement {
            sql: DELETE_INDEX_ENTRY,
            params: document_key_params(document_id),
            context: REMOVE_FAILED,
        },
    );
    assert(statements_view(statements@) =~= removal(document_id@));
    statements
}

/// Replaces the full-text entry of a document: the table is created where
/// it is absent, then the statements of `replacement` run in order, so that
/// whatever entry the document had is deleted before the new one is stored.
/// The content is handed to the engine whole; it is the engine that
/// tokenises it.
///
/// Whether the calls succeed is the engine's to decide. A failure names the
/// step that failed.
pub fn index_document_inner(
    conn: &rusqlite::Connection,
    document_id: &str,
    title: &str,
    content: &str,
) -> (r: Result<(), String>)
    ensures
        r is Err ==> is_index_failure(r->Err_0@),
{
    ensure_fts_table(conn)?;
    let statements = replacement_statements(document_id, title, content);
    let r = run_all(conn, &statements);
    proof {
        if r is Err {
            let i = choose|i: int|
                0 <= i < statements@.len() && starts_with(
                    r->Err_0@,
                    (#[trigger] statements@[i]).context@,
                );
            let plan = replacement(document_id@, title@, content@);
            assert(statements_view(statements@).len() == plan.len());
            assert(statements_view(statements@)[i] == statements@[i]@);
            assert(statements@[i].context@ == plan[i].context);
            assert(i == 0 || i == 1);
        }
    }
    r
}

/// Removes the full-text entry of a document: the table is created where it
/// is absent, then the statement of `removal` runs. Removing an entry that
/// is not there is no error.
pub fn remove_document_index_inner(conn: &rusqlite::Connection, document_id: &str) -> (r: Result<
    (),
    String,
>)
    ensures
        r is Err ==> is_remove_failure(r->Err_0@),
{
    ensure_fts_table(conn)?;
    let statements = removal_statements(document_id);
    let r = run_all(conn, &statements);
    proof {
        if r is Err {
            let i = choose|i: int|
                0 <= i < statements@.len() && starts_with(
                    r->Err_0@,
                    (#[trigger] statements@[i]).context@,
                );
            let plan = removal(document_id@);
            assert(statements_view(statements@).len() == plan.len());
            assert(statements_view(statements@)[i] == statements@[i]@);
            assert(statements@[i].context@ == plan[i].context);
            assert(i == 0);
        }
    }
    r
}

/// Counts one more access of a document, the frequency half of frecency.
pub fn increment_access_count(conn: &rusqlite::Connection, document_id: &str) -> (r: Result<
    (),
    String,
>)
    ensures
        r is Err ==> starts_with(r->Err_0@, BUMP_FAILED@),
{
    let key = document_key_params(document_id);
    match db_execute(conn, BUMP_ACCESS_COUNT, &key) {
        Ok(_) => Ok(()),
        Err(e) => Err(failure(BUMP_FAILED, &e)),
    }
}

/// What a search returns once the engine has answered: the decoded hits,
/// at most `limit` of them, or the message for the failure.
pub fn finish_search(answer: Result<Vec<SqlRow>, String>, limit: i32) -> (r: Result<
    Vec<SearchResult>,
    String,
>)
    ensures
        match answer {
            Err(message) => r == Err::<Vec<SearchResult>, String>(message),
            Ok(rows) => match search_results_of(rows@) {
                Ok(hits) => r is Ok && r->Ok_0@ == limited(hits, limit as int),
                Err(e) => r is Err && starts_with(r->Err_0@, COLLECT_FAILED@),
            },
        },
{
    match answer {
        Err(message) => Err(message),
        Ok(rows) => match collect_search_results(&rows, limit) {
            Ok(hits) => Ok(hits),
            Err(e) => {
                let detail = describe_decode_error(e);
                let message = appended(COLLECT_FAILED, detail.as_str());
                assert(message@.subrange(0, COLLECT_FAILED@.len() as int) =~= COLLECT_FAILED@);
                Err(message)
            },
        },
    }
}

/// The parameters of `RANKED_LOOKUP`: the query expression and the limit.
pub fn lookup_params(expression: String, limit: i32) -> (params: Vec<SqlParam>)
    ensures
        params_view(params@) == seq![
            SqlParamData::Text(expression@),
            SqlParamData::Integer(limit as int),
        ],
{
    let ghost text = expression@;
    let mut params: Vec<SqlParam> = Vec::new();
    params.push(SqlParam::Text(expression));
    params.push(SqlParam::Integer(limit as i64));
    assert(params_view(params@) =~= seq![
        SqlParamData::Text(text),
        SqlParamData::Integer(limit as int),
    ]);
    params
}

/// The parameters of `RANKED_LOOKUP` for a raw query: the sanitised
/// expression and the limit. There are none where nothing of the query
/// survives, and then there is nothing to look up.
pub fn search_params(query: &str, limit: i32) -> (params: Option<Vec<SqlParam>>)
    ensures
        params is None <==> sanitized_query(query@).len() == 0,
        params is Some ==> params_view(params->Some_0@) == seq![
            SqlParamData::Text(sanitized_query(query@)),
            SqlParamData::Integer(limit as int),
        ],
{
    let expression = sanitize_fts_query(query);
    if expression.as_str().unicode_len() == 0 {
        None
    } else {
        Some(lookup_params(expression, limit))
    }
}

/// Searches the index for `query` and returns at most `limit` hits, best
/// first.
///
/// The query is sanitised first. Where nothing of it survives, the result is
/// empty and the database is not touched. Otherwise the ranked lookup runs
/// with the sanitised expression, and its rows are decoded by
/// `finish_search`.
pub fn search_documents_inner(conn: &rusqlite::Connection, query: &str, limit: i32) -> (r: Result<
    Vec<SearchResult>,
    String,
>)
    ensures
        sanitized_query(query@).len() == 0 ==> r is Ok && r->Ok_0@.len() == 0,
        r is Ok && limit >= 0 ==> r->Ok_0@.len() <= limit,
        r is Err ==> is_search_failure(r->Err_0@),
{
    let params = match search_params(query, limit) {
        Some(params) => params,
        None => {
            return Ok(Vec::new());
        },
    };
    ensure_fts_table(conn)?;
    let answer = match db_query_staged(conn, RANKED_LOOKUP, &params) {
        Ok(rows) => Ok(rows),
        Err(failed) => Err(staged_failure(&failed, PREPARE_FAILED, LOOKUP_FAILED)),
    };
    finish_search(answer, limit)
}

/// What indexing a document returns, given what became of the indexing and
/// of counting the access: the result of the indexing alone. The count is a
/// best-effort side effect; its failure never fails the call.
pub fn indexing_result(indexed: Result<(), String>, bumped: Result<(), String>) -> (r: Result<
    (),
    String,
>)
    ensures
        r == indexed,
{
    indexed
}

/// Indexes a document and counts the access. The count is a best-effort
/// side effect: its failure does not fail the call.
pub fn index_document(
    conn: &rusqlite::Connection,
    document_id: &str,
    title: &str,
    content: &str,
) -> (r: Result<(), String>)
    ensures
        r is Err ==> is_index_failure(r->Err_0@),
{
    let indexed = index_document_inner(conn, document_id, title, content);
    if indexed.is_err() {
        return indexed;
    }
    let bumped = increment_access_count(conn, document_id);
    indexing_result(indexed, bumped)
}

/// The number of hits returned where the caller names no limit.
pub const DEFAULT_SEARCH_LIMIT: i32 = 20;

/// Searches the index; without a limit of the caller's, at most
/// `DEFAULT_SEARCH_LIMIT` hits are returned.
pub fn search_documents(conn: &rusqlite::Connection, query: &str, limit: Option<i32>) -> (r: Result<
    Vec<SearchResult>,
    String,
>)
    ensures
        sanitized_query(query@).len() == 0 ==> r is Ok && r->Ok_0@.len() == 0,
        r is Ok && limit is Some && limit->Some_0 >= 0 ==> r->Ok_0@.len() <= limit->Some_0,
        r is Ok && limit is None ==> r->Ok_0@.len() <= DEFAULT_SEARCH_LIMIT,
        r is Err ==> is_search_failure(r->Err_0@),
{
    let bound = match limit {
        Some(n) => n,
        None => DEFAULT_SEARCH_LIMIT,
    };
    search_documents_inner(conn, query, bound)
}

/// Removes a document from the index.
pub fn remove_document_index(conn: &rusqlite::Connection, document_id: &str) -> (r: Result<
    (),
    String,
>)
    ensures
        r is Err ==> is_remove_failure(r->Err_0@),
{
    remove_document_index_inner(conn, document_id)
}

} // verus!
