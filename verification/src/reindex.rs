//! Bulk re-indexing: bringing the index up to date with the files on disk.
//!
//! A document is indexed again only where its file changed since it was last
//! indexed. Reading files is slow and happens outside this library, so the
//! run is a state machine: it says which file to look at next and takes the
//! answer, and holds the database only while it writes one entry.

use vstd::prelude::*;
use crate::db::{
    db_execute, db_query_staged, params_view, staged_failure, text_param, SqlParam,
    SqlParamData,
};
use crate::rows::{decodable_rows, DecodeError, SqlRow};
use crate::search::{ensure_fts_table, index_document_inner, IndexAllResult, CREATE_FAILED};
use crate::text::starts_with;

verus! {

/// Lists the documents that have a backing file.
pub const SELECT_INDEX_CANDIDATES: &'static str =
    "SELECT id, file_path, title, indexed_at FROM documents WHERE file_path IS NOT NULL";

/// Records when a document was last indexed.
pub const STAMP_INDEXED: &'static str = "UPDATE documents SET indexed_at = ?1 WHERE id = ?2";

pub const CANDIDATES_FAILED: &'static str = "Failed to query documents: ";

pub const CANDIDATES_UNREAD: &'static str = "Failed to read documents: ";

/// The title under which a document without one is indexed.
pub const UNTITLED: &'static str = "Untitled";

/// A document with a backing file, as the bulk re-index sees it.
#[derive(Debug, Clone)]
pub struct IndexCandidate {
    pub id: String,
    pub file_path: String,
    pub title: Option<String>,
    /// When the document was last indexed, in milliseconds of Unix time.
    pub indexed_at: Option<i64>,
}

impl IndexCandidate {
    /// The candidate that a row of `SELECT_INDEX_CANDIDATES` stands for.
    pub open spec fn of_row(row: SqlRow) -> Result<IndexCandidate, DecodeError> {
        match (row.text_at(0), row.text_at(1), row.opt_text_at(2), row.opt_int_at(3)) {
            (Err(e), _, _, _) => Err(e),
            (Ok(_), Err(e), _, _) => Err(e),
            (Ok(_), Ok(_), Err(e), _) => Err(e),
            (Ok(_), Ok(_), Ok(_), Err(e)) => Err(e),
            (Ok(id), Ok(file_path), Ok(title), Ok(indexed_at)) => Ok(
                IndexCandidate { id, file_path, title, indexed_at },
            ),
        }
    }

    /// Decodes one row of `SELECT_INDEX_CANDIDATES`.
    pub fn from_row(row: &SqlRow) -> (r: Result<IndexCandidate, DecodeError>)
        ensures
            r == IndexCandidate::of_row(*row),
    {
        let id = row.get_text(0)?;
        let file_path = row.get_text(1)?;
        let title = row.get_opt_text(2)?;
        let indexed_at = row.get_opt_int(3)?;
        Ok(IndexCandidate { id, file_path, title, indexed_at })
    }

    /// Whether a file last modified at `mtime_ms` has to be indexed again: it
    /// was never indexed, or it changed after it was.
    pub open spec fn is_stale(self, mtime_ms: i64) -> bool {
        match self.indexed_at {
            Some(at) => mtime_ms > at,
            None => true,
        }
    }

    /// Decides `is_stale`.
    pub fn needs_indexing(&self, mtime_ms: i64) -> (r: bool)
        ensures
            r == self.is_stale(mtime_ms),
    {
        match self.indexed_at {
            Some(at) => mtime_ms > at,
            None => true,
        }
    }
}

/// Decodes the rows of `SELECT_INDEX_CANDIDATES`; a row that cannot be
/// decoded is left out.
pub fn collect_index_candidates(rows: &Vec<SqlRow>) -> (docs: Vec<IndexCandidate>)
    ensures
        docs@ == decodable_rows(rows@, |row: SqlRow| IndexCandidate::of_row(row)),
{
    let ghost decode = |row: SqlRow| IndexCandidate::of_row(row);
    let mut docs: Vec<IndexCandidate> = Vec::new();
    let mut i: usize = 0;
    while i < rows.len()
        invariant
            i <= rows.len(),
            decode == (|row: SqlRow| IndexCandidate::of_row(row)),
            docs@ == decodable_rows(rows@.take(i as int), decode),
        decreases rows.len() - i,
    {
        proof {
            assert(rows@.take(i + 1).drop_last() =~= rows@.take(i as int));
            assert(rows@.take(i + 1).last() == rows@[i as int]);
        }
        match IndexCandidate::from_row(&rows[i]) {
            Ok(doc) => {
                docs.push(doc);
            },
            Err(_) => {},
        }
        i += 1;
    }
    assert(rows@.take(i as int) =~= rows@);
    docs
}

/// Reads the documents that have a backing file.
pub fn list_index_candidates(conn: &rusqlite::Connection) -> (r: Result<Vec<IndexCandidate>, String>)
    ensures
        r is Err ==> starts_with(r->Err_0@, CREATE_FAILED@) || starts_with(
            r->Err_0@,
            CANDIDATES_FAILED@,
        ) || starts_with(r->Err_0@, CANDIDATES_UNREAD@),
{
    ensure_fts_table(conn)?;
    let none: Vec<SqlParam> = Vec::new();
    match db_query_staged(conn, SELECT_INDEX_CANDIDATES, &none) {
        Ok(rows) => Ok(collect_index_candidates(&rows)),
        Err(failed) => Err(staged_failure(&failed, CANDIDATES_FAILED, CANDIDATES_UNREAD)),
    }
}

/// The title under which a document is indexed: its own, or `UNTITLED`
/// where it has none.
pub open spec fn indexed_title(doc: IndexCandidate) -> Seq<char> {
    match doc.title {
        Some(title) => title@,
        None => UNTITLED@,
    }
}

/// Computes `indexed_title`.
pub fn index_title(doc: &IndexCandidate) -> (title: String)
    ensures
        title@ == indexed_title(*doc),
{
    match &doc.title {
        Some(title) => title.clone(),
        None => String::from_str(UNTITLED),
    }
}

/// The parameters of `STAMP_INDEXED`: the time of the run and the document.
pub fn stamp_params(now_ms: i64, id: &str) -> (params: Vec<SqlParam>)
    ensures
        params_view(params@) == seq![
            SqlParamData::Integer(now_ms as int),
            SqlParamData::Text(id@),
        ],
{
    let mut params: Vec<SqlParam> = Vec::new();
    params.push(SqlParam::Integer(now_ms));
    params.push(text_param(id));
    assert(params_view(params@) =~= seq![
        SqlParamData::Integer(now_ms as int),
        SqlParamData::Text(id@),
    ]);
    params
}

/// Whether a document whose content was asked for counts as indexed: its
/// content was read and the engine accepted the entry. `written` is `None`
/// where the content could not be read, else what the engine answered to the
/// write.
pub open spec fn was_indexed(written: Option<Result<(), String>>) -> bool {
    written is Some && written->Some_0 is Ok
}

/// What the bulk re-index asks of the file system next.
#[derive(Debug)]
pub enum ReindexAction {
    /// Read the time at which the file at this path was last modified.
    Probe(String),
    /// Read the content of the file at this path.
    Read(String),
    /// Nothing: every document has been counted.
    Finished,
}

/// The bulk re-index as a sequence of steps.
///
/// The run walks the documents in order. For each it asks for the
/// modification time of the backing file, and for the content only where
/// the file has to be indexed again. Whoever drives the run does the file
/// I/O between the steps, so the database is held only inside `file_read`.
pub struct ReindexRun {
    pub docs: Vec<IndexCandidate>,
    /// How many documents have been counted.
    pub position: usize,
    /// Whether the content of the document at `position` has been asked for.
    pub reading: bool,
    pub tally: IndexAllResult,
    /// The time with which indexed documents are stamped.
    pub now_ms: i64,
}

impl ReindexRun {
    /// Every counted document is counted once, as indexed, skipped or
    /// failed, and content is only awaited for a document that is there.
    pub open spec fn well_formed(&self) -> bool {
        &&& self.position <= self.docs@.len()
        &&& self.tally.indexed + self.tally.skipped + self.tally.errors == self.position
        &&& self.reading ==> self.position < self.docs@.len()
    }

    /// Whether every document has been counted.
    pub open spec fn is_finished(&self) -> bool {
        self.position == self.docs@.len()
    }

    /// Decides `well_formed`.
    pub fn is_consistent(&self) -> (r: bool)
        ensures
            r == self.well_formed(),
    {
        if self.position > self.docs.len() {
            return false;
        }
        if self.reading && self.position >= self.docs.len() {
            return false;
        }
        if self.tally.indexed > self.position {
            return false;
        }
        let rest = self.position - self.tally.indexed;
        if self.tally.skipped > rest {
            return false;
        }
        self.tally.errors == rest - self.tally.skipped
    }

    /// A run over `docs` that has counted nothing yet.
    pub fn start(docs: Vec<IndexCandidate>, now_ms: i64) -> (run: ReindexRun)
        ensures
            run.well_formed(),
            run.docs == docs,
            run.position == 0,
            !run.reading,
            run.tally == (IndexAllResult { indexed: 0, skipped: 0, errors: 0 }),
            run.now_ms == now_ms,
    {
        ReindexRun {
            docs,
            position: 0,
            reading: false,
            tally: IndexAllResult { indexed: 0, skipped: 0, errors: 0 },
            now_ms,
        }
    }

    /// What the run waits for.
    pub fn next_action(&self) -> (action: ReindexAction)
        requires
            self.well_formed(),
        ensures
            self.is_finished() <==> action is Finished,
            !self.is_finished() && self.reading ==> action is Read && action->Read_0
                == self.docs@[self.position as int].file_path,
            !self.is_finished() && !self.reading ==> action is Probe && action->Probe_0
                == self.docs@[self.position as int].file_path,
    {
        if self.position >= self.docs.len() {
            ReindexAction::Finished
        } else if self.reading {
            ReindexAction::Read(self.docs[self.position].file_path.clone())
        } else {
            ReindexAction::Probe(self.docs[self.position].file_path.clone())
        }
    }

    /// Takes the answer to a `Probe`: the modification time in milliseconds
    /// of Unix time, or `None` where the file is missing or unreadable.
    ///
    /// A missing file and a file that did not change since it was indexed
    /// count as skipped. Otherwise the run goes on to read the file. The
    /// index is not touched either way. Outside a `Probe` the answer is
    /// ignored.
    pub fn file_probed(&mut self, mtime_ms: Option<i64>)
        requires
            old(self).well_formed(),
        ensures
            final(self).well_formed(),
            final(self).docs == old(self).docs,
            final(self).now_ms == old(self).now_ms,
            old(self).is_finished() || old(self).reading ==> *final(self) == *old(self),
            !old(self).is_finished() && !old(self).reading ==> (if mtime_ms is Some && old(
                self,
            ).docs@[old(self).position as int].is_stale(mtime_ms->Some_0) {
                &&& final(self).reading
                &&& final(self).position == old(self).position
                &&& final(self).tally == old(self).tally
            } else {
                &&& !final(self).reading
                &&& final(self).position == old(self).position + 1
                &&& final(self).tally == (IndexAllResult {
                    skipped: (old(self).tally.skipped + 1) as usize,
                    ..old(self).tally
                })
            }),
    {
        if self.position >= self.docs.len() || self.reading {
            return ;
        }
        let stale = match mtime_ms {
            Some(m) => self.docs[self.position].needs_indexing(m),
            None => false,
        };
        if stale {
            self.reading = true;
        } else {
            self.tally.skipped = self.tally.skipped + 1;
            self.position = self.position + 1;
        }
    }

    /// Counts the document whose content was asked for, given what became
    /// of the write: as indexed exactly where the content was read and the
    /// engine accepted the entry, else as an error. Outside a `Read` nothing
    /// is counted.
    pub fn count_read(&mut self, written: Option<Result<(), String>>)
        requires
            old(self).well_formed(),
        ensures
            final(self).well_formed(),
            final(self).docs == old(self).docs,
            final(self).now_ms == old(self).now_ms,
            !old(self).reading ==> *final(self) == *old(self),
            old(self).reading ==> {
                &&& !final(self).reading
                &&& final(self).position == old(self).position + 1
                &&& final(self).tally == (if was_indexed(written) {
                    IndexAllResult {
                        indexed: (old(self).tally.indexed + 1) as usize,
                        ..old(self).tally
                    }
                } else {
                    IndexAllResult {
                        errors: (old(self).tally.errors + 1) as usize,
                        ..old(self).tally
                    }
                })
            },
    {
        if !self.reading || self.position >= self.docs.len() {
            return ;
        }
        let indexed = match written {
            Some(Ok(())) => true,
            _ => false,
        };
        if indexed {
            self.tally.indexed = self.tally.indexed + 1;
        } else {
            self.tally.errors = self.tally.errors + 1;
        }
        self.position = self.position + 1;
        self.reading = false;
    }

    /// Takes the answer to a `Read`: the content of the file, or `None`
    /// where it could not be read.
    ///
    /// A file that could not be read counts as an error and the index is
    /// not touched. Otherwise the document is indexed under the title of
    /// `index_title` with the content as it was read; where the engine
    /// accepts it the document is stamped with the parameters of
    /// `stamp_params`, the time of the run. The document is then counted by
    /// `count_read`. Outside a `Read` the answer is ignored.
    pub fn file_read(&mut self, conn: &rusqlite::Connection, content: Option<String>)
        requires
            old(self).well_formed(),
        ensures
            final(self).well_formed(),
            final(self).docs == old(self).docs,
            final(self).now_ms == old(self).now_ms,
            !old(self).reading ==> *final(self) == *old(self),
            old(self).reading ==> {
                &&& !final(self).reading
                &&& final(self).position == old(self).position + 1
                &&& final(self).tally.skipped == old(self).tally.skipped
                &&& (content is None ==> final(self).tally.errors == old(self).tally.errors + 1)
                &&& final(self).tally.indexed + final(self).tally.errors == old(self).tally.indexed
                    + old(self).tally.errors + 1
                &&& final(self).tally.indexed >= old(self).tally.indexed
                &&& final(self).tally.errors >= old(self).tally.errors
            },
    {
        if !self.reading || self.position >= self.docs.len() {
            return ;
        }
        let written: Option<Result<(), String>> = match content {
            None => None,
            Some(text) => {
                let doc = &self.docs[self.position];
                let title = index_title(doc);
                let written = index_document_inner(
                    conn,
                    doc.id.as_str(),
                    title.as_str(),
                    text.as_str(),
                );
                if written.is_ok() {
                    let stamp = stamp_params(self.now_ms, doc.id.as_str());
                    let _ = db_execute(conn, STAMP_INDEXED, &stamp);
                }
                Some(written)
            },
        };
        self.count_read(written);
    }

    /// The counts so far; once the run is finished they add up to the number
    /// of documents.
    pub fn result(&self) -> (tally: IndexAllResult)
        requires
            self.well_formed(),
        ensures
            tally == self.tally,
            self.is_finished() ==> tally.indexed + tally.skipped + tally.errors == self.docs@.len(),
    {
        self.tally
    }
}

} // verus!
