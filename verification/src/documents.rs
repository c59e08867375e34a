//! Documents: the list of what was opened last, and storing a document
//! without losing its identity.
//!
//! A document is known by its id. A file or an article that is stored again
//! under another id keeps the id it has, so that everything attached to the
//! document stays attached.

use vstd::prelude::*;
use crate::clock::fresh_id;
use crate::db::{
    db_execute, db_query, error_text, first_text, first_text_of, int_param, key_params,
    limit_params, opt_text_data, opt_text_param, params_view, text_param, SqlParam, SqlParamData,
};
use crate::models::Document;
use crate::rows::{
    decode_error_text, decoded_rows, describe_decode_error, lemma_decoded_step,
    lemma_failure_persists, DecodeError, SqlRow,
};

verus! {

/// Lists the documents, the one opened last first.
pub const SELECT_RECENT: &'static str =
    "SELECT id, source, file_path, keep_local_id, title, author, url,
                    word_count, last_opened_at, created_at
             FROM documents
             ORDER BY last_opened_at DESC
             LIMIT ?1";

/// Finds the document of a file.
pub const SELECT_ID_BY_PATH: &'static str = "SELECT id FROM documents WHERE file_path = ?1";

/// Finds the document of an article of the companion service.
pub const SELECT_ID_BY_ARTICLE: &'static str =
    "SELECT id FROM documents WHERE keep_local_id = ?1";

/// Stores a document under its id, every other field overwritten where the
/// id is taken.
pub const PUT_DOCUMENT: &'static str =
    "INSERT INTO documents
            (id, source, file_path, keep_local_id, title, author, url,
             word_count, last_opened_at, created_at)
         VALUES (?1, ?2, ?3, ?4, ?5, ?6, ?7, ?8, ?9, ?10)
         ON CONFLICT(id) DO UPDATE SET
            source = excluded.source,
            file_path = excluded.file_path,
            keep_local_id = excluded.keep_local_id,
            title = excluded.title,
            author = excluded.author,
            url = excluded.url,
            word_count = excluded.word_count,
            last_opened_at = excluded.last_opened_at,
            created_at = excluded.created_at";

/// The number of documents listed where the caller names no limit.
pub const DEFAULT_RECENT_LIMIT: i64 = 20;

/// Decodes the rows of `SELECT_RECENT`; the first row that cannot be
/// decoded fails the list with its description.
pub fn collect_documents(rows: &Vec<SqlRow>) -> (r: Result<Vec<Document>, String>)
    ensures
        match decoded_rows(rows@, |row: SqlRow| Document::of_row(row)) {
            Ok(docs) => r is Ok && r->Ok_0@ == docs,
            Err(e) => r is Err && r->Err_0@ == decode_error_text(e),
        },
{
    let ghost decode = |row: SqlRow| Document::of_row(row);
    let mut docs: Vec<Document> = Vec::new();
    let mut i: usize = 0;
    while i < rows.len()
        invariant
            i <= rows.len(),
            decode == (|row: SqlRow| Document::of_row(row)),
            decoded_rows(rows@.take(i as int), decode) == Ok::<Seq<Document>, DecodeError>(docs@),
        decreases rows.len() - i,
    {
        proof {
            lemma_decoded_step(rows@, decode, i as int);
        }
        match Document::from_row(&rows[i]) {
            Ok(doc) => {
                docs.push(doc);
            },
            Err(e) => {
                proof {
                    lemma_failure_persists(rows@, decode, i as int + 1);
                }
                return Err(describe_decode_error(e));
            },
        }
        i += 1;
    }
    assert(rows@.take(i as int) =~= rows@);
    Ok(docs)
}

/// Lists at most `limit` documents, the one opened last first.
pub fn fetch_recent_documents(conn: &rusqlite::Connection, limit: i64) -> (r: Result<
    Vec<Document>,
    String,
>) {
    match db_query(conn, SELECT_RECENT, &limit_params(limit)) {
        Ok(rows) => collect_documents(&rows),
        Err(e) => Err(error_text(&e)),
    }
}

/// Lists the documents opened last, twenty where no limit is given.
pub fn get_recent_documents(conn: &rusqlite::Connection, limit: Option<i64>) -> (r: Result<
    Vec<Document>,
    String,
>) {
    let bound = match limit {
        Some(n) => n,
        None => DEFAULT_RECENT_LIMIT,
    };
    fetch_recent_documents(conn, bound)
}

/// The id that the store holds for a document, as far as the answer to the
/// lookup tells: the text in the first column of the first row. An answer
/// without a row, with another value there, or a failed lookup tells of
/// none.
pub open spec fn known_id(answer: Result<Seq<SqlRow>, ()>) -> Option<String> {
    match answer {
        Ok(rows) => match first_text_of(rows) {
            Some(Ok(id)) => Some(id),
            _ => None,
        },
        Err(_) => None,
    }
}

/// Reads `known_id` out of the rows of a lookup.
pub fn stored_id(rows: &Vec<SqlRow>) -> (id: Option<String>)
    ensures
        id == known_id(Ok(rows@)),
{
    match first_text(rows) {
        Some(Ok(id)) => Some(id),
        _ => None,
    }
}

/// Whether `id` is the id under which a document is stored, given the id
/// the store already holds for it and the id it came with: the stored id
/// where there is one, else the id it came with unless that is empty, else
/// a fresh id of 36 characters.
pub open spec fn is_resolved_id(id: String, stored: Option<String>, given: String) -> bool {
    match stored {
        Some(known) => id == known,
        None => if given@.len() > 0 {
            id == given
        } else {
            id@.len() == 36
        },
    }
}

/// Picks the id under which a document is stored.
pub fn resolve_id(stored: Option<String>, given: String) -> (id: String)
    ensures
        is_resolved_id(id, stored, given),
{
    match stored {
        Some(known) => known,
        None => {
            if given.as_str().unicode_len() > 0 {
                given
            } else {
                fresh_id()
            }
        },
    }
}

fn lookup_id(conn: &rusqlite::Connection, sql: &str, key: &str) -> (id: Option<String>) {
    match db_query(conn, sql, &key_params(key)) {
        Ok(rows) => stored_id(&rows),
        Err(_) => None,
    }
}

/// The parameters of `PUT_DOCUMENT` for a document, one per column in the
/// order of the statement.
pub open spec fn put_params(doc: Document) -> Seq<SqlParamData> {
    seq![
        SqlParamData::Text(doc.id@),
        SqlParamData::Text(doc.source@),
        opt_text_data(doc.file_path),
        opt_text_data(doc.keep_local_id),
        opt_text_data(doc.title),
        opt_text_data(doc.author),
        opt_text_data(doc.url),
        SqlParamData::Integer(doc.word_count as int),
        SqlParamData::Integer(doc.last_opened_at as int),
        SqlParamData::Integer(doc.created_at as int),
    ]
}

/// Builds the parameters of `PUT_DOCUMENT`.
pub fn document_params(doc: &Document) -> (params: Vec<SqlParam>)
    ensures
        params_view(params@) == put_params(*doc),
{
    let mut params: Vec<SqlParam> = Vec::new();
    params.push(text_param(doc.id.as_str()));
    params.push(text_param(doc.source.as_str()));
    params.push(opt_text_param(&doc.file_path));
    params.push(opt_text_param(&doc.keep_local_id));
    params.push(opt_text_param(&doc.title));
    params.push(opt_text_param(&doc.author));
    params.push(opt_text_param(&doc.url));
    params.push(int_param(doc.word_count));
    params.push(int_param(doc.last_opened_at));
    params.push(int_param(doc.created_at));
    assert(params_view(params@) =~= put_params(*doc));
    params
}

/// Stores a document. Where a document is stored for the same file, or
/// else for the same article, the document takes over its id; a document
/// that comes without an id and is not known gets a fresh one. Returns the
/// document as stored: the one given, under the resolved id.
pub fn upsert_document_inner(conn: &rusqlite::Connection, doc: Document) -> (r: Result<
    Document,
    String,
>)
    ensures
        r is Ok ==> r->Ok_0 == (Document { id: r->Ok_0.id, ..doc }),
        r is Ok && doc.file_path is None && doc.keep_local_id is None ==> is_resolved_id(
            r->Ok_0.id,
            None,
            doc.id,
        ),
{
    let stored = match &doc.file_path {
        Some(path) => lookup_id(conn, SELECT_ID_BY_PATH, path.as_str()),
        None => match &doc.keep_local_id {
            Some(article) => lookup_id(conn, SELECT_ID_BY_ARTICLE, article.as_str()),
            None => None,
        },
    };
    let Document {
        id: given,
        source,
        file_path,
        keep_local_id,
        title,
        author,
        url,
        word_count,
        last_opened_at,
        created_at,
    } = doc;
    let id = resolve_id(stored, given);
    let resolved = Document {
        id,
        source,
        file_path,
        keep_local_id,
        title,
        author,
        url,
        word_count,
        last_opened_at,
        created_at,
    };
    let params = document_params(&resolved);
    match db_execute(conn, PUT_DOCUMENT, &params) {
        Ok(_) => Ok(resolved),
        Err(e) => Err(error_text(&e)),
    }
}

/// Stores a document, keeping the identity of a document already stored for
/// the same file or article.
pub fn upsert_document(conn: &rusqlite::Connection, doc: Document) -> (r: Result<Document, String>)
    ensures
        r is Ok ==> r->Ok_0 == (Document { id: r->Ok_0.id, ..doc }),
        r is Ok && doc.file_path is None && doc.keep_local_id is None ==> is_resolved_id(
            r->Ok_0.id,
            None,
            doc.id,
        ),
{
    upsert_document_inner(conn, doc)
}

} // verus!
