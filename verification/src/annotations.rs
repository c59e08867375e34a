//! Highlights and the notes in the margin.
//!
//! Every change to a highlight or a note also marks its document as just
//! opened, which is the recency half of frecency.

use vstd::prelude::*;
use crate::clock::{fresh_id, unix_millis_or_zero};
use crate::db::{
    db_execute, db_query, error_text, first_text, first_text_of, ignore_count, int_param,
    key_params, no_rows_text, params_view, text_param, SqlParam, SqlParamData, NO_ROWS,
};
use crate::models::{Highlight, MarginNote};
use crate::rows::{
    decode_error_text, decoded_rows, describe_decode_error, lemma_decoded_step,
    lemma_failure_persists, DecodeError, SqlRow,
};

verus! {

pub const TOUCH_DOCUMENT: &'static str = "UPDATE documents SET last_opened_at = ?1 WHERE id = ?2";

pub const DOCUMENT_OF_HIGHLIGHT: &'static str = "SELECT document_id FROM highlights WHERE id = ?1";

pub const DOCUMENT_OF_NOTE: &'static str =
    "SELECT h.document_id FROM margin_notes mn JOIN highlights h ON mn.highlight_id = h.id WHERE mn.id = ?1";

pub const INSERT_HIGHLIGHT: &'static str =
    "INSERT INTO highlights
            (id, document_id, color, text_content, from_pos, to_pos,
             prefix_context, suffix_context, created_at, updated_at)
         VALUES (?1, ?2, ?3, ?4, ?5, ?6, ?7, ?8, ?9, ?10)";

/// Lists the highlights of a document from its start to its end.
pub const SELECT_HIGHLIGHTS: &'static str =
    "SELECT id, document_id, color, text_content, from_pos, to_pos,
                    prefix_context, suffix_context, created_at, updated_at
             FROM highlights
             WHERE document_id = ?1
             ORDER BY from_pos";

pub const SET_HIGHLIGHT_COLOR: &'static str =
    "UPDATE highlights SET color = ?1, updated_at = ?2 WHERE id = ?3";

pub const DELETE_HIGHLIGHT: &'static str = "DELETE FROM highlights WHERE id = ?1";

pub const INSERT_NOTE: &'static str =
    "INSERT INTO margin_notes (id, highlight_id, content, created_at, updated_at)
         VALUES (?1, ?2, ?3, ?4, ?5)";

/// Lists the notes of a document in the order of their highlights.
pub const SELECT_NOTES: &'static str =
    "SELECT mn.id, mn.highlight_id, mn.content, mn.created_at, mn.updated_at
             FROM margin_notes mn
             JOIN highlights h ON mn.highlight_id = h.id
             WHERE h.document_id = ?1
             ORDER BY h.from_pos";

pub const SET_NOTE_CONTENT: &'static str =
    "UPDATE margin_notes SET content = ?1, updated_at = ?2 WHERE id = ?3";

pub const DELETE_NOTE: &'static str = "DELETE FROM margin_notes WHERE id = ?1";

pub const DELETE_HIGHLIGHTS_OF_DOCUMENT: &'static str =
    "DELETE FROM highlights WHERE document_id = ?1";

/// Milliseconds since the start of Unix time; zero where the clock stands
/// before it.
pub fn now_millis() -> (ms: i64) {
    unix_millis_or_zero()
}

/// The content of an optional text parameter: the text, or `NULL`.
pub open spec fn opt_str_data(s: Option<&str>) -> SqlParamData {
    match s {
        Some(t) => SqlParamData::Text(t@),
        None => SqlParamData::Null,
    }
}

/// A text parameter, or `NULL` where there is no text.
pub fn opt_str_param(s: Option<&str>) -> (p: SqlParam)
    ensures
        p@ == opt_str_data(s),
{
    match s {
        Some(t) => text_param(t),
        None => SqlParam::Null,
    }
}

/// The parameters of a statement that sets a text and the time of the
/// change on the row of a key.
pub fn change_params(value: &str, now: i64, key: &str) -> (params: Vec<SqlParam>)
    ensures
        params@.len() == 3,
        params@[0]@ == SqlParamData::Text(value@),
        params@[1]@ == SqlParamData::Integer(now as int),
        params@[2]@ == SqlParamData::Text(key@),
{
    let mut params: Vec<SqlParam> = Vec::new();
    params.push(text_param(value));
    params.push(int_param(now));
    params.push(text_param(key));
    params
}

/// The parameters of `TOUCH_DOCUMENT`: the time and the document.
pub fn touch_params(now: i64, document_id: &str) -> (params: Vec<SqlParam>)
    ensures
        params_view(params@) == seq![
            SqlParamData::Integer(now as int),
            SqlParamData::Text(document_id@),
        ],
{
    let mut params: Vec<SqlParam> = Vec::new();
    params.push(int_param(now));
    params.push(text_param(document_id));
    assert(params_view(params@) =~= seq![
        SqlParamData::Integer(now as int),
        SqlParamData::Text(document_id@),
    ]);
    params
}

/// Marks a document as opened now.
pub fn touch_document(conn: &rusqlite::Connection, document_id: &str) -> (r: Result<(), String>) {
    let params = touch_params(now_millis(), document_id);
    ignore_count(db_execute(conn, TOUCH_DOCUMENT, &params))
}

/// Whether a lookup of one text found it: there is a row and its first
/// column holds a text.
pub open spec fn found_text(rows: Seq<SqlRow>) -> bool {
    first_text_of(rows) is Some && first_text_of(rows)->Some_0 is Ok
}

/// What a lookup of one text gives once the engine has answered: the text,
/// the error for a missing row, or the description of a value that is no
/// text.
pub fn expect_text(rows: &Vec<SqlRow>) -> (r: Result<String, String>)
    ensures
        r is Ok <==> found_text(rows@),
        r is Ok ==> r->Ok_0 == first_text_of(rows@)->Some_0->Ok_0,
        first_text_of(rows@) is None ==> r is Err && r->Err_0@ == NO_ROWS@,
        first_text_of(rows@) is Some && first_text_of(rows@)->Some_0 is Err ==> r is Err
            && r->Err_0@ == decode_error_text(first_text_of(rows@)->Some_0->Err_0),
{
    match first_text(rows) {
        Some(Ok(text)) => Ok(text),
        Some(Err(e)) => Err(describe_decode_error(e)),
        None => Err(no_rows_text()),
    }
}

fn lookup_text(conn: &rusqlite::Connection, sql: &str, key: &str) -> (r: Result<String, String>) {
    match db_query(conn, sql, &key_params(key)) {
        Ok(rows) => expect_text(&rows),
        Err(e) => Err(error_text(&e)),
    }
}

/// The document that a highlight belongs to.
pub fn document_id_for_highlight(conn: &rusqlite::Connection, highlight_id: &str) -> (r: Result<
    String,
    String,
>) {
    lookup_text(conn, DOCUMENT_OF_HIGHLIGHT, highlight_id)
}

/// The document that a note belongs to, by way of its highlight.
pub fn document_id_for_margin_note(conn: &rusqlite::Connection, note_id: &str) -> (r: Result<
    String,
    String,
>) {
    lookup_text(conn, DOCUMENT_OF_NOTE, note_id)
}

/// The parameters of `INSERT_HIGHLIGHT`, one per column in the order of the
/// statement; the time is bound twice, as the time of creation and of the
/// last change.
pub fn highlight_params(
    id: &str,
    document_id: &str,
    color: &str,
    text_content: &str,
    from_pos: i64,
    to_pos: i64,
    prefix_context: Option<&str>,
    suffix_context: Option<&str>,
    now: i64,
) -> (params: Vec<SqlParam>)
    ensures
        params_view(params@) == seq![
            SqlParamData::Text(id@),
            SqlParamData::Text(document_id@),
            SqlParamData::Text(color@),
            SqlParamData::Text(text_content@),
            SqlParamData::Integer(from_pos as int),
            SqlParamData::Integer(to_pos as int),
            opt_str_data(prefix_context),
            opt_str_data(suffix_context),
            SqlParamData::Integer(now as int),
            SqlParamData::Integer(now as int),
        ],
{
    let mut params: Vec<SqlParam> = Vec::new();
    params.push(text_param(id));
    params.push(text_param(document_id));
    params.push(text_param(color));
    params.push(text_param(text_content));
    params.push(int_param(from_pos));
    params.push(int_param(to_pos));
    params.push(opt_str_param(prefix_context));
    params.push(opt_str_param(suffix_context));
    params.push(int_param(now));
    params.push(int_param(now));
    assert(params_view(params@) =~= seq![
        SqlParamData::Text(id@),
        SqlParamData::Text(document_id@),
        SqlParamData::Text(color@),
        SqlParamData::Text(text_content@),
        SqlParamData::Integer(from_pos as int),
        SqlParamData::Integer(to_pos as int),
        opt_str_data(prefix_context),
        opt_str_data(suffix_context),
        SqlParamData::Integer(now as int),
        SqlParamData::Integer(now as int),
    ]);
    params
}

/// The parameters of `INSERT_NOTE`, one per column in the order of the
/// statement; the time is bound twice.
pub fn note_params(id: &str, highlight_id: &str, content: &str, now: i64) -> (params: Vec<SqlParam>)
    ensures
        params_view(params@) == seq![
            SqlParamData::Text(id@),
            SqlParamData::Text(highlight_id@),
            SqlParamData::Text(content@),
            SqlParamData::Integer(now as int),
            SqlParamData::Integer(now as int),
        ],
{
    let mut params: Vec<SqlParam> = Vec::new();
    params.push(text_param(id));
    params.push(text_param(highlight_id));
    params.push(text_param(content));
    params.push(int_param(now));
    params.push(int_param(now));
    assert(params_view(params@) =~= seq![
        SqlParamData::Text(id@),
        SqlParamData::Text(highlight_id@),
        SqlParamData::Text(content@),
        SqlParamData::Integer(now as int),
        SqlParamData::Integer(now as int),
    ]);
    params
}

/// Stores a highlight, created and last changed at `now`.
pub fn insert_highlight(
    conn: &rusqlite::Connection,
    id: &str,
    document_id: &str,
    color: &str,
    text_content: &str,
    from_pos: i64,
    to_pos: i64,
    prefix_context: Option<&str>,
    suffix_context: Option<&str>,
    now: i64,
) -> (r: Result<(), String>) {
    let params = highlight_params(
        id,
        document_id,
        color,
        text_content,
        from_pos,
        to_pos,
        prefix_context,
        suffix_context,
        now,
    );
    ignore_count(db_execute(conn, INSERT_HIGHLIGHT, &params))
}

/// Decodes the rows of a listing of highlights; the first row that cannot be
/// decoded fails the list with its description.
pub fn collect_highlights(rows: &Vec<SqlRow>) -> (r: Result<Vec<Highlight>, String>)
    ensures
        match decoded_rows(rows@, |row: SqlRow| Highlight::of_row(row)) {
            Ok(items) => r is Ok && r->Ok_0@ == items,
            Err(e) => r is Err && r->Err_0@ == decode_error_text(e),
        },
{
    let ghost decode = |row: SqlRow| Highlight::of_row(row);
    let mut items: Vec<Highlight> = Vec::new();
    let mut i: usize = 0;
    while i < rows.len()
        invariant
            i <= rows.len(),
            decode == (|row: SqlRow| Highlight::of_row(row)),
            decoded_rows(rows@.take(i as int), decode) == Ok::<Seq<Highlight>, DecodeError>(items@),
        decreases rows.len() - i,
    {
        proof {
            lemma_decoded_step(rows@, decode, i as int);
        }
        match Highlight::from_row(&rows[i]) {
            Ok(item) => {
                items.push(item);
            },
            Err(e) => {
                proof {
                    lemma_failure_persists(rows@, decode, i as int + 1);
                }
                return Err(describe_decode_error(e));
            },
        }
        i += 1;
    }
    assert(rows@.take(i as int) =~= rows@);
    Ok(items)
}

/// Decodes the rows of a listing of notes; the first row that cannot be
/// decoded fails the list with its description.
pub fn collect_notes(rows: &Vec<SqlRow>) -> (r: Result<Vec<MarginNote>, String>)
    ensures
        match decoded_rows(rows@, |row: SqlRow| MarginNote::of_row(row)) {
            Ok(items) => r is Ok && r->Ok_0@ == items,
            Err(e) => r is Err && r->Err_0@ == decode_error_text(e),
        },
{
    let ghost decode = |row: SqlRow| MarginNote::of_row(row);
    let mut items: Vec<MarginNote> = Vec::new();
    let mut i: usize = 0;
    while i < rows.len()
        invariant
            i <= rows.len(),
            decode == (|row: SqlRow| MarginNote::of_row(row)),
            decoded_rows(rows@.take(i as int), decode) == Ok::<Seq<MarginNote>, DecodeError>(items@),
        decreases rows.len() - i,
    {
        proof {
            lemma_decoded_step(rows@, decode, i as int);
        }
        match MarginNote::from_row(&rows[i]) {
            Ok(item) => {
                items.push(item);
            },
            Err(e) => {
                proof {
                    lemma_failure_persists(rows@, decode, i as int + 1);
                }
                return Err(describe_decode_error(e));
            },
        }
        i += 1;
    }
    assert(rows@.take(i as int) =~= rows@);
    Ok(items)
}

/// Lists the highlights of a document from its start to its end.
pub fn fetch_highlights(conn: &rusqlite::Connection, document_id: &str) -> (r: Result<
    Vec<Highlight>,
    String,
>) {
    match db_query(conn, SELECT_HIGHLIGHTS, &key_params(document_id)) {
        Ok(rows) => collect_highlights(&rows),
        Err(e) => Err(error_text(&e)),
    }
}

/// Sets the colour of a highlight, changed at `now`.
pub fn set_highlight_color(conn: &rusqlite::Connection, id: &str, color: &str, now: i64) -> (r:
    Result<(), String>) {
    ignore_count(db_execute(conn, SET_HIGHLIGHT_COLOR, &change_params(color, now, id)))
}

/// Removes a highlight.
pub fn remove_highlight(conn: &rusqlite::Connection, id: &str) -> (r: Result<(), String>) {
    ignore_count(db_execute(conn, DELETE_HIGHLIGHT, &key_params(id)))
}

/// Stores a note, created and last changed at `now`.
pub fn insert_margin_note(
    conn: &rusqlite::Connection,
    id: &str,
    highlight_id: &str,
    content: &str,
    now: i64,
) -> (r: Result<(), String>) {
    let params = note_params(id, highlight_id, content, now);
    ignore_count(db_execute(conn, INSERT_NOTE, &params))
}

/// Lists the notes of a document in the order of their highlights.
pub fn fetch_margin_notes(conn: &rusqlite::Connection, document_id: &str) -> (r: Result<
    Vec<MarginNote>,
    String,
>) {
    match db_query(conn, SELECT_NOTES, &key_params(document_id)) {
        Ok(rows) => collect_notes(&rows),
        Err(e) => Err(error_text(&e)),
    }
}

/// Sets the content of a note, changed at `now`.
pub fn set_margin_note_content(conn: &rusqlite::Connection, id: &str, content: &str, now: i64) -> (r:
    Result<(), String>) {
    ignore_count(db_execute(conn, SET_NOTE_CONTENT, &change_params(content, now, id)))
}

/// Removes a note.
pub fn remove_margin_note(conn: &rusqlite::Connection, id: &str) -> (r: Result<(), String>) {
    ignore_count(db_execute(conn, DELETE_NOTE, &key_params(id)))
}

/// Removes every highlight of a document and returns how many the engine
/// reports as removed.
pub fn remove_all_highlights_for_document(conn: &rusqlite::Connection, document_id: &str) -> (r:
    Result<usize, String>) {
    match db_execute(conn, DELETE_HIGHLIGHTS_OF_DOCUMENT, &key_params(document_id)) {
        Ok(removed) => Ok(removed),
        Err(e) => Err(error_text(&e)),
    }
}

/// Creates a highlight under a fresh id and marks its document as opened.
/// The highlight returned holds what was given, created and last changed at
/// the same time.
pub fn create_highlight(
    conn: &rusqlite::Connection,
    document_id: String,
    color: String,
    text_content: String,
    from_pos: i64,
    to_pos: i64,
    prefix_context: Option<String>,
    suffix_context: Option<String>,
) -> (r: Result<Highlight, String>)
    ensures
        r is Ok ==> {
            &&& r->Ok_0.id@.len() == 36
            &&& r->Ok_0.document_id == document_id
            &&& r->Ok_0.color == color
            &&& r->Ok_0.text_content == text_content
            &&& r->Ok_0.from_pos == from_pos
            &&& r->Ok_0.to_pos == to_pos
            &&& r->Ok_0.prefix_context == prefix_context
            &&& r->Ok_0.suffix_context == suffix_context
            &&& r->Ok_0.created_at == r->Ok_0.updated_at
        },
{
    let id = fresh_id();
    let now = now_millis();
    let prefix: Option<&str> = match &prefix_context {
        Some(s) => Some(s.as_str()),
        None => None,
    };
    let suffix: Option<&str> = match &suffix_context {
        Some(s) => Some(s.as_str()),
        None => None,
    };
    insert_highlight(
        conn,
        id.as_str(),
        document_id.as_str(),
        color.as_str(),
        text_content.as_str(),
        from_pos,
        to_pos,
        prefix,
        suffix,
        now,
    )?;
    touch_document(conn, document_id.as_str())?;
    Ok(
        Highlight {
            id,
            document_id,
            color,
            text_content,
            from_pos,
            to_pos,
            prefix_context,
            suffix_context,
            created_at: now,
            updated_at: now,
        },
    )
}

/// Lists the highlights of a document from its start to its end.
pub fn get_highlights(conn: &rusqlite::Connection, document_id: &str) -> (r: Result<
    Vec<Highlight>,
    String,
>) {
    fetch_highlights(conn, document_id)
}

/// Sets the colour of a highlight and marks its document as opened.
pub fn update_highlight_color(conn: &rusqlite::Connection, id: &str, color: &str) -> (r: Result<
    (),
    String,
>) {
    let now = now_millis();
    set_highlight_color(conn, id, color, now)?;
    let document_id = document_id_for_highlight(conn, id)?;
    touch_document(conn, document_id.as_str())
}

/// Removes a highlight and marks its document as opened. Fails, and
/// removes nothing, where the highlight is not stored.
pub fn delete_highlight(conn: &rusqlite::Connection, id: &str) -> (r: Result<(), String>) {
    let document_id = document_id_for_highlight(conn, id)?;
    remove_highlight(conn, id)?;
    touch_document(conn, document_id.as_str())
}

/// Creates a note on a highlight under a fresh id and marks the document as
/// opened. The note returned holds what was given, created and last changed
/// at the same time.
pub fn create_margin_note(conn: &rusqlite::Connection, highlight_id: String, content: String) -> (r:
    Result<MarginNote, String>)
    ensures
        r is Ok ==> {
            &&& r->Ok_0.id@.len() == 36
            &&& r->Ok_0.highlight_id == highlight_id
            &&& r->Ok_0.content == content
            &&& r->Ok_0.created_at == r->Ok_0.updated_at
        },
{
    let id = fresh_id();
    let now = now_millis();
    insert_margin_note(conn, id.as_str(), highlight_id.as_str(), content.as_str(), now)?;
    let document_id = document_id_for_highlight(conn, highlight_id.as_str())?;
    touch_document(conn, document_id.as_str())?;
    Ok(MarginNote { id, highlight_id, content, created_at: now, updated_at: now })
}

/// Lists the notes of a document in the order of their highlights.
pub fn get_margin_notes(conn: &rusqlite::Connection, document_id: &str) -> (r: Result<
    Vec<MarginNote>,
    String,
>) {
    fetch_margin_notes(conn, document_id)
}

/// Sets the content of a note and marks its document as opened. Fails, and
/// changes nothing, where the note is not stored.
pub fn update_margin_note(conn: &rusqlite::Connection, id: &str, content: &str) -> (r: Result<
    (),
    String,
>) {
    let now = now_millis();
    let document_id = document_id_for_margin_note(conn, id)?;
    set_margin_note_content(conn, id, content, now)?;
    touch_document(conn, document_id.as_str())
}

/// Removes a note and marks its document as opened. Fails, and removes
/// nothing, where the note is not stored.
pub fn delete_margin_note(conn: &rusqlite::Connection, id: &str) -> (r: Result<(), String>) {
    let document_id = document_id_for_margin_note(conn, id)?;
    remove_margin_note(conn, id)?;
    touch_document(conn, document_id.as_str())
}

/// Removes every highlight of a document and returns how many were
/// removed.
pub fn delete_all_highlights_for_document(conn: &rusqlite::Connection, document_id: &str) -> (r:
    Result<usize, String>) {
    remove_all_highlights_for_document(conn, document_id)
}

} // verus!
