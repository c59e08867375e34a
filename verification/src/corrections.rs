//! Correction records: text that the reader flagged, with notes on it.
//!
//! There is one correction per highlight. Writing a correction for a
//! highlight that already has one merges the two by a policy per field,
//! stated here once for each way a correction arrives.

use vstd::prelude::*;
use crate::clock::{fresh_id, unix_millis};
use crate::db::{
    db_execute, db_query, error_text, failure, key_params, limit_params, opt_text_data,
    opt_text_param, params_view, require_row, text_param, SqlParam, SqlParamData,
};
use crate::json::{
    json_of_object, json_string_list, members_view, object_json, parse_string_list,
    string_list_json, JsonData, JsonInput, JsonMember,
};
use crate::models::CorrectionInput;
use crate::rows::{describe_decode_error, DecodeError, SqlRow};
use crate::timestamp::{is_timestamp_of, iso_timestamp};
use crate::text::{chars_of, same_text, starts_with, string_of, texts};

verus! {

/// A correction as it is listed.
#[derive(Debug)]
pub struct CorrectionRecord {
    pub original_text: String,
    pub notes: Vec<String>,
    pub highlight_color: String,
    pub document_title: Option<String>,
    pub document_id: String,
    pub created_at: i64,
    pub writing_type: Option<String>,
}

/// The corrections of one document.
#[derive(Debug)]
pub struct DocumentCorrections {
    pub document_id: String,
    pub document_title: Option<String>,
    pub document_path: Option<String>,
    pub corrections: Vec<CorrectionDetail>,
}

/// A correction as it is shown under its document.
#[derive(Debug)]
pub struct CorrectionDetail {
    pub highlight_id: String,
    pub original_text: String,
    pub notes: Vec<String>,
    pub extended_context: Option<String>,
    pub highlight_color: String,
    pub writing_type: Option<String>,
    pub document_title: Option<String>,
    pub created_at: i64,
}

/// All corrections, ready to be written out.
#[derive(Debug)]
pub struct CorrectionsExport {
    pub exported_at: String,
    pub total_count: usize,
    pub corrections: Vec<ExportedCorrection>,
}

/// A correction as it is written out.
#[derive(Debug)]
pub struct ExportedCorrection {
    pub original_text: String,
    pub notes: Vec<String>,
    pub extended_context: Option<String>,
    pub writing_type: Option<String>,
    pub document_title: Option<String>,
    pub highlight_color: String,
    pub created_at: i64,
}

/// Whether `c` may stand in a file name as it is: an ASCII letter or digit,
/// a hyphen, an underscore or a dot.
pub open spec fn is_filename_safe(c: char) -> bool {
    ('a' <= c && c <= 'z') || ('A' <= c && c <= 'Z') || ('0' <= c && c <= '9') || c == '-' || c
        == '_' || c == '.'
}

/// The character that stands for `c` in a file name.
pub open spec fn filename_char(c: char) -> char {
    if is_filename_safe(c) {
        c
    } else {
        '_'
    }
}

/// The longest file-name component made from one input.
pub const MAX_COMPONENT_LEN: usize = 64;

/// The file-name component for `input`: its first 64 characters, each unsafe
/// one replaced by an underscore; `unknown` for an empty input.
pub open spec fn filename_component(input: Seq<char>) -> Seq<char> {
    if input.len() == 0 {
        seq!['u', 'n', 'k', 'n', 'o', 'w', 'n']
    } else if input.len() <= 64 {
        input.map_values(|c: char| filename_char(c))
    } else {
        input.take(64).map_values(|c: char| filename_char(c))
    }
}

/// Makes a safe, non-empty file-name component out of arbitrary text.
pub fn sanitize_filename_component(input: &str) -> (out: String)
    ensures
        out@ == filename_component(input@),
        1 <= out@.len() <= 64,
        forall|i: int| 0 <= i < out@.len() ==> is_filename_safe(#[trigger] out@[i]),
{
    let chars = chars_of(input);
    if chars.len() == 0 {
        let mut out = String::new();
        out.push('u');
        out.push('n');
        out.push('k');
        out.push('n');
        out.push('o');
        out.push('w');
        out.push('n');
        assert(out@ =~= seq!['u', 'n', 'k', 'n', 'o', 'w', 'n']);
        return out;
    }
    let n = if chars.len() <= MAX_COMPONENT_LEN {
        chars.len()
    } else {
        MAX_COMPONENT_LEN
    };
    let mut kept: Vec<char> = Vec::new();
    let mut i: usize = 0;
    while i < n
        invariant
            i <= n <= chars.len(),
            kept@.len() == i,
            forall|j: int| 0 <= j < i ==> #[trigger] kept@[j] == filename_char(chars@[j]),
        decreases n - i,
    {
        let c = chars[i];
        let keep = ('a' <= c && c <= 'z') || ('A' <= c && c <= 'Z') || ('0' <= c && c <= '9') || c
            == '-' || c == '_' || c == '.';
        kept.push(if keep { c } else { '_' });
        i += 1;
    }
    assert(kept@ =~= filename_component(input@));
    string_of(&kept)
}

/// Milliseconds since the start of Unix time, or the message for a clock
/// that stands before it.
pub fn now_millis() -> (r: Result<i64, String>) {
    unix_millis()
}

/// A correction as it is stored, one row per highlight.
#[derive(Debug)]
pub struct StoredCorrection {
    pub id: String,
    pub highlight_id: String,
    pub document_id: String,
    pub session_id: String,
    pub original_text: String,
    pub prefix_context: Option<String>,
    pub suffix_context: Option<String>,
    pub extended_context: Option<String>,
    pub notes_json: String,
    pub document_title: Option<String>,
    pub document_source: String,
    pub document_path: Option<String>,
    pub category: Option<String>,
    pub highlight_color: String,
    pub created_at: i64,
    pub updated_at: i64,
    pub writing_type: Option<String>,
}

/// Reads the stored correction of one highlight, all columns.
pub const SELECT_CORRECTION: &'static str =
    "SELECT id, highlight_id, document_id, session_id, original_text,
            prefix_context, suffix_context, extended_context, notes_json,
            document_title, document_source, document_path, category,
            highlight_color, created_at, updated_at, writing_type
     FROM corrections WHERE highlight_id = ?1";

/// Stores a correction under its highlight: a new row where the highlight
/// has none, else every column but the two keys is overwritten.
pub const PUT_CORRECTION: &'static str =
    "INSERT INTO corrections
        (id, highlight_id, document_id, session_id, original_text,
         prefix_context, suffix_context, extended_context, notes_json,
         document_title, document_source, document_path, category,
         highlight_color, created_at, updated_at, writing_type)
     VALUES (?1, ?2, ?3, ?4, ?5, ?6, ?7, ?8, ?9, ?10, ?11, ?12, ?13, ?14, ?15, ?16, ?17)
     ON CONFLICT(highlight_id) DO UPDATE SET
        document_id = excluded.document_id,
        session_id = excluded.session_id,
        original_text = excluded.original_text,
        prefix_context = excluded.prefix_context,
        suffix_context = excluded.suffix_context,
        extended_context = excluded.extended_context,
        notes_json = excluded.notes_json,
        document_title = excluded.document_title,
        document_source = excluded.document_source,
        document_path = excluded.document_path,
        category = excluded.category,
        highlight_color = excluded.highlight_color,
        created_at = excluded.created_at,
        updated_at = excluded.updated_at,
        writing_type = excluded.writing_type";

impl StoredCorrection {
    /// The correction that a row of `SELECT_CORRECTION` stands for; the first
    /// column that is missing or of the wrong type decides the error.
    pub open spec fn of_row(row: SqlRow) -> Result<StoredCorrection, DecodeError> {
        if row.text_at(0) is Err {
            Err(row.text_at(0)->Err_0)
        } else if row.text_at(1) is Err {
            Err(row.text_at(1)->Err_0)
        } else if row.text_at(2) is Err {
            Err(row.text_at(2)->Err_0)
        } else if row.text_at(3) is Err {
            Err(row.text_at(3)->Err_0)
        } else if row.text_at(4) is Err {
            Err(row.text_at(4)->Err_0)
        } else if row.opt_text_at(5) is Err {
            Err(row.opt_text_at(5)->Err_0)
        } else if row.opt_text_at(6) is Err {
            Err(row.opt_text_at(6)->Err_0)
        } else if row.opt_text_at(7) is Err {
            Err(row.opt_text_at(7)->Err_0)
        } else if row.text_at(8) is Err {
            Err(row.text_at(8)->Err_0)
        } else if row.opt_text_at(9) is Err {
            Err(row.opt_text_at(9)->Err_0)
        } else if row.text_at(10) is Err {
            Err(row.text_at(10)->Err_0)
        } else if row.opt_text_at(11) is Err {
            Err(row.opt_text_at(11)->Err_0)
        } else if row.opt_text_at(12) is Err {
            Err(row.opt_text_at(12)->Err_0)
        } else if row.text_at(13) is Err {
            Err(row.text_at(13)->Err_0)
        } else if row.int_at(14) is Err {
            Err(row.int_at(14)->Err_0)
        } else if row.int_at(15) is Err {
            Err(row.int_at(15)->Err_0)
        } else if row.opt_text_at(16) is Err {
            Err(row.opt_text_at(16)->Err_0)
        } else {
            Ok(
                StoredCorrection {
                    id: row.text_at(0)->Ok_0,
                    highlight_id: row.text_at(1)->Ok_0,
                    document_id: row.text_at(2)->Ok_0,
                    session_id: row.text_at(3)->Ok_0,
                    original_text: row.text_at(4)->Ok_0,
                    prefix_context: row.opt_text_at(5)->Ok_0,
                    suffix_context: row.opt_text_at(6)->Ok_0,
                    extended_context: row.opt_text_at(7)->Ok_0,
                    notes_json: row.text_at(8)->Ok_0,
                    document_title: row.opt_text_at(9)->Ok_0,
                    document_source: row.text_at(10)->Ok_0,
                    document_path: row.opt_text_at(11)->Ok_0,
                    category: row.opt_text_at(12)->Ok_0,
                    highlight_color: row.text_at(13)->Ok_0,
                    created_at: row.int_at(14)->Ok_0,
                    updated_at: row.int_at(15)->Ok_0,
                    writing_type: row.opt_text_at(16)->Ok_0,
                },
            )
        }
    }

    /// Decodes one row of `SELECT_CORRECTION`.
    pub fn from_row(row: &SqlRow) -> (r: Result<StoredCorrection, DecodeError>)
        ensures
            r == StoredCorrection::of_row(*row),
    {
        let id = row.get_text(0)?;
        let highlight_id = row.get_text(1)?;
        let document_id = row.get_text(2)?;
        let session_id = row.get_text(3)?;
        let original_text = row.get_text(4)?;
        let prefix_context = row.get_opt_text(5)?;
        let suffix_context = row.get_opt_text(6)?;
        let extended_context = row.get_opt_text(7)?;
        let notes_json = row.get_text(8)?;
        let document_title = row.get_opt_text(9)?;
        let document_source = row.get_text(10)?;
        let document_path = row.get_opt_text(11)?;
        let category = row.get_opt_text(12)?;
        let highlight_color = row.get_text(13)?;
        let created_at = row.get_int(14)?;
        let updated_at = row.get_int(15)?;
        let writing_type = row.get_opt_text(16)?;
        Ok(
            StoredCorrection {
                id,
                highlight_id,
                document_id,
                session_id,
                original_text,
                prefix_context,
                suffix_context,
                extended_context,
                notes_json,
                document_title,
                document_source,
                document_path,
                category,
                highlight_color,
                created_at,
                updated_at,
                writing_type,
            },
        )
    }

    /// The parameters of `PUT_CORRECTION` for this correction, one per column
    /// in the order of the statement.
    pub open spec fn put_params(self) -> Seq<SqlParamData> {
        seq![
            SqlParamData::Text(self.id@),
            SqlParamData::Text(self.highlight_id@),
            SqlParamData::Text(self.document_id@),
            SqlParamData::Text(self.session_id@),
            SqlParamData::Text(self.original_text@),
            opt_text_data(self.prefix_context),
            opt_text_data(self.suffix_context),
            opt_text_data(self.extended_context),
            SqlParamData::Text(self.notes_json@),
            opt_text_data(self.document_title),
            SqlParamData::Text(self.document_source@),
            opt_text_data(self.document_path),
            opt_text_data(self.category),
            SqlParamData::Text(self.highlight_color@),
            SqlParamData::Integer(self.created_at as int),
            SqlParamData::Integer(self.updated_at as int),
            opt_text_data(self.writing_type),
        ]
    }

    /// Builds the parameters of `PUT_CORRECTION`.
    pub fn to_params(&self) -> (params: Vec<SqlParam>)
        ensures
            params_view(params@) == self.put_params(),
    {
        let mut params: Vec<SqlParam> = Vec::new();
        params.push(text_param(self.id.as_str()));
        params.push(text_param(self.highlight_id.as_str()));
        params.push(text_param(self.document_id.as_str()));
        params.push(text_param(self.session_id.as_str()));
        params.push(text_param(self.original_text.as_str()));
        params.push(opt_text_param(&self.prefix_context));
        params.push(opt_text_param(&self.suffix_context));
        params.push(opt_text_param(&self.extended_context));
        params.push(text_param(self.notes_json.as_str()));
        params.push(opt_text_param(&self.document_title));
        params.push(text_param(self.document_source.as_str()));
        params.push(opt_text_param(&self.document_path));
        params.push(opt_text_param(&self.category));
        params.push(text_param(self.highlight_color.as_str()));
        params.push(SqlParam::Integer(self.created_at));
        params.push(SqlParam::Integer(self.updated_at));
        params.push(opt_text_param(&self.writing_type));
        assert(params_view(params@) =~= self.put_params());
        params
    }
}

/// The merge of a sticky field: a value that arrives replaces the stored
/// one, the lack of a value leaves it.
pub open spec fn sticky(incoming: Option<String>, stored: Option<String>) -> Option<String> {
    match incoming {
        Some(value) => Some(value),
        None => stored,
    }
}

/// What is stored when the editor hands over a correction.
///
/// Without a stored correction for the highlight, the incoming one is stored
/// as it is. Otherwise the stored one keeps its identity, its document,
/// its category and the time it was created; the writing type is sticky;
/// every other field is overwritten.
pub open spec fn merged_persisted(
    stored: Option<StoredCorrection>,
    incoming: StoredCorrection,
) -> StoredCorrection {
    match stored {
        None => incoming,
        Some(old) => StoredCorrection {
            id: old.id,
            highlight_id: old.highlight_id,
            document_id: old.document_id,
            category: old.category,
            created_at: old.created_at,
            writing_type: sticky(incoming.writing_type, old.writing_type),
            ..incoming
        },
    }
}

/// What is stored when a correction is recovered from a log.
///
/// Without a stored correction for the highlight, the recovered one is
/// stored as it is. Otherwise only the text, the notes, the title of the
/// document, the colour and the time of the last update are overwritten.
pub open spec fn merged_backfilled(
    stored: Option<StoredCorrection>,
    incoming: StoredCorrection,
) -> StoredCorrection {
    match stored {
        None => incoming,
        Some(old) => StoredCorrection {
            original_text: incoming.original_text,
            notes_json: incoming.notes_json,
            document_title: incoming.document_title,
            highlight_color: incoming.highlight_color,
            updated_at: incoming.updated_at,
            ..old
        },
    }
}

/// Merges a correction from the editor with the stored one.
pub fn merge_persisted(stored: Option<StoredCorrection>, incoming: StoredCorrection) -> (merged:
    StoredCorrection)
    ensures
        merged == merged_persisted(stored, incoming),
{
    match stored {
        None => incoming,
        Some(old) => {
            let writing_type = match incoming.writing_type {
                Some(value) => Some(value),
                None => old.writing_type,
            };
            StoredCorrection {
                id: old.id,
                highlight_id: old.highlight_id,
                document_id: old.document_id,
                session_id: incoming.session_id,
                original_text: incoming.original_text,
                prefix_context: incoming.prefix_context,
                suffix_context: incoming.suffix_context,
                extended_context: incoming.extended_context,
                notes_json: incoming.notes_json,
                document_title: incoming.document_title,
                document_source: incoming.document_source,
                document_path: incoming.document_path,
                category: old.category,
                highlight_color: incoming.highlight_color,
                created_at: old.created_at,
                updated_at: incoming.updated_at,
                writing_type,
            }
        },
    }
}

/// Merges a correction recovered from a log with the stored one.
pub fn merge_backfilled(stored: Option<StoredCorrection>, incoming: StoredCorrection) -> (merged:
    StoredCorrection)
    ensures
        merged == merged_backfilled(stored, incoming),
{
    match stored {
        None => incoming,
        Some(old) => StoredCorrection {
            id: old.id,
            highlight_id: old.highlight_id,
            document_id: old.document_id,
            session_id: old.session_id,
            original_text: incoming.original_text,
            prefix_context: old.prefix_context,
            suffix_context: old.suffix_context,
            extended_context: old.extended_context,
            notes_json: incoming.notes_json,
            document_title: incoming.document_title,
            document_source: old.document_source,
            document_path: old.document_path,
            category: old.category,
            highlight_color: incoming.highlight_color,
            created_at: old.created_at,
            updated_at: incoming.updated_at,
            writing_type: old.writing_type,
        },
    }
}

/// The writing type is sticky: a correction that arrives without one never
/// erases the stored one, and one that arrives with a writing type always
/// replaces it.
pub proof fn lemma_writing_type_is_sticky(stored: StoredCorrection, incoming: StoredCorrection)
    ensures
        incoming.writing_type is None ==> merged_persisted(Some(stored), incoming).writing_type
            == stored.writing_type,
        incoming.writing_type is Some ==> merged_persisted(Some(stored), incoming).writing_type
            == incoming.writing_type,
{
}

/// Whichever way a correction arrives, the stored row keeps its identity:
/// its id, its highlight and the time it was created.
pub proof fn lemma_merge_keeps_identity(stored: StoredCorrection, incoming: StoredCorrection)
    ensures
        merged_persisted(Some(stored), incoming).id == stored.id,
        merged_persisted(Some(stored), incoming).highlight_id == stored.highlight_id,
        merged_persisted(Some(stored), incoming).created_at == stored.created_at,
        merged_backfilled(Some(stored), incoming).id == stored.id,
        merged_backfilled(Some(stored), incoming).highlight_id == stored.highlight_id,
        merged_backfilled(Some(stored), incoming).created_at == stored.created_at,
{
}

/// What is stored for a highlight after the corrections recovered for it
/// have been merged in, one after the other.
pub open spec fn backfilled_all(
    stored: Option<StoredCorrection>,
    recovered: Seq<StoredCorrection>,
) -> Option<StoredCorrection>
    decreases recovered.len(),
{
    if recovered.len() == 0 {
        stored
    } else {
        Some(merged_backfilled(backfilled_all(stored, recovered.drop_last()), recovered.last()))
    }
}

/// Of several corrections recovered for one highlight the last one wins:
/// the stored text, notes, title, colour and update time are its own,
/// whatever was stored or recovered before.
pub proof fn lemma_last_recovered_wins(
    stored: Option<StoredCorrection>,
    recovered: Seq<StoredCorrection>,
)
    requires
        recovered.len() > 0,
    ensures
        backfilled_all(stored, recovered) is Some,
        backfilled_all(stored, recovered)->Some_0.original_text == recovered.last().original_text,
        backfilled_all(stored, recovered)->Some_0.notes_json == recovered.last().notes_json,
        backfilled_all(stored, recovered)->Some_0.document_title
            == recovered.last().document_title,
        backfilled_all(stored, recovered)->Some_0.highlight_color
            == recovered.last().highlight_color,
        backfilled_all(stored, recovered)->Some_0.updated_at == recovered.last().updated_at,
{
}

/// The stored correction among the rows of `SELECT_CORRECTION`: none where
/// there is no row, else the first row decoded.
pub open spec fn first_correction_of(rows: Seq<SqlRow>) -> Result<
    Option<StoredCorrection>,
    DecodeError,
> {
    if rows.len() == 0 {
        Ok(None)
    } else {
        match StoredCorrection::of_row(rows[0]) {
            Ok(stored) => Ok(Some(stored)),
            Err(e) => Err(e),
        }
    }
}

/// Decodes the answer to `SELECT_CORRECTION`.
pub fn first_correction(rows: &Vec<SqlRow>) -> (r: Result<Option<StoredCorrection>, DecodeError>)
    ensures
        r == first_correction_of(rows@),
{
    if rows.len() == 0 {
        Ok(None)
    } else {
        match StoredCorrection::from_row(&rows[0]) {
            Ok(stored) => Ok(Some(stored)),
            Err(e) => Err(e),
        }
    }
}

/// The way a correction arrives, which decides how it is merged.
#[derive(Clone, Copy, Debug, PartialEq, Eq, Structural)]
pub enum Arrival {
    /// Handed over by the editor.
    Persisted,
    /// Recovered from a log.
    Backfilled,
}

/// What is stored for a correction that arrives in the given way.
pub open spec fn merged(
    arrival: Arrival,
    stored: Option<StoredCorrection>,
    incoming: StoredCorrection,
) -> StoredCorrection {
    match arrival {
        Arrival::Persisted => merged_persisted(stored, incoming),
        Arrival::Backfilled => merged_backfilled(stored, incoming),
    }
}

/// Merges `incoming` with what is stored for its highlight.
pub fn merge(arrival: Arrival, stored: Option<StoredCorrection>, incoming: StoredCorrection) -> (r:
    StoredCorrection)
    ensures
        r == merged(arrival, stored, incoming),
{
    match arrival {
        Arrival::Persisted => merge_persisted(stored, incoming),
        Arrival::Backfilled => merge_backfilled(stored, incoming),
    }
}

/// Reads what is stored for a highlight.
pub fn load_correction(conn: &rusqlite::Connection, highlight_id: &str) -> (r: Result<
    Option<StoredCorrection>,
    String,
>) {
    match db_query(conn, SELECT_CORRECTION, &key_params(highlight_id)) {
        Err(e) => Err(error_text(&e)),
        Ok(rows) => match first_correction(&rows) {
            Ok(stored) => Ok(stored),
            Err(e) => Err(describe_decode_error(e)),
        },
    }
}

/// Writes a correction under its highlight: what is stored for the
/// highlight is read, the two are merged by the policy of the arrival, and
/// the merged correction is stored. Whether the two calls succeed is the
/// engine's to decide; the first failure is returned in its words.
pub fn upsert_correction(conn: &rusqlite::Connection, arrival: Arrival, incoming: StoredCorrection) -> (r:
    Result<(), String>) {
    let stored = load_correction(conn, incoming.highlight_id.as_str())?;
    let merged = merge(arrival, stored, incoming);
    let params = merged.to_params();
    match db_execute(conn, PUT_CORRECTION, &params) {
        Ok(_) => Ok(()),
        Err(e) => Err(error_text(&e)),
    }
}

/// Lists the reader's corrections, newest first.
pub const SELECT_CORRECTIONS: &'static str =
    "SELECT original_text, notes_json, highlight_color, document_title, document_id, created_at, writing_type
         FROM corrections
         WHERE session_id != '__backfilled__'
         ORDER BY created_at DESC
         LIMIT ?1";

/// Counts the reader's corrections.
pub const COUNT_CORRECTIONS: &'static str =
    "SELECT COUNT(*) FROM corrections WHERE session_id != '__backfilled__'";

/// Lists the reader's corrections with their documents, newest first.
pub const SELECT_BY_DOCUMENT: &'static str =
    "SELECT highlight_id, original_text, notes_json, extended_context,
                highlight_color, writing_type, document_title, document_id,
                document_path, created_at
         FROM corrections
         WHERE session_id != '__backfilled__'
         ORDER BY created_at DESC
         LIMIT ?1";

/// Lists the reader's corrections for an export, newest first.
pub const SELECT_EXPORT: &'static str =
    "SELECT original_text, notes_json, extended_context, writing_type,
                document_title, highlight_color, created_at
         FROM corrections
         WHERE session_id != '__backfilled__'
         ORDER BY created_at DESC";

/// Removes the reader's corrections, leaving the marker of the backfill.
pub const CLEAR_EXPORTED: &'static str =
    "DELETE FROM corrections WHERE session_id != '__backfilled__'";

/// Sets the writing type of one correction.
pub const SET_WRITING_TYPE: &'static str =
    "UPDATE corrections SET writing_type = ?1, updated_at = ?2 WHERE highlight_id = ?3";

/// Removes the correction of one highlight.
pub const DELETE_CORRECTION: &'static str = "DELETE FROM corrections WHERE highlight_id = ?1";

/// The notes that a stored JSON text stands for: the list of strings it
/// denotes, and no notes where it denotes none.
pub open spec fn notes_of(notes_json: Seq<char>) -> Seq<Seq<char>> {
    match json_string_list(notes_json) {
        Some(notes) => notes,
        None => Seq::empty(),
    }
}

/// Reads the notes out of their stored form.
pub fn decode_notes(notes_json: &str) -> (notes: Vec<String>)
    ensures
        texts(notes@) == notes_of(notes_json@),
{
    match parse_string_list(notes_json) {
        Some(notes) => notes,
        None => {
            let notes: Vec<String> = Vec::new();
            assert(texts(notes@) =~= Seq::<Seq<char>>::empty());
            notes
        },
    }
}

impl CorrectionRecord {
    /// Whether `row` decodes: every column is there and holds the type of
    /// its field.
    pub open spec fn decodes(row: SqlRow) -> bool {
        &&& row.text_at(0) is Ok
        &&& row.text_at(1) is Ok
        &&& row.text_at(2) is Ok
        &&& row.opt_text_at(3) is Ok
        &&& row.text_at(4) is Ok
        &&& row.int_at(5) is Ok
        &&& row.opt_text_at(6) is Ok
    }

    /// Whether this is what `row` stands for, field by field; the notes are
    /// those that the stored JSON text denotes.
    pub open spec fn is_of(self, row: SqlRow) -> bool {
        &&& row.text_at(0) == Ok::<_, DecodeError>(self.original_text)
        &&& row.text_at(1) is Ok && texts(self.notes@) == notes_of(row.text_at(1)->Ok_0@)
        &&& row.text_at(2) == Ok::<_, DecodeError>(self.highlight_color)
        &&& row.opt_text_at(3) == Ok::<_, DecodeError>(self.document_title)
        &&& row.text_at(4) == Ok::<_, DecodeError>(self.document_id)
        &&& row.int_at(5) == Ok::<_, DecodeError>(self.created_at)
        &&& row.opt_text_at(6) == Ok::<_, DecodeError>(self.writing_type)
    }

    /// Decodes one row of `SELECT_CORRECTIONS`.
    pub fn from_row(row: &SqlRow) -> (r: Result<CorrectionRecord, DecodeError>)
        ensures
            r is Ok <==> CorrectionRecord::decodes(*row),
            r is Ok ==> r->Ok_0.is_of(*row),
    {
        let original_text = row.get_text(0)?;
        let notes_json = row.get_text(1)?;
        let highlight_color = row.get_text(2)?;
        let document_title = row.get_opt_text(3)?;
        let document_id = row.get_text(4)?;
        let created_at = row.get_int(5)?;
        let writing_type = row.get_opt_text(6)?;
        let notes = decode_notes(notes_json.as_str());
        Ok(CorrectionRecord { original_text, notes, highlight_color, document_title, document_id, created_at, writing_type })
    }
}

impl ExportedCorrection {
    /// Whether `row` decodes: every column is there and holds the type of
    /// its field.
    pub open spec fn decodes(row: SqlRow) -> bool {
        &&& row.text_at(0) is Ok
        &&& row.text_at(1) is Ok
        &&& row.opt_text_at(2) is Ok
        &&& row.opt_text_at(3) is Ok
        &&& row.opt_text_at(4) is Ok
        &&& row.text_at(5) is Ok
        &&& row.int_at(6) is Ok
    }

    /// Whether this is what `row` stands for, field by field; the notes are
    /// those that the stored JSON text denotes.
    pub open spec fn is_of(self, row: SqlRow) -> bool {
        &&& row.text_at(0) == Ok::<_, DecodeError>(self.original_text)
        &&& row.text_at(1) is Ok && texts(self.notes@) == notes_of(row.text_at(1)->Ok_0@)
        &&& row.opt_text_at(2) == Ok::<_, DecodeError>(self.extended_context)
        &&& row.opt_text_at(3) == Ok::<_, DecodeError>(self.writing_type)
        &&& row.opt_text_at(4) == Ok::<_, DecodeError>(self.document_title)
        &&& row.text_at(5) == Ok::<_, DecodeError>(self.highlight_color)
        &&& row.int_at(6) == Ok::<_, DecodeError>(self.created_at)
    }

    /// Decodes one row of `SELECT_EXPORT`.
    pub fn from_row(row: &SqlRow) -> (r: Result<ExportedCorrection, DecodeError>)
        ensures
            r is Ok <==> ExportedCorrection::decodes(*row),
            r is Ok ==> r->Ok_0.is_of(*row),
    {
        let original_text = row.get_text(0)?;
        let notes_json = row.get_text(1)?;
        let extended_context = row.get_opt_text(2)?;
        let writing_type = row.get_opt_text(3)?;
        let document_title = row.get_opt_text(4)?;
        let highlight_color = row.get_text(5)?;
        let created_at = row.get_int(6)?;
        let notes = decode_notes(notes_json.as_str());
        Ok(ExportedCorrection { original_text, notes, extended_context, writing_type, document_title, highlight_color, created_at })
    }
}

impl CorrectionDetail {
    /// Whether `row` decodes: every column is there and holds the type of
    /// its field.
    pub open spec fn decodes(row: SqlRow) -> bool {
        &&& row.text_at(0) is Ok
        &&& row.text_at(1) is Ok
        &&& row.text_at(2) is Ok
        &&& row.opt_text_at(3) is Ok
        &&& row.text_at(4) is Ok
        &&& row.opt_text_at(5) is Ok
        &&& row.opt_text_at(6) is Ok
        &&& row.int_at(9) is Ok
    }

    /// Whether this is what `row` stands for, field by field; the notes are
    /// those that the stored JSON text denotes.
    pub open spec fn is_of(self, row: SqlRow) -> bool {
        &&& row.text_at(0) == Ok::<_, DecodeError>(self.highlight_id)
        &&& row.text_at(1) == Ok::<_, DecodeError>(self.original_text)
        &&& row.text_at(2) is Ok && texts(self.notes@) == notes_of(row.text_at(2)->Ok_0@)
        &&& row.opt_text_at(3) == Ok::<_, DecodeError>(self.extended_context)
        &&& row.text_at(4) == Ok::<_, DecodeError>(self.highlight_color)
        &&& row.opt_text_at(5) == Ok::<_, DecodeError>(self.writing_type)
        &&& row.opt_text_at(6) == Ok::<_, DecodeError>(self.document_title)
        &&& row.int_at(9) == Ok::<_, DecodeError>(self.created_at)
    }

    /// Decodes one row of `SELECT_BY_DOCUMENT`.
    pub fn from_row(row: &SqlRow) -> (r: Result<CorrectionDetail, DecodeError>)
        ensures
            r is Ok <==> CorrectionDetail::decodes(*row),
            r is Ok ==> r->Ok_0.is_of(*row),
    {
        let highlight_id = row.get_text(0)?;
        let original_text = row.get_text(1)?;
        let notes_json = row.get_text(2)?;
        let extended_context = row.get_opt_text(3)?;
        let highlight_color = row.get_text(4)?;
        let writing_type = row.get_opt_text(5)?;
        let document_title = row.get_opt_text(6)?;
        let created_at = row.get_int(9)?;
        let notes = decode_notes(notes_json.as_str());
        Ok(CorrectionDetail { highlight_id, original_text, notes, extended_context, highlight_color, writing_type, document_title, created_at })
    }
}

/// Decodes the rows of `SELECT_CORRECTIONS` in order. The list is returned
/// where every row decodes, else the description of the first failure.
pub fn collect_corrections(rows: &Vec<SqlRow>) -> (r: Result<Vec<CorrectionRecord>, String>)
    ensures
        r is Ok <==> forall|i: int| 0 <= i < rows@.len() ==> CorrectionRecord::decodes(#[trigger] rows@[i]),
        r is Ok ==> r->Ok_0@.len() == rows@.len() && forall|i: int|
            0 <= i < rows@.len() ==> (#[trigger] r->Ok_0@[i]).is_of(rows@[i]),
{
    let mut out: Vec<CorrectionRecord> = Vec::new();
    let mut i: usize = 0;
    while i < rows.len()
        invariant
            i <= rows.len(),
            out@.len() == i,
            forall|k: int| 0 <= k < i ==> CorrectionRecord::decodes(#[trigger] rows@[k]),
            forall|k: int| 0 <= k < i ==> (#[trigger] out@[k]).is_of(rows@[k]),
        decreases rows.len() - i,
    {
        match CorrectionRecord::from_row(&rows[i]) {
            Ok(item) => {
                out.push(item);
            },
            Err(e) => {
                return Err(describe_decode_error(e));
            },
        }
        i += 1;
    }
    Ok(out)
}

/// Decodes the rows of `SELECT_EXPORT` in order. The list is returned
/// where every row decodes, else the description of the first failure.
pub fn collect_exported(rows: &Vec<SqlRow>) -> (r: Result<Vec<ExportedCorrection>, String>)
    ensures
        r is Ok <==> forall|i: int| 0 <= i < rows@.len() ==> ExportedCorrection::decodes(#[trigger] rows@[i]),
        r is Ok ==> r->Ok_0@.len() == rows@.len() && forall|i: int|
            0 <= i < rows@.len() ==> (#[trigger] r->Ok_0@[i]).is_of(rows@[i]),
{
    let mut out: Vec<ExportedCorrection> = Vec::new();
    let mut i: usize = 0;
    while i < rows.len()
        invariant
            i <= rows.len(),
            out@.len() == i,
            forall|k: int| 0 <= k < i ==> ExportedCorrection::decodes(#[trigger] rows@[k]),
            forall|k: int| 0 <= k < i ==> (#[trigger] out@[k]).is_of(rows@[k]),
        decreases rows.len() - i,
    {
        match ExportedCorrection::from_row(&rows[i]) {
            Ok(item) => {
                out.push(item);
            },
            Err(e) => {
                return Err(describe_decode_error(e));
            },
        }
        i += 1;
    }
    Ok(out)
}

/// Lists at most `limit` of the reader's corrections, newest first. The
/// marker of the backfill is no correction and is left out.
pub fn fetch_corrections(conn: &rusqlite::Connection, limit: i64) -> (r: Result<
    Vec<CorrectionRecord>,
    String,
>) {
    match db_query(conn, SELECT_CORRECTIONS, &limit_params(limit)) {
        Ok(rows) => collect_corrections(&rows),
        Err(e) => Err(error_text(&e)),
    }
}

/// The count that the answer to `COUNT_CORRECTIONS` holds: the integer in
/// the first column of the first row.
pub open spec fn count_of(rows: Seq<SqlRow>) -> Result<i64, DecodeError> {
    if rows.len() == 0 {
        Err(DecodeError::NoSuchColumn)
    } else {
        rows[0].int_at(0)
    }
}

/// Decodes the answer to `COUNT_CORRECTIONS`.
pub fn first_count(rows: &Vec<SqlRow>) -> (r: Result<i64, DecodeError>)
    ensures
        r == count_of(rows@),
{
    if rows.len() == 0 {
        Err(DecodeError::NoSuchColumn)
    } else {
        rows[0].get_int(0)
    }
}

/// Counts the reader's corrections. The marker of the backfill is no
/// correction and is not counted.
pub fn count_corrections(conn: &rusqlite::Connection) -> (r: Result<i64, String>) {
    let none: Vec<SqlParam> = Vec::new();
    match db_query(conn, COUNT_CORRECTIONS, &none) {
        Err(e) => Err(error_text(&e)),
        Ok(rows) => match first_count(&rows) {
            Ok(n) => Ok(n),
            Err(e) => Err(describe_decode_error(e)),
        },
    }
}

/// The default and the bounds of the number of corrections listed at once.
pub const DEFAULT_LIST_LIMIT: i64 = 200;

pub const MAX_LIST_LIMIT: i64 = 2000;

/// The default and the bounds of the number of corrections grouped at once.
pub const DEFAULT_GROUP_LIMIT: i64 = 50;

pub const MAX_GROUP_LIMIT: i64 = 500;

/// The limit in force: the caller's, or `default` where there is none, kept
/// between 1 and `max`.
pub open spec fn clamped_limit(limit: Option<i64>, default: i64, max: i64) -> i64 {
    let wanted = match limit {
        Some(n) => n,
        None => default,
    };
    if wanted < 1 {
        1
    } else if wanted > max {
        max
    } else {
        wanted
    }
}

/// Computes `clamped_limit`.
pub fn clamp_limit(limit: Option<i64>, default: i64, max: i64) -> (r: i64)
    requires
        1 <= max,
    ensures
        r == clamped_limit(limit, default, max),
        1 <= r <= max,
{
    let wanted = match limit {
        Some(n) => n,
        None => default,
    };
    if wanted < 1 {
        1
    } else if wanted > max {
        max
    } else {
        wanted
    }
}

/// Lists the reader's corrections, 200 where no limit is given, never fewer
/// than one nor more than 2000.
pub fn get_all_corrections(conn: &rusqlite::Connection, limit: Option<i64>) -> (r: Result<
    Vec<CorrectionRecord>,
    String,
>) {
    fetch_corrections(conn, clamp_limit(limit, DEFAULT_LIST_LIMIT, MAX_LIST_LIMIT))
}

/// One row of `SELECT_BY_DOCUMENT`: a correction and the document it
/// belongs to.
#[derive(Debug)]
pub struct DocumentCorrectionRow {
    pub document_id: String,
    pub document_title: Option<String>,
    pub document_path: Option<String>,
    pub detail: CorrectionDetail,
}

impl DocumentCorrectionRow {
    /// Whether `row` decodes.
    pub open spec fn decodes(row: SqlRow) -> bool {
        &&& CorrectionDetail::decodes(row)
        &&& row.text_at(7) is Ok
        &&& row.opt_text_at(8) is Ok
    }

    /// Whether this is what `row` stands for.
    pub open spec fn is_of(self, row: SqlRow) -> bool {
        &&& self.detail.is_of(row)
        &&& row.text_at(7) == Ok::<_, DecodeError>(self.document_id)
        &&& row.opt_text_at(6) == Ok::<_, DecodeError>(self.document_title)
        &&& row.opt_text_at(8) == Ok::<_, DecodeError>(self.document_path)
    }

    /// Decodes one row of `SELECT_BY_DOCUMENT`.
    pub fn from_row(row: &SqlRow) -> (r: Result<DocumentCorrectionRow, DecodeError>)
        ensures
            r is Ok <==> DocumentCorrectionRow::decodes(*row),
            r is Ok ==> r->Ok_0.is_of(*row),
    {
        let document_id = row.get_text(7)?;
        let document_title = row.get_opt_text(6)?;
        let document_path = row.get_opt_text(8)?;
        let detail = CorrectionDetail::from_row(row)?;
        Ok(DocumentCorrectionRow { document_id, document_title, document_path, detail })
    }
}

/// The corrections of one document, as a mathematical value.
pub ghost struct DocumentGroup {
    pub document_id: String,
    pub document_title: Option<String>,
    pub document_path: Option<String>,
    pub corrections: Seq<CorrectionDetail>,
}

impl View for DocumentCorrections {
    type V = DocumentGroup;

    open spec fn view(&self) -> DocumentGroup {
        DocumentGroup {
            document_id: self.document_id,
            document_title: self.document_title,
            document_path: self.document_path,
            corrections: self.corrections@,
        }
    }
}

/// The groups held by a list.
pub open spec fn groups_view(groups: Seq<DocumentCorrections>) -> Seq<DocumentGroup> {
    Seq::new(groups.len(), |i: int| groups[i]@)
}

/// The position of the first group at or after `from` that belongs to the
/// document `id`; the number of groups where there is none.
pub open spec fn group_position(groups: Seq<DocumentGroup>, id: Seq<char>, from: int) -> int
    decreases groups.len() - from,
{
    if from < 0 || from >= groups.len() {
        groups.len() as int
    } else if groups[from].document_id@ == id {
        from
    } else {
        group_position(groups, id, from + 1)
    }
}

/// The rows grouped by document. Groups stand in the order in which their
/// documents first occur, each with its corrections in the order of the
/// rows; title and path of a group are those of its first row.
pub open spec fn grouped(rows: Seq<DocumentCorrectionRow>) -> Seq<DocumentGroup>
    decreases rows.len(),
{
    if rows.len() == 0 {
        Seq::empty()
    } else {
        let groups = grouped(rows.drop_last());
        let row = rows.last();
        let at = group_position(groups, row.document_id@, 0);
        if at < groups.len() {
            groups.update(
                at,
                DocumentGroup {
                    corrections: groups[at].corrections.push(row.detail),
                    ..groups[at]
                },
            )
        } else {
            groups.push(
                DocumentGroup {
                    document_id: row.document_id,
                    document_title: row.document_title,
                    document_path: row.document_path,
                    corrections: seq![row.detail],
                },
            )
        }
    }
}

/// Finds the group of a document.
fn find_group(groups: &Vec<DocumentCorrections>, id: &str) -> (at: usize)
    ensures
        at as int == group_position(groups_view(groups@), id@, 0),
        at <= groups@.len(),
{
    let mut i: usize = 0;
    while i < groups.len()
        invariant
            i <= groups@.len(),
            group_position(groups_view(groups@), id@, 0) == group_position(
                groups_view(groups@),
                id@,
                i as int,
            ),
        decreases groups.len() - i,
    {
        if same_text(groups[i].document_id.as_str(), id) {
            return i;
        }
        i += 1;
    }
    i
}

/// Groups corrections by their document, keeping the order of the rows.
pub fn group_by_document(rows: Vec<DocumentCorrectionRow>) -> (groups: Vec<DocumentCorrections>)
    ensures
        groups_view(groups@) == grouped(rows@),
{
    let mut groups: Vec<DocumentCorrections> = Vec::new();
    assert(groups_view(groups@) =~= Seq::<DocumentGroup>::empty());
    for row in it: rows
        invariant
            it.seq() == rows@,
            groups_view(groups@) == grouped(rows@.take(it.index() as int)),
    {
        proof {
            let n = it.index() as int;
            assert(rows@.take(n + 1).drop_last() =~= rows@.take(n));
            assert(rows@.take(n + 1).last() == row);
        }
        let ghost before = groups_view(groups@);
        let at = find_group(&groups, row.document_id.as_str());
        if at < groups.len() {
            groups[at].corrections.push(row.detail);
            assert(groups_view(groups@) =~= before.update(
                at as int,
                DocumentGroup {
                    corrections: before[at as int].corrections.push(row.detail),
                    ..before[at as int]
                },
            ));
        } else {
            let mut corrections: Vec<CorrectionDetail> = Vec::new();
            corrections.push(row.detail);
            let group = DocumentCorrections {
                document_id: row.document_id,
                document_title: row.document_title,
                document_path: row.document_path,
                corrections,
            };
            let ghost added = group@;
            groups.push(group);
            assert(added.corrections =~= seq![row.detail]);
            assert(groups_view(groups@) =~= before.push(added));
        }
    }
    assert(rows@.take(rows@.len() as int) =~= rows@);
    groups
}

/// Decodes the rows of `SELECT_BY_DOCUMENT` in order; the first row that
/// does not decode fails the list.
pub fn collect_document_rows(rows: &Vec<SqlRow>) -> (r: Result<Vec<DocumentCorrectionRow>, String>)
    ensures
        r is Ok <==> forall|i: int|
            0 <= i < rows@.len() ==> DocumentCorrectionRow::decodes(#[trigger] rows@[i]),
        r is Ok ==> r->Ok_0@.len() == rows@.len() && forall|i: int|
            0 <= i < rows@.len() ==> (#[trigger] r->Ok_0@[i]).is_of(rows@[i]),
{
    let mut out: Vec<DocumentCorrectionRow> = Vec::new();
    let mut i: usize = 0;
    while i < rows.len()
        invariant
            i <= rows.len(),
            out@.len() == i,
            forall|k: int| 0 <= k < i ==> DocumentCorrectionRow::decodes(#[trigger] rows@[k]),
            forall|k: int| 0 <= k < i ==> (#[trigger] out@[k]).is_of(rows@[k]),
        decreases rows.len() - i,
    {
        match DocumentCorrectionRow::from_row(&rows[i]) {
            Ok(item) => {
                out.push(item);
            },
            Err(e) => {
                return Err(describe_decode_error(e));
            },
        }
        i += 1;
    }
    Ok(out)
}

/// Lists at most `limit` of the reader's corrections, newest first, grouped
/// by document.
pub fn fetch_corrections_by_document(conn: &rusqlite::Connection, limit: i64) -> (r: Result<
    Vec<DocumentCorrections>,
    String,
>) {
    match db_query(conn, SELECT_BY_DOCUMENT, &limit_params(limit)) {
        Err(e) => Err(error_text(&e)),
        Ok(rows) => match collect_document_rows(&rows) {
            Ok(decoded) => Ok(group_by_document(decoded)),
            Err(message) => Err(message),
        },
    }
}

/// Lists the reader's corrections by document, 50 where no limit is given,
/// never fewer than one nor more than 500.
pub fn get_corrections_by_document(conn: &rusqlite::Connection, limit: Option<i64>) -> (r: Result<
    Vec<DocumentCorrections>,
    String,
>) {
    fetch_corrections_by_document(conn, clamp_limit(limit, DEFAULT_GROUP_LIMIT, MAX_GROUP_LIMIT))
}

/// The document that a batch of corrections belongs to.
#[derive(Debug)]
pub struct CorrectionContext {
    pub document_id: String,
    pub document_title: Option<String>,
    pub document_source: String,
    pub document_path: Option<String>,
}

/// The row for a correction that the editor hands over, before it is merged
/// with what is stored: the fields of the input and of its document, the
/// given id and session, both times set to `now`, no category.
pub open spec fn is_incoming_row(
    row: StoredCorrection,
    id: String,
    session_id: Seq<char>,
    input: CorrectionInput,
    notes_json: String,
    context: CorrectionContext,
    now: i64,
) -> bool {
    &&& row.id == id
    &&& row.highlight_id == input.highlight_id
    &&& row.document_id == context.document_id
    &&& row.session_id@ == session_id
    &&& row.original_text == input.original_text
    &&& row.prefix_context == input.prefix_context
    &&& row.suffix_context == input.suffix_context
    &&& row.extended_context == input.extended_context
    &&& row.notes_json == notes_json
    &&& row.document_title == context.document_title
    &&& row.document_source == context.document_source
    &&& row.document_path == context.document_path
    &&& row.category is None
    &&& row.highlight_color == input.highlight_color
    &&& row.created_at == now
    &&& row.updated_at == now
    &&& row.writing_type == input.writing_type
}

/// Builds the row for a correction that the editor hands over.
pub fn incoming_row(
    id: String,
    session_id: &str,
    input: &CorrectionInput,
    notes_json: String,
    context: &CorrectionContext,
    now: i64,
) -> (row: StoredCorrection)
    ensures
        is_incoming_row(row, id, session_id@, *input, notes_json, *context, now),
{
    StoredCorrection {
        id,
        highlight_id: input.highlight_id.clone(),
        document_id: context.document_id.clone(),
        session_id: String::from_str(session_id),
        original_text: input.original_text.clone(),
        prefix_context: input.prefix_context.clone(),
        suffix_context: input.suffix_context.clone(),
        extended_context: input.extended_context.clone(),
        notes_json,
        document_title: context.document_title.clone(),
        document_source: context.document_source.clone(),
        document_path: context.document_path.clone(),
        category: None,
        highlight_color: input.highlight_color.clone(),
        created_at: now,
        updated_at: now,
        writing_type: input.writing_type.clone(),
    }
}

/// A text member, or `null` where there is no text.
pub open spec fn opt_text_json(value: Option<String>) -> JsonData {
    match value {
        Some(s) => JsonData::Text(s@),
        None => JsonData::Null,
    }
}

/// The members of the log record of one correction, by name.
pub open spec fn log_record(
    input: CorrectionInput,
    session_id: Seq<char>,
    context: CorrectionContext,
    now: i64,
) -> Seq<(Seq<char>, JsonData)> {
    seq![
        ("highlight_id"@, JsonData::Text(input.highlight_id@)),
        ("session_id"@, JsonData::Text(session_id)),
        ("original_text"@, JsonData::Text(input.original_text@)),
        ("prefix_context"@, opt_text_json(input.prefix_context)),
        ("suffix_context"@, opt_text_json(input.suffix_context)),
        ("extended_context"@, opt_text_json(input.extended_context)),
        ("notes"@, JsonData::List(texts(input.notes@))),
        ("document_id"@, JsonData::Text(context.document_id@)),
        ("document_title"@, opt_text_json(context.document_title)),
        ("document_source"@, JsonData::Text(context.document_source@)),
        ("document_path"@, opt_text_json(context.document_path)),
        ("highlight_color"@, JsonData::Text(input.highlight_color@)),
        ("writing_type"@, opt_text_json(input.writing_type)),
        ("exported_at"@, JsonData::Integer(now as int)),
    ]
}

fn text_member(name: &str, value: &String) -> (m: JsonMember)
    ensures
        m.name@ == name@,
        m.value@ == JsonData::Text(value@),
{
    JsonMember { name: String::from_str(name), value: JsonInput::Text(value.clone()) }
}

fn opt_text_member(name: &str, value: &Option<String>) -> (m: JsonMember)
    ensures
        m.name@ == name@,
        m.value@ == opt_text_json(*value),
{
    let value = match value {
        Some(s) => JsonInput::Text(s.clone()),
        None => JsonInput::Null,
    };
    JsonMember { name: String::from_str(name), value }
}

/// Builds the members of the log record of one correction.
pub fn log_record_members(
    input: &CorrectionInput,
    session_id: &String,
    context: &CorrectionContext,
    now: i64,
) -> (members: Vec<JsonMember>)
    ensures
        members_view(members@) == log_record(*input, session_id@, *context, now),
{
    let mut members: Vec<JsonMember> = Vec::new();
    members.push(text_member("highlight_id", &input.highlight_id));
    members.push(text_member("session_id", session_id));
    members.push(text_member("original_text", &input.original_text));
    members.push(opt_text_member("prefix_context", &input.prefix_context));
    members.push(opt_text_member("suffix_context", &input.suffix_context));
    members.push(opt_text_member("extended_context", &input.extended_context));
    let notes = input.notes.clone();
    members.push(JsonMember { name: String::from_str("notes"), value: JsonInput::List(notes) });
    members.push(text_member("document_id", &context.document_id));
    members.push(opt_text_member("document_title", &context.document_title));
    members.push(text_member("document_source", &context.document_source));
    members.push(opt_text_member("document_path", &context.document_path));
    members.push(text_member("highlight_color", &input.highlight_color));
    members.push(opt_text_member("writing_type", &input.writing_type));
    members.push(
        JsonMember { name: String::from_str("exported_at"), value: JsonInput::Integer(now) },
    );
    assert(members_view(members@) =~= log_record(*input, session_id@, *context, now));
    members
}

/// What persisting a batch of corrections gives: the session under which
/// they were stored, and one line per correction for the append-only log.
#[derive(Debug)]
pub struct PersistedSession {
    pub session_id: String,
    pub log_lines: Vec<String>,
}

/// The lines of the log for a batch: the JSON text of the log record of
/// each correction, in order.
pub open spec fn log_lines_of(
    inputs: Seq<CorrectionInput>,
    session_id: Seq<char>,
    context: CorrectionContext,
    now: i64,
) -> Seq<Seq<char>> {
    Seq::new(
        inputs.len(),
        |i: int| json_of_object(log_record(inputs[i], session_id, context, now)),
    )
}

/// Whether `lines` are the lines of the log for a batch stored under the
/// session `session_id` at some point in time.
pub open spec fn is_log_of(
    lines: Seq<Seq<char>>,
    inputs: Seq<CorrectionInput>,
    session_id: Seq<char>,
    context: CorrectionContext,
) -> bool {
    exists|now: i64| lines == #[trigger] log_lines_of(inputs, session_id, context, now)
}

/// Stores a batch of corrections in one transaction, under the session
/// `session_id` and with both times of every new row set to `now`. Each
/// correction is merged with what is stored for its highlight, as an
/// arrival from the editor.
///
/// On success the lines for the append-only log are returned, one per
/// correction. The first failure abandons the transaction and is returned
/// in the engine's words.
pub fn store_corrections(
    conn: &rusqlite::Connection,
    corrections: &Vec<CorrectionInput>,
    context: &CorrectionContext,
    session_id: String,
    now: i64,
) -> (r: Result<PersistedSession, String>)
    ensures
        r is Ok ==> r->Ok_0.session_id == session_id && texts(r->Ok_0.log_lines@) == log_lines_of(
            corrections@,
            session_id@,
            *context,
            now,
        ),
{
    let tx = match conn.unchecked_transaction() {
        Ok(tx) => tx,
        Err(e) => {
            return Err(error_text(&e));
        },
    };
    let mut log_lines: Vec<String> = Vec::new();
    let mut i: usize = 0;
    while i < corrections.len()
        invariant
            i <= corrections.len(),
            log_lines@.len() == i,
            forall|k: int|
                0 <= k < i ==> (#[trigger] log_lines@[k])@ == json_of_object(
                    log_record(corrections@[k], session_id@, *context, now),
                ),
        decreases corrections.len() - i,
    {
        let input = &corrections[i];
        let notes_json = string_list_json(&input.notes);
        let row = incoming_row(fresh_id(), session_id.as_str(), input, notes_json, context, now);
        upsert_correction(conn, Arrival::Persisted, row)?;
        let members = log_record_members(input, &session_id, context, now);
        log_lines.push(object_json(&members));
        i += 1;
    }
    match tx.commit() {
        Ok(()) => {
            assert(texts(log_lines@) =~= log_lines_of(corrections@, session_id@, *context, now));
            Ok(PersistedSession { session_id, log_lines })
        },
        Err(e) => Err(error_text(&e)),
    }
}

/// Stores a batch of corrections under a fresh session and the current
/// time, and returns the session with the lines for the append-only log.
pub fn persist_corrections(
    conn: &rusqlite::Connection,
    corrections: &Vec<CorrectionInput>,
    context: &CorrectionContext,
) -> (r: Result<PersistedSession, String>)
    ensures
        r is Ok ==> r->Ok_0.session_id@.len() == 36 && is_log_of(
            texts(r->Ok_0.log_lines@),
            corrections@,
            r->Ok_0.session_id@,
            *context,
        ),
{
    let session_id = fresh_id();
    let now = match now_millis() {
        Ok(now) => now,
        Err(message) => {
            return Err(message);
        },
    };
    let r = store_corrections(conn, corrections, context, session_id, now);
    proof {
        if r is Ok {
            assert(texts(r->Ok_0.log_lines@) == log_lines_of(
                corrections@,
                r->Ok_0.session_id@,
                *context,
                now,
            ));
        }
    }
    r
}

/// The name of the log file for an export date: `corrections-`, the date as
/// a file-name component, `.jsonl`.
pub open spec fn log_file_name(export_date: Seq<char>) -> Seq<char> {
    "corrections-"@ + filename_component(export_date) + ".jsonl"@
}

/// Names the log file for an export date.
pub fn corrections_log_name(export_date: &str) -> (name: String)
    ensures
        name@ == log_file_name(export_date@),
{
    let safe = sanitize_filename_component(export_date);
    let mut name = String::from_str("corrections-");
    name.append(safe.as_str());
    name.append(".jsonl");
    name
}

/// The parameters of `SET_WRITING_TYPE`: the writing type, the time of the
/// change and the highlight.
pub fn writing_type_params(writing_type: &str, now: i64, highlight_id: &str) -> (params: Vec<
    SqlParam,
>)
    ensures
        params_view(params@) == seq![
            SqlParamData::Text(writing_type@),
            SqlParamData::Integer(now as int),
            SqlParamData::Text(highlight_id@),
        ],
{
    let mut params: Vec<SqlParam> = Vec::new();
    params.push(text_param(writing_type));
    params.push(SqlParam::Integer(now));
    params.push(text_param(highlight_id));
    assert(params_view(params@) =~= seq![
        SqlParamData::Text(writing_type@),
        SqlParamData::Integer(now as int),
        SqlParamData::Text(highlight_id@),
    ]);
    params
}

/// Sets the writing type of the correction of one highlight, and the time
/// of its last update to now. Fails where the highlight has no correction.
pub fn update_writing_type(conn: &rusqlite::Connection, highlight_id: &str, writing_type: &str) -> (r:
    Result<(), String>) {
    let now = match now_millis() {
        Ok(ms) => ms,
        Err(_) => 0,
    };
    let params = writing_type_params(writing_type, now, highlight_id);
    require_row(db_execute(conn, SET_WRITING_TYPE, &params))
}

/// Removes the correction of one highlight. Fails where the highlight has
/// no correction.
pub fn delete_correction_by_highlight(conn: &rusqlite::Connection, highlight_id: &str) -> (r: Result<
    (),
    String,
>) {
    require_row(db_execute(conn, DELETE_CORRECTION, &key_params(highlight_id)))
}

/// Collects the reader's corrections for an export stamped with the point
/// in time `now_secs`, in seconds of Unix time. The marker of the backfill
/// is left out.
pub fn build_corrections_export_at(conn: &rusqlite::Connection, now_secs: u64) -> (r: Result<
    CorrectionsExport,
    String,
>)
    ensures
        r is Ok ==> is_timestamp_of(r->Ok_0.exported_at@, now_secs as int) && r->Ok_0.total_count
            == r->Ok_0.corrections@.len(),
{
    let none: Vec<SqlParam> = Vec::new();
    let rows = match db_query(conn, SELECT_EXPORT, &none) {
        Ok(rows) => rows,
        Err(e) => {
            return Err(error_text(&e));
        },
    };
    let corrections = collect_exported(&rows)?;
    let exported_at = iso_timestamp(now_secs);
    Ok(CorrectionsExport { exported_at, total_count: corrections.len(), corrections })
}

/// Collects the reader's corrections for an export stamped with the
/// current time; with the start of Unix time where the clock stands before
/// it.
pub fn build_corrections_export(conn: &rusqlite::Connection) -> (r: Result<
    CorrectionsExport,
    String,
>)
    ensures
        r is Ok ==> r->Ok_0.total_count == r->Ok_0.corrections@.len(),
        r is Ok ==> exists|now_secs: u64| #[trigger]
            is_timestamp_of(r->Ok_0.exported_at@, now_secs as int),
{
    let now_secs: u64 = match unix_millis() {
        Ok(ms) => if ms >= 0 {
            (ms / 1000) as u64
        } else {
            0
        },
        Err(_) => 0,
    };
    build_corrections_export_at(conn, now_secs)
}

pub const CLEAR_FAILED: &'static str = "Failed to clear exported corrections: ";

/// Removes the reader's corrections once they have been written out. The
/// marker of the backfill stays.
pub fn clear_exported_corrections(conn: &rusqlite::Connection) -> (r: Result<(), String>)
    ensures
        r is Err ==> starts_with(r->Err_0@, CLEAR_FAILED@),
{
    let none: Vec<SqlParam> = Vec::new();
    match db_execute(conn, CLEAR_EXPORTED, &none) {
        Ok(_) => Ok(()),
        Err(e) => Err(failure(CLEAR_FAILED, &e)),
    }
}

} // verus!
