//! One-time recovery of corrections from the append-only logs.
//!
//! Every export of corrections appends one JSON record per correction to a
//! log named by the export date. The importer replays the logs into the
//! store: oldest log first, line by line, so that of several records for one
//! highlight the latest wins. A line that is blank, is no JSON or names no
//! highlight is passed over; it never ends the run.

use vstd::prelude::*;
use vstd::seq_lib::to_multiset_insert;
use crate::clock::fresh_id;
use crate::corrections::{upsert_correction, Arrival, StoredCorrection};
use crate::db::{db_execute, db_query, SqlParam};
use crate::json::{fields_view, json_members, parse_members, JsonField};
use crate::rows::{DecodeError, SqlRow};
use crate::text::{
    chars_end_with, chars_le, chars_of, ends_with, lemma_text_le_total, lemma_text_le_transitive,
    string_of, text_le, texts, trim_chars, trimmed,
};

verus! {

/// One log: the name of its file and its lines, in the order of the file.
#[derive(Debug)]
pub struct LogFile {
    pub name: String,
    pub lines: Vec<String>,
}

/// The extension of a log, with its dot.
pub open spec fn log_suffix() -> Seq<char> {
    seq!['.', 'j', 's', 'o', 'n', 'l']
}

/// Whether a file of this name is a log: the name ends in `.jsonl` and has
/// something before the dot.
pub open spec fn is_log_name(name: Seq<char>) -> bool {
    name.len() > 6 && ends_with(name, log_suffix())
}

/// Decides `is_log_name`.
pub fn is_log_file_name(name: &str) -> (r: bool)
    ensures
        r == is_log_name(name@),
{
    let chars = chars_of(name);
    let mut suffix: Vec<char> = Vec::new();
    suffix.push('.');
    suffix.push('j');
    suffix.push('s');
    suffix.push('o');
    suffix.push('n');
    suffix.push('l');
    assert(suffix@ =~= log_suffix());
    chars.len() > 6 && chars_end_with(&chars, &suffix)
}

/// The logs among `files`, in the order given.
pub fn keep_log_files(files: Vec<LogFile>) -> (logs: Vec<LogFile>)
    ensures
        logs@ == files@.filter(|f: LogFile| is_log_name(f.name@)),
{
    let ghost is_log = |f: LogFile| is_log_name(f.name@);
    let mut logs: Vec<LogFile> = Vec::new();
    assert(files@.take(0) =~= Seq::<LogFile>::empty());
    proof {
        reveal(Seq::filter);
    }
    for file in it: files
        invariant
            it.seq() == files@,
            is_log == (|f: LogFile| is_log_name(f.name@)),
            logs@ == files@.take(it.index() as int).filter(is_log),
    {
        proof {
            let n = it.index() as int;
            assert(files@.take(n + 1).drop_last() =~= files@.take(n));
            assert(files@.take(n + 1).last() == file);
            reveal(Seq::filter);
        }
        if is_log_file_name(file.name.as_str()) {
            logs.push(file);
        }
    }
    assert(files@.take(files@.len() as int) =~= files@);
    logs
}

/// Whether the logs stand in the order of their names.
pub open spec fn sorted_by_name(files: Seq<LogFile>) -> bool {
    forall|i: int, j: int|
        0 <= i < j < files.len() ==> text_le(
            (#[trigger] files[i]).name@,
            (#[trigger] files[j]).name@,
        )
}

/// Puts the logs in the order of their names. Log names carry the export
/// date, so this is the order in which the logs were written.
pub fn sort_by_name(files: Vec<LogFile>) -> (sorted: Vec<LogFile>)
    ensures
        sorted_by_name(sorted@),
        sorted@.to_multiset() == files@.to_multiset(),
        replay_lines(sorted@).len() == replay_lines(files@).len(),
{
    let mut out: Vec<LogFile> = Vec::new();
    assert(files@.take(0) =~= Seq::<LogFile>::empty());
    for file in it: files
        invariant
            it.seq() == files@,
            sorted_by_name(out@),
            out@.to_multiset() == files@.take(it.index() as int).to_multiset(),
            replay_lines(out@).len() == replay_lines(files@.take(it.index() as int)).len(),
    {
        let name = chars_of(file.name.as_str());
        let mut at: usize = 0;
        loop
            invariant
                at <= out.len(),
                name@ == file.name@,
                forall|k: int| 0 <= k < at ==> text_le((#[trigger] out@[k]).name@, name@),
            ensures
                at <= out.len(),
                forall|k: int| 0 <= k < at ==> text_le((#[trigger] out@[k]).name@, name@),
                at < out.len() ==> !text_le(out@[at as int].name@, name@),
            decreases out.len() - at,
        {
            if at >= out.len() {
                break ;
            }
            let other = chars_of(out[at].name.as_str());
            if !chars_le(&other, &name) {
                break ;
            }
            at += 1;
        }
        let ghost before = out@;
        proof {
            let n = it.index() as int;
            assert(files@.take(n + 1) =~= files@.take(n).push(file));
            vstd::seq_lib::to_multiset_build(files@.take(n), file);
            to_multiset_insert(before, at as int, file);
            assert(files@.take(n + 1).drop_last() =~= files@.take(n));
            assert(files@.take(n + 1).last() == file);
            lemma_replay_grows_by_one_log(before, at as int, file);
            let after = before.insert(at as int, file);
            assert forall|i: int, j: int| 0 <= i < j < after.len() implies text_le(
                (#[trigger] after[i]).name@,
                (#[trigger] after[j]).name@,
            ) by {
                if j == at {
                    assert(after[i] == before[i]);
                } else if i == at {
                    assert(after[j] == before[j - 1]);
                    lemma_text_le_total(before[at as int].name@, name@);
                    if j - 1 > at {
                        assert(text_le(before[at as int].name@, before[j - 1].name@));
                        lemma_text_le_transitive(name@, before[at as int].name@, before[j - 1].name@);
                    }
                } else {
                    let bi = if i < at { i } else { i - 1 };
                    let bj = if j < at { j } else { j - 1 };
                    assert(after[i] == before[bi]);
                    assert(after[j] == before[bj]);
                    assert(text_le(before[bi].name@, before[bj].name@));
                }
            }
        }
        out.insert(at, file);
    }
    assert(files@.take(files@.len() as int) =~= files@);
    out
}

/// The members of a log record that the importer reads, in the order in
/// which it asks for them.
pub open spec fn log_keys() -> Seq<Seq<char>> {
    seq![
        "highlight_id"@,
        "document_id"@,
        "session_id"@,
        "original_text"@,
        "prefix_context"@,
        "suffix_context"@,
        "extended_context"@,
        "notes"@,
        "document_title"@,
        "document_source"@,
        "document_path"@,
        "highlight_color"@,
        "exported_at"@,
    ]
}

/// Builds the list of `log_keys`.
pub fn log_key_list() -> (keys: Vec<String>)
    ensures
        texts(keys@) == log_keys(),
{
    let mut keys: Vec<String> = Vec::new();
    keys.push(String::from_str("highlight_id"));
    keys.push(String::from_str("document_id"));
    keys.push(String::from_str("session_id"));
    keys.push(String::from_str("original_text"));
    keys.push(String::from_str("prefix_context"));
    keys.push(String::from_str("suffix_context"));
    keys.push(String::from_str("extended_context"));
    keys.push(String::from_str("notes"));
    keys.push(String::from_str("document_title"));
    keys.push(String::from_str("document_source"));
    keys.push(String::from_str("document_path"));
    keys.push(String::from_str("highlight_color"));
    keys.push(String::from_str("exported_at"));
    assert(texts(keys@) =~= log_keys());
    keys
}

/// What one member of a log record holds: its string, its integer and its
/// JSON text, each where it has one.
pub type Member = (Option<Seq<char>>, Option<int>, Option<Seq<char>>);

/// The text of a member, or `default` where it is no string.
pub open spec fn text_or(member: Member, default: Seq<char>) -> Seq<char> {
    match member.0 {
        Some(text) => text,
        None => default,
    }
}

/// A correction as a log line gives it.
#[derive(Debug)]
pub struct Recovered {
    pub highlight_id: String,
    pub document_id: String,
    pub session_id: String,
    pub original_text: String,
    pub prefix_context: Option<String>,
    pub suffix_context: Option<String>,
    pub extended_context: Option<String>,
    pub notes_json: String,
    pub document_title: Option<String>,
    pub document_source: String,
    pub document_path: Option<String>,
    pub highlight_color: String,
    pub exported_at: i64,
}

/// The text of an optional field.
pub open spec fn opt_view(value: Option<String>) -> Option<Seq<char>> {
    match value {
        Some(s) => Some(s@),
        None => None,
    }
}

impl Recovered {
    /// Whether this correction is what the members of a log record give,
    /// with the defaults for what the record lacks: empty texts, the source
    /// `unknown`, the colour `yellow`, no notes, and time zero.
    pub open spec fn is_from(self, members: Seq<Member>) -> bool {
        &&& members.len() == 13
        &&& members[0].0 == Some(self.highlight_id@)
        &&& self.document_id@ == text_or(members[1], Seq::empty())
        &&& self.session_id@ == text_or(members[2], Seq::empty())
        &&& self.original_text@ == text_or(members[3], Seq::empty())
        &&& opt_view(self.prefix_context) == members[4].0
        &&& opt_view(self.suffix_context) == members[5].0
        &&& opt_view(self.extended_context) == members[6].0
        &&& self.notes_json@ == (match members[7].2 {
            Some(json) => json,
            None => "[]"@,
        })
        &&& opt_view(self.document_title) == members[8].0
        &&& self.document_source@ == text_or(members[9], "unknown"@)
        &&& opt_view(self.document_path) == members[10].0
        &&& self.highlight_color@ == text_or(members[11], "yellow"@)
        &&& self.exported_at as int == (match members[12].1 {
            Some(at) => at,
            None => 0,
        })
    }
}

/// The members of the record on a line: those of the line without the
/// white space around it, where something is left and it is JSON.
pub open spec fn line_members(line: Seq<char>) -> Option<Seq<Member>> {
    if trimmed(line).len() == 0 {
        None
    } else {
        json_members(trimmed(line), log_keys())
    }
}

/// Whether a line gives a correction: it is not blank, it is JSON, and its
/// `highlight_id` is a string.
pub open spec fn is_recoverable(line: Seq<char>) -> bool {
    line_members(line) is Some && line_members(line)->Some_0.len() == 13 && line_members(
        line,
    )->Some_0[0].0 is Some
}

fn text_or_default(field: &JsonField, default: &str) -> (text: String)
    ensures
        text@ == text_or(field.data(), default@),
{
    match &field.text {
        Some(s) => s.clone(),
        None => String::from_str(default),
    }
}

fn text_or_empty(field: &JsonField) -> (text: String)
    ensures
        text@ == text_or(field.data(), Seq::empty()),
{
    match &field.text {
        Some(s) => s.clone(),
        None => String::new(),
    }
}

fn opt_text(field: &JsonField) -> (text: Option<String>)
    ensures
        opt_view(text) == field.data().0,
{
    match &field.text {
        Some(s) => Some(s.clone()),
        None => None,
    }
}

/// Reads the correction on one line of a log, if the line gives one.
pub fn recover_line(line: &str) -> (r: Option<Recovered>)
    ensures
        r is Some <==> is_recoverable(line@),
        r is Some ==> is_record_of(r->Some_0, line@),
{
    let kept = trim_chars(line);
    if kept.len() == 0 {
        return None;
    }
    let text = string_of(&kept);
    let keys = log_key_list();
    let fields = match parse_members(text.as_str(), &keys) {
        Some(fields) => fields,
        None => {
            return None;
        },
    };
    let ghost members = fields_view(fields@);
    assert(line_members(line@) == Some(members));
    assert(texts(keys@).len() == 13);
    assert(fields.len() == 13);
    assert(forall|i: int| 0 <= i < 13 ==> members[i] == fields@[i].data());
    let highlight_id = match &fields[0].text {
        Some(id) => id.clone(),
        None => {
            return None;
        },
    };
    let notes_json = match &fields[7].source {
        Some(json) => json.clone(),
        None => String::from_str("[]"),
    };
    let exported_at = match fields[12].integer {
        Some(at) => at,
        None => 0,
    };
    Some(
        Recovered {
            highlight_id,
            document_id: text_or_empty(&fields[1]),
            session_id: text_or_empty(&fields[2]),
            original_text: text_or_empty(&fields[3]),
            prefix_context: opt_text(&fields[4]),
            suffix_context: opt_text(&fields[5]),
            extended_context: opt_text(&fields[6]),
            notes_json,
            document_title: opt_text(&fields[8]),
            document_source: text_or_default(&fields[9], "unknown"),
            document_path: opt_text(&fields[10]),
            highlight_color: text_or_default(&fields[11], "yellow"),
            exported_at,
        },
    )
}

/// The corrections that the lines give, in order, each line that gives none
/// passed over.
pub open spec fn recoverable_lines(lines: Seq<String>) -> Seq<Seq<char>> {
    texts(lines).filter(|line: Seq<char>| is_recoverable(line))
}

/// The lines of the logs that give a correction, log after log in the order
/// given, each log from its first line to its last.
pub open spec fn replay_lines(logs: Seq<LogFile>) -> Seq<Seq<char>>
    decreases logs.len(),
{
    if logs.len() == 0 {
        Seq::empty()
    } else {
        replay_lines(logs.drop_last()) + recoverable_lines(logs.last().lines@)
    }
}

/// The replay keeps the order of the logs: what the earlier logs give comes
/// before what the later logs give. With the logs in the order of their
/// names, a record of a later log is merged after every record of an
/// earlier one, and so overwrites it.
pub proof fn lemma_replay_follows_logs(earlier: Seq<LogFile>, later: Seq<LogFile>)
    ensures
        replay_lines(earlier + later) == replay_lines(earlier) + replay_lines(later),
    decreases later.len(),
{
    if later.len() == 0 {
        assert(earlier + later =~= earlier);
        assert(replay_lines(earlier) + replay_lines(later) =~= replay_lines(earlier));
    } else {
        lemma_replay_follows_logs(earlier, later.drop_last());
        assert((earlier + later).drop_last() =~= earlier + later.drop_last());
        assert((earlier + later).last() == later.last());
        assert(replay_lines(earlier + later) =~= replay_lines(earlier) + replay_lines(later));
    }
}

/// Wherever a log is put among the others, the replay gives what it gave
/// before and what the log gives: no line is lost and none is gained.
pub proof fn lemma_replay_grows_by_one_log(logs: Seq<LogFile>, at: int, log: LogFile)
    requires
        0 <= at <= logs.len(),
    ensures
        replay_lines(logs.insert(at, log)).len() == replay_lines(logs).len() + recoverable_lines(
            log.lines@,
        ).len(),
{
    let head = logs.take(at);
    let tail = logs.skip(at);
    assert(logs =~= head + tail);
    assert(logs.insert(at, log) =~= head.push(log) + tail);
    lemma_replay_follows_logs(head, tail);
    lemma_replay_follows_logs(head.push(log), tail);
    assert(head.push(log).drop_last() =~= head);
    assert(replay_lines(head.push(log)) == replay_lines(head) + recoverable_lines(log.lines@));
}

/// Whether a correction is the one that a line gives.
pub open spec fn is_record_of(record: Recovered, line: Seq<char>) -> bool {
    is_recoverable(line) && record.is_from(line_members(line)->Some_0)
}

/// Whether each correction is the one that the line at its place gives.
pub open spec fn recovered_from(records: Seq<Recovered>, lines: Seq<Seq<char>>) -> bool {
    &&& records.len() == lines.len()
    &&& forall|i: int| 0 <= i < records.len() ==> is_record_of(#[trigger] records[i], lines[i])
}

/// Reads the corrections of the logs in the order of replay: log after log
/// as given, line after line, passing over every line that gives none.
pub fn replay(logs: &Vec<LogFile>) -> (records: Vec<Recovered>)
    ensures
        recovered_from(records@, replay_lines(logs@)),
{
    let ghost keep = |line: Seq<char>| is_recoverable(line);
    let mut records: Vec<Recovered> = Vec::new();
    let mut i: usize = 0;
    while i < logs.len()
        invariant
            i <= logs.len(),
            keep == (|line: Seq<char>| is_recoverable(line)),
            recovered_from(records@, replay_lines(logs@.take(i as int))),
        decreases logs.len() - i,
    {
        let lines = &logs[i].lines;
        let ghost done = replay_lines(logs@.take(i as int));
        let ghost all = texts(lines@);
        proof {
            assert(logs@.take(i + 1).drop_last() =~= logs@.take(i as int));
            assert(logs@.take(i + 1).last() == logs@[i as int]);
            reveal(Seq::filter);
            assert(all.take(0) =~= Seq::<Seq<char>>::empty());
        }
        let mut k: usize = 0;
        while k < lines.len()
            invariant
                k <= lines.len(),
                all == texts(lines@),
                keep == (|line: Seq<char>| is_recoverable(line)),
                recovered_from(records@, done + all.take(k as int).filter(keep)),
            decreases lines.len() - k,
        {
            proof {
                assert(all.take(k + 1).drop_last() =~= all.take(k as int));
                assert(all.take(k + 1).last() == lines@[k as int]@);
                reveal(Seq::filter);
            }
            let ghost before = done + all.take(k as int).filter(keep);
            let ghost line = lines@[k as int]@;
            let ghost old_records = records@;
            match recover_line(lines[k].as_str()) {
                Some(record) => {
                    records.push(record);
                    proof {
                        let after = done + all.take(k + 1).filter(keep);
                        assert(all.take(k + 1).filter(keep) == all.take(k as int).filter(
                            keep,
                        ).push(line));
                        assert(after =~= before.push(line));
                        assert forall|i: int| 0 <= i < records@.len() implies is_record_of(
                            #[trigger] records@[i],
                            after[i],
                        ) by {
                            if i < old_records.len() {
                                assert(records@[i] == old_records[i]);
                                assert(after[i] == before[i]);
                                assert(is_record_of(old_records[i], before[i]));
                            }
                        }
                    }
                },
                None => {
                    assert(all.take(k + 1).filter(keep) == all.take(k as int).filter(keep));
                },
            }
            k += 1;
        }
        assert(all.take(k as int) =~= all);
        i += 1;
    }
    assert(logs@.take(i as int) =~= logs@);
    records
}

/// The row for a recovered correction, before it is merged with what is
/// stored: the fields of the record under the given id, both times set to
/// the time of the export, no category and no writing type.
pub open spec fn is_recovered_row(row: StoredCorrection, id: String, record: Recovered) -> bool {
    &&& row.id == id
    &&& row.highlight_id == record.highlight_id
    &&& row.document_id == record.document_id
    &&& row.session_id == record.session_id
    &&& row.original_text == record.original_text
    &&& row.prefix_context == record.prefix_context
    &&& row.suffix_context == record.suffix_context
    &&& row.extended_context == record.extended_context
    &&& row.notes_json == record.notes_json
    &&& row.document_title == record.document_title
    &&& row.document_source == record.document_source
    &&& row.document_path == record.document_path
    &&& row.category is None
    &&& row.highlight_color == record.highlight_color
    &&& row.created_at == record.exported_at
    &&& row.updated_at == record.exported_at
    &&& row.writing_type is None
}

/// Builds the row for a recovered correction.
pub fn recovered_row(id: String, record: Recovered) -> (row: StoredCorrection)
    ensures
        is_recovered_row(row, id, record),
{
    StoredCorrection {
        id,
        highlight_id: record.highlight_id,
        document_id: record.document_id,
        session_id: record.session_id,
        original_text: record.original_text,
        prefix_context: record.prefix_context,
        suffix_context: record.suffix_context,
        extended_context: record.extended_context,
        notes_json: record.notes_json,
        document_title: record.document_title,
        document_source: record.document_source,
        document_path: record.document_path,
        category: None,
        highlight_color: record.highlight_color,
        created_at: record.exported_at,
        updated_at: record.exported_at,
        writing_type: None,
    }
}

/// The count of written corrections after one more write: one more where
/// the engine accepted the correction, the same where it refused it.
pub fn counted(imported: usize, outcome: &Result<(), String>) -> (next: usize)
    requires
        imported < usize::MAX,
    ensures
        next == if outcome is Ok {
            imported + 1
        } else {
            imported as int
        },
{
    match outcome {
        Ok(()) => imported + 1,
        Err(_) => imported,
    }
}

/// Writes recovered corrections into the store, in order. Each is merged
/// with what is stored for its highlight, as an arrival from a log, so of
/// several for one highlight the last one wins. A correction that the
/// engine refuses is passed over. Returns how many were written.
pub fn import_records(conn: &rusqlite::Connection, records: Vec<Recovered>) -> (imported: usize)
    ensures
        imported <= records@.len(),
{
    let total = records.len();
    let mut imported: usize = 0;
    for record in it: records
        invariant
            imported <= it.index() <= total,
            it.seq() == records@,
            records@.len() == total,
    {
        let row = recovered_row(fresh_id(), record);
        let outcome = upsert_correction(conn, Arrival::Backfilled, row);
        imported = counted(imported, &outcome);
    }
    imported
}

/// How many corrections the logs among `files` give: the number of lines in
/// files with the name of a log that give a correction.
pub open spec fn recoverable_in(files: Seq<LogFile>) -> nat {
    replay_lines(files.filter(|f: LogFile| is_log_name(f.name@))).len()
}

/// Imports the corrections of the logs among `files`: the files that are no
/// logs are left out, the logs are replayed in the order of their names,
/// and every correction they give is written into the store. Returns how
/// many were written: never more than the logs give, and none where there
/// is no log. How many of those the engine accepts is the engine's to
/// decide.
pub fn backfill_corrections(conn: &rusqlite::Connection, files: Vec<LogFile>) -> (imported: usize)
    ensures
        imported <= recoverable_in(files@),
        files@.filter(|f: LogFile| is_log_name(f.name@)).len() == 0 ==> imported == 0,
{
    let logs = sort_by_name(keep_log_files(files));
    let records = replay(&logs);
    import_records(conn, records)
}

/// Asks whether the marker of a finished backfill is stored.
pub const SELECT_MARKER: &'static str =
    "SELECT COUNT(*) > 0 FROM corrections WHERE session_id = '__backfilled__'";

/// Stores the marker of a finished backfill, once.
pub const INSERT_MARKER: &'static str =
    "INSERT OR IGNORE INTO corrections
                        (id, highlight_id, document_id, session_id, original_text,
                         notes_json, document_source, highlight_color, created_at, updated_at)
                     VALUES ('__backfill_marker__', '__backfill_marker__', '', '__backfilled__',
                             '', '[]', 'system', 'none', 0, 0)";

/// Whether the answer to `SELECT_MARKER` says that the backfill is still to
/// be done: the answer decodes and says that no marker is stored. An answer
/// that cannot be read counts as done, so that nothing is imported on doubt.
pub open spec fn says_pending(answer: Result<Seq<SqlRow>, ()>) -> bool {
    match answer {
        Ok(rows) => rows.len() > 0 && rows[0].int_at(0) == Ok::<i64, DecodeError>(0),
        Err(_) => false,
    }
}

/// Decides `says_pending` for the rows that came back.
pub fn marker_missing(rows: &Vec<SqlRow>) -> (pending: bool)
    ensures
        pending == says_pending(Ok(rows@)),
{
    if rows.len() == 0 {
        false
    } else {
        match rows[0].get_int(0) {
            Ok(found) => found == 0,
            Err(_) => false,
        }
    }
}

/// Whether the backfill is still to be done. Where the store cannot be
/// asked, it counts as done.
pub fn backfill_pending(conn: &rusqlite::Connection) -> (pending: bool) {
    let none: Vec<SqlParam> = Vec::new();
    match db_query(conn, SELECT_MARKER, &none) {
        Ok(rows) => marker_missing(&rows),
        Err(_) => false,
    }
}

/// Imports the corrections of the logs where the backfill is still to be
/// done, `pending` being what the store answered to that question. Where it
/// is not, nothing is imported and the store is not touched.
pub fn backfill_if_pending(pending: bool, conn: &rusqlite::Connection, files: Vec<LogFile>) -> (imported:
    usize)
    ensures
        !pending ==> imported == 0,
        imported <= recoverable_in(files@),
        files@.filter(|f: LogFile| is_log_name(f.name@)).len() == 0 ==> imported == 0,
{
    if !pending {
        return 0;
    }
    backfill_corrections(conn, files)
}

/// Whether the marker of a finished backfill is to be stored after a run
/// that wrote `imported` corrections: where it wrote at least one. A run
/// that wrote none leaves the backfill pending.
pub fn marker_is_due(imported: usize) -> (due: bool)
    ensures
        due == (imported > 0),
{
    imported > 0
}

/// Runs the backfill unless it has run before. Where it wrote at least one
/// correction, the marker is stored so that it never runs again; where it
/// wrote none, it will be tried again. Returns how many corrections were
/// written: never more than the logs give.
pub fn backfill_once(conn: &rusqlite::Connection, files: Vec<LogFile>) -> (imported: usize)
    ensures
        imported <= recoverable_in(files@),
        files@.filter(|f: LogFile| is_log_name(f.name@)).len() == 0 ==> imported == 0,
{
    let pending = backfill_pending(conn);
    let imported = backfill_if_pending(pending, conn, files);
    if marker_is_due(imported) {
        let none: Vec<SqlParam> = Vec::new();
        let _ = db_execute(conn, INSERT_MARKER, &none);
    }
    imported
}

} // verus!
