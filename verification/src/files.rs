//! Names of Markdown files: which entries of a directory are listed, in
//! what order, and what a file may be renamed to.

use vstd::prelude::*;
use crate::db::{
    db_execute, db_query, failure, key_params, params_view, text_param, SqlParam, SqlParamData,
};
use crate::models::Document;
use crate::rows::describe_decode_error;
use crate::text::{
    appended, chars_end_with, chars_le, chars_of, digits, ends_with, lowercase, push_digits,
    starts_with, string_of, text_le, to_lower, trim_chars, trimmed,
};

verus! {

/// An entry of a directory listing.
#[derive(Debug)]
pub struct FileEntry {
    pub name: String,
    pub path: String,
    pub is_dir: bool,
}

pub const NAME_EMPTY: &'static str = "File name cannot be empty";

pub const NAME_HAS_SEPARATOR: &'static str = "File name cannot contain path separators";

/// The extension of Markdown files, with its dot.
pub open spec fn md_suffix() -> Seq<char> {
    seq!['.', 'm', 'd']
}

/// The long extension of Markdown files, with its dot.
pub open spec fn markdown_suffix() -> Seq<char> {
    seq!['.', 'm', 'a', 'r', 'k', 'd', 'o', 'w', 'n']
}

/// Whether a name ends in one of the extensions of Markdown files.
pub open spec fn has_markdown_suffix(name: Seq<char>) -> bool {
    ends_with(name, md_suffix()) || ends_with(name, markdown_suffix())
}

/// Why a name is refused for a file.
#[derive(Clone, Copy, Debug, PartialEq, Eq, Structural)]
pub enum NameError {
    /// Nothing is left of the name without the white space around it.
    Empty,
    /// The name holds a slash or a backslash.
    HasSeparator,
}

/// The name under which a file is stored when the user asks for the name
/// `raw`: the name without the white space around it, with `.md` added
/// unless it ends in an extension of Markdown files. An empty name and a
/// name with a path separator are refused.
pub open spec fn file_name_for(raw: Seq<char>) -> Result<Seq<char>, NameError> {
    let name = trimmed(raw);
    if name.len() == 0 {
        Err(NameError::Empty)
    } else if name.contains('/') || name.contains('\\') {
        Err(NameError::HasSeparator)
    } else if has_markdown_suffix(name) {
        Ok(name)
    } else {
        Ok(name + md_suffix())
    }
}

/// The message for a refused name.
pub open spec fn name_error_text(e: NameError) -> Seq<char> {
    match e {
        NameError::Empty => NAME_EMPTY@,
        NameError::HasSeparator => NAME_HAS_SEPARATOR@,
    }
}

fn md_chars() -> (suffix: Vec<char>)
    ensures
        suffix@ == md_suffix(),
{
    let mut suffix: Vec<char> = Vec::new();
    suffix.push('.');
    suffix.push('m');
    suffix.push('d');
    assert(suffix@ =~= md_suffix());
    suffix
}

fn markdown_chars() -> (suffix: Vec<char>)
    ensures
        suffix@ == markdown_suffix(),
{
    let mut suffix: Vec<char> = Vec::new();
    suffix.push('.');
    suffix.push('m');
    suffix.push('a');
    suffix.push('r');
    suffix.push('k');
    suffix.push('d');
    suffix.push('o');
    suffix.push('w');
    suffix.push('n');
    assert(suffix@ =~= markdown_suffix());
    suffix
}

fn holds_char(chars: &Vec<char>, wanted: char) -> (r: bool)
    ensures
        r == chars@.contains(wanted),
{
    let mut i: usize = 0;
    while i < chars.len()
        invariant
            i <= chars.len(),
            forall|k: int| 0 <= k < i ==> chars@[k] != wanted,
        decreases chars.len() - i,
    {
        if chars[i] == wanted {
            return true;
        }
        i += 1;
    }
    false
}

/// Checks and completes the name that a file is to be renamed to.
pub fn validated_file_name(new_name: &str) -> (r: Result<String, String>)
    ensures
        match file_name_for(new_name@) {
            Ok(name) => r is Ok && r->Ok_0@ == name,
            Err(e) => r is Err && r->Err_0@ == name_error_text(e),
        },
{
    let mut name = trim_chars(new_name);
    if name.len() == 0 {
        return Err(String::from_str(NAME_EMPTY));
    }
    if holds_char(&name, '/') || holds_char(&name, '\\') {
        return Err(String::from_str(NAME_HAS_SEPARATOR));
    }
    if chars_end_with(&name, &md_chars()) || chars_end_with(&name, &markdown_chars()) {
        Ok(string_of(&name))
    } else {
        let ghost stem = name@;
        name.push('.');
        name.push('m');
        name.push('d');
        assert(name@ =~= stem + md_suffix());
        Ok(string_of(&name))
    }
}

/// The title of the document in a file of this name: the name without its
/// Markdown extension.
pub open spec fn title_of(name: Seq<char>) -> Seq<char> {
    if ends_with(name, md_suffix()) {
        name.take(name.len() - 3)
    } else if ends_with(name, markdown_suffix()) {
        name.take(name.len() - 9)
    } else {
        name
    }
}

/// The title that a document had in a file of this name, as far as the name
/// tells: the name without its Markdown extension, and nothing where it has
/// none.
pub open spec fn former_title_of(name: Seq<char>) -> Seq<char> {
    if has_markdown_suffix(name) {
        title_of(name)
    } else {
        Seq::empty()
    }
}

fn prefix_of(chars: &Vec<char>, n: usize) -> (out: String)
    requires
        n <= chars@.len(),
    ensures
        out@ == chars@.take(n as int),
{
    let mut out = String::new();
    let mut i: usize = 0;
    while i < n
        invariant
            i <= n <= chars@.len(),
            out@ == chars@.take(i as int),
        decreases n - i,
    {
        out.push(chars[i]);
        i += 1;
        assert(chars@.take(i as int) =~= chars@.take(i - 1).push(chars@[i - 1]));
    }
    out
}

/// Computes `title_of`.
pub fn title_of_file_name(name: &str) -> (title: String)
    ensures
        title@ == title_of(name@),
{
    let chars = chars_of(name);
    if chars_end_with(&chars, &md_chars()) {
        prefix_of(&chars, chars.len() - 3)
    } else if chars_end_with(&chars, &markdown_chars()) {
        prefix_of(&chars, chars.len() - 9)
    } else {
        assert(chars@.take(chars@.len() as int) =~= chars@);
        prefix_of(&chars, chars.len())
    }
}

/// Computes `former_title_of`.
pub fn former_title_of_file_name(name: &str) -> (title: String)
    ensures
        title@ == former_title_of(name@),
{
    let chars = chars_of(name);
    if chars_end_with(&chars, &md_chars()) || chars_end_with(&chars, &markdown_chars()) {
        title_of_file_name(name)
    } else {
        String::new()
    }
}

/// Moves the document of a file to another path, under another title.
pub const MOVE_DOCUMENT: &'static str =
    "UPDATE documents SET file_path = ?1, title = ?2 WHERE file_path = ?3";

/// Reads the document of a file.
pub const SELECT_DOCUMENT_BY_PATH: &'static str =
    "SELECT id, source, file_path, keep_local_id, title, author, url,
                    word_count, last_opened_at, created_at
             FROM documents WHERE file_path = ?1";

pub const MOVE_FAILED: &'static str = "Failed to update database (file rename rolled back): ";

pub const FETCH_FAILED: &'static str =
    "Failed to fetch updated document (file rename rolled back): ";

/// The message for a move that did not change exactly one document.
pub open spec fn wrong_count_text(changed: usize) -> Seq<char> {
    "Failed to update database (expected 1 row, got "@ + digits(changed as nat)
        + "; file rename rolled back)"@
}

/// What the move of a document gives once the engine has answered: success
/// where exactly one document was moved, else the message for the failure.
pub fn check_moved(answer: Result<usize, rusqlite::Error>) -> (r: Result<(), String>)
    ensures
        r is Ok <==> answer == Ok::<usize, rusqlite::Error>(1),
        answer is Ok && answer->Ok_0 != 1 ==> r is Err && r->Err_0@ == wrong_count_text(
            answer->Ok_0,
        ),
        answer is Err ==> r is Err && starts_with(r->Err_0@, MOVE_FAILED@),
{
    match answer {
        Err(e) => Err(failure(MOVE_FAILED, &e)),
        Ok(changed) => {
            if changed == 1 {
                Ok(())
            } else {
                let mut message = String::from_str("Failed to update database (expected 1 row, got ");
                push_digits(&mut message, changed as u64);
                message.append("; file rename rolled back)");
                Err(message)
            }
        },
    }
}

/// The messages with which recording a rename fails.
pub open spec fn is_rename_failure(message: Seq<char>) -> bool {
    ||| starts_with(message, MOVE_FAILED@)
    ||| starts_with(message, FETCH_FAILED@)
    ||| exists|changed: usize| message == #[trigger] wrong_count_text(changed)
}

fn move_params(to_path: &str, title: &str, from_path: &str) -> (params: Vec<SqlParam>)
    ensures
        params_view(params@) == seq![
            SqlParamData::Text(to_path@),
            SqlParamData::Text(title@),
            SqlParamData::Text(from_path@),
        ],
{
    let mut params: Vec<SqlParam> = Vec::new();
    params.push(text_param(to_path));
    params.push(text_param(title));
    params.push(text_param(from_path));
    assert(params_view(params@) =~= seq![
        SqlParamData::Text(to_path@),
        SqlParamData::Text(title@),
        SqlParamData::Text(from_path@),
    ]);
    params
}

fn fetch_failure(detail: &str) -> (message: String)
    ensures
        starts_with(message@, FETCH_FAILED@),
{
    let message = appended(FETCH_FAILED, detail);
    assert(message@.subrange(0, FETCH_FAILED@.len() as int) =~= FETCH_FAILED@);
    message
}

/// Records that a file was renamed: the document of the file at `old_path`
/// moves to `new_path` and takes the title `new_title`, and is returned as
/// it then stands.
///
/// Every failure means that the rename of the file has to be undone, and
/// says so. Where the document was moved but cannot be read back, it is
/// moved back under `old_title` before the failure is returned.
pub fn record_rename(
    conn: &rusqlite::Connection,
    old_path: &str,
    new_path: &str,
    new_title: &str,
    old_title: &str,
) -> (r: Result<Document, String>)
    ensures
        r is Err ==> is_rename_failure(r->Err_0@),
{
    let answer = db_execute(conn, MOVE_DOCUMENT, &move_params(new_path, new_title, old_path));
    match check_moved(answer) {
        Ok(()) => {},
        Err(message) => {
            return Err(message);
        },
    }
    let key = key_params(new_path);
    let fetched: Result<Document, String> = match db_query(conn, SELECT_DOCUMENT_BY_PATH, &key) {
        Err(e) => Err(failure(FETCH_FAILED, &e)),
        Ok(rows) => {
            if rows.len() == 0 {
                Err(fetch_failure(crate::db::no_rows_text().as_str()))
            } else {
                match Document::from_row(&rows[0]) {
                    Ok(doc) => Ok(doc),
                    Err(e) => Err(fetch_failure(describe_decode_error(e).as_str())),
                }
            }
        },
    };
    match fetched {
        Ok(doc) => Ok(doc),
        Err(message) => {
            let _ = db_execute(conn, MOVE_DOCUMENT, &move_params(old_path, old_title, new_path));
            Err(message)
        },
    }
}

/// Whether an entry is hidden: its name begins with a dot.
pub open spec fn is_hidden(name: Seq<char>) -> bool {
    name.len() > 0 && name[0] == '.'
}

/// The position of the last dot of a name, or -1 where it has none.
pub open spec fn last_dot(name: Seq<char>) -> int
    decreases name.len(),
{
    if name.len() == 0 {
        -1
    } else if name.last() == '.' {
        name.len() - 1
    } else {
        last_dot(name.drop_last())
    }
}

/// The extension of a file name: what follows its last dot, where it has a
/// dot that is not its first character.
pub open spec fn extension_of(name: Seq<char>) -> Option<Seq<char>> {
    if last_dot(name) <= 0 {
        None
    } else {
        Some(name.skip(last_dot(name) + 1))
    }
}

/// Whether a file of this name is a Markdown file: its extension is `md`
/// or `markdown`, in any mix of upper and lower case.
pub open spec fn is_markdown_name(name: Seq<char>) -> bool {
    match extension_of(name) {
        Some(ext) => lowercase(ext) == seq!['m', 'd'] || lowercase(ext) == markdown_suffix().skip(
            1,
        ),
        None => false,
    }
}

/// Decides `is_hidden`.
pub fn is_hidden_name(name: &str) -> (r: bool)
    ensures
        r == is_hidden(name@),
{
    let chars = chars_of(name);
    chars.len() > 0 && chars[0] == '.'
}

/// Decides `is_markdown_name`.
pub fn is_markdown_file_name(name: &str) -> (r: bool)
    ensures
        r == is_markdown_name(name@),
{
    let chars = chars_of(name);
    let mut at: usize = chars.len();
    assert(chars@.take(at as int) =~= chars@);
    while at > 0 && chars[at - 1] != '.'
        invariant
            at <= chars.len(),
            last_dot(chars@) == last_dot(chars@.take(at as int)),
        decreases at,
    {
        proof {
            assert(chars@.take(at as int).drop_last() =~= chars@.take(at - 1));
        }
        at -= 1;
    }
    if at <= 1 {
        return false;
    }
    assert(last_dot(chars@) == at - 1);
    let mut ext: Vec<char> = Vec::new();
    let mut i: usize = at;
    while i < chars.len()
        invariant
            at <= i <= chars.len(),
            ext@ == chars@.subrange(at as int, i as int),
        decreases chars.len() - i,
    {
        ext.push(chars[i]);
        i += 1;
        assert(chars@.subrange(at as int, i as int) =~= chars@.subrange(at as int, i - 1).push(
            chars@[i - 1],
        ));
    }
    assert(ext@ =~= chars@.skip(at as int));
    let lower = to_lower(string_of(&ext).as_str());
    let lower_chars = chars_of(lower.as_str());
    let mut md: Vec<char> = Vec::new();
    md.push('m');
    md.push('d');
    let long = markdown_chars();
    let mut markdown: Vec<char> = Vec::new();
    let mut k: usize = 1;
    while k < long.len()
        invariant
            1 <= k <= long.len(),
            markdown@ == long@.subrange(1, k as int),
        decreases long.len() - k,
    {
        markdown.push(long[k]);
        k += 1;
        assert(long@.subrange(1, k as int) =~= long@.subrange(1, k - 1).push(long@[k - 1]));
    }
    assert(markdown@ =~= markdown_suffix().skip(1));
    assert(md@ =~= seq!['m', 'd']);
    crate::text::same_chars(&lower_chars, &md) || crate::text::same_chars(&lower_chars, &markdown)
}

/// Whether an entry of a directory is listed: never a hidden one; a
/// directory where something in it is listed; a file where it is a
/// Markdown file.
pub open spec fn is_listed(name: Seq<char>, is_dir: bool, has_listed_children: bool) -> bool {
    !is_hidden(name) && (if is_dir {
        has_listed_children
    } else {
        is_markdown_name(name)
    })
}

/// Decides `is_listed`.
pub fn lists_entry(name: &str, is_dir: bool, has_listed_children: bool) -> (r: bool)
    ensures
        r == is_listed(name@, is_dir, has_listed_children),
{
    if is_hidden_name(name) {
        false
    } else if is_dir {
        has_listed_children
    } else {
        is_markdown_file_name(name)
    }
}

/// The order of a listing: directories before files, and within each by
/// name without regard to case.
pub open spec fn entry_le(a: FileEntry, b: FileEntry) -> bool {
    if a.is_dir != b.is_dir {
        a.is_dir
    } else {
        text_le(lowercase(a.name@), lowercase(b.name@))
    }
}

/// `sorted` with `entry` put in after the last entry that does not come
/// after it.
pub open spec fn insert_entry(sorted: Seq<FileEntry>, entry: FileEntry) -> Seq<FileEntry>
    decreases sorted.len(),
{
    if sorted.len() == 0 {
        seq![entry]
    } else if entry_le(sorted.last(), entry) {
        sorted.push(entry)
    } else {
        insert_entry(sorted.drop_last(), entry).push(sorted.last())
    }
}

/// The entries in the order of a listing; entries that the order does not
/// tell apart keep the order they came in.
pub open spec fn sorted_entries(entries: Seq<FileEntry>) -> Seq<FileEntry>
    decreases entries.len(),
{
    if entries.len() == 0 {
        Seq::empty()
    } else {
        insert_entry(sorted_entries(entries.drop_last()), entries.last())
    }
}

/// Decides `entry_le`.
pub fn entry_comes_first(a: &FileEntry, b: &FileEntry) -> (r: bool)
    ensures
        r == entry_le(*a, *b),
{
    if a.is_dir != b.is_dir {
        a.is_dir
    } else {
        let x = chars_of(to_lower(a.name.as_str()).as_str());
        let y = chars_of(to_lower(b.name.as_str()).as_str());
        chars_le(&x, &y)
    }
}

/// Puts the entries in the order of a listing.
pub fn sort_entries(entries: Vec<FileEntry>) -> (sorted: Vec<FileEntry>)
    ensures
        sorted@ == sorted_entries(entries@),
{
    let mut sorted: Vec<FileEntry> = Vec::new();
    assert(entries@.take(0) =~= Seq::<FileEntry>::empty());
    for entry in it: entries
        invariant
            it.seq() == entries@,
            sorted@ == sorted_entries(entries@.take(it.index() as int)),
    {
        proof {
            let n = it.index() as int;
            assert(entries@.take(n + 1).drop_last() =~= entries@.take(n));
            assert(entries@.take(n + 1).last() == entry);
        }
        let ghost before = sorted@;
        let mut at: usize = sorted.len();
        proof {
            assert(before.take(at as int) =~= before);
            assert(insert_entry(before, entry) =~= insert_entry(before.take(at as int), entry)
                + before.skip(at as int));
        }
        loop
            invariant
                at <= sorted.len(),
                before == sorted@,
                insert_entry(before, entry) == insert_entry(before.take(at as int), entry)
                    + before.skip(at as int),
            ensures
                at <= sorted.len(),
                insert_entry(before, entry) == before.insert(at as int, entry),
            decreases at,
        {
            if at == 0 {
                assert(before.take(0) =~= Seq::<FileEntry>::empty());
                assert(seq![entry] + before.skip(0) =~= before.insert(0, entry));
                break ;
            }
            let ghost head = before.take(at as int);
            proof {
                assert(head.last() == before[at - 1]);
                assert(head.drop_last() =~= before.take(at - 1));
            }
            if entry_comes_first(&sorted[at - 1], &entry) {
                assert(head.push(entry) + before.skip(at as int) =~= before.insert(
                    at as int,
                    entry,
                ));
                break ;
            }
            proof {
                assert(insert_entry(head.drop_last(), entry).push(head.last()) + before.skip(
                    at as int,
                ) =~= insert_entry(before.take(at - 1), entry) + before.skip(at - 1));
            }
            at -= 1;
        }
        sorted.insert(at, entry);
    }
    assert(entries@.take(entries@.len() as int) =~= entries@);
    sorted
}

} // verus!
