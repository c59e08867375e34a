//! Looking for Markdown files anywhere on the machine with the system's
//! file index.
//!
//! The index is asked by a command that runs elsewhere. Here the question
//! is written and the answer is sifted.

use vstd::prelude::*;
use crate::seqs::lemma_filter_of_prefix;
use crate::text::{chars_of, string_of, texts, trim_chars, trimmed};

verus! {

/// The number of files returned where the caller names no limit.
pub const DEFAULT_FILE_LIMIT: usize = 20;

/// The question up to the first copy of what is looked for.
pub const QUESTION_HEAD: &'static str =
    "(kMDItemFSName == '*.md' || kMDItemFSName == '*.markdown') && (kMDItemDisplayName == '*";

/// The question between the two copies of what is looked for.
pub const QUESTION_MIDDLE: &'static str = "*'cdw || kMDItemTextContent == '*";

/// The question after the second copy of what is looked for.
pub const QUESTION_TAIL: &'static str = "*'cdw)";

/// What is looked for as it is written into the question: without single
/// quotes, so that it cannot end the quotation it stands in.
pub open spec fn unquoted(query: Seq<char>) -> Seq<char> {
    query.filter(|c: char| c != '\'')
}

/// The question for the files whose name or content holds `query`; none
/// where the query is blank.
pub open spec fn question_for(query: Seq<char>) -> Option<Seq<char>> {
    if trimmed(query).len() == 0 {
        None
    } else {
        Some(
            QUESTION_HEAD@ + unquoted(query) + QUESTION_MIDDLE@ + unquoted(query) + QUESTION_TAIL@,
        )
    }
}

/// Writes the question for the file index.
pub fn spotlight_query(query: &str) -> (question: Option<String>)
    ensures
        match question_for(query@) {
            Some(text) => question is Some && question->Some_0@ == text,
            None => question is None,
        },
{
    if trim_chars(query).len() == 0 {
        return None;
    }
    let chars = chars_of(query);
    let ghost keep = |c: char| c != '\'';
    let mut safe: Vec<char> = Vec::new();
    let mut i: usize = 0;
    proof {
        reveal(Seq::filter);
        assert(chars@.take(0) =~= Seq::<char>::empty());
    }
    while i < chars.len()
        invariant
            i <= chars.len(),
            keep == (|c: char| c != '\''),
            safe@ == chars@.take(i as int).filter(keep),
        decreases chars.len() - i,
    {
        proof {
            assert(chars@.take(i + 1).drop_last() =~= chars@.take(i as int));
            reveal(Seq::filter);
        }
        if chars[i] != '\'' {
            safe.push(chars[i]);
        }
        i += 1;
    }
    assert(chars@.take(i as int) =~= chars@);
    let safe = string_of(&safe);
    let mut question = String::from_str(QUESTION_HEAD);
    question.append(safe.as_str());
    question.append(QUESTION_MIDDLE);
    question.append(safe.as_str());
    question.append(QUESTION_TAIL);
    Some(question)
}

/// Whether the part of a path from `from` on has a hidden segment: one
/// that begins with a dot and is longer than the dot. `fresh` says that
/// `from` is the start of a segment.
pub open spec fn hidden_from(path: Seq<char>, from: int, fresh: bool) -> bool
    decreases path.len() - from,
{
    if from < 0 || from >= path.len() {
        false
    } else if path[from] == '/' {
        hidden_from(path, from + 1, true)
    } else if fresh && path[from] == '.' && from + 1 < path.len() && path[from + 1] != '/' {
        true
    } else {
        hidden_from(path, from + 1, false)
    }
}

/// Whether a path leads through a hidden directory or to a hidden file.
pub open spec fn has_hidden_segment(path: Seq<char>) -> bool {
    hidden_from(path, 0, true)
}

/// Decides `has_hidden_segment`.
pub fn is_hidden_path(path: &str) -> (r: bool)
    ensures
        r == has_hidden_segment(path@),
{
    let chars = chars_of(path);
    let mut i: usize = 0;
    let mut fresh = true;
    while i < chars.len()
        invariant
            i <= chars.len(),
            chars@ == path@,
            has_hidden_segment(chars@) == hidden_from(chars@, i as int, fresh),
        decreases chars.len() - i,
    {
        let c = chars[i];
        if c == '/' {
            assert(hidden_from(chars@, i as int, fresh) == hidden_from(chars@, i + 1, true));
            fresh = true;
        } else if fresh && c == '.' && i + 1 < chars.len() && chars[i + 1] != '/' {
            assert(hidden_from(chars@, i as int, fresh));
            return true;
        } else {
            assert(hidden_from(chars@, i as int, fresh) == hidden_from(chars@, i + 1, false));
            fresh = false;
        }
        i += 1;
    }
    false
}

/// Whether a line of the answer names a file to return: it is not empty and
/// leads through nothing hidden.
pub open spec fn is_result_line(line: Seq<char>) -> bool {
    line.len() > 0 && !has_hidden_segment(line)
}

/// The paths to return, of the lines of the answer: the first `limit` lines
/// that name a file to return, in order.
pub open spec fn picked(lines: Seq<Seq<char>>, limit: int) -> Seq<Seq<char>> {
    let wanted = lines.filter(|line: Seq<char>| is_result_line(line));
    if 0 <= limit < wanted.len() {
        wanted.take(limit)
    } else {
        wanted
    }
}

/// Sifts the lines of the answer of the file index.
pub fn pick_paths(lines: &Vec<String>, limit: usize) -> (paths: Vec<String>)
    ensures
        texts(paths@) == picked(texts(lines@), limit as int),
{
    let ghost wanted = |line: Seq<char>| is_result_line(line);
    let ghost all = texts(lines@);
    let mut paths: Vec<String> = Vec::new();
    let mut i: usize = 0;
    proof {
        reveal(Seq::filter);
        assert(all.take(0) =~= Seq::<Seq<char>>::empty());
        assert(texts(paths@) =~= all.take(0).filter(wanted));
    }
    while i < lines.len() && paths.len() < limit
        invariant
            i <= lines.len(),
            all == texts(lines@),
            wanted == (|line: Seq<char>| is_result_line(line)),
            texts(paths@) == all.take(i as int).filter(wanted),
            paths@.len() <= limit,
        decreases lines.len() - i,
    {
        proof {
            assert(all.take(i + 1).drop_last() =~= all.take(i as int));
            assert(all.take(i + 1).last() == lines@[i as int]@);
            reveal(Seq::filter);
        }
        let line = lines[i].as_str();
        if line.unicode_len() > 0 && !is_hidden_path(line) {
            let ghost before = texts(paths@);
            paths.push(lines[i].clone());
            assert(texts(paths@) =~= before.push(lines@[i as int]@));
        }
        i += 1;
    }
    proof {
        let kept = all.filter(wanted);
        lemma_filter_of_prefix(all, wanted, i as int);
        if i == lines.len() {
            assert(all.take(i as int) =~= all);
        } else {
            assert(paths@.len() == limit);
            if kept.len() == limit {
                assert(kept.take(limit as int) =~= kept);
            }
        }
    }
    paths
}

} // verus!
