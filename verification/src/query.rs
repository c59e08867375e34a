//! From free text to a query expression for the full-text index.
//!
//! The index engine has a query syntax of its own, with quotes, groups,
//! column filters and boolean operators. Text typed by a user must never be
//! read as syntax, and should match on prefixes. So a query is reduced to
//! its plain terms, and each term is quoted and marked as a prefix.

use vstd::prelude::*;
use crate::seqs::lemma_filter_keeps_all;
use crate::text::{
    chars_of, is_alnum, is_space, split_words, string_of, word_views, words_of,
};

verus! {

/// Characters with a structural meaning in the index engine's query syntax:
/// both quotes, parentheses, braces, the colon and the caret.
pub open spec fn is_structural(c: char) -> bool {
    c == '"' || c == '\'' || c == '(' || c == ')' || c == '{' || c == '}' || c == ':' || c == '^'
}

/// `c` is the ASCII letter whose upper-case form is `upper`, in either case.
pub open spec fn is_letter(c: char, upper: char, lower: char) -> bool {
    c == upper || c == lower
}

/// Whether `word` is one of the boolean operators of the query syntax
/// (`AND`, `OR`, `NOT`, `NEAR`), in any mix of upper and lower case.
pub open spec fn is_operator_keyword(word: Seq<char>) -> bool {
    ||| (word.len() == 2 && is_letter(word[0], 'O', 'o') && is_letter(word[1], 'R', 'r'))
    ||| (word.len() == 3 && is_letter(word[0], 'A', 'a') && is_letter(word[1], 'N', 'n')
        && is_letter(word[2], 'D', 'd'))
    ||| (word.len() == 3 && is_letter(word[0], 'N', 'n') && is_letter(word[1], 'O', 'o')
        && is_letter(word[2], 'T', 't'))
    ||| (word.len() == 4 && is_letter(word[0], 'N', 'n') && is_letter(word[1], 'E', 'e')
        && is_letter(word[2], 'A', 'a') && is_letter(word[3], 'R', 'r'))
}

/// Characters that survive inside a search term: alphanumerics, the hyphen
/// and the underscore.
pub open spec fn is_term_char(c: char) -> bool {
    is_alnum(c) || c == '-' || c == '_'
}

/// Whether `word` holds at least one alphanumeric character.
pub open spec fn has_alphanumeric(word: Seq<char>) -> bool {
    exists|i: int| 0 <= i < word.len() && is_alnum(#[trigger] word[i])
}

/// Whether `word` becomes a search term: it is no operator keyword and holds
/// an alphanumeric character.
pub open spec fn is_search_word(word: Seq<char>) -> bool {
    !is_operator_keyword(word) && has_alphanumeric(word)
}

/// A term as the engine sees it: the term characters of `word` in double
/// quotes, followed by the prefix-match star.
pub open spec fn render_term(word: Seq<char>) -> Seq<char> {
    seq!['"'] + word.filter(|c: char| is_term_char(c)) + seq!['"', '*']
}

/// The terms joined by single spaces.
pub open spec fn join_terms(terms: Seq<Seq<char>>) -> Seq<char>
    decreases terms.len(),
{
    if terms.len() == 0 {
        Seq::empty()
    } else if terms.len() == 1 {
        terms[0]
    } else {
        join_terms(terms.drop_last()) + seq![' '] + terms.last()
    }
}

/// The search terms of a raw query: its words after the structural
/// characters are removed, without operator keywords and symbol-only words.
pub open spec fn search_words(query: Seq<char>) -> Seq<Seq<char>> {
    split_words(query.filter(|c: char| !is_structural(c))).filter(
        |w: Seq<char>| is_search_word(w),
    )
}

/// The query expression for a raw query: every search term rendered as a
/// quoted prefix match, joined by spaces. Empty when no term survives.
pub open spec fn sanitized_query(query: Seq<char>) -> Seq<char> {
    join_terms(search_words(query).map_values(|w: Seq<char>| render_term(w)))
}

fn is_letter_of(c: char, upper: char, lower: char) -> (r: bool)
    ensures
        r == is_letter(c, upper, lower),
{
    c == upper || c == lower
}

/// Decides `is_operator_keyword`.
pub fn operator_keyword(word: &Vec<char>) -> (r: bool)
    ensures
        r == is_operator_keyword(word@),
{
    let n = word.len();
    if n == 2 {
        is_letter_of(word[0], 'O', 'o') && is_letter_of(word[1], 'R', 'r')
    } else if n == 3 {
        (is_letter_of(word[0], 'A', 'a') && is_letter_of(word[1], 'N', 'n') && is_letter_of(
            word[2],
            'D',
            'd',
        )) || (is_letter_of(word[0], 'N', 'n') && is_letter_of(word[1], 'O', 'o') && is_letter_of(
            word[2],
            'T',
            't',
        ))
    } else if n == 4 {
        is_letter_of(word[0], 'N', 'n') && is_letter_of(word[1], 'E', 'e') && is_letter_of(
            word[2],
            'A',
            'a',
        ) && is_letter_of(word[3], 'R', 'r')
    } else {
        false
    }
}

/// Decides `has_alphanumeric`.
pub fn contains_alphanumeric(word: &Vec<char>) -> (r: bool)
    ensures
        r == has_alphanumeric(word@),
{
    let mut i: usize = 0;
    while i < word.len()
        invariant
            i <= word.len(),
            forall|j: int| 0 <= j < i ==> !is_alnum(#[trigger] word@[j]),
        decreases word.len() - i,
    {
        if word[i].is_alphanumeric() {
            return true;
        }
        i += 1;
    }
    false
}

/// Removes the structural characters from `chars`.
pub fn strip_structural(chars: &Vec<char>) -> (out: Vec<char>)
    ensures
        out@ == chars@.filter(|c: char| !is_structural(c)),
{
    let ghost keep = |c: char| !is_structural(c);
    let mut out: Vec<char> = Vec::new();
    let mut i: usize = 0;
    while i < chars.len()
        invariant
            i <= chars.len(),
            keep == (|c: char| !is_structural(c)),
            out@ == chars@.take(i as int).filter(keep),
        decreases chars.len() - i,
    {
        let c = chars[i];
        proof {
            assert(chars@.take(i + 1).drop_last() =~= chars@.take(i as int));
            reveal(Seq::filter);
        }
        if !(c == '"' || c == '\'' || c == '(' || c == ')' || c == '{' || c == '}' || c == ':'
            || c == '^') {
            out.push(c);
        }
        i += 1;
    }
    assert(chars@.take(i as int) =~= chars@);
    out
}

/// Renders one search word as a quoted prefix match.
pub fn rendered_term(word: &Vec<char>) -> (out: Vec<char>)
    ensures
        out@ == render_term(word@),
{
    let ghost keep = |c: char| is_term_char(c);
    let mut out: Vec<char> = Vec::new();
    out.push('"');
    let mut i: usize = 0;
    while i < word.len()
        invariant
            i <= word.len(),
            keep == (|c: char| is_term_char(c)),
            out@ == seq!['"'] + word@.take(i as int).filter(keep),
        decreases word.len() - i,
    {
        let c = word[i];
        proof {
            assert(word@.take(i + 1).drop_last() =~= word@.take(i as int));
            reveal(Seq::filter);
        }
        if c.is_alphanumeric() || c == '-' || c == '_' {
            out.push(c);
        }
        i += 1;
    }
    assert(word@.take(i as int) =~= word@);
    out.push('"');
    out.push('*');
    assert(out@ =~= render_term(word@));
    out
}

/// Turns free text into a query expression that is safe to hand to the
/// index engine: structural characters and operator keywords never reach it,
/// and every remaining term is an exact token with prefix expansion.
pub fn sanitize_fts_query(query: &str) -> (expr: String)
    ensures
        expr@ == sanitized_query(query@),
{
    let chars = chars_of(query);
    let cleaned = strip_structural(&chars);
    let words = words_of(&cleaned);
    let ghost all = word_views(words@);
    let ghost keep = |w: Seq<char>| is_search_word(w);
    let ghost render = |w: Seq<char>| render_term(w);
    let mut out: Vec<char> = Vec::new();
    let mut emitted = false;
    let mut i: usize = 0;
    while i < words.len()
        invariant
            i <= words.len(),
            all == word_views(words@),
            keep == (|w: Seq<char>| is_search_word(w)),
            render == (|w: Seq<char>| render_term(w)),
            emitted == (all.take(i as int).filter(keep).len() > 0),
            out@ == join_terms(all.take(i as int).filter(keep).map_values(render)),
        decreases words.len() - i,
    {
        let word = &words[i];
        let ghost before = all.take(i as int).filter(keep);
        proof {
            assert(all.take(i + 1).drop_last() =~= all.take(i as int));
            assert(all.take(i + 1).last() == word@);
            reveal(Seq::filter);
        }
        if !operator_keyword(word) && contains_alphanumeric(word) {
            let term = rendered_term(word);
            if emitted {
                out.push(' ');
            }
            let ghost joined = out@;
            let mut k: usize = 0;
            while k < term.len()
                invariant
                    k <= term.len(),
                    out@ == joined + term@.take(k as int),
                decreases term.len() - k,
            {
                out.push(term[k]);
                k += 1;
                assert(term@.take(k as int) =~= term@.take(k - 1).push(term@[k - 1]));
            }
            proof {
                assert(term@.take(k as int) =~= term@);
                let terms = before.push(word@).map_values(render);
                assert(terms.drop_last() =~= before.map_values(render));
                assert(terms.last() == term@);
                if before.len() > 0 {
                    assert(out@ =~= join_terms(terms.drop_last()) + seq![' '] + terms.last());
                } else {
                    assert(join_terms(before.map_values(render)) =~= Seq::<char>::empty());
                    assert(out@ =~= terms[0]);
                }
            }
            emitted = true;
        }
        i += 1;
    }
    assert(all.take(i as int) =~= all);
    string_of(&out)
}

/// A query of white space only, the empty query among them, has the empty
/// expression.
pub proof fn lemma_blank_query_is_empty(query: Seq<char>)
    requires
        forall|i: int| 0 <= i < query.len() ==> is_space(#[trigger] query[i]),
    ensures
        sanitized_query(query) == Seq::<char>::empty(),
{
    let kept = query.filter(|c: char| !is_structural(c));
    assert forall|i: int| 0 <= i < kept.len() implies is_space(#[trigger] kept[i]) by {
        query.lemma_filter_contains_rev(|c: char| !is_structural(c), kept[i]);
    }
    lemma_blank_has_no_words(kept);
    reveal(Seq::filter);
    assert(search_words(query) =~= Seq::<Seq<char>>::empty());
    assert(search_words(query).map_values(|w: Seq<char>| render_term(w)) =~= Seq::<
        Seq<char>,
    >::empty());
}

/// Text of white space only has no words.
pub proof fn lemma_blank_has_no_words(s: Seq<char>)
    requires
        forall|i: int| 0 <= i < s.len() ==> is_space(#[trigger] s[i]),
    ensures
        split_words(s) == Seq::<Seq<char>>::empty(),
    decreases s.len(),
{
    if s.len() > 0 {
        lemma_blank_has_no_words(s.drop_last());
    }
}

/// A run of characters without white space, set off by white space, is
/// the last word of the text.
pub proof fn lemma_last_word(before: Seq<char>, sep: char, word: Seq<char>)
    requires
        is_space(sep),
        word.len() > 0,
        forall|i: int| 0 <= i < word.len() ==> !is_space(#[trigger] word[i]),
    ensures
        split_words(before + seq![sep] + word) == split_words(before).push(word),
    decreases word.len(),
{
    let s = before + seq![sep] + word;
    assert((before + seq![sep]).drop_last() =~= before);
    assert(split_words(before + seq![sep]) == split_words(before));
    if word.len() == 1 {
        assert(s.drop_last() =~= before + seq![sep]);
        assert(s[s.len() - 2] == sep);
        assert(seq![s.last()] =~= word);
    } else {
        let shorter = word.drop_last();
        lemma_last_word(before, sep, shorter);
        assert(s.drop_last() =~= before + seq![sep] + shorter);
        assert(s[s.len() - 2] == shorter.last());
        let words = split_words(before).push(shorter);
        assert(words.drop_last() =~= split_words(before));
        assert(shorter.push(s.last()) =~= word);
    }
}

/// An operator keyword at the end of a query is dropped: the expression is
/// that of the query without it.
pub proof fn lemma_trailing_operator_is_dropped(query: Seq<char>, sep: char, keyword: Seq<char>)
    requires
        is_space(sep),
        is_operator_keyword(keyword),
    ensures
        sanitized_query(query + seq![sep] + keyword) == sanitized_query(query),
{
    let plain = |c: char| !is_structural(c);
    let tail = seq![sep] + keyword;
    assert(query + seq![sep] + keyword =~= query + tail);
    Seq::filter_distributes_over_add(query, tail, plain);
    assert(tail.filter(plain) =~= tail) by {
        lemma_filter_keeps_all(tail, plain);
    }
    let kept = query.filter(plain);
    let whole = kept + seq![sep] + keyword;
    assert forall|i: int| 0 <= i < whole.len() implies (kept + tail)[i] == whole[i] by {
        if i >= kept.len() {
            assert((kept + tail)[i] == tail[i - kept.len()]);
        }
    }
    assert(kept + tail =~= whole);
    lemma_last_word(kept, sep, keyword);
    reveal(Seq::filter);
    let words = split_words(kept).push(keyword);
    assert(words.drop_last() =~= split_words(kept));
}

/// The characters an expression is made of: term characters, the double
/// quote, the star and the space.
pub open spec fn is_expression_char(c: char) -> bool {
    is_term_char(c) || c == '"' || c == '*' || c == ' '
}

/// Whatever the query, its expression is made of term characters, quotes,
/// stars and spaces only: no other character of the query reaches the engine.
pub proof fn lemma_expression_is_plain(query: Seq<char>)
    ensures
        forall|i: int|
            0 <= i < sanitized_query(query).len() ==> is_expression_char(
                #[trigger] sanitized_query(query)[i],
            ),
{
    let terms = search_words(query).map_values(|w: Seq<char>| render_term(w));
    assert forall|k: int| 0 <= k < terms.len() implies is_plain(#[trigger] terms[k]) by {
        lemma_term_is_plain(search_words(query)[k]);
    }
    lemma_join_is_plain(terms);
}

/// Whether every character of `s` may stand in an expression.
pub open spec fn is_plain(s: Seq<char>) -> bool {
    forall|i: int| 0 <= i < s.len() ==> is_expression_char(#[trigger] s[i])
}

/// A rendered term is made of expression characters.
pub proof fn lemma_term_is_plain(word: Seq<char>)
    ensures
        is_plain(render_term(word)),
{
    let inner = word.filter(|c: char| is_term_char(c));
    assert forall|i: int| 0 <= i < inner.len() implies is_term_char(#[trigger] inner[i]) by {
        word.lemma_filter_pred(|c: char| is_term_char(c), i);
    }
}

/// Joining plain terms gives a plain expression.
pub proof fn lemma_join_is_plain(terms: Seq<Seq<char>>)
    requires
        forall|k: int| 0 <= k < terms.len() ==> is_plain(#[trigger] terms[k]),
    ensures
        is_plain(join_terms(terms)),
    decreases terms.len(),
{
    if terms.len() >= 2 {
        lemma_join_is_plain(terms.drop_last());
        assert(is_plain(terms.last()));
    } else if terms.len() == 1 {
        assert(is_plain(terms[0]));
    }
}

} // verus!
