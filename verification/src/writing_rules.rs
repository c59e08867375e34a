//! Writing rules and the documents generated from them.
//!
//! The rules are written out twice: as a Markdown document for a reader, in
//! sections by writing type and category, and as a script that checks text
//! for the words and patterns that the rules forbid.

use vstd::prelude::*;
use crate::db::{db_query, error_text, key_params, SqlParam};
use crate::json::{
    json_of_string_list, json_of_string_table, string_list_json, string_table_json, table_view,
};
use crate::rows::{
    decode_error_text, decoded_rows, describe_decode_error, lemma_decoded_step,
    lemma_failure_persists, DecodeError, SqlRow,
};
use crate::text::{
    chars_le, chars_of, contains_text, decimal, join, joined, push_chars, push_decimal,
    push_line, same_text, split_words, text_le, texts, to_upper, uppercase, word_views, words_of,
};

verus! {

/// One rule on how to write, learnt from corrections or entered by hand.
#[derive(Debug, Clone)]
pub struct WritingRule {
    pub id: String,
    pub writing_type: String,
    pub category: String,
    pub rule_text: String,
    pub when_to_apply: Option<String>,
    pub why: Option<String>,
    pub severity: String,
    pub example_before: Option<String>,
    pub example_after: Option<String>,
    pub source: String,
    pub signal_count: i64,
    pub notes: Option<String>,
    pub created_at: i64,
    pub updated_at: i64,
}

/// Where an export of the rules was written, and how many rules it holds.
#[derive(Debug)]
pub struct ExportResult {
    pub markdown_path: String,
    pub hook_path: String,
    pub rule_count: usize,
}

/// The heading of a writing type: a fixed label for the known types, the
/// type itself for any other.
pub open spec fn type_label(writing_type: Seq<char>) -> Seq<char> {
    if writing_type == "general"@ {
        "General"@
    } else if writing_type == "email"@ {
        "Email"@
    } else if writing_type == "prd"@ {
        "PRD"@
    } else if writing_type == "blog"@ {
        "Blog / essay"@
    } else if writing_type == "cover-letter"@ {
        "Cover letter"@
    } else if writing_type == "resume"@ {
        "Resume"@
    } else if writing_type == "slack"@ {
        "Slack"@
    } else if writing_type == "pitch"@ {
        "Pitch"@
    } else if writing_type == "outreach"@ {
        "Outreach"@
    } else {
        writing_type
    }
}

/// Computes `type_label`.
pub fn label_of_type(writing_type: &str) -> (label: String)
    ensures
        label@ == type_label(writing_type@),
{
    if same_text(writing_type, "general") {
        String::from_str("General")
    } else if same_text(writing_type, "email") {
        String::from_str("Email")
    } else if same_text(writing_type, "prd") {
        String::from_str("PRD")
    } else if same_text(writing_type, "blog") {
        String::from_str("Blog / essay")
    } else if same_text(writing_type, "cover-letter") {
        String::from_str("Cover letter")
    } else if same_text(writing_type, "resume") {
        String::from_str("Resume")
    } else if same_text(writing_type, "slack") {
        String::from_str("Slack")
    } else if same_text(writing_type, "pitch") {
        String::from_str("Pitch")
    } else if same_text(writing_type, "outreach") {
        String::from_str("Outreach")
    } else {
        String::from_str(writing_type)
    }
}

/// A word with its first character in upper case.
pub open spec fn capitalized(word: Seq<char>) -> Seq<char> {
    if word.len() == 0 {
        word
    } else {
        uppercase(word[0]) + word.skip(1)
    }
}

/// The heading of a category: its hyphens read as spaces, every word
/// capitalized, the words joined by single spaces.
pub open spec fn category_label(category: Seq<char>) -> Seq<char> {
    joined(
        split_words(category.map_values(|c: char| if c == '-' { ' ' } else { c })).map_values(
            |w: Seq<char>| capitalized(w),
        ),
        seq![' '],
    )
}

/// Computes `capitalized`.
pub fn capitalize(word: &Vec<char>) -> (out: String)
    ensures
        out@ == capitalized(word@),
{
    let mut out = String::new();
    if word.len() == 0 {
        return out;
    }
    let first = to_upper(word[0]);
    push_chars(&mut out, &first);
    let mut i: usize = 1;
    while i < word.len()
        invariant
            1 <= i <= word.len(),
            out@ == uppercase(word@[0]) + word@.subrange(1, i as int),
        decreases word.len() - i,
    {
        out.push(word[i]);
        i += 1;
        assert(word@.subrange(1, i as int) =~= word@.subrange(1, i - 1).push(word@[i - 1]));
    }
    assert(word@.subrange(1, i as int) =~= word@.skip(1));
    out
}

/// Computes `category_label`.
pub fn label_of_category(category: &str) -> (label: String)
    ensures
        label@ == category_label(category@),
{
    let chars = chars_of(category);
    let ghost spaced = category@.map_values(|c: char| if c == '-' { ' ' } else { c });
    let mut plain: Vec<char> = Vec::new();
    let mut i: usize = 0;
    while i < chars.len()
        invariant
            i <= chars.len(),
            chars@ == category@,
            plain@ == spaced.take(i as int),
            spaced == category@.map_values(|c: char| if c == '-' { ' ' } else { c }),
        decreases chars.len() - i,
    {
        let c = chars[i];
        plain.push(if c == '-' { ' ' } else { c });
        i += 1;
        assert(spaced.take(i as int) =~= spaced.take(i - 1).push(spaced[i - 1]));
    }
    assert(spaced.take(i as int) =~= spaced);
    let words = words_of(&plain);
    let ghost capital = |w: Seq<char>| capitalized(w);
    let mut parts: Vec<String> = Vec::new();
    let mut k: usize = 0;
    while k < words.len()
        invariant
            k <= words.len(),
            capital == (|w: Seq<char>| capitalized(w)),
            texts(parts@) == word_views(words@).take(k as int).map_values(capital),
        decreases words.len() - k,
    {
        let part = capitalize(&words[k]);
        let ghost before = texts(parts@);
        let ghost added = part@;
        parts.push(part);
        k += 1;
        proof {
            let all = word_views(words@);
            assert(texts(parts@) =~= before.push(added));
            assert(all.take(k as int) =~= all.take(k - 1).push(all[k - 1]));
            assert(all.take(k as int).map_values(capital) =~= all.take(k - 1).map_values(
                capital,
            ).push(capital(all[k - 1])));
        }
    }
    assert(word_views(words@).take(k as int) =~= word_views(words@));
    let label = join(&parts, " ");
    proof {
        reveal_strlit(" ");
        assert(" "@ =~= seq![' ']);
    }
    label
}

/// The line for an optional detail of a rule: the label and the detail, or
/// no line where the rule has none.
pub open spec fn detail_line(label: Seq<char>, detail: Option<String>) -> Seq<Seq<char>> {
    match detail {
        Some(text) => seq![label + text@],
        None => Seq::empty(),
    }
}

/// The line for one side of an example, in double quotes.
pub open spec fn example_line(label: Seq<char>, example: Option<String>) -> Seq<Seq<char>> {
    match example {
        Some(text) => seq![label + text@ + seq!['"']],
        None => Seq::empty(),
    }
}

/// The lines for the example of a rule: a heading and the sides it has, or
/// no line where it has neither.
pub open spec fn example_lines(rule: WritingRule) -> Seq<Seq<char>> {
    if rule.example_before is Some || rule.example_after is Some {
        seq!["- Before -> After:"@] + example_line("  - Before: \""@, rule.example_before)
            + example_line("  - After: \""@, rule.example_after)
    } else {
        Seq::empty()
    }
}

/// The lines of one rule: a blank line, the rule with its severity, then
/// when to apply it, why, how often it was seen, its example and its notes.
pub open spec fn rule_lines(rule: WritingRule) -> Seq<Seq<char>> {
    seq![
        Seq::empty(),
        "**Rule: "@ + rule.rule_text@ + "** ["@ + rule.severity@ + seq![']'],
    ] + detail_line("- When to apply: "@, rule.when_to_apply) + detail_line("- Why: "@, rule.why)
        + seq!["- Signal: seen "@ + decimal(rule.signal_count as int) + " time(s)"@]
        + example_lines(rule) + detail_line("- Notes: "@, rule.notes)
}

fn push_detail(lines: &mut Vec<String>, label: &str, detail: &Option<String>)
    ensures
        texts(final(lines)@) == texts(old(lines)@) + detail_line(label@, *detail),
{
    match detail {
        Some(text) => {
            let mut line = String::from_str(label);
            line.append(text.as_str());
            push_line(lines, line);
            assert(texts(lines@) =~= texts(old(lines)@) + detail_line(label@, *detail));
        },
        None => {
            assert(texts(lines@) =~= texts(old(lines)@) + detail_line(label@, *detail));
        },
    }
}

fn push_example(lines: &mut Vec<String>, label: &str, example: &Option<String>)
    ensures
        texts(final(lines)@) == texts(old(lines)@) + example_line(label@, *example),
{
    match example {
        Some(text) => {
            let mut line = String::from_str(label);
            line.append(text.as_str());
            line.push('"');
            assert(line@ =~= label@ + text@ + seq!['"']);
            push_line(lines, line);
            assert(texts(lines@) =~= texts(old(lines)@) + example_line(label@, *example));
        },
        None => {
            assert(texts(lines@) =~= texts(old(lines)@) + example_line(label@, *example));
        },
    }
}

/// Appends the lines of one rule.
pub fn push_rule_lines(lines: &mut Vec<String>, rule: &WritingRule)
    ensures
        texts(final(lines)@) == texts(old(lines)@) + rule_lines(*rule),
{
    let ghost start = texts(lines@);
    push_line(lines, String::new());
    let mut head = String::from_str("**Rule: ");
    head.append(rule.rule_text.as_str());
    head.append("** [");
    head.append(rule.severity.as_str());
    head.push(']');
    assert(head@ =~= "**Rule: "@ + rule.rule_text@ + "** ["@ + rule.severity@ + seq![']']);
    push_line(lines, head);
    let ghost headed = texts(lines@);
    assert(headed =~= start + seq![
        Seq::empty(),
        "**Rule: "@ + rule.rule_text@ + "** ["@ + rule.severity@ + seq![']'],
    ]);
    push_detail(lines, "- When to apply: ", &rule.when_to_apply);
    push_detail(lines, "- Why: ", &rule.why);
    let mut signal = String::from_str("- Signal: seen ");
    push_decimal(&mut signal, rule.signal_count);
    signal.append(" time(s)");
    let ghost detailed = texts(lines@);
    push_line(lines, signal);
    assert(texts(lines@) =~= detailed + seq![
        "- Signal: seen "@ + decimal(rule.signal_count as int) + " time(s)"@,
    ]);
    let ghost before_example = texts(lines@);
    if rule.example_before.is_some() || rule.example_after.is_some() {
        push_line(lines, String::from_str("- Before -> After:"));
        push_example(lines, "  - Before: \"", &rule.example_before);
        push_example(lines, "  - After: \"", &rule.example_after);
        assert(texts(lines@) =~= before_example + example_lines(*rule));
    } else {
        assert(texts(lines@) =~= before_example + example_lines(*rule));
    }
    push_detail(lines, "- Notes: ", &rule.notes);
    assert(texts(lines@) =~= start + rule_lines(*rule));
}

/// The writing types of the rules, each once, in the order in which they
/// first occur.
pub open spec fn distinct_types(rules: Seq<WritingRule>) -> Seq<Seq<char>>
    decreases rules.len(),
{
    if rules.len() == 0 {
        Seq::empty()
    } else {
        let before = distinct_types(rules.drop_last());
        let writing_type = rules.last().writing_type@;
        if before.contains(writing_type) {
            before
        } else {
            before.push(writing_type)
        }
    }
}

/// The categories of the rules of one writing type, each once, in the order
/// in which they first occur.
pub open spec fn distinct_categories(rules: Seq<WritingRule>, writing_type: Seq<char>) -> Seq<
    Seq<char>,
>
    decreases rules.len(),
{
    if rules.len() == 0 {
        Seq::empty()
    } else {
        let before = distinct_categories(rules.drop_last(), writing_type);
        let rule = rules.last();
        if rule.writing_type@ != writing_type || before.contains(rule.category@) {
            before
        } else {
            before.push(rule.category@)
        }
    }
}

/// The order of the sections: the general rules first, the other writing
/// types in the order of their names.
pub open spec fn type_le(a: Seq<char>, b: Seq<char>) -> bool {
    a == "general"@ || (b != "general"@ && text_le(a, b))
}

/// `sorted` with `writing_type` put in after the last type that does not
/// come after it.
pub open spec fn insert_type(sorted: Seq<Seq<char>>, writing_type: Seq<char>) -> Seq<Seq<char>>
    decreases sorted.len(),
{
    if sorted.len() == 0 {
        seq![writing_type]
    } else if type_le(sorted.last(), writing_type) {
        sorted.push(writing_type)
    } else {
        insert_type(sorted.drop_last(), writing_type).push(sorted.last())
    }
}

/// The writing types in the order of their sections.
pub open spec fn sort_types(types: Seq<Seq<char>>) -> Seq<Seq<char>>
    decreases types.len(),
{
    if types.len() == 0 {
        Seq::empty()
    } else {
        insert_type(sort_types(types.drop_last()), types.last())
    }
}

/// The lines of the rules of one writing type and one category, in the
/// order of the rules.
pub open spec fn category_rules(
    rules: Seq<WritingRule>,
    writing_type: Seq<char>,
    category: Seq<char>,
) -> Seq<Seq<char>>
    decreases rules.len(),
{
    if rules.len() == 0 {
        Seq::empty()
    } else {
        let before = category_rules(rules.drop_last(), writing_type, category);
        let rule = rules.last();
        if rule.writing_type@ == writing_type && rule.category@ == category {
            before + rule_lines(rule)
        } else {
            before
        }
    }
}

/// The lines of the given categories of one writing type: for each a blank
/// line, its heading and its rules.
pub open spec fn category_sections(
    rules: Seq<WritingRule>,
    writing_type: Seq<char>,
    categories: Seq<Seq<char>>,
) -> Seq<Seq<char>>
    decreases categories.len(),
{
    if categories.len() == 0 {
        Seq::empty()
    } else {
        category_sections(rules, writing_type, categories.drop_last()) + seq![
            Seq::empty(),
            "### "@ + category_label(categories.last()),
        ] + category_rules(rules, writing_type, categories.last())
    }
}

/// The lines of the given writing types: for each a blank line, its heading
/// and the sections of its categories.
pub open spec fn type_sections(rules: Seq<WritingRule>, types: Seq<Seq<char>>) -> Seq<Seq<char>>
    decreases types.len(),
{
    if types.len() == 0 {
        Seq::empty()
    } else {
        type_sections(rules, types.drop_last()) + seq![
            Seq::empty(),
            "## "@ + type_label(types.last()),
        ] + category_sections(rules, types.last(), distinct_categories(rules, types.last()))
    }
}

/// The lines of the document: the title, a note to the agents that read it,
/// the sections of the writing types and a last empty line.
pub open spec fn markdown_lines(rules: Seq<WritingRule>) -> Seq<Seq<char>> {
    seq![
        "# Writing Rules"@,
        Seq::empty(),
        "_For AI agents: apply rules matching the writing type. General rules always apply._"@,
    ] + type_sections(rules, sort_types(distinct_types(rules))) + seq![Seq::empty()]
}

/// The document: its lines joined by line feeds.
pub open spec fn markdown(rules: Seq<WritingRule>) -> Seq<char> {
    joined(markdown_lines(rules), seq!['\n'])
}

/// Collects `distinct_types`.
pub fn types_of(rules: &[WritingRule]) -> (types: Vec<String>)
    ensures
        texts(types@) == distinct_types(rules@),
{
    let mut types: Vec<String> = Vec::new();
    let mut i: usize = 0;
    assert(texts(types@) =~= Seq::<Seq<char>>::empty());
    assert(rules@.take(0) =~= Seq::<WritingRule>::empty());
    while i < rules.len()
        invariant
            i <= rules@.len(),
            texts(types@) == distinct_types(rules@.take(i as int)),
        decreases rules.len() - i,
    {
        proof {
            assert(rules@.take(i + 1).drop_last() =~= rules@.take(i as int));
            assert(rules@.take(i + 1).last() == rules@[i as int]);
        }
        if !contains_text(&types, rules[i].writing_type.as_str()) {
            push_line(&mut types, rules[i].writing_type.clone());
        }
        i += 1;
    }
    assert(rules@.take(i as int) =~= rules@);
    types
}

/// Collects `distinct_categories`.
pub fn categories_of(rules: &[WritingRule], writing_type: &str) -> (categories: Vec<String>)
    ensures
        texts(categories@) == distinct_categories(rules@, writing_type@),
{
    let mut categories: Vec<String> = Vec::new();
    let mut i: usize = 0;
    assert(texts(categories@) =~= Seq::<Seq<char>>::empty());
    assert(rules@.take(0) =~= Seq::<WritingRule>::empty());
    while i < rules.len()
        invariant
            i <= rules@.len(),
            texts(categories@) == distinct_categories(rules@.take(i as int), writing_type@),
        decreases rules.len() - i,
    {
        proof {
            assert(rules@.take(i + 1).drop_last() =~= rules@.take(i as int));
            assert(rules@.take(i + 1).last() == rules@[i as int]);
        }
        if same_text(rules[i].writing_type.as_str(), writing_type) && !contains_text(
            &categories,
            rules[i].category.as_str(),
        ) {
            push_line(&mut categories, rules[i].category.clone());
        }
        i += 1;
    }
    assert(rules@.take(i as int) =~= rules@);
    categories
}

/// Decides `type_le`.
pub fn type_comes_first(a: &str, b: &str) -> (r: bool)
    ensures
        r == type_le(a@, b@),
{
    if same_text(a, "general") {
        true
    } else if same_text(b, "general") {
        false
    } else {
        let x = chars_of(a);
        let y = chars_of(b);
        chars_le(&x, &y)
    }
}

/// Puts the writing types in the order of their sections.
pub fn sorted_types(types: Vec<String>) -> (sorted: Vec<String>)
    ensures
        texts(sorted@) == sort_types(texts(types@)),
{
    let mut sorted: Vec<String> = Vec::new();
    let ghost all = texts(types@);
    assert(texts(sorted@) =~= Seq::<Seq<char>>::empty());
    assert(all.take(0) =~= Seq::<Seq<char>>::empty());
    for writing_type in it: types
        invariant
            it.seq() == types@,
            all == texts(types@),
            texts(sorted@) == sort_types(all.take(it.index() as int)),
    {
        proof {
            let n = it.index() as int;
            assert(all.take(n + 1).drop_last() =~= all.take(n));
            assert(all.take(n + 1).last() == writing_type@);
        }
        let ghost before = texts(sorted@);
        let ghost added = writing_type@;
        let mut at: usize = sorted.len();
        proof {
            assert(before.take(at as int) =~= before);
            assert(insert_type(before, added) =~= insert_type(before.take(at as int), added)
                + before.skip(at as int));
        }
        loop
            invariant
                at <= sorted.len(),
                before == texts(sorted@),
                added == writing_type@,
                insert_type(before, added) == insert_type(before.take(at as int), added)
                    + before.skip(at as int),
            ensures
                at <= sorted.len(),
                insert_type(before, added) == before.insert(at as int, added),
            decreases at,
        {
            if at == 0 {
                assert(before.take(0) =~= Seq::<Seq<char>>::empty());
                assert(seq![added] + before.skip(0) =~= before.insert(0, added));
                break ;
            }
            let ghost head = before.take(at as int);
            proof {
                assert(head.last() == before[at - 1]);
                assert(head.drop_last() =~= before.take(at - 1));
            }
            if type_comes_first(sorted[at - 1].as_str(), writing_type.as_str()) {
                assert(head.push(added) + before.skip(at as int) =~= before.insert(
                    at as int,
                    added,
                ));
                break ;
            }
            proof {
                assert(insert_type(head.drop_last(), added).push(head.last()) + before.skip(
                    at as int,
                ) =~= insert_type(before.take(at - 1), added) + before.skip(at - 1));
            }
            at -= 1;
        }
        sorted.insert(at, writing_type);
        assert(texts(sorted@) =~= before.insert(at as int, added));
    }
    assert(all.take(all.len() as int) =~= all);
    sorted
}

/// Appends the lines of the rules of one writing type and one category.
pub fn push_category_rules(
    lines: &mut Vec<String>,
    rules: &[WritingRule],
    writing_type: &str,
    category: &str,
)
    ensures
        texts(final(lines)@) == texts(old(lines)@) + category_rules(
            rules@,
            writing_type@,
            category@,
        ),
{
    let ghost start = texts(lines@);
    let mut i: usize = 0;
    assert(rules@.take(0) =~= Seq::<WritingRule>::empty());
    assert(texts(lines@) =~= start + category_rules(rules@.take(0), writing_type@, category@));
    while i < rules.len()
        invariant
            i <= rules@.len(),
            texts(lines@) == start + category_rules(
                rules@.take(i as int),
                writing_type@,
                category@,
            ),
        decreases rules.len() - i,
    {
        proof {
            assert(rules@.take(i + 1).drop_last() =~= rules@.take(i as int));
            assert(rules@.take(i + 1).last() == rules@[i as int]);
        }
        let ghost done = category_rules(rules@.take(i as int), writing_type@, category@);
        if same_text(rules[i].writing_type.as_str(), writing_type) && same_text(
            rules[i].category.as_str(),
            category,
        ) {
            push_rule_lines(lines, &rules[i]);
            assert(texts(lines@) =~= start + (done + rule_lines(rules@[i as int])));
        }
        i += 1;
    }
    assert(rules@.take(i as int) =~= rules@);
}

/// Appends the sections of the categories of one writing type.
pub fn push_category_sections(lines: &mut Vec<String>, rules: &[WritingRule], writing_type: &str)
    ensures
        texts(final(lines)@) == texts(old(lines)@) + category_sections(
            rules@,
            writing_type@,
            distinct_categories(rules@, writing_type@),
        ),
{
    let ghost start = texts(lines@);
    let categories = categories_of(rules, writing_type);
    let ghost all = texts(categories@);
    let mut k: usize = 0;
    assert(all.take(0) =~= Seq::<Seq<char>>::empty());
    assert(texts(lines@) =~= start + category_sections(rules@, writing_type@, all.take(0)));
    while k < categories.len()
        invariant
            k <= categories.len(),
            all == texts(categories@),
            texts(lines@) == start + category_sections(rules@, writing_type@, all.take(k as int)),
        decreases categories.len() - k,
    {
        proof {
            assert(all.take(k + 1).drop_last() =~= all.take(k as int));
            assert(all.take(k + 1).last() == categories@[k as int]@);
        }
        let ghost done = category_sections(rules@, writing_type@, all.take(k as int));
        let category = categories[k].as_str();
        push_line(lines, String::new());
        let mut heading = String::from_str("### ");
        let label = label_of_category(category);
        heading.append(label.as_str());
        push_line(lines, heading);
        let ghost headed = texts(lines@);
        assert(headed =~= start + done + seq![
            Seq::empty(),
            "### "@ + category_label(category@),
        ]);
        push_category_rules(lines, rules, writing_type, category);
        assert(texts(lines@) =~= start + (done + seq![
            Seq::empty(),
            "### "@ + category_label(category@),
        ] + category_rules(rules@, writing_type@, category@)));
        k += 1;
    }
    assert(all.take(k as int) =~= all);
}

/// Writes the rules as a Markdown document: the general rules first, then
/// the other writing types by name; within a writing type the categories in
/// the order in which they first occur, and within a category the rules in
/// the order given.
pub fn generate_writing_rules_markdown(rules: &[WritingRule]) -> (text: String)
    ensures
        text@ == markdown(rules@),
{
    let mut lines: Vec<String> = Vec::new();
    assert(texts(lines@) =~= Seq::<Seq<char>>::empty());
    push_line(&mut lines, String::from_str("# Writing Rules"));
    push_line(&mut lines, String::new());
    push_line(
        &mut lines,
        String::from_str(
            "_For AI agents: apply rules matching the writing type. General rules always apply._",
        ),
    );
    let ghost head = texts(lines@);
    assert(head =~= seq![
        "# Writing Rules"@,
        Seq::empty(),
        "_For AI agents: apply rules matching the writing type. General rules always apply._"@,
    ]);
    let types = sorted_types(types_of(rules));
    let ghost all = texts(types@);
    let mut i: usize = 0;
    assert(all.take(0) =~= Seq::<Seq<char>>::empty());
    assert(texts(lines@) =~= head + type_sections(rules@, all.take(0)));
    while i < types.len()
        invariant
            i <= types.len(),
            all == texts(types@),
            texts(lines@) == head + type_sections(rules@, all.take(i as int)),
        decreases types.len() - i,
    {
        proof {
            assert(all.take(i + 1).drop_last() =~= all.take(i as int));
            assert(all.take(i + 1).last() == types@[i as int]@);
        }
        let ghost done = type_sections(rules@, all.take(i as int));
        let writing_type = types[i].as_str();
        push_line(&mut lines, String::new());
        let mut heading = String::from_str("## ");
        let label = label_of_type(writing_type);
        heading.append(label.as_str());
        push_line(&mut lines, heading);
        assert(texts(lines@) =~= head + done + seq![
            Seq::empty(),
            "## "@ + type_label(writing_type@),
        ]);
        push_category_sections(&mut lines, rules, writing_type);
        assert(texts(lines@) =~= head + (done + seq![
            Seq::empty(),
            "## "@ + type_label(writing_type@),
        ] + category_sections(
            rules@,
            writing_type@,
            distinct_categories(rules@, writing_type@),
        )));
        i += 1;
    }
    assert(all.take(i as int) =~= all);
    push_line(&mut lines, String::new());
    assert(texts(lines@) =~= markdown_lines(rules@));
    let text = join(&lines, "\n");
    proof {
        reveal_strlit("\n");
        assert("\n"@ =~= seq!['\n']);
    }
    text
}

/// Lists the rules of one writing type, the most often seen first.
pub const SELECT_RULES_OF_TYPE: &'static str =
    "SELECT id, writing_type, category, rule_text, when_to_apply, why, severity,
                    example_before, example_after, source, signal_count, notes, created_at, updated_at
             FROM writing_rules WHERE writing_type = ?1
             ORDER BY signal_count DESC, created_at DESC";

/// Lists all rules by writing type, the most often seen first.
pub const SELECT_RULES: &'static str =
    "SELECT id, writing_type, category, rule_text, when_to_apply, why, severity,
                    example_before, example_after, source, signal_count, notes, created_at, updated_at
             FROM writing_rules
             ORDER BY writing_type, signal_count DESC, created_at DESC";

impl WritingRule {
    /// The rule that a row stands for, its columns in the order of the fields;
    /// the first column that is missing or of the wrong type decides the error.
    pub open spec fn of_row(row: SqlRow) -> Result<WritingRule, DecodeError> {
        if row.text_at(0) is Err {
            Err(row.text_at(0)->Err_0)
        } else if row.text_at(1) is Err {
            Err(row.text_at(1)->Err_0)
        } else if row.text_at(2) is Err {
            Err(row.text_at(2)->Err_0)
        } else if row.text_at(3) is Err {
            Err(row.text_at(3)->Err_0)
        } else if row.opt_text_at(4) is Err {
            Err(row.opt_text_at(4)->Err_0)
        } else if row.opt_text_at(5) is Err {
            Err(row.opt_text_at(5)->Err_0)
        } else if row.text_at(6) is Err {
            Err(row.text_at(6)->Err_0)
        } else if row.opt_text_at(7) is Err {
            Err(row.opt_text_at(7)->Err_0)
        } else if row.opt_text_at(8) is Err {
            Err(row.opt_text_at(8)->Err_0)
        } else if row.text_at(9) is Err {
            Err(row.text_at(9)->Err_0)
        } else if row.int_at(10) is Err {
            Err(row.int_at(10)->Err_0)
        } else if row.opt_text_at(11) is Err {
            Err(row.opt_text_at(11)->Err_0)
        } else if row.int_at(12) is Err {
            Err(row.int_at(12)->Err_0)
        } else if row.int_at(13) is Err {
            Err(row.int_at(13)->Err_0)
        } else {
            Ok(
                WritingRule {
                    id: row.text_at(0)->Ok_0,
                    writing_type: row.text_at(1)->Ok_0,
                    category: row.text_at(2)->Ok_0,
                    rule_text: row.text_at(3)->Ok_0,
                    when_to_apply: row.opt_text_at(4)->Ok_0,
                    why: row.opt_text_at(5)->Ok_0,
                    severity: row.text_at(6)->Ok_0,
                    example_before: row.opt_text_at(7)->Ok_0,
                    example_after: row.opt_text_at(8)->Ok_0,
                    source: row.text_at(9)->Ok_0,
                    signal_count: row.int_at(10)->Ok_0,
                    notes: row.opt_text_at(11)->Ok_0,
                    created_at: row.int_at(12)->Ok_0,
                    updated_at: row.int_at(13)->Ok_0,
                },
            )
        }
    }

    /// Decodes one row.
    pub fn from_row(row: &SqlRow) -> (r: Result<WritingRule, DecodeError>)
        ensures
            r == WritingRule::of_row(*row),
    {
        let id = row.get_text(0)?;
        let writing_type = row.get_text(1)?;
        let category = row.get_text(2)?;
        let rule_text = row.get_text(3)?;
        let when_to_apply = row.get_opt_text(4)?;
        let why = row.get_opt_text(5)?;
        let severity = row.get_text(6)?;
        let example_before = row.get_opt_text(7)?;
        let example_after = row.get_opt_text(8)?;
        let source = row.get_text(9)?;
        let signal_count = row.get_int(10)?;
        let notes = row.get_opt_text(11)?;
        let created_at = row.get_int(12)?;
        let updated_at = row.get_int(13)?;
        Ok(
            WritingRule {
                id,
                writing_type,
                category,
                rule_text,
                when_to_apply,
                why,
                severity,
                example_before,
                example_after,
                source,
                signal_count,
                notes,
                created_at,
                updated_at,
            },
        )
    }
}

/// Decodes the rows of a listing of rules; the first row that cannot be
/// decoded fails the list with its description.
pub fn collect_rules(rows: &Vec<SqlRow>) -> (r: Result<Vec<WritingRule>, String>)
    ensures
        match decoded_rows(rows@, |row: SqlRow| WritingRule::of_row(row)) {
            Ok(rules) => r is Ok && r->Ok_0@ == rules,
            Err(e) => r is Err && r->Err_0@ == decode_error_text(e),
        },
{
    let ghost decode = |row: SqlRow| WritingRule::of_row(row);
    let mut rules: Vec<WritingRule> = Vec::new();
    let mut i: usize = 0;
    while i < rows.len()
        invariant
            i <= rows.len(),
            decode == (|row: SqlRow| WritingRule::of_row(row)),
            decoded_rows(rows@.take(i as int), decode) == Ok::<Seq<WritingRule>, DecodeError>(
                rules@,
            ),
        decreases rows.len() - i,
    {
        proof {
            lemma_decoded_step(rows@, decode, i as int);
        }
        match WritingRule::from_row(&rows[i]) {
            Ok(rule) => {
                rules.push(rule);
            },
            Err(e) => {
                proof {
                    lemma_failure_persists(rows@, decode, i as int + 1);
                }
                return Err(describe_decode_error(e));
            },
        }
        i += 1;
    }
    assert(rows@.take(i as int) =~= rows@);
    Ok(rules)
}

/// Reads the rules of one writing type, or all rules where none is named.
pub fn fetch_writing_rules(conn: &rusqlite::Connection, writing_type: Option<&str>) -> (r: Result<
    Vec<WritingRule>,
    String,
>) {
    let answer = match writing_type {
        Some(wanted) => db_query(conn, SELECT_RULES_OF_TYPE, &key_params(wanted)),
        None => {
            let none: Vec<SqlParam> = Vec::new();
            db_query(conn, SELECT_RULES, &none)
        },
    };
    match answer {
        Ok(rows) => collect_rules(&rows),
        Err(e) => Err(error_text(&e)),
    }
}

/// Reads the rules of one writing type, or all rules where none is named.
pub fn get_writing_rules(conn: &rusqlite::Connection, writing_type: Option<&str>) -> (r: Result<
    Vec<WritingRule>,
    String,
>) {
    fetch_writing_rules(conn, writing_type)
}

/// Whether a rule names a word that must not be used.
pub open spec fn is_kill_word(rule: WritingRule) -> bool {
    rule.severity@ == "must-fix"@ && rule.category@ == "kill-words"@
}

/// Whether a rule gives a pattern of machine-made prose.
pub open spec fn is_slop_pattern(rule: WritingRule) -> bool {
    rule.category@ == "ai-slop"@ && rule.example_before is Some
}

/// The forbidden words of the rules, in the order of the rules.
pub open spec fn kill_words(rules: Seq<WritingRule>) -> Seq<Seq<char>> {
    rules.filter(|r: WritingRule| is_kill_word(r)).map_values(|r: WritingRule| r.rule_text@)
}

/// The patterns of the rules, each with the text of its rule, in the order
/// of the rules.
pub open spec fn slop_patterns(rules: Seq<WritingRule>) -> Seq<Seq<Seq<char>>> {
    rules.filter(|r: WritingRule| is_slop_pattern(r)).map_values(
        |r: WritingRule| seq![r.example_before->Some_0@, r.rule_text@],
    )
}

/// Collects `kill_words`.
pub fn kill_words_of(rules: &[WritingRule]) -> (words: Vec<String>)
    ensures
        texts(words@) == kill_words(rules@),
{
    let ghost wanted = |r: WritingRule| is_kill_word(r);
    let ghost text_of = |r: WritingRule| r.rule_text@;
    let mut words: Vec<String> = Vec::new();
    let mut i: usize = 0;
    proof {
        reveal(Seq::filter);
        assert(rules@.take(0) =~= Seq::<WritingRule>::empty());
        assert(texts(words@) =~= rules@.take(0).filter(wanted).map_values(text_of));
    }
    while i < rules.len()
        invariant
            i <= rules@.len(),
            wanted == (|r: WritingRule| is_kill_word(r)),
            text_of == (|r: WritingRule| r.rule_text@),
            texts(words@) == rules@.take(i as int).filter(wanted).map_values(text_of),
        decreases rules.len() - i,
    {
        proof {
            assert(rules@.take(i + 1).drop_last() =~= rules@.take(i as int));
            assert(rules@.take(i + 1).last() == rules@[i as int]);
            reveal(Seq::filter);
        }
        let ghost kept = rules@.take(i as int).filter(wanted);
        if same_text(rules[i].severity.as_str(), "must-fix") && same_text(
            rules[i].category.as_str(),
            "kill-words",
        ) {
            push_line(&mut words, rules[i].rule_text.clone());
            assert(kept.push(rules@[i as int]).map_values(text_of) =~= kept.map_values(
                text_of,
            ).push(rules@[i as int].rule_text@));
        }
        i += 1;
    }
    assert(rules@.take(i as int) =~= rules@);
    words
}

/// Collects `slop_patterns`.
pub fn slop_patterns_of(rules: &[WritingRule]) -> (patterns: Vec<Vec<String>>)
    ensures
        table_view(patterns@) == slop_patterns(rules@),
{
    let ghost wanted = |r: WritingRule| is_slop_pattern(r);
    let ghost pair_of = |r: WritingRule| seq![r.example_before->Some_0@, r.rule_text@];
    let mut patterns: Vec<Vec<String>> = Vec::new();
    let mut i: usize = 0;
    proof {
        reveal(Seq::filter);
        assert(rules@.take(0) =~= Seq::<WritingRule>::empty());
        assert(table_view(patterns@) =~= rules@.take(0).filter(wanted).map_values(pair_of));
    }
    while i < rules.len()
        invariant
            i <= rules@.len(),
            wanted == (|r: WritingRule| is_slop_pattern(r)),
            pair_of == (|r: WritingRule| seq![r.example_before->Some_0@, r.rule_text@]),
            table_view(patterns@) == rules@.take(i as int).filter(wanted).map_values(pair_of),
        decreases rules.len() - i,
    {
        proof {
            assert(rules@.take(i + 1).drop_last() =~= rules@.take(i as int));
            assert(rules@.take(i + 1).last() == rules@[i as int]);
            reveal(Seq::filter);
        }
        let ghost kept = rules@.take(i as int).filter(wanted);
        let ghost before = table_view(patterns@);
        if same_text(rules[i].category.as_str(), "ai-slop") {
            match &rules[i].example_before {
                Some(pattern) => {
                    let mut pair: Vec<String> = Vec::new();
                    pair.push(pattern.clone());
                    pair.push(rules[i].rule_text.clone());
                    assert(texts(pair@) =~= pair_of(rules@[i as int]));
                    patterns.push(pair);
                    assert(table_view(patterns@) =~= before.push(pair_of(rules@[i as int])));
                    assert(kept.push(rules@[i as int]).map_values(pair_of) =~= kept.map_values(
                        pair_of,
                    ).push(pair_of(rules@[i as int])));
                },
                None => {},
            }
        }
        i += 1;
    }
    assert(rules@.take(i as int) =~= rules@);
    patterns
}

/// The script up to the forbidden words.
pub const GUARD_HEAD: &'static str = r#"#!/usr/bin/env python3
"""
Writing guard hook — AUTO-GENERATED by Margin's export_writing_rules command.
Do not edit manually. Changes will be overwritten.

Kill words and slop patterns are loaded from JSON data blobs for safety.
Source of truth: ~/.margin/margin.db (writing_rules table)
"""
import json, sys, re

# Only check prose file extensions
PROSE_EXTENSIONS = {".md", ".mdx", ".txt", ".html", ".htm"}

# Kill words — loaded from JSON for codegen safety.
# Use a *raw* triple-quoted string so Python doesn't interpret backslash escapes inside JSON.
KILL_WORDS = json.loads(r""""#;

/// The script between the forbidden words and the patterns.
pub const GUARD_MIDDLE: &'static str = r#"""")

# AI-slop sentence patterns — [pattern, explanation]
# Same raw-string rule as above.
SLOP_PATTERNS = json.loads(r""""#;

/// The script after the patterns, up to the name of the document that its
/// message points to.
pub const GUARD_TAIL: &'static str = r#"""")

def get_extension(path):
    if not path:
        return ""
    dot = path.rfind(".")
    return path[dot:].lower() if dot != -1 else ""

def main():
    try:
        data = json.load(sys.stdin)
        tool = data.get("tool_name", "")
        inp = data.get("tool_input") or {}

        # Determine file path and text to check
        path = ""
        text = ""
        if tool == "Write":
            path = inp.get("file_path", "")
            text = inp.get("content", "")
        elif tool == "Edit":
            path = inp.get("file_path", "")
            text = inp.get("new_string", "")

        if not text or get_extension(path) not in PROSE_EXTENSIONS:
            sys.exit(0)

        violations = []

        # Check kill words
        lower = text.lower()
        for word in KILL_WORDS:
            if word in lower:
                violations.append(f'Kill word: "{word}"')

        # Check slop patterns
        for pattern, explanation in SLOP_PATTERNS:
            if re.search(pattern, text):
                violations.append(explanation)

        if violations:
            msg = "WRITING GUARD: AI-slop patterns detected:\n"
            for v in violations:
                msg += f"  - {v}\n"
            msg += "Rephrase to sound human. See ~/.margin/writing-rules"#;

/// The end of the script, from the extension of the document it points to.
pub const GUARD_CLOSE: &'static str = r#".md for examples."

            print(json.dumps({
                "hookSpecificOutput": {
                    "hookEventName": "PreToolUse",
                    "permissionDecision": "ask",
                    "permissionDecisionReason": msg
                }
            }))

    except Exception as e:
        # Fail-open: never block writes due to hook errors
        print(f"Writing guard encountered an error (fail-open): {e}", file=sys.stderr)

    sys.exit(0)

if __name__ == "__main__":
    main()
"#;

/// The checking script for the rules: the fixed text of the script with the
/// forbidden words and the patterns set in as JSON.
pub open spec fn guard_script(rules: Seq<WritingRule>) -> Seq<char> {
    GUARD_HEAD@ + json_of_string_list(kill_words(rules)) + GUARD_MIDDLE@ + json_of_string_table(
        slop_patterns(rules),
    ) + GUARD_TAIL@ + GUARD_CLOSE@
}

/// Writes the script that checks text against the rules.
pub fn generate_writing_guard_py(rules: &[WritingRule]) -> (script: String)
    ensures
        script@ == guard_script(rules@),
{
    let words = kill_words_of(rules);
    let patterns = slop_patterns_of(rules);
    let words_json = string_list_json(&words);
    let patterns_json = string_table_json(&patterns);
    let mut script = String::from_str(GUARD_HEAD);
    script.append(words_json.as_str());
    script.append(GUARD_MIDDLE);
    script.append(patterns_json.as_str());
    script.append(GUARD_TAIL);
    script.append(GUARD_CLOSE);
    script
}

} // verus!
