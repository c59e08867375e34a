use margin::search::{
    index_document, index_document_inner, remove_document_index, remove_document_index_inner,
    search_documents, search_documents_inner,
};
use margin::writing_rules::{
    capitalize, categories_of, generate_writing_guard_py, generate_writing_rules_markdown,
    kill_words_of, label_of_category, label_of_type, slop_patterns_of, sorted_types,
    type_comes_first, types_of, WritingRule,
};
use rusqlite::Connection;

fn setup_db() -> Connection {
    let conn = Connection::open_in_memory().unwrap();
    margin::schema::init_db(&conn).unwrap();
    conn
}

fn entries(conn: &Connection, id: &str) -> i64 {
    conn.query_row("SELECT COUNT(*) FROM documents_fts WHERE document_id = ?1", [id], |r| r.get(0)).unwrap()
}

fn found(conn: &Connection, query: &str) -> Vec<String> {
    search_documents_inner(conn, query, 50).unwrap().into_iter().map(|h| h.document_id).collect()
}

#[test]
fn indexing_twice_keeps_one_entry() {
    let conn = setup_db();
    index_document_inner(&conn, "d1", "Title", "walrus content").unwrap();
    index_document_inner(&conn, "d1", "Title", "walrus content").unwrap();
    index_document_inner(&conn, "d1", "Title", "walrus content").unwrap();
    assert_eq!(entries(&conn, "d1"), 1);
    assert_eq!(found(&conn, "walrus"), vec!["d1"]);
}

#[test]
fn removed_document_matches_none_of_its_terms() {
    let conn = setup_db();
    index_document_inner(&conn, "d1", "Walrus Facts", "walruses have tusks and whiskers").unwrap();
    index_document_inner(&conn, "d2", "Other", "tusks of elephants").unwrap();
    for term in ["walrus", "facts", "tusks", "whiskers", "have"] {
        assert!(found(&conn, term).contains(&"d1".to_string()), "{term}");
    }
    remove_document_index_inner(&conn, "d1").unwrap();
    for term in ["walrus", "facts", "tusks", "whiskers", "have"] {
        assert!(!found(&conn, term).contains(&"d1".to_string()), "{term}");
    }
    assert_eq!(entries(&conn, "d1"), 0);
    // The other document is still there, and removing again is no error.
    assert_eq!(found(&conn, "tusks"), vec!["d2"]);
    remove_document_index(&conn, "d1").unwrap();
}

#[test]
fn reindexing_replaces_every_old_term() {
    let conn = setup_db();
    index_document_inner(&conn, "d1", "Cats", "felines purr softly").unwrap();
    index_document_inner(&conn, "d1", "Dogs", "canines bark loudly").unwrap();
    for old in ["cats", "felines", "purr", "softly"] {
        assert!(found(&conn, old).is_empty(), "{old}");
    }
    for new in ["dogs", "canines", "bark", "loudly"] {
        assert_eq!(found(&conn, new), vec!["d1"], "{new}");
    }
    assert_eq!(entries(&conn, "d1"), 1);
}

#[test]
fn indexing_counts_the_access() {
    let conn = setup_db();
    conn.execute("INSERT INTO documents (id, source, last_opened_at, created_at) VALUES ('d1', 'file', 1, 1)", []).unwrap();
    index_document(&conn, "d1", "T", "body").unwrap();
    index_document(&conn, "d1", "T", "body").unwrap();
    let count: i64 = conn.query_row("SELECT access_count FROM documents WHERE id = 'd1'", [], |r| r.get(0)).unwrap();
    assert_eq!(count, 2);
    // A document that is not stored is indexed all the same.
    index_document(&conn, "ghost", "T", "spectral body").unwrap();
    assert_eq!(found(&conn, "spectral"), vec!["ghost"]);
}

#[test]
fn counting_the_access_is_best_effort() {
    // No documents table: the count fails, the indexing does not.
    let conn = Connection::open_in_memory().unwrap();
    index_document(&conn, "d1", "T", "lonely body").unwrap();
    assert_eq!(entries(&conn, "d1"), 1);
    assert!(margin::search::increment_access_count(&conn, "d1").unwrap_err().starts_with("Failed to increment access count: "));
}

#[test]
fn search_limits() {
    let conn = setup_db();
    for i in 0..25 {
        index_document_inner(&conn, &format!("d{i}"), "Common", "common words").unwrap();
    }
    assert_eq!(search_documents(&conn, "common", None).unwrap().len(), 20);
    assert_eq!(search_documents(&conn, "common", Some(3)).unwrap().len(), 3);
    assert_eq!(search_documents(&conn, "common", Some(0)).unwrap().len(), 0);
    assert_eq!(search_documents(&conn, "common", Some(-1)).unwrap().len(), 25);
    assert_eq!(search_documents(&conn, "common", Some(100)).unwrap().len(), 25);
    // Nothing to look for: no result, whatever the limit.
    assert!(search_documents(&conn, "  ", Some(-1)).unwrap().is_empty());
    assert!(search_documents(&conn, "AND OR", None).unwrap().is_empty());
    assert!(search_documents(&conn, "\"(*)\"", None).unwrap().is_empty());
}

#[test]
fn blank_search_does_not_touch_the_database() {
    // A connection that cannot run anything: reading is its only right, and
    // there is no index to read.
    let conn = Connection::open_in_memory().unwrap();
    conn.execute_batch("PRAGMA query_only=ON;").unwrap();
    assert!(search_documents_inner(&conn, "", 10).unwrap().is_empty());
    assert!(search_documents_inner(&conn, " \t ", 10).unwrap().is_empty());
    assert!(search_documents_inner(&conn, "not", 10).unwrap().is_empty());
    let err = search_documents_inner(&conn, "word", 10).unwrap_err();
    assert!(err.starts_with("Failed to create FTS table: "), "{err}");
    let err = index_document_inner(&conn, "d", "t", "c").unwrap_err();
    assert!(err.starts_with("Failed to create FTS table: "), "{err}");
    let err = remove_document_index_inner(&conn, "d").unwrap_err();
    assert!(err.starts_with("Failed to create FTS table: "), "{err}");
}

#[test]
fn all_terms_must_match() {
    let conn = setup_db();
    index_document_inner(&conn, "d1", "Rust Guide", "memory safety").unwrap();
    index_document_inner(&conn, "d2", "Rust Book", "fearless concurrency").unwrap();
    assert_eq!(found(&conn, "rust").len(), 2);
    assert_eq!(found(&conn, "rust safety"), vec!["d1"]);
    assert_eq!(found(&conn, "rust OR safety"), vec!["d1"]);
    assert!(found(&conn, "rust python").is_empty());
    // Terms match on prefixes, however short.
    assert_eq!(found(&conn, "conc"), vec!["d2"]);
    assert_eq!(found(&conn, "f"), vec!["d2"]);
    // Quotes, columns and groups are read as plain text.
    assert_eq!(found(&conn, "title:rust \"guide\""), Vec::<String>::new());
    assert_eq!(found(&conn, "(rust) {guide}"), vec!["d1"]);
}

fn rule(id: &str, writing_type: &str, category: &str, text: &str) -> WritingRule {
    WritingRule {
        id: id.to_string(),
        writing_type: writing_type.to_string(),
        category: category.to_string(),
        rule_text: text.to_string(),
        when_to_apply: None,
        why: None,
        severity: "should-fix".to_string(),
        example_before: None,
        example_after: None,
        source: "manual".to_string(),
        signal_count: 1,
        notes: None,
        created_at: 0,
        updated_at: 0,
    }
}

#[test]
fn markdown_of_no_rules() {
    assert_eq!(
        generate_writing_rules_markdown(&[]),
        "# Writing Rules\n\n_For AI agents: apply rules matching the writing type. General rules always apply._\n"
    );
}

#[test]
fn markdown_sections_and_details() {
    let mut full = rule("r3", "general", "ai-slop", "No parallelism");
    full.severity = "must-fix".to_string();
    full.when_to_apply = Some("always".to_string());
    full.why = Some("it is a tell".to_string());
    full.signal_count = -3;
    full.example_after = Some("Say it.".to_string());
    full.notes = Some("seen often".to_string());
    let mut before_only = rule("r5", "email", "tone", "Be brief");
    before_only.example_before = Some("I hope this finds you well".to_string());
    let rules = vec![
        rule("r1", "slack", "tone", "Be kind"),
        rule("r2", "email", "kill-words", "leverage"),
        full,
        rule("r4", "custom type", "multi-word  category-name", "Custom"),
        before_only,
        rule("r6", "email", "kill-words", "synergy"),
        rule("r7", "Zebra", "tone", "Capital types sort by code point"),
    ];
    let expected = "# Writing Rules

_For AI agents: apply rules matching the writing type. General rules always apply._

## General

### Ai Slop

**Rule: No parallelism** [must-fix]
- When to apply: always
- Why: it is a tell
- Signal: seen -3 time(s)
- Before -> After:
  - After: \"Say it.\"
- Notes: seen often

## Zebra

### Tone

**Rule: Capital types sort by code point** [should-fix]
- Signal: seen 1 time(s)

## custom type

### Multi Word Category Name

**Rule: Custom** [should-fix]
- Signal: seen 1 time(s)

## Email

### Kill Words

**Rule: leverage** [should-fix]
- Signal: seen 1 time(s)

**Rule: synergy** [should-fix]
- Signal: seen 1 time(s)

### Tone

**Rule: Be brief** [should-fix]
- Signal: seen 1 time(s)
- Before -> After:
  - Before: \"I hope this finds you well\"

## Slack

### Tone

**Rule: Be kind** [should-fix]
- Signal: seen 1 time(s)
";
    assert_eq!(generate_writing_rules_markdown(&rules), expected);
}

#[test]
fn labels() {
    for (writing_type, label) in [
        ("general", "General"),
        ("email", "Email"),
        ("prd", "PRD"),
        ("blog", "Blog / essay"),
        ("cover-letter", "Cover letter"),
        ("resume", "Resume"),
        ("slack", "Slack"),
        ("pitch", "Pitch"),
        ("outreach", "Outreach"),
        ("memo", "memo"),
        ("General", "General"),
        ("", ""),
    ] {
        assert_eq!(label_of_type(writing_type), label);
    }
    assert_eq!(label_of_category("kill-words"), "Kill Words");
    assert_eq!(label_of_category("ai-slop"), "Ai Slop");
    assert_eq!(label_of_category("tone"), "Tone");
    assert_eq!(label_of_category("  --a--b  c- "), "A B C");
    assert_eq!(label_of_category("ALREADY-upper"), "ALREADY Upper");
    assert_eq!(label_of_category("élan-ßtraße-ǆ"), "Élan SStraße Ǆ");
    assert_eq!(label_of_category("1st-_x"), "1st _x");
    assert_eq!(label_of_category(""), "");
    assert_eq!(label_of_category("-"), "");
    assert_eq!(capitalize(&"word".chars().collect()), "Word");
    assert_eq!(capitalize(&"ﬁne".chars().collect()), "FIne");
    assert_eq!(capitalize(&Vec::new()), "");
}

#[test]
fn types_and_categories_in_order() {
    let rules = vec![
        rule("1", "email", "tone", "a"),
        rule("2", "general", "tone", "b"),
        rule("3", "email", "hedging", "c"),
        rule("4", "blog", "tone", "d"),
        rule("5", "email", "tone", "e"),
        rule("6", "general", "ai-slop", "f"),
    ];
    assert_eq!(types_of(&rules), vec!["email", "general", "blog"]);
    assert_eq!(categories_of(&rules, "email"), vec!["tone", "hedging"]);
    assert_eq!(categories_of(&rules, "general"), vec!["tone", "ai-slop"]);
    assert!(categories_of(&rules, "missing").is_empty());
    assert_eq!(sorted_types(types_of(&rules)), vec!["general", "blog", "email"]);
    assert_eq!(
        sorted_types(vec!["b".to_string(), "a".to_string(), "general".to_string(), "B".to_string(), "".to_string(), "generalx".to_string()]),
        vec!["general", "", "B", "a", "b", "generalx"]
    );
    assert!(sorted_types(Vec::new()).is_empty());
    assert!(type_comes_first("general", "a"));
    assert!(!type_comes_first("a", "general"));
    assert!(type_comes_first("general", "general"));
    assert!(type_comes_first("a", "b"));
    assert!(!type_comes_first("b", "a"));
}

#[test]
fn guard_script_holds_words_and_patterns_as_json() {
    let mut kill = rule("1", "general", "kill-words", "delve \"deep\"");
    kill.severity = "must-fix".to_string();
    let soft = rule("2", "general", "kill-words", "only should-fix");
    let mut slop = rule("3", "email", "ai-slop", "Negative parallelism");
    slop.example_before = Some(r"isn't .{5,60}\. It's ".to_string());
    let no_pattern = rule("4", "email", "ai-slop", "No example");
    let mut wrong_category = rule("5", "email", "tone", "Has example");
    wrong_category.example_before = Some("x".to_string());
    wrong_category.severity = "must-fix".to_string();
    let rules = vec![kill, soft, slop, no_pattern, wrong_category];

    assert_eq!(kill_words_of(&rules), vec!["delve \"deep\""]);
    assert_eq!(slop_patterns_of(&rules), vec![vec![r"isn't .{5,60}\. It's ".to_string(), "Negative parallelism".to_string()]]);

    let py = generate_writing_guard_py(&rules);
    assert!(py.starts_with("#!/usr/bin/env python3\n"));
    assert!(py.ends_with("if __name__ == \"__main__\":\n    main()\n"));
    assert!(py.contains("KILL_WORDS = json.loads(r\"\"\"[\"delve \\\"deep\\\"\"]\"\"\")\n"));
    assert!(py.contains("SLOP_PATTERNS = json.loads(r\"\"\"[[\"isn't .{5,60}\\\\. It's \",\"Negative parallelism\"]]\"\"\")\n"));
    assert!(py.contains("PROSE_EXTENSIONS = {\".md\", \".mdx\", \".txt\", \".html\", \".htm\"}"));
    assert!(py.contains("violations.append(f'Kill word: \"{word}\"')"));
    assert!(py.contains("Rephrase to sound human. See ~/.margin/writing-rules"));
    assert!(py.contains(".md for examples.\"\n"));

    let empty = generate_writing_guard_py(&[]);
    assert!(empty.contains("KILL_WORDS = json.loads(r\"\"\"[]\"\"\")"));
    assert!(empty.contains("SLOP_PATTERNS = json.loads(r\"\"\"[]\"\"\")"));
    assert_eq!(empty.len() + "\"delve \\\"deep\\\"\"".len() + "[\"isn't .{5,60}\\\\. It's \",\"Negative parallelism\"]".len(), py.len());
}
