use margin::writing_rules::{
    fetch_writing_rules, generate_writing_guard_py, generate_writing_rules_markdown, WritingRule,
};
use rusqlite::Connection;


fn setup_db() -> Connection {
    let conn = Connection::open_in_memory().unwrap();
    conn.execute_batch(
        "CREATE TABLE IF NOT EXISTS writing_rules (
            id TEXT PRIMARY KEY,
            writing_type TEXT NOT NULL,
            category TEXT NOT NULL,
            rule_text TEXT NOT NULL,
            when_to_apply TEXT,
            why TEXT,
            severity TEXT NOT NULL,
            example_before TEXT,
            example_after TEXT,
            source TEXT NOT NULL,
            signal_count INTEGER NOT NULL DEFAULT 1,
            notes TEXT,
            created_at INTEGER NOT NULL,
            updated_at INTEGER NOT NULL
        );",
    )
    .unwrap();
    conn
}

fn insert_rule(conn: &Connection, id: &str, writing_type: &str, category: &str, rule_text: &str, severity: &str) {
    conn.execute(
        "INSERT INTO writing_rules (id, writing_type, category, rule_text, severity, source, signal_count, created_at, updated_at)
         VALUES (?1, ?2, ?3, ?4, ?5, 'manual', 1, 1000, 1000)",
        (id, writing_type, category, rule_text, severity,),
    ).unwrap();
}

fn insert_full_rule(
    conn: &Connection,
    id: &str,
    writing_type: &str,
    category: &str,
    rule_text: &str,
    severity: &str,
    when_to_apply: Option<&str>,
    why: Option<&str>,
    example_before: Option<&str>,
    example_after: Option<&str>,
    signal_count: i64,
) {
    conn.execute(
        "INSERT INTO writing_rules (id, writing_type, category, rule_text, when_to_apply, why, severity,
         example_before, example_after, source, signal_count, created_at, updated_at)
         VALUES (?1, ?2, ?3, ?4, ?5, ?6, ?7, ?8, ?9, 'manual', ?10, 1000, 1000)",
        (id, writing_type, category, rule_text, when_to_apply, why, severity, example_before, example_after, signal_count,),
    ).unwrap();
}

// --- fetch_writing_rules tests ---

#[test]
fn get_writing_rules_returns_all() {
    let conn = setup_db();
    insert_rule(&conn, "r1", "general", "ai-slop", "No parallelism", "must-fix");
    insert_rule(&conn, "r2", "email", "tone", "Be direct", "should-fix");

    let rules = fetch_writing_rules(&conn, None).unwrap();
    assert_eq!(rules.len(), 2);
}

#[test]
fn get_writing_rules_filters_by_type() {
    let conn = setup_db();
    insert_rule(&conn, "r1", "general", "ai-slop", "No parallelism", "must-fix");
    insert_rule(&conn, "r2", "email", "tone", "Be direct", "should-fix");
    insert_rule(&conn, "r3", "email", "hedging", "No hedging", "should-fix");

    let rules = fetch_writing_rules(&conn, Some("email")).unwrap();
    assert_eq!(rules.len(), 2);
    assert!(rules.iter().all(|r| r.writing_type == "email"));
}

#[test]
fn get_writing_rules_empty_db() {
    let conn = setup_db();
    let rules = fetch_writing_rules(&conn, None).unwrap();
    assert!(rules.is_empty());
}

// --- generate_writing_rules_markdown tests ---

#[test]
fn markdown_has_header_and_agent_instruction() {
    let rules: Vec<WritingRule> = vec![];
    let md = generate_writing_rules_markdown(&rules);
    assert!(md.contains("# Writing Rules"));
    assert!(md.contains("_For AI agents:"));
}

#[test]
fn markdown_groups_by_writing_type() {
    let conn = setup_db();
    insert_rule(&conn, "r1", "general", "ai-slop", "No parallelism", "must-fix");
    insert_rule(&conn, "r2", "blog", "structure", "Use transitions", "should-fix");
    insert_rule(&conn, "r3", "general", "tone", "Be human", "should-fix");

    let rules = fetch_writing_rules(&conn, None).unwrap();
    let md = generate_writing_rules_markdown(&rules);

    assert!(md.contains("## General"));
    assert!(md.contains("## Blog / essay"));

    // General should come before Blog
    let gen_pos = md.find("## General").unwrap();
    let blog_pos = md.find("## Blog / essay").unwrap();
    assert!(gen_pos < blog_pos);
}

#[test]
fn markdown_includes_rule_details() {
    let conn = setup_db();
    insert_full_rule(
        &conn, "r1", "general", "ai-slop", "No negative parallelism", "must-fix",
        Some("Any sentence with isn't X, it's Y"), Some("AI slop marker"),
        Some("The issue isn't X. It's Y."), Some("State directly: Y is the real issue."),
        3,
    );

    let rules = fetch_writing_rules(&conn, None).unwrap();
    let md = generate_writing_rules_markdown(&rules);

    assert!(md.contains("**Rule: No negative parallelism** [must-fix]"));
    assert!(md.contains("- When to apply: Any sentence with isn't X, it's Y"));
    assert!(md.contains("- Why: AI slop marker"));
    assert!(md.contains("- Signal: seen 3 time(s)"));
    assert!(md.contains("Before: \"The issue isn't X. It's Y.\""));
    assert!(md.contains("After: \"State directly: Y is the real issue.\""));
}

// --- generate_writing_guard_py tests ---

#[test]
fn hook_has_autogen_header() {
    let py = generate_writing_guard_py(&[]);
    assert!(py.contains("AUTO-GENERATED by Margin"));
    assert!(py.contains("Do not edit manually"));
}

#[test]
fn hook_has_fail_open() {
    let py = generate_writing_guard_py(&[]);
    assert!(py.contains("fail-open"));
    assert!(py.contains("except Exception"));
}

#[test]
fn hook_uses_raw_strings_for_embedded_json() {
    let py = generate_writing_guard_py(&[]);
    assert!(py.contains(r#"KILL_WORDS = json.loads(r""#));
    assert!(py.contains(r#"SLOP_PATTERNS = json.loads(r""#));
}

#[test]
fn hook_includes_kill_words() {
    let conn = setup_db();
    insert_rule(&conn, "r1", "general", "kill-words", "demonstrating", "must-fix");
    insert_rule(&conn, "r2", "general", "kill-words", "leveraging", "must-fix");
    // This should NOT appear (wrong category)
    insert_rule(&conn, "r3", "general", "tone", "Be direct", "must-fix");

    let rules = fetch_writing_rules(&conn, None).unwrap();
    let py = generate_writing_guard_py(&rules);

    assert!(py.contains("demonstrating"));
    assert!(py.contains("leveraging"));
    // KILL_WORDS should be loaded from JSON
    assert!(py.contains("KILL_WORDS = json.loads("));
}

#[test]
fn hook_includes_slop_patterns() {
    let conn = setup_db();
    insert_full_rule(
        &conn, "r1", "general", "ai-slop", "Negative parallelism detected", "should-fix",
        None, None,
        Some(r"(?:The (?:issue|problem) isn't .{5,60}\. It's )"),
        None, 1,
    );

    let rules = fetch_writing_rules(&conn, None).unwrap();
    let py = generate_writing_guard_py(&rules);

    assert!(py.contains("SLOP_PATTERNS = json.loads("));
    assert!(py.contains("Negative parallelism detected"));
}

#[test]
fn hook_handles_special_chars_in_rules() {
    let conn = setup_db();
    insert_rule(&conn, "r1", "general", "kill-words", "it's \"tricky\"", "must-fix");

    let rules = fetch_writing_rules(&conn, None).unwrap();
    let py = generate_writing_guard_py(&rules);

    // Should produce valid Python — the JSON handles escaping
    assert!(py.contains("KILL_WORDS = json.loads("));
    // Verify the JSON is parseable
    let kill_line = py.lines()
        .find(|l| l.starts_with("KILL_WORDS = json.loads("))
        .unwrap();
    let json_str = &kill_line["KILL_WORDS = json.loads(r\"\"\"".len()..kill_line.len() - "\"\"\")".len()];
    let parsed: Vec<String> = serde_json::from_str(json_str).unwrap();
    assert_eq!(parsed, vec!["it's \"tricky\""]);
}
