use margin::corrections::{
    build_corrections_export, clear_exported_corrections, count_corrections,
    delete_correction_by_highlight, fetch_corrections, fetch_corrections_by_document,
    sanitize_filename_component, update_writing_type, CorrectionsExport,
};
use rusqlite::Connection;
use uuid::Uuid;

/// The number of rows of the table, the marker and what stands under its
/// session among them.
fn rows_in_table(conn: &Connection) -> i64 {
    conn.query_row("SELECT COUNT(*) FROM corrections", [], |r| r.get(0)).unwrap()
}

/// Writes an export as the JSON value that the application serialises it to.
fn export_value(export: &CorrectionsExport) -> serde_json::Value {
    let mut corrections = Vec::new();
    for c in &export.corrections {
        let mut m = serde_json::Map::new();
        m.insert("originalText".to_string(), serde_json::Value::from(c.original_text.clone()));
        m.insert("notes".to_string(), serde_json::Value::from(c.notes.clone()));
        m.insert("extendedContext".to_string(), serde_json::Value::from(c.extended_context.clone()));
        m.insert("writingType".to_string(), serde_json::Value::from(c.writing_type.clone()));
        m.insert("documentTitle".to_string(), serde_json::Value::from(c.document_title.clone()));
        m.insert("highlightColor".to_string(), serde_json::Value::from(c.highlight_color.clone()));
        m.insert("createdAt".to_string(), serde_json::Value::from(c.created_at));
        corrections.push(serde_json::Value::Object(m));
    }
    let mut m = serde_json::Map::new();
    m.insert("exportedAt".to_string(), serde_json::Value::from(export.exported_at.clone()));
    m.insert("totalCount".to_string(), serde_json::Value::from(export.total_count as u64));
    m.insert("corrections".to_string(), serde_json::Value::Array(corrections));
    serde_json::Value::Object(m)
}

/// Collects the export, then clears what was exported, as the application
/// does around writing the file.
fn export_and_clear(conn: &Connection) -> usize {
    let export = build_corrections_export(conn).unwrap();
    clear_exported_corrections(conn).unwrap();
    export.total_count
}

fn full_schema_sql() -> &'static str {
    "CREATE TABLE corrections (
        id TEXT PRIMARY KEY,
        highlight_id TEXT NOT NULL UNIQUE,
        document_id TEXT NOT NULL,
        session_id TEXT NOT NULL,
        original_text TEXT NOT NULL,
        prefix_context TEXT,
        suffix_context TEXT,
        extended_context TEXT,
        notes_json TEXT NOT NULL,
        document_title TEXT,
        document_source TEXT NOT NULL,
        document_path TEXT,
        category TEXT,
        highlight_color TEXT NOT NULL,
        created_at INTEGER NOT NULL,
        updated_at INTEGER NOT NULL,
        writing_type TEXT
    );"
}

fn setup_full_db() -> Connection {
    let conn = Connection::open_in_memory().unwrap();
    conn.execute_batch(full_schema_sql()).unwrap();
    conn
}

fn insert_correction(conn: &Connection, highlight_id: &str, text: &str, notes: &str) {
    conn.execute(
        "INSERT INTO corrections
            (id, highlight_id, document_id, session_id, original_text, notes_json,
             document_title, document_source, highlight_color, created_at, updated_at)
         VALUES (?1, ?2, 'doc1', 'sess1', ?3, ?4, 'Test', 'file', 'yellow', 1000, 1000)",
        (Uuid::new_v4().to_string(), highlight_id, text, notes,),
    )
    .unwrap();
}

#[test]
fn sanitize_filename_component_replaces_unsafe_chars_and_is_not_empty() {
    assert_eq!(
        sanitize_filename_component("2026/02/23 10:20:30"),
        "2026_02_23_10_20_30"
    );
    assert_eq!(sanitize_filename_component(""), "unknown");
}

#[test]
fn fetch_corrections_orders_desc_and_respects_limit() {
    let conn = setup_full_db();
    for i in 0..5 {
        conn.execute(
            "INSERT INTO corrections
                (id, highlight_id, document_id, session_id, original_text, notes_json,
                 document_title, document_source, highlight_color, created_at, updated_at)
             VALUES (?1, ?2, 'doc', 'sess', ?3, '[\"n\"]', NULL, 'file', 'yellow', ?4, ?5)",
            (
                Uuid::new_v4().to_string(),
                format!("h{i}"),
                format!("t{i}"),
                i as i64,
                i as i64,
            ),
        )
        .unwrap();
    }

    let records = fetch_corrections(&conn, 2).unwrap();
    assert_eq!(records.len(), 2);
    assert_eq!(records[0].created_at, 4);
    assert_eq!(records[1].created_at, 3);
}

#[test]
fn count_corrections_counts_all_rows() {
    let conn = setup_full_db();
    insert_correction(&conn, "h1", "text1", r#"["note1"]"#);
    insert_correction(&conn, "h2", "text2", r#"["note2"]"#);
    assert_eq!(count_corrections(&conn).unwrap(), 2);
}

#[test]
fn fetch_corrections_deserializes_notes_json() {
    let conn = setup_full_db();
    insert_correction(&conn, "h1", "bad phrase", r#"["use X instead","also Y"]"#);
    let records = fetch_corrections(&conn, 10).unwrap();
    assert_eq!(records.len(), 1);
    assert_eq!(records[0].original_text, "bad phrase");
    assert_eq!(records[0].notes, vec!["use X instead", "also Y"]);
    assert_eq!(records[0].highlight_color, "yellow");
}

#[test]
fn upsert_updates_on_duplicate_highlight_id() {
    let conn = setup_full_db();
    insert_correction(&conn, "h1", "original", r#"["old note"]"#);
    assert_eq!(count_corrections(&conn).unwrap(), 1);

    // Upsert with same highlight_id should update, not duplicate
    conn.execute(
        "INSERT INTO corrections
            (id, highlight_id, document_id, session_id, original_text, notes_json,
             document_title, document_source, highlight_color, created_at, updated_at)
         VALUES (?1, 'h1', 'doc1', 'sess2', 'updated', '[\"new note\"]', 'Test', 'file', 'green', 2000, 2000)
         ON CONFLICT(highlight_id) DO UPDATE SET
            original_text = excluded.original_text,
            notes_json = excluded.notes_json,
            highlight_color = excluded.highlight_color,
            updated_at = excluded.updated_at",
        (Uuid::new_v4().to_string(),),
    )
    .unwrap();

    assert_eq!(count_corrections(&conn).unwrap(), 1); // still 1
    let records = fetch_corrections(&conn, 10).unwrap();
    assert_eq!(records[0].original_text, "updated");
    assert_eq!(records[0].notes, vec!["new note"]);
    assert_eq!(records[0].highlight_color, "green");
}

#[test]
fn corrections_insert_without_foreign_keys() {
    // This is the key bug fix test: corrections should insert even when
    // highlight_id and document_id don't reference existing rows
    let conn = setup_full_db();
    insert_correction(&conn, "nonexistent-highlight", "some text", r#"["note"]"#);
    assert_eq!(count_corrections(&conn).unwrap(), 1);
}

// --- writing_type tests ---

#[test]
fn fetch_corrections_includes_writing_type() {
    let conn = setup_full_db();
    conn.execute(
        "INSERT INTO corrections
            (id, highlight_id, document_id, session_id, original_text, notes_json,
             document_title, document_source, highlight_color, created_at, updated_at, writing_type)
         VALUES ('id1', 'h1', 'doc1', 'sess1', 'text', '[\"note\"]', 'Test', 'file', 'yellow', 1000, 1000, 'email')",
        [],
    ).unwrap();

    let records = fetch_corrections(&conn, 10).unwrap();
    assert_eq!(records.len(), 1);
    assert_eq!(records[0].writing_type, Some("email".to_string()));
}

#[test]
fn fetch_corrections_null_writing_type() {
    let conn = setup_full_db();
    insert_correction(&conn, "h1", "text", r#"["note"]"#);

    let records = fetch_corrections(&conn, 10).unwrap();
    assert_eq!(records[0].writing_type, None);
}

#[test]
fn upsert_preserves_existing_writing_type_when_null() {
    let conn = setup_full_db();
    // Insert with writing_type
    conn.execute(
        "INSERT INTO corrections
            (id, highlight_id, document_id, session_id, original_text, notes_json,
             document_title, document_source, highlight_color, created_at, updated_at, writing_type)
         VALUES ('id1', 'h1', 'doc1', 'sess1', 'text', '[\"note\"]', 'Test', 'file', 'yellow', 1000, 1000, 'prd')",
        [],
    ).unwrap();

    // Upsert with NULL writing_type — should preserve 'prd'
    conn.execute(
        "INSERT INTO corrections
            (id, highlight_id, document_id, session_id, original_text, notes_json,
             document_title, document_source, highlight_color, created_at, updated_at, writing_type)
         VALUES ('id2', 'h1', 'doc1', 'sess2', 'updated', '[\"new\"]', 'Test', 'file', 'yellow', 2000, 2000, NULL)
         ON CONFLICT(highlight_id) DO UPDATE SET
            original_text = excluded.original_text,
            notes_json = excluded.notes_json,
            updated_at = excluded.updated_at,
            writing_type = COALESCE(excluded.writing_type, corrections.writing_type)",
        [],
    ).unwrap();

    let wt: Option<String> = conn
        .query_row("SELECT writing_type FROM corrections WHERE highlight_id = 'h1'", [], |r| r.get(0))
        .unwrap();
    assert_eq!(wt, Some("prd".to_string()));
}

#[test]
fn upsert_updates_writing_type_when_provided() {
    let conn = setup_full_db();
    conn.execute(
        "INSERT INTO corrections
            (id, highlight_id, document_id, session_id, original_text, notes_json,
             document_title, document_source, highlight_color, created_at, updated_at, writing_type)
         VALUES ('id1', 'h1', 'doc1', 'sess1', 'text', '[\"note\"]', 'Test', 'file', 'yellow', 1000, 1000, 'prd')",
        [],
    ).unwrap();

    // Upsert with new writing_type — should update to 'email'
    conn.execute(
        "INSERT INTO corrections
            (id, highlight_id, document_id, session_id, original_text, notes_json,
             document_title, document_source, highlight_color, created_at, updated_at, writing_type)
         VALUES ('id2', 'h1', 'doc1', 'sess2', 'text', '[\"note\"]', 'Test', 'file', 'yellow', 2000, 2000, 'email')
         ON CONFLICT(highlight_id) DO UPDATE SET
            updated_at = excluded.updated_at,
            writing_type = COALESCE(excluded.writing_type, corrections.writing_type)",
        [],
    ).unwrap();

    let wt: Option<String> = conn
        .query_row("SELECT writing_type FROM corrections WHERE highlight_id = 'h1'", [], |r| r.get(0))
        .unwrap();
    assert_eq!(wt, Some("email".to_string()));
}

// --- get_corrections_by_document tests ---

fn insert_full_correction(conn: &Connection, highlight_id: &str, doc_id: &str, doc_title: &str, text: &str, notes: &str, created_at: i64) {
    conn.execute(
        "INSERT INTO corrections
            (id, highlight_id, document_id, session_id, original_text, notes_json,
             document_title, document_source, document_path, highlight_color, created_at, updated_at, writing_type)
         VALUES (?1, ?2, ?3, 'sess1', ?4, ?5, ?6, 'file', '/path', 'yellow', ?7, ?7, NULL)",
        (Uuid::new_v4().to_string(), highlight_id, doc_id, text, notes, doc_title, created_at,),
    ).unwrap();
}

#[test]
fn get_corrections_by_document_empty() {
    let conn = setup_full_db();
    let groups = fetch_corrections_by_document(&conn, 50).unwrap();
    assert!(groups.is_empty());
}

#[test]
fn get_corrections_by_document_groups_correctly() {
    let conn = setup_full_db();
    insert_full_correction(&conn, "h1", "doc1", "Article A", "text1", r#"["n1"]"#, 3000);
    insert_full_correction(&conn, "h2", "doc2", "Article B", "text2", r#"["n2"]"#, 2000);
    insert_full_correction(&conn, "h3", "doc1", "Article A", "text3", r#"["n3"]"#, 1000);

    let groups = fetch_corrections_by_document(&conn, 50).unwrap();
    assert_eq!(groups.len(), 2);
    // First group is doc1 (most recent correction at 3000)
    assert_eq!(groups[0].document_id, "doc1");
    assert_eq!(groups[0].corrections.len(), 2);
    // Second group is doc2
    assert_eq!(groups[1].document_id, "doc2");
    assert_eq!(groups[1].corrections.len(), 1);
}

// --- update_correction_writing_type tests ---

#[test]
fn update_writing_type_succeeds() {
    let conn = setup_full_db();
    insert_correction(&conn, "h1", "text", r#"["note"]"#);
    update_writing_type(&conn, "h1", "blog").unwrap();

    let wt: Option<String> = conn
        .query_row("SELECT writing_type FROM corrections WHERE highlight_id = 'h1'", [], |r| r.get(0))
        .unwrap();
    assert_eq!(wt, Some("blog".to_string()));
}

#[test]
fn update_writing_type_nonexistent_fails() {
    let conn = setup_full_db();
    let result = update_writing_type(&conn, "nonexistent", "blog");
    assert!(result.is_err());
}

// --- delete_correction tests ---

#[test]
fn delete_correction_succeeds() {
    let conn = setup_full_db();
    insert_correction(&conn, "h1", "text", r#"["note"]"#);
    assert_eq!(count_corrections(&conn).unwrap(), 1);
    delete_correction_by_highlight(&conn, "h1").unwrap();
    assert_eq!(count_corrections(&conn).unwrap(), 0);
}

#[test]
fn delete_correction_nonexistent_fails() {
    let conn = setup_full_db();
    let result = delete_correction_by_highlight(&conn, "nonexistent");
    assert!(result.is_err());
}

// --- export_corrections_json tests ---

#[test]
fn build_export_empty_db() {
    let conn = setup_full_db();
    let export = build_corrections_export(&conn).unwrap();
    assert_eq!(export.total_count, 0);
    assert!(export.corrections.is_empty());
    // Should produce valid JSON
    let json = serde_json::to_string(&export_value(&export)).unwrap();
    assert!(json.contains("\"corrections\":[]"));
}

#[test]
fn build_export_with_corrections() {
    let conn = setup_full_db();
    insert_full_correction(&conn, "h1", "doc1", "Test Doc", "bad text", r#"["use good text"]"#, 1000);
    insert_full_correction(&conn, "h2", "doc1", "Test Doc", "also bad", r#"["fix"]"#, 2000);

    let export = build_corrections_export(&conn).unwrap();
    assert_eq!(export.total_count, 2);
    assert_eq!(export.corrections.len(), 2);
    // Most recent first
    assert_eq!(export.corrections[0].original_text, "also bad");
    assert_eq!(export.corrections[1].original_text, "bad text");
}

#[test]
fn export_and_clear_deletes_non_backfilled_corrections() {
    let conn = setup_full_db();
    insert_full_correction(&conn, "h1", "doc1", "Doc", "text1", r#"["n1"]"#, 1000);
    insert_full_correction(&conn, "h2", "doc1", "Doc", "text2", r#"["n2"]"#, 2000);
    assert_eq!(count_corrections(&conn).unwrap(), 2);

    let count = export_and_clear(&conn);

    assert_eq!(count, 2);
    assert_eq!(count_corrections(&conn).unwrap(), 0);
}

#[test]
fn export_and_clear_preserves_backfilled_rows() {
    let conn = setup_full_db();
    // Regular correction
    insert_full_correction(&conn, "h1", "doc1", "Doc", "text1", r#"["n1"]"#, 1000);
    // Backfilled correction (should survive)
    conn.execute(
        "INSERT INTO corrections
            (id, highlight_id, document_id, session_id, original_text, notes_json,
             document_title, document_source, highlight_color, created_at, updated_at)
         VALUES ('bf1', 'hbf', 'doc1', '__backfilled__', 'old text', '[\"old\"]', 'Doc', 'file', 'yellow', 500, 500)",
        [],
    ).unwrap();
    assert_eq!(rows_in_table(&conn), 2);

    let count = export_and_clear(&conn);

    assert_eq!(count, 1); // only non-backfilled exported
    assert_eq!(rows_in_table(&conn), 1); // backfilled survives
    let remaining: String = conn
        .query_row("SELECT session_id FROM corrections", [], |r| r.get(0))
        .unwrap();
    assert_eq!(remaining, "__backfilled__");
}

#[test]
fn export_and_clear_returns_zero_when_empty() {
    let conn = setup_full_db();
    let count = export_and_clear(&conn);
    assert_eq!(count, 0);
    assert_eq!(count_corrections(&conn).unwrap(), 0);
}

#[test]
fn build_export_handles_special_chars() {
    let conn = setup_full_db();
    conn.execute(
        "INSERT INTO corrections
            (id, highlight_id, document_id, session_id, original_text, notes_json,
             document_title, document_source, highlight_color, created_at, updated_at)
         VALUES ('id1', 'h1', 'doc1', 'sess1', 'text with \"quotes\" and\nnewlines', '[\"note with \\\"escapes\\\"\"]', 'Test', 'file', 'yellow', 1000, 1000)",
        [],
    ).unwrap();

    let export = build_corrections_export(&conn).unwrap();
    let json = serde_json::to_string_pretty(&export_value(&export)).unwrap();
    // Should be valid JSON despite special chars
    let parsed: serde_json::Value = serde_json::from_str(&json).unwrap();
    assert!(parsed["corrections"][0]["originalText"].as_str().unwrap().contains("quotes"));
}
