use margin::backfill::{
    backfill_corrections, backfill_once, backfill_pending, is_log_file_name, recover_line,
    sort_by_name, LogFile,
};
use rusqlite::Connection;

fn corrections_table_sql() -> &'static str {
    "CREATE TABLE corrections (
        id TEXT PRIMARY KEY,
        highlight_id TEXT NOT NULL UNIQUE,
        document_id TEXT NOT NULL,
        session_id TEXT NOT NULL,
        original_text TEXT NOT NULL,
        prefix_context TEXT,
        suffix_context TEXT,
        extended_context TEXT,
        notes_json TEXT NOT NULL,
        document_title TEXT,
        document_source TEXT NOT NULL,
        document_path TEXT,
        category TEXT,
        highlight_color TEXT NOT NULL,
        created_at INTEGER NOT NULL,
        updated_at INTEGER NOT NULL,
        writing_type TEXT
    );"
}

fn setup_db() -> Connection {
    let conn = Connection::open_in_memory().unwrap();
    conn.execute_batch(corrections_table_sql()).unwrap();
    conn
}

fn count(conn: &Connection) -> i64 {
    conn.query_row("SELECT COUNT(*) FROM corrections", [], |r| r.get(0))
        .unwrap()
}

fn log(name: &str, lines: &[&str]) -> LogFile {
    LogFile { name: name.to_string(), lines: lines.iter().map(|l| l.to_string()).collect() }
}

fn text_of(conn: &Connection, highlight_id: &str) -> String {
    conn.query_row(
        "SELECT original_text FROM corrections WHERE highlight_id = ?1",
        [highlight_id],
        |r| r.get(0),
    )
    .unwrap()
}

#[test]
fn backfill_imports_jsonl_into_empty_db() {
    let conn = setup_db();
    let files = vec![log(
        "corrections-2026-02-23.jsonl",
        &[
            r#"{"highlight_id":"h1","document_id":"d1","session_id":"s1","original_text":"bad text","notes":["fix"],"document_source":"file","highlight_color":"yellow","exported_at":1700000000000}"#,
            r#"{"highlight_id":"h2","document_id":"d1","session_id":"s1","original_text":"another","notes":["also fix"],"document_source":"file","highlight_color":"green","exported_at":1700000001000}"#,
        ],
    )];

    backfill_corrections(&conn, files);

    assert_eq!(count(&conn), 2);
    assert_eq!(text_of(&conn, "h1"), "bad text");
}

#[test]
fn backfill_upserts_on_duplicate_highlight_id() {
    let conn = setup_db();
    // Pre-insert one correction
    conn.execute(
        "INSERT INTO corrections (id, highlight_id, document_id, session_id, original_text, notes_json, document_source, highlight_color, created_at, updated_at) VALUES ('existing', 'h1', 'd1', 's1', 'old text', '[]', 'file', 'yellow', 0, 0)",
        [],
    ).unwrap();

    let files = vec![log(
        "corrections-2026-02-23.jsonl",
        &[
            // Same highlight_id as existing — should upsert (update)
            r#"{"highlight_id":"h1","document_id":"d1","session_id":"s2","original_text":"new text","notes":["fix"],"document_source":"file","highlight_color":"yellow","exported_at":1700000000000}"#,
            // New highlight_id
            r#"{"highlight_id":"h2","document_id":"d1","session_id":"s2","original_text":"fresh","notes":["new"],"document_source":"file","highlight_color":"green","exported_at":1700000001000}"#,
        ],
    )];

    let imported = backfill_corrections(&conn, files);

    assert_eq!(imported, 2); // both processed (1 upsert + 1 insert)
    assert_eq!(count(&conn), 2); // 1 updated + 1 new
    // h1 text should be updated from JSONL
    assert_eq!(text_of(&conn, "h1"), "new text");
    // The stored row keeps its identity and what a log never overwrites.
    let (id, session, created, updated): (String, String, i64, i64) = conn
        .query_row(
            "SELECT id, session_id, created_at, updated_at FROM corrections WHERE highlight_id = 'h1'",
            [],
            |r| Ok((r.get(0)?, r.get(1)?, r.get(2)?, r.get(3)?)),
        )
        .unwrap();
    assert_eq!(id, "existing");
    assert_eq!(session, "s1");
    assert_eq!(created, 0);
    assert_eq!(updated, 1700000000000);
}

#[test]
fn backfill_processes_files_in_sorted_order() {
    let conn = setup_db();
    // The newer file is handed over first; the order of the names decides.
    let files = vec![
        log(
            "corrections-2026-02-23.jsonl",
            &[r#"{"highlight_id":"h1","document_id":"d1","session_id":"s2","original_text":"new version","notes":["new"],"document_source":"file","highlight_color":"green","exported_at":2000}"#],
        ),
        log(
            "corrections-2026-02-01.jsonl",
            &[r#"{"highlight_id":"h1","document_id":"d1","session_id":"s1","original_text":"old version","notes":["old"],"document_source":"file","highlight_color":"yellow","exported_at":1000}"#],
        ),
    ];

    backfill_corrections(&conn, files);

    assert_eq!(count(&conn), 1);
    assert_eq!(text_of(&conn, "h1"), "new version"); // newer file wins
    let (notes, color, updated): (String, String, i64) = conn
        .query_row(
            "SELECT notes_json, highlight_color, updated_at FROM corrections WHERE highlight_id = 'h1'",
            [],
            |r| Ok((r.get(0)?, r.get(1)?, r.get(2)?)),
        )
        .unwrap();
    assert_eq!(notes, "[\"new\"]");
    assert_eq!(color, "green");
    assert_eq!(updated, 2000);
}

#[test]
fn backfill_ignores_non_jsonl_files() {
    let conn = setup_db();
    // A .txt file — should be skipped
    let files = vec![log(
        "notes.txt",
        &[r#"{"highlight_id":"h1","document_id":"d1","session_id":"s1","original_text":"t","notes":[],"document_source":"file","highlight_color":"yellow","exported_at":0}"#],
    )];

    let imported = backfill_corrections(&conn, files);

    assert_eq!(imported, 0);
    assert_eq!(count(&conn), 0);
}

#[test]
fn backfill_skips_malformed_lines() {
    let conn = setup_db();
    let files = vec![log(
        "corrections-2026-02-23.jsonl",
        &[
            "not json at all",
            r#"{"no_highlight_id":true}"#,
            "", // empty line
            r#"{"highlight_id":"h1","document_id":"d1","session_id":"s1","original_text":"good","notes":["ok"],"document_source":"file","highlight_color":"yellow","exported_at":0}"#,
        ],
    )];

    let imported = backfill_corrections(&conn, files);

    assert_eq!(imported, 1);
    assert_eq!(count(&conn), 1); // only the valid line
}

#[test]
fn backfill_handles_missing_directory() {
    let conn = setup_db();
    // A directory that does not exist has no files.
    let imported = backfill_corrections(&conn, Vec::new());
    assert_eq!(imported, 0);
    assert_eq!(count(&conn), 0);
}

#[test]
fn log_names_need_the_extension_and_a_stem() {
    assert!(is_log_file_name("corrections-2026-02-23.jsonl"));
    assert!(is_log_file_name("a.jsonl"));
    assert!(is_log_file_name("a..jsonl"));
    assert!(!is_log_file_name(".jsonl"));
    assert!(!is_log_file_name("notes.txt"));
    assert!(!is_log_file_name("corrections.jsonl.bak"));
    assert!(!is_log_file_name("corrections.JSONL"));
    assert!(!is_log_file_name(""));
}

#[test]
fn logs_are_sorted_by_name() {
    let sorted = sort_by_name(vec![
        log("corrections-2026-03-01.jsonl", &[]),
        log("corrections-2025-12-31.jsonl", &["x"]),
        log("corrections-2026-02-23.jsonl", &[]),
        log("corrections-2026-02-03.jsonl", &[]),
    ]);
    let names: Vec<&str> = sorted.iter().map(|f| f.name.as_str()).collect();
    assert_eq!(
        names,
        vec![
            "corrections-2025-12-31.jsonl",
            "corrections-2026-02-03.jsonl",
            "corrections-2026-02-23.jsonl",
            "corrections-2026-03-01.jsonl",
        ]
    );
    assert_eq!(sorted[0].lines, vec!["x".to_string()]);
}

#[test]
fn recovered_line_takes_defaults_for_what_is_missing() {
    let record = recover_line("  {\"highlight_id\":\"h9\",\"notes\":{\"a\":1}}  ").unwrap();
    assert_eq!(record.highlight_id, "h9");
    assert_eq!(record.document_id, "");
    assert_eq!(record.session_id, "");
    assert_eq!(record.original_text, "");
    assert_eq!(record.prefix_context, None);
    assert_eq!(record.document_title, None);
    assert_eq!(record.document_source, "unknown");
    assert_eq!(record.highlight_color, "yellow");
    assert_eq!(record.notes_json, "{\"a\":1}");
    assert_eq!(record.exported_at, 0);

    let full = recover_line(r#"{"highlight_id":"h1","document_id":"d1","session_id":"s1","original_text":"t","prefix_context":"p","suffix_context":"s","extended_context":"e","notes":["n"],"document_title":"T","document_source":"file","document_path":"/x","highlight_color":"green","exported_at":42}"#).unwrap();
    assert_eq!(full.prefix_context.as_deref(), Some("p"));
    assert_eq!(full.suffix_context.as_deref(), Some("s"));
    assert_eq!(full.extended_context.as_deref(), Some("e"));
    assert_eq!(full.document_title.as_deref(), Some("T"));
    assert_eq!(full.document_path.as_deref(), Some("/x"));
    assert_eq!(full.notes_json, "[\"n\"]");
    assert_eq!(full.exported_at, 42);

    // A record without notes stores the JSON text of null.
    assert_eq!(recover_line(r#"{"highlight_id":"h1"}"#).unwrap().notes_json, "null");
}

#[test]
fn lines_that_give_no_correction() {
    assert!(recover_line("").is_none());
    assert!(recover_line("   \t ").is_none());
    assert!(recover_line("not json").is_none());
    assert!(recover_line("[1, 2]").is_none());
    assert!(recover_line(r#"{"highlight_id": 7}"#).is_none());
    assert!(recover_line(r#"{"highlight_id": null}"#).is_none());
    assert!(recover_line(r#"{"document_id": "d1"}"#).is_none());
}

#[test]
fn backfill_runs_once() {
    let conn = setup_db();
    assert!(backfill_pending(&conn));
    let line = r#"{"highlight_id":"h1","document_id":"d1","session_id":"s1","original_text":"first","notes":[],"document_source":"file","highlight_color":"yellow","exported_at":1}"#;
    assert_eq!(backfill_once(&conn, vec![log("corrections-2026-01-01.jsonl", &[line])]), 1);
    assert!(!backfill_pending(&conn));

    // The marker is stored; a second run imports nothing.
    let later = r#"{"highlight_id":"h2","document_id":"d1","session_id":"s1","original_text":"second","notes":[],"document_source":"file","highlight_color":"yellow","exported_at":2}"#;
    assert_eq!(backfill_once(&conn, vec![log("corrections-2026-01-02.jsonl", &[later])]), 0);
    let stored: i64 = conn
        .query_row("SELECT COUNT(*) FROM corrections WHERE session_id != '__backfilled__'", [], |r| r.get(0))
        .unwrap();
    assert_eq!(stored, 1);
}

#[test]
fn backfill_without_records_is_tried_again() {
    let conn = setup_db();
    assert_eq!(backfill_once(&conn, vec![log("corrections-2026-01-01.jsonl", &["", "nope"])]), 0);
    assert!(backfill_pending(&conn));
    assert_eq!(count(&conn), 0);
}

#[test]
fn backfill_without_a_table_is_not_pending() {
    let conn = Connection::open_in_memory().unwrap();
    assert!(!backfill_pending(&conn));
    assert_eq!(backfill_once(&conn, vec![log("a.jsonl", &[r#"{"highlight_id":"h1"}"#])]), 0);
}
