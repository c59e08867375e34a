use margin::corrections::{
    clamp_limit, corrections_log_name, count_corrections, decode_notes, fetch_corrections,
    get_all_corrections, get_corrections_by_document, group_by_document, load_correction,
    merge_backfilled, merge_persisted, now_millis, persist_corrections, store_corrections,
    upsert_correction, Arrival, CorrectionContext, CorrectionDetail, DocumentCorrectionRow,
    StoredCorrection,
};
use margin::models::CorrectionInput;
use rusqlite::Connection;

fn setup_db() -> Connection {
    let conn = Connection::open_in_memory().unwrap();
    margin::schema::init_db(&conn).unwrap();
    conn
}

fn context() -> CorrectionContext {
    CorrectionContext {
        document_id: "doc1".to_string(),
        document_title: Some("Title".to_string()),
        document_source: "file".to_string(),
        document_path: None,
    }
}

fn input(highlight_id: &str, text: &str, writing_type: Option<&str>) -> CorrectionInput {
    CorrectionInput {
        highlight_id: highlight_id.to_string(),
        original_text: text.to_string(),
        prefix_context: Some("before".to_string()),
        suffix_context: None,
        extended_context: Some("around".to_string()),
        notes: vec!["first \"note\"".to_string(), "second".to_string()],
        highlight_color: "yellow".to_string(),
        writing_type: writing_type.map(String::from),
    }
}

fn row(id: &str, highlight_id: &str, text: &str, writing_type: Option<&str>, at: i64) -> StoredCorrection {
    StoredCorrection {
        id: id.to_string(),
        highlight_id: highlight_id.to_string(),
        document_id: format!("doc-of-{id}"),
        session_id: format!("session-of-{id}"),
        original_text: text.to_string(),
        prefix_context: Some(format!("prefix-of-{id}")),
        suffix_context: None,
        extended_context: Some(format!("context-of-{id}")),
        notes_json: format!("[\"{id}\"]"),
        document_title: Some(format!("title-of-{id}")),
        document_source: format!("source-of-{id}"),
        document_path: Some(format!("/path/{id}")),
        category: Some(format!("category-of-{id}")),
        highlight_color: format!("color-of-{id}"),
        created_at: at,
        updated_at: at,
        writing_type: writing_type.map(String::from),
    }
}

fn writing_type_of(conn: &Connection, highlight_id: &str) -> Option<String> {
    conn.query_row("SELECT writing_type FROM corrections WHERE highlight_id = ?1", [highlight_id], |r| r.get(0))
        .unwrap()
}

#[test]
fn writing_type_is_sticky_in_the_store() {
    let conn = setup_db();
    store_corrections(&conn, &vec![input("h1", "text", Some("prd"))], &context(), "s1".to_string(), 1000).unwrap();
    assert_eq!(writing_type_of(&conn, "h1"), Some("prd".to_string()));

    // Without a writing type the stored one stays.
    store_corrections(&conn, &vec![input("h1", "updated", None)], &context(), "s2".to_string(), 2000).unwrap();
    assert_eq!(writing_type_of(&conn, "h1"), Some("prd".to_string()));
    let stored = load_correction(&conn, "h1").unwrap().unwrap();
    assert_eq!(stored.original_text, "updated");
    assert_eq!(stored.session_id, "s2");
    assert_eq!(stored.created_at, 1000);
    assert_eq!(stored.updated_at, 2000);

    // With a writing type the stored one is replaced.
    store_corrections(&conn, &vec![input("h1", "again", Some("email"))], &context(), "s3".to_string(), 3000).unwrap();
    assert_eq!(writing_type_of(&conn, "h1"), Some("email".to_string()));
    assert_eq!(count_corrections(&conn).unwrap(), 1);

    // Nothing to keep: no writing type stays none.
    store_corrections(&conn, &vec![input("h2", "other", None)], &context(), "s4".to_string(), 4000).unwrap();
    assert_eq!(writing_type_of(&conn, "h2"), None);
}

#[test]
fn merging_from_the_editor() {
    let stored = row("old", "h", "old text", Some("prd"), 1);
    let merged = merge_persisted(Some(stored), row("new", "h", "new text", None, 2));
    assert_eq!(merged.id, "old");
    assert_eq!(merged.highlight_id, "h");
    assert_eq!(merged.document_id, "doc-of-old");
    assert_eq!(merged.category.as_deref(), Some("category-of-old"));
    assert_eq!(merged.created_at, 1);
    assert_eq!(merged.writing_type.as_deref(), Some("prd"));
    assert_eq!(merged.session_id, "session-of-new");
    assert_eq!(merged.original_text, "new text");
    assert_eq!(merged.prefix_context.as_deref(), Some("prefix-of-new"));
    assert_eq!(merged.extended_context.as_deref(), Some("context-of-new"));
    assert_eq!(merged.notes_json, "[\"new\"]");
    assert_eq!(merged.document_title.as_deref(), Some("title-of-new"));
    assert_eq!(merged.document_source, "source-of-new");
    assert_eq!(merged.document_path.as_deref(), Some("/path/new"));
    assert_eq!(merged.highlight_color, "color-of-new");
    assert_eq!(merged.updated_at, 2);

    let replaced = merge_persisted(Some(row("old", "h", "t", Some("prd"), 1)), row("new", "h", "t", Some("blog"), 2));
    assert_eq!(replaced.writing_type.as_deref(), Some("blog"));
    let none = merge_persisted(Some(row("old", "h", "t", None, 1)), row("new", "h", "t", None, 2));
    assert_eq!(none.writing_type, None);
    let fresh = merge_persisted(None, row("new", "h", "t", Some("blog"), 2));
    assert_eq!(fresh.id, "new");
    assert_eq!(fresh.created_at, 2);
}

#[test]
fn merging_from_a_log() {
    let merged = merge_backfilled(Some(row("old", "h", "old text", Some("prd"), 1)), row("new", "h", "new text", Some("blog"), 2));
    assert_eq!(merged.original_text, "new text");
    assert_eq!(merged.notes_json, "[\"new\"]");
    assert_eq!(merged.document_title.as_deref(), Some("title-of-new"));
    assert_eq!(merged.highlight_color, "color-of-new");
    assert_eq!(merged.updated_at, 2);
    // Everything else stays.
    assert_eq!(merged.id, "old");
    assert_eq!(merged.document_id, "doc-of-old");
    assert_eq!(merged.session_id, "session-of-old");
    assert_eq!(merged.prefix_context.as_deref(), Some("prefix-of-old"));
    assert_eq!(merged.extended_context.as_deref(), Some("context-of-old"));
    assert_eq!(merged.document_source, "source-of-old");
    assert_eq!(merged.document_path.as_deref(), Some("/path/old"));
    assert_eq!(merged.category.as_deref(), Some("category-of-old"));
    assert_eq!(merged.created_at, 1);
    assert_eq!(merged.writing_type.as_deref(), Some("prd"));
    assert_eq!(merge_backfilled(None, row("new", "h", "t", None, 2)).id, "new");
}

#[test]
fn upsert_round_trips_every_column() {
    let conn = setup_db();
    upsert_correction(&conn, Arrival::Backfilled, row("a", "h1", "text", Some("prd"), 5)).unwrap();
    let stored = load_correction(&conn, "h1").unwrap().unwrap();
    assert_eq!(format!("{stored:?}"), format!("{:?}", row("a", "h1", "text", Some("prd"), 5)));
    assert!(load_correction(&conn, "missing").unwrap().is_none());
    assert!(load_correction(&Connection::open_in_memory().unwrap(), "h1").is_err());
    assert!(upsert_correction(&Connection::open_in_memory().unwrap(), Arrival::Persisted, row("a", "h", "t", None, 1)).is_err());
}

#[test]
fn persisting_stores_notes_and_returns_log_lines() {
    let conn = setup_db();
    let inputs = vec![input("h1", "one", Some("blog")), input("h2", "two", None)];
    let session = store_corrections(&conn, &inputs, &context(), "sess".to_string(), 1234).unwrap();
    assert_eq!(session.session_id, "sess");
    assert_eq!(session.log_lines.len(), 2);
    assert_eq!(
        session.log_lines[0],
        "{\"document_id\":\"doc1\",\"document_path\":null,\"document_source\":\"file\",\"document_title\":\"Title\",\"exported_at\":1234,\"extended_context\":\"around\",\"highlight_color\":\"yellow\",\"highlight_id\":\"h1\",\"notes\":[\"first \\\"note\\\"\",\"second\"],\"original_text\":\"one\",\"prefix_context\":\"before\",\"session_id\":\"sess\",\"suffix_context\":null,\"writing_type\":\"blog\"}"
    );
    assert!(session.log_lines[1].contains("\"writing_type\":null"));
    // A log line can be recovered again.
    let recovered = margin::backfill::recover_line(&session.log_lines[1]).unwrap();
    assert_eq!(recovered.highlight_id, "h2");
    assert_eq!(recovered.notes_json, "[\"first \\\"note\\\"\",\"second\"]");
    assert_eq!(recovered.exported_at, 1234);

    let records = fetch_corrections(&conn, 10).unwrap();
    assert_eq!(records.len(), 2);
    assert_eq!(records[0].notes, vec!["first \"note\"", "second"]);
    let stored = load_correction(&conn, "h1").unwrap().unwrap();
    assert_eq!(stored.id.len(), 36);
    assert_eq!(stored.notes_json, "[\"first \\\"note\\\"\",\"second\"]");
    assert_eq!(stored.category, None);
    assert_eq!(stored.document_id, "doc1");

    // An empty batch stores nothing and logs nothing.
    let empty = store_corrections(&conn, &Vec::new(), &context(), "s".to_string(), 1).unwrap();
    assert!(empty.log_lines.is_empty());
    assert_eq!(count_corrections(&conn).unwrap(), 2);
}

#[test]
fn persisting_uses_a_fresh_session_and_the_clock() {
    let conn = setup_db();
    let before = now_millis().unwrap();
    let first = persist_corrections(&conn, &vec![input("h1", "one", None)], &context()).unwrap();
    let second = persist_corrections(&conn, &vec![input("h2", "two", None)], &context()).unwrap();
    let after = now_millis().unwrap();
    assert_eq!(first.session_id.len(), 36);
    assert_ne!(first.session_id, second.session_id);
    let stored = load_correction(&conn, "h1").unwrap().unwrap();
    assert_eq!(stored.session_id, first.session_id);
    assert!(before <= stored.created_at && stored.created_at <= after);
    assert!(before > 1_600_000_000_000);
}

#[test]
fn failed_batch_stores_nothing() {
    let conn = setup_db();
    store_corrections(&conn, &vec![input("h0", "kept", None)], &context(), "s0".to_string(), 1).unwrap();
    // The second correction cannot be stored: the table refuses it.
    conn.execute_batch(
        "CREATE TRIGGER refuse BEFORE INSERT ON corrections WHEN NEW.highlight_id = 'bad'
         BEGIN SELECT RAISE(ABORT, 'refused'); END;",
    )
    .unwrap();
    let result = store_corrections(&conn, &vec![input("h1", "one", None), input("bad", "two", None)], &context(), "s1".to_string(), 2);
    assert!(result.unwrap_err().contains("refused"));
    assert_eq!(count_corrections(&conn).unwrap(), 1);
    assert!(load_correction(&conn, "h1").unwrap().is_none());
}

#[test]
fn the_marker_of_the_backfill_is_no_correction() {
    let conn = setup_db();
    store_corrections(&conn, &vec![input("h1", "one", None)], &context(), "s1".to_string(), 1).unwrap();
    conn.execute(
        "INSERT INTO corrections (id, highlight_id, document_id, session_id, original_text,
            notes_json, document_source, highlight_color, created_at, updated_at)
         VALUES ('__backfill_marker__', '__backfill_marker__', '', '__backfilled__', '', '[]', 'system', 'none', 9, 9)",
        [],
    )
    .unwrap();
    assert_eq!(fetch_corrections(&conn, 10).unwrap().len(), 1);
    assert_eq!(get_corrections_by_document(&conn, None).unwrap().len(), 1);
    assert_eq!(margin::corrections::build_corrections_export(&conn).unwrap().total_count, 1);
    assert_eq!(count_corrections(&conn).unwrap(), 1);
    let rows: i64 = conn.query_row("SELECT COUNT(*) FROM corrections", [], |r| r.get(0)).unwrap();
    assert_eq!(rows, 2);
}

#[test]
fn limits_are_kept_in_bounds() {
    assert_eq!(clamp_limit(None, 200, 2000), 200);
    assert_eq!(clamp_limit(Some(5), 200, 2000), 5);
    assert_eq!(clamp_limit(Some(0), 200, 2000), 1);
    assert_eq!(clamp_limit(Some(-3), 200, 2000), 1);
    assert_eq!(clamp_limit(Some(2000), 200, 2000), 2000);
    assert_eq!(clamp_limit(Some(2001), 200, 2000), 2000);
    assert_eq!(clamp_limit(Some(i64::MAX), 50, 500), 500);
    assert_eq!(clamp_limit(Some(i64::MIN), 50, 500), 1);

    let conn = setup_db();
    let inputs: Vec<CorrectionInput> = (0..3).map(|i| input(&format!("h{i}"), "t", None)).collect();
    store_corrections(&conn, &inputs, &context(), "s".to_string(), 1).unwrap();
    assert_eq!(get_all_corrections(&conn, Some(0)).unwrap().len(), 1);
    assert_eq!(get_all_corrections(&conn, Some(2)).unwrap().len(), 2);
    assert_eq!(get_all_corrections(&conn, None).unwrap().len(), 3);
}

#[test]
fn notes_that_are_no_list_of_strings_are_no_notes() {
    assert_eq!(decode_notes("[\"a\",\"b\"]"), vec!["a", "b"]);
    assert_eq!(decode_notes("[]"), Vec::<String>::new());
    assert_eq!(decode_notes("null"), Vec::<String>::new());
    assert_eq!(decode_notes("[1, 2]"), Vec::<String>::new());
    assert_eq!(decode_notes("{\"a\":1}"), Vec::<String>::new());
    assert_eq!(decode_notes("not json"), Vec::<String>::new());
    assert_eq!(decode_notes(" [ \"sp\\u00e4t\" ] "), vec!["spät"]);
}

fn detail(highlight_id: &str) -> CorrectionDetail {
    CorrectionDetail {
        highlight_id: highlight_id.to_string(),
        original_text: String::new(),
        notes: Vec::new(),
        extended_context: None,
        highlight_color: "yellow".to_string(),
        writing_type: None,
        document_title: None,
        created_at: 0,
    }
}

fn document_row(document_id: &str, title: &str, highlight_id: &str) -> DocumentCorrectionRow {
    DocumentCorrectionRow {
        document_id: document_id.to_string(),
        document_title: Some(title.to_string()),
        document_path: Some(format!("/{title}")),
        detail: detail(highlight_id),
    }
}

#[test]
fn grouping_keeps_first_seen_order() {
    let groups = group_by_document(vec![
        document_row("b", "B first", "h1"),
        document_row("a", "A", "h2"),
        document_row("b", "B later", "h3"),
        document_row("c", "C", "h4"),
        document_row("a", "A", "h5"),
        document_row("b", "B", "h6"),
    ]);
    let shape: Vec<(&str, Vec<&str>)> = groups
        .iter()
        .map(|g| (g.document_id.as_str(), g.corrections.iter().map(|c| c.highlight_id.as_str()).collect()))
        .collect();
    assert_eq!(shape, vec![("b", vec!["h1", "h3", "h6"]), ("a", vec!["h2", "h5"]), ("c", vec!["h4"])]);
    // Title and path of a group are those of its first row.
    assert_eq!(groups[0].document_title.as_deref(), Some("B first"));
    assert_eq!(groups[0].document_path.as_deref(), Some("/B first"));
    assert!(group_by_document(Vec::new()).is_empty());
}

#[test]
fn log_files_are_named_by_the_export_date() {
    assert_eq!(corrections_log_name("2026-02-23"), "corrections-2026-02-23.jsonl");
    assert_eq!(corrections_log_name("2026/02/23 10:20"), "corrections-2026_02_23_10_20.jsonl");
    assert_eq!(corrections_log_name(""), "corrections-unknown.jsonl");
    assert_eq!(corrections_log_name("../../etc/passwd"), "corrections-.._.._etc_passwd.jsonl");
    let long = "x".repeat(100);
    assert_eq!(corrections_log_name(&long), format!("corrections-{}.jsonl", "x".repeat(64)));
    assert_eq!(corrections_log_name("é日"), "corrections-__.jsonl");
    assert!(margin::backfill::is_log_file_name(&corrections_log_name("2026-02-23")));
}
