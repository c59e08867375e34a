use margin::documents::{fetch_recent_documents, upsert_document_inner};
use margin::models::Document;
use rusqlite::Connection;

fn documents_schema_sql() -> &'static str {
    "CREATE TABLE documents (
         id TEXT PRIMARY KEY,
         source TEXT NOT NULL,
         file_path TEXT,
         keep_local_id TEXT,
         title TEXT,
         author TEXT,
         url TEXT,
         word_count INTEGER DEFAULT 0,
         last_opened_at INTEGER NOT NULL,
         created_at INTEGER NOT NULL,
         UNIQUE(file_path),
         UNIQUE(keep_local_id)
     );"
}

fn setup_documents_db() -> Connection {
    let conn = Connection::open_in_memory().unwrap();
    conn.execute_batch(documents_schema_sql()).unwrap();
    conn
}

fn make_doc(id: &str, source: &str, file_path: Option<&str>, keep_local_id: Option<&str>, last_opened_at: i64) -> Document {
    Document {
        id: id.to_string(),
        source: source.to_string(),
        file_path: file_path.map(String::from),
        keep_local_id: keep_local_id.map(String::from),
        title: Some("Test".to_string()),
        author: None,
        url: None,
        word_count: 100,
        last_opened_at,
        created_at: 1000,
    }
}

#[test]
fn upsert_inserts_new_document() {
    let conn = setup_documents_db();
    let doc = make_doc("d1", "file", Some("/test.md"), None, 1000);
    let result = upsert_document_inner(&conn, doc).unwrap();
    assert_eq!(result.id, "d1");

    let count: i64 = conn.query_row("SELECT COUNT(*) FROM documents", [], |r| r.get(0)).unwrap();
    assert_eq!(count, 1);
}

#[test]
fn upsert_generates_id_when_empty() {
    let conn = setup_documents_db();
    let doc = make_doc("", "file", Some("/test.md"), None, 1000);
    let result = upsert_document_inner(&conn, doc).unwrap();
    assert!(!result.id.is_empty());
}

#[test]
fn upsert_reuses_id_for_existing_file_path() {
    let conn = setup_documents_db();
    let doc1 = make_doc("original-id", "file", Some("/test.md"), None, 1000);
    upsert_document_inner(&conn, doc1).unwrap();

    // Upsert with different id but same file_path should reuse original id
    let doc2 = make_doc("new-id", "file", Some("/test.md"), None, 2000);
    let result = upsert_document_inner(&conn, doc2).unwrap();
    assert_eq!(result.id, "original-id");

    let count: i64 = conn.query_row("SELECT COUNT(*) FROM documents", [], |r| r.get(0)).unwrap();
    assert_eq!(count, 1);
}

#[test]
fn upsert_reuses_id_for_existing_keep_local_id() {
    let conn = setup_documents_db();
    let doc1 = make_doc("original-id", "keep-local", None, Some("kl-123"), 1000);
    upsert_document_inner(&conn, doc1).unwrap();

    let doc2 = make_doc("new-id", "keep-local", None, Some("kl-123"), 2000);
    let result = upsert_document_inner(&conn, doc2).unwrap();
    assert_eq!(result.id, "original-id");
}

#[test]
fn upsert_updates_fields_on_conflict() {
    let conn = setup_documents_db();
    let doc1 = make_doc("d1", "file", Some("/test.md"), None, 1000);
    upsert_document_inner(&conn, doc1).unwrap();

    let mut doc2 = make_doc("d1", "file", Some("/test.md"), None, 2000);
    doc2.title = Some("Updated Title".to_string());
    doc2.word_count = 500;
    upsert_document_inner(&conn, doc2).unwrap();

    let title: String = conn.query_row(
        "SELECT title FROM documents WHERE id = 'd1'", [], |r| r.get(0)
    ).unwrap();
    assert_eq!(title, "Updated Title");

    let wc: i64 = conn.query_row(
        "SELECT word_count FROM documents WHERE id = 'd1'", [], |r| r.get(0)
    ).unwrap();
    assert_eq!(wc, 500);
}

#[test]
fn fetch_recent_documents_ordered_by_last_opened() {
    let conn = setup_documents_db();
    upsert_document_inner(&conn, make_doc("d1", "file", Some("/a.md"), None, 1000)).unwrap();
    upsert_document_inner(&conn, make_doc("d2", "file", Some("/b.md"), None, 3000)).unwrap();
    upsert_document_inner(&conn, make_doc("d3", "file", Some("/c.md"), None, 2000)).unwrap();

    let docs = fetch_recent_documents(&conn, 10).unwrap();
    assert_eq!(docs.len(), 3);
    assert_eq!(docs[0].id, "d2"); // most recent
    assert_eq!(docs[1].id, "d3");
    assert_eq!(docs[2].id, "d1"); // oldest
}

#[test]
fn fetch_recent_documents_respects_limit() {
    let conn = setup_documents_db();
    for i in 0..5 {
        upsert_document_inner(
            &conn,
            make_doc(&format!("d{i}"), "file", Some(&format!("/{i}.md")), None, i as i64),
        ).unwrap();
    }

    let docs = fetch_recent_documents(&conn, 2).unwrap();
    assert_eq!(docs.len(), 2);
}

#[test]
fn fetch_recent_documents_empty_table() {
    let conn = setup_documents_db();
    let docs = fetch_recent_documents(&conn, 10).unwrap();
    assert!(docs.is_empty());
}
