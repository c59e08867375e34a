use margin::search::{
    ensure_fts_table, increment_access_count, index_document_inner, remove_document_index_inner,
    search_documents_inner,
};
use rusqlite::Connection;

fn setup_search_db() -> Connection {
    let conn = Connection::open_in_memory().unwrap();
    conn.execute_batch(
        "CREATE TABLE IF NOT EXISTS documents (
            id TEXT PRIMARY KEY,
            source TEXT NOT NULL,
            file_path TEXT,
            keep_local_id TEXT,
            title TEXT,
            author TEXT,
            url TEXT,
            word_count INTEGER DEFAULT 0,
            last_opened_at INTEGER NOT NULL DEFAULT 0,
            created_at INTEGER NOT NULL DEFAULT 0,
            access_count INTEGER DEFAULT 0,
            indexed_at INTEGER,
            UNIQUE(file_path),
            UNIQUE(keep_local_id)
        );",
    ).unwrap();
    ensure_fts_table(&conn).unwrap();
    conn
}

// Alias for clarity — same as setup_search_db now
fn setup_db_with_documents() -> Connection {
    setup_search_db()
}

// === Basic search tests (existing) ===

#[test]
fn index_and_search_document() {
    let conn = setup_search_db();
    index_document_inner(&conn, "d1", "Rust Programming", "Learn systems programming with Rust").unwrap();

    let results = search_documents_inner(&conn, "Rust", 10).unwrap();
    assert_eq!(results.len(), 1);
    assert_eq!(results[0].document_id, "d1");
    assert_eq!(results[0].title, "Rust Programming");
}

#[test]
fn search_matches_content() {
    let conn = setup_search_db();
    index_document_inner(&conn, "d1", "Title", "The quick brown fox jumps over the lazy dog").unwrap();

    let results = search_documents_inner(&conn, "fox", 10).unwrap();
    assert_eq!(results.len(), 1);
    assert!(results[0].snippet.contains("fox"));
}

#[test]
fn search_no_results_for_missing_term() {
    let conn = setup_search_db();
    index_document_inner(&conn, "d1", "Title", "Some content here").unwrap();

    let results = search_documents_inner(&conn, "nonexistent", 10).unwrap();
    assert!(results.is_empty());
}

#[test]
fn search_respects_limit() {
    let conn = setup_search_db();
    for i in 0..5 {
        index_document_inner(&conn, &format!("d{i}"), &format!("Rust Doc {i}"), "Rust content").unwrap();
    }

    let results = search_documents_inner(&conn, "Rust", 2).unwrap();
    assert_eq!(results.len(), 2);
}

#[test]
fn reindex_replaces_old_content() {
    let conn = setup_search_db();
    index_document_inner(&conn, "d1", "Old Title", "old content about cats").unwrap();
    index_document_inner(&conn, "d1", "New Title", "new content about dogs").unwrap();

    let results = search_documents_inner(&conn, "cats", 10).unwrap();
    assert!(results.is_empty());

    let results = search_documents_inner(&conn, "dogs", 10).unwrap();
    assert_eq!(results.len(), 1);
    assert_eq!(results[0].title, "New Title");
}

#[test]
fn remove_document_index_removes_from_search() {
    let conn = setup_search_db();
    index_document_inner(&conn, "d1", "Title", "searchable content").unwrap();

    remove_document_index_inner(&conn, "d1").unwrap();

    let results = search_documents_inner(&conn, "searchable", 10).unwrap();
    assert!(results.is_empty());
}

#[test]
fn remove_nonexistent_index_is_ok() {
    let conn = setup_search_db();
    remove_document_index_inner(&conn, "nonexistent").unwrap();
}

#[test]
fn multiple_documents_searchable() {
    let conn = setup_search_db();
    index_document_inner(&conn, "d1", "Rust Guide", "Learn Rust programming").unwrap();
    index_document_inner(&conn, "d2", "Python Guide", "Learn Python programming").unwrap();
    index_document_inner(&conn, "d3", "Cooking", "How to make pasta").unwrap();

    let results = search_documents_inner(&conn, "programming", 10).unwrap();
    assert_eq!(results.len(), 2);

    let results = search_documents_inner(&conn, "pasta", 10).unwrap();
    assert_eq!(results.len(), 1);
    assert_eq!(results[0].document_id, "d3");
}

// === Step 2: FTS5 tuning + prefix matching tests ===

#[test]
fn search_prefix_matching() {
    let conn = setup_search_db();
    index_document_inner(&conn, "d1", "Programming Guide", "Learn programming with Rust").unwrap();

    let results = search_documents_inner(&conn, "pro", 10).unwrap();
    assert_eq!(results.len(), 1, "prefix 'pro' should match 'programming'");
}

#[test]
fn search_title_ranked_above_body() {
    let conn = setup_search_db();
    // d1: "Rust" in title only
    index_document_inner(&conn, "d1", "Rust Programming", "A systems language").unwrap();
    // d2: "Rust" in body only
    index_document_inner(&conn, "d2", "Language Guide", "Learn Rust and be happy").unwrap();

    let results = search_documents_inner(&conn, "Rust", 10).unwrap();
    assert_eq!(results.len(), 2);
    // Title match should rank higher (better BM25 with 10x weight)
    assert_eq!(results[0].document_id, "d1", "title match should rank first");
}

#[test]
fn search_unicode_diacritics() {
    let conn = setup_search_db();
    index_document_inner(&conn, "d1", "Café Culture", "The best cafés in Paris").unwrap();

    let results = search_documents_inner(&conn, "cafe", 10).unwrap();
    assert!(!results.is_empty(), "'cafe' should match 'café' with diacritics removal");
}

#[test]
fn search_empty_query_returns_empty() {
    let conn = setup_search_db();
    index_document_inner(&conn, "d1", "Title", "Content").unwrap();

    let results = search_documents_inner(&conn, "", 10).unwrap();
    assert!(results.is_empty());

    let results = search_documents_inner(&conn, "   ", 10).unwrap();
    assert!(results.is_empty());
}

#[test]
fn search_special_chars_dont_crash() {
    let conn = setup_search_db();
    index_document_inner(&conn, "d1", "C++ Guide", "Learn C++ programming").unwrap();

    // These should not crash, even if they return no results
    let _ = search_documents_inner(&conn, "c++", 10);
    let _ = search_documents_inner(&conn, "hello-world", 10);
    let _ = search_documents_inner(&conn, "+++", 10);
    let _ = search_documents_inner(&conn, "---", 10);
    let _ = search_documents_inner(&conn, "\"quoted\"", 10);
    let _ = search_documents_inner(&conn, "OR AND NOT", 10);
}

#[test]
fn search_very_long_content() {
    let conn = setup_search_db();
    let long_content = "word ".repeat(25_000); // ~125k chars
    index_document_inner(&conn, "d1", "Long Doc", &long_content).unwrap();

    let results = search_documents_inner(&conn, "word", 10).unwrap();
    assert_eq!(results.len(), 1);
}

#[test]
fn search_snippet_contains_match() {
    let conn = setup_search_db();
    index_document_inner(&conn, "d1", "Title", "The quick brown fox jumps over the lazy dog").unwrap();

    let results = search_documents_inner(&conn, "fox", 10).unwrap();
    assert_eq!(results.len(), 1);
    assert!(results[0].snippet.contains("<mark>"), "snippet should contain <mark> tag");
}

// === Step 3: Frecency tests ===

#[test]
fn frecency_recently_opened_ranks_higher() {
    let conn = setup_db_with_documents();
    let now = std::time::SystemTime::now()
        .duration_since(std::time::SystemTime::UNIX_EPOCH)
        .unwrap()
        .as_millis() as i64;
    let one_year_ago = now - 365 * 24 * 60 * 60 * 1000;

    // d1: opened recently, access_count=1
    conn.execute(
        "INSERT INTO documents (id, source, title, last_opened_at, created_at, access_count)
         VALUES ('d1', 'file', 'Recent Rust', ?1, 1000, 1)",
        [now],
    ).unwrap();

    // d2: opened a year ago, access_count=1
    conn.execute(
        "INSERT INTO documents (id, source, title, last_opened_at, created_at, access_count)
         VALUES ('d2', 'file', 'Old Rust', ?1, 1000, 1)",
        [one_year_ago],
    ).unwrap();

    index_document_inner(&conn, "d1", "Recent Rust", "Learn Rust systems").unwrap();
    index_document_inner(&conn, "d2", "Old Rust", "Learn Rust systems").unwrap();

    let results = search_documents_inner(&conn, "Rust", 10).unwrap();
    assert_eq!(results.len(), 2);
    // With frecency boosting, recently opened should rank higher
    assert_eq!(results[0].document_id, "d1");
}

#[test]
fn frecency_frequently_opened_ranks_higher() {
    let conn = setup_db_with_documents();
    let now = std::time::SystemTime::now()
        .duration_since(std::time::SystemTime::UNIX_EPOCH)
        .unwrap()
        .as_millis() as i64;

    // d1: opened frequently (50 times)
    conn.execute(
        "INSERT INTO documents (id, source, title, last_opened_at, created_at, access_count)
         VALUES ('d1', 'file', 'Frequent Rust', ?1, 1000, 50)",
        [now],
    ).unwrap();

    // d2: opened once
    conn.execute(
        "INSERT INTO documents (id, source, title, last_opened_at, created_at, access_count)
         VALUES ('d2', 'file', 'Rare Rust', ?1, 1000, 1)",
        [now],
    ).unwrap();

    index_document_inner(&conn, "d1", "Frequent Rust", "Learn Rust basics").unwrap();
    index_document_inner(&conn, "d2", "Rare Rust", "Learn Rust basics").unwrap();

    let results = search_documents_inner(&conn, "Rust", 10).unwrap();
    assert_eq!(results.len(), 2);
    assert_eq!(results[0].document_id, "d1");
}

#[test]
fn frecency_score_decays_over_time() {
    let conn = setup_db_with_documents();
    let now = std::time::SystemTime::now()
        .duration_since(std::time::SystemTime::UNIX_EPOCH)
        .unwrap()
        .as_millis() as i64;
    let two_years_ago = now - 2 * 365 * 24 * 60 * 60 * 1000;

    // d1: recent with low access count
    conn.execute(
        "INSERT INTO documents (id, source, title, last_opened_at, created_at, access_count)
         VALUES ('d1', 'file', 'New Rust', ?1, 1000, 3)",
        [now],
    ).unwrap();

    // d2: stale but high access count from 2 years ago
    conn.execute(
        "INSERT INTO documents (id, source, title, last_opened_at, created_at, access_count)
         VALUES ('d2', 'file', 'Stale Rust', ?1, 1000, 100)",
        [two_years_ago],
    ).unwrap();

    index_document_inner(&conn, "d1", "New Rust", "Learn Rust now").unwrap();
    index_document_inner(&conn, "d2", "Stale Rust", "Learn Rust now").unwrap();

    let results = search_documents_inner(&conn, "Rust", 10).unwrap();
    assert_eq!(results.len(), 2);
    // Recent doc should rank higher despite lower access count (decay suppresses stale)
    assert_eq!(results[0].document_id, "d1");
}

// === Increment access count test ===

#[test]
fn increment_access_count_works() {
    let conn = setup_db_with_documents();
    conn.execute(
        "INSERT INTO documents (id, source, title, last_opened_at, created_at, access_count)
         VALUES ('d1', 'file', 'Test', 1000, 1000, 0)",
        [],
    ).unwrap();

    increment_access_count(&conn, "d1").unwrap();
    increment_access_count(&conn, "d1").unwrap();

    let count: i64 = conn.query_row(
        "SELECT access_count FROM documents WHERE id = 'd1'",
        [],
        |r| r.get(0),
    ).unwrap();
    assert_eq!(count, 2);
}
