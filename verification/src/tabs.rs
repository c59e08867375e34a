//! The open tabs, kept across restarts.

use vstd::prelude::*;
use crate::db::{db_execute, db_query, error_text, text_param, SqlParam};
use crate::rows::{
    decode_error_text, decoded_rows, describe_decode_error, lemma_decoded_step, lemma_failure_persists, DecodeError,
    SqlRow,
};

verus! {

/// Lists the stored tabs from left to right.
pub const SELECT_TABS: &'static str =
    "SELECT id, document_id, tab_order, is_active, created_at
             FROM open_tabs
             ORDER BY tab_order ASC";

/// Forgets every stored tab.
pub const DELETE_TABS: &'static str = "DELETE FROM open_tabs";

/// Stores one tab.
pub const INSERT_TAB: &'static str =
    "INSERT INTO open_tabs (id, document_id, tab_order, is_active, created_at)
             VALUES (?1, ?2, ?3, ?4, ?5)";

/// A tab as it is stored.
#[derive(Debug, Clone)]
pub struct PersistedTab {
    pub id: String,
    pub document_id: String,
    pub tab_order: i64,
    pub is_active: bool,
    pub created_at: i64,
}

impl PersistedTab {
    /// The tab that `row` stands for. The active flag is stored as an
    /// integer, zero for an inactive tab.
    pub open spec fn of_row(row: SqlRow) -> Result<PersistedTab, DecodeError> {
        match (
            row.text_named("id"@),
            row.text_named("document_id"@),
            row.int_named("tab_order"@),
            row.int_named("is_active"@),
            row.int_named("created_at"@),
        ) {
            (Err(e), _, _, _, _) => Err(e),
            (Ok(_), Err(e), _, _, _) => Err(e),
            (Ok(_), Ok(_), Err(e), _, _) => Err(e),
            (Ok(_), Ok(_), Ok(_), Err(e), _) => Err(e),
            (Ok(_), Ok(_), Ok(_), Ok(_), Err(e)) => Err(e),
            (Ok(id), Ok(document_id), Ok(tab_order), Ok(active), Ok(created_at)) => Ok(
                PersistedTab { id, document_id, tab_order, is_active: active != 0, created_at },
            ),
        }
    }

    /// Decodes one row.
    pub fn from_row(row: &SqlRow) -> (r: Result<PersistedTab, DecodeError>)
        ensures
            r == PersistedTab::of_row(*row),
    {
        let id = row.text_of("id")?;
        let document_id = row.text_of("document_id")?;
        let tab_order = row.int_of("tab_order")?;
        let active = row.int_of("is_active")?;
        let created_at = row.int_of("created_at")?;
        Ok(PersistedTab { id, document_id, tab_order, is_active: active != 0, created_at })
    }

    /// The integer under which the active flag is stored.
    pub open spec fn active_flag(self) -> int {
        if self.is_active {
            1
        } else {
            0
        }
    }

    /// The parameters of `INSERT_TAB` for this tab.
    pub fn insert_params(&self) -> (params: Vec<SqlParam>)
        ensures
            params@.len() == 5,
            params@[0]@ == crate::db::SqlParamData::Text(self.id@),
            params@[1]@ == crate::db::SqlParamData::Text(self.document_id@),
            params@[2]@ == crate::db::SqlParamData::Integer(self.tab_order as int),
            params@[3]@ == crate::db::SqlParamData::Integer(self.active_flag()),
            params@[4]@ == crate::db::SqlParamData::Integer(self.created_at as int),
    {
        let mut params: Vec<SqlParam> = Vec::new();
        params.push(text_param(self.id.as_str()));
        params.push(text_param(self.document_id.as_str()));
        params.push(SqlParam::Integer(self.tab_order));
        params.push(SqlParam::Integer(if self.is_active { 1 } else { 0 }));
        params.push(SqlParam::Integer(self.created_at));
        params
    }
}

/// Decodes the rows of `SELECT_TABS`; the first row that cannot be decoded
/// fails the list with its description.
pub fn collect_tabs(rows: &Vec<SqlRow>) -> (r: Result<Vec<PersistedTab>, String>)
    ensures
        match decoded_rows(rows@, |row: SqlRow| PersistedTab::of_row(row)) {
            Ok(tabs) => r is Ok && r->Ok_0@ == tabs,
            Err(e) => r is Err && r->Err_0@ == decode_error_text(e),
        },
{
    let ghost decode = |row: SqlRow| PersistedTab::of_row(row);
    let mut tabs: Vec<PersistedTab> = Vec::new();
    let mut i: usize = 0;
    while i < rows.len()
        invariant
            i <= rows.len(),
            decode == (|row: SqlRow| PersistedTab::of_row(row)),
            decoded_rows(rows@.take(i as int), decode) == Ok::<Seq<PersistedTab>, DecodeError>(
                tabs@,
            ),
        decreases rows.len() - i,
    {
        proof {
            lemma_decoded_step(rows@, decode, i as int);
        }
        match PersistedTab::from_row(&rows[i]) {
            Ok(tab) => {
                tabs.push(tab);
            },
            Err(e) => {
                proof {
                    lemma_failure_persists(rows@, decode, i as int + 1);
                }
                return Err(describe_decode_error(e));
            },
        }
        i += 1;
    }
    assert(rows@.take(i as int) =~= rows@);
    Ok(tabs)
}

/// Reads the stored tabs, ordered from left to right by the engine.
pub fn fetch_open_tabs(conn: &rusqlite::Connection) -> (r: Result<Vec<PersistedTab>, String>) {
    let params: Vec<SqlParam> = Vec::new();
    match db_query(conn, SELECT_TABS, &params) {
        Ok(rows) => collect_tabs(&rows),
        Err(e) => Err(error_text(&e)),
    }
}

/// Replaces the stored tabs by `tabs` in one transaction: all stored tabs
/// are deleted, then one row is written per tab in the order given. A
/// failure at any step abandons the transaction.
pub fn persist_open_tabs(conn: &rusqlite::Connection, tabs: &[PersistedTab]) -> (r: Result<
    (),
    String,
>) {
    let tx = match conn.unchecked_transaction() {
        Ok(tx) => tx,
        Err(e) => {
            return Err(error_text(&e));
        },
    };
    let none: Vec<SqlParam> = Vec::new();
    match db_execute(conn, DELETE_TABS, &none) {
        Ok(_) => {},
        Err(e) => {
            return Err(error_text(&e));
        },
    }
    let mut i: usize = 0;
    while i < tabs.len()
        invariant
            i <= tabs@.len(),
        decreases tabs.len() - i,
    {
        let params = tabs[i].insert_params();
        match db_execute(conn, INSERT_TAB, &params) {
            Ok(_) => {},
            Err(e) => {
                return Err(error_text(&e));
            },
        }
        i += 1;
    }
    match tx.commit() {
        Ok(()) => Ok(()),
        Err(e) => Err(error_text(&e)),
    }
}

} // verus!
