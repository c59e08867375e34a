//! The boundary to the embedded SQLite database.
//!
//! The database engine is reached through `rusqlite`. What a statement
//! returns depends on the stored state, so nothing is assumed about it beyond
//! its shape: the verified code builds the statements, decides what to do
//! with every outcome and decodes the rows that come back.

use vstd::prelude::*;
use crate::rows::{DecodeError, SqlRow, SqlValue};
use crate::text::{appended, starts_with};

verus! {

/// The database handle of `rusqlite`, carried through as an opaque value.
#[verifier::external_type_specification]
#[verifier::external_body]
pub struct ExConnection(rusqlite::Connection);

/// The error type of `rusqlite`, carried through as an opaque value.
#[verifier::external_type_specification]
#[verifier::external_body]
pub struct ExDbError(rusqlite::Error);

/// A dynamically typed SQLite value as `rusqlite` holds it.
#[verifier::external_type_specification]
#[verifier::external_body]
pub struct ExBoundValue(rusqlite::types::Value);

/// An open transaction of `rusqlite`; dropping it rolls the work back.
#[verifier::external_type_specification]
#[verifier::external_body]
pub struct ExTransaction<'conn>(rusqlite::Transaction<'conn>);

/// A prepared statement of `rusqlite`, carried through as an opaque value.
#[verifier::external_type_specification]
#[verifier::external_body]
pub struct ExPrepared<'conn>(rusqlite::Statement<'conn>);

/// A value bound to a positional statement parameter.
pub enum SqlParam {
    Null,
    Integer(i64),
    Text(String),
}

/// The mathematical content of a `SqlParam`.
pub ghost enum SqlParamData {
    Null,
    Integer(int),
    Text(Seq<char>),
}

impl View for SqlParam {
    type V = SqlParamData;

    open spec fn view(&self) -> SqlParamData {
        match self {
            SqlParam::Null => SqlParamData::Null,
            SqlParam::Integer(i) => SqlParamData::Integer(*i as int),
            SqlParam::Text(s) => SqlParamData::Text(s@),
        }
    }
}

/// What a query returned: the names of the result columns and one list of
/// values per row, each as long as the list of names.
pub struct RawTable {
    pub columns: Vec<String>,
    pub rows: Vec<Vec<rusqlite::types::Value>>,
}

impl RawTable {
    /// Every row has one value per column.
    pub open spec fn well_formed(&self) -> bool {
        forall|i: int| 0 <= i < self.rows@.len() ==> (#[trigger] self.rows@[i])@.len() == self.columns@.len()
    }
}

/// Converts a parameter into a `rusqlite::types::Value`, the form that
/// `rusqlite` binds: the same variant with the same payload.
#[verifier::external_body]
fn bound_value(value: &SqlParam) -> rusqlite::types::Value {
    match value {
        SqlParam::Null => rusqlite::types::Value::Null,
        SqlParam::Integer(i) => rusqlite::types::Value::Integer(*i),
        SqlParam::Text(s) => rusqlite::types::Value::Text(s.clone()),
    }
}

/// Converts a `rusqlite::types::Value` that was read from a column into the
/// library's form: the same variant with the same payload, a `Real` as the
/// bit pattern that `to_bits` gives.
#[verifier::external_body]
fn stored_value(value: &rusqlite::types::Value) -> SqlValue {
    match value {
        rusqlite::types::Value::Null => SqlValue::Null,
        rusqlite::types::Value::Integer(i) => SqlValue::Integer(*i),
        rusqlite::types::Value::Real(x) => SqlValue::Real(x.to_bits()),
        rusqlite::types::Value::Text(s) => SqlValue::Text(s.clone()),
        rusqlite::types::Value::Blob(b) => SqlValue::Blob(b.clone()),
    }
}

/// `Connection::execute_batch` runs every statement of `sql` in turn and
/// stops at the first failure; nothing is known of its effect.
pub assume_specification[ rusqlite::Connection::execute_batch ](
    conn: &rusqlite::Connection,
    sql: &str,
) -> (r: Result<(), rusqlite::Error>)
;

/// `Connection::unchecked_transaction` opens a transaction on a shared
/// handle.
pub assume_specification<'a>[ rusqlite::Connection::unchecked_transaction ](
    conn: &'a rusqlite::Connection,
) -> (r: Result<rusqlite::Transaction<'a>, rusqlite::Error>)
;

/// `Transaction::commit` consumes the transaction and commits it.
pub assume_specification<'a>[ rusqlite::Transaction::<'a>::commit ](
    tx: rusqlite::Transaction<'a>,
) -> (r: Result<(), rusqlite::Error>)
;

/// Runs one statement through `Connection::execute` with the given
/// positional parameters. On success the engine reports how many rows it
/// changed; that number depends on the stored state.
#[verifier::external_body]
fn run_statement(conn: &rusqlite::Connection, sql: &str, params: &Vec<rusqlite::types::Value>) -> (r:
    Result<usize, rusqlite::Error>) {
    conn.execute(sql, rusqlite::params_from_iter(params.iter()))
}

/// `Connection::prepare` compiles one statement; whether it succeeds is
/// the engine's to decide.
pub assume_specification<'a>[ rusqlite::Connection::prepare ](
    conn: &'a rusqlite::Connection,
    sql: &str,
) -> (r: Result<rusqlite::Statement<'a>, rusqlite::Error>)
;

/// Reads the names of the result columns with `Statement::column_names`,
/// binds the parameters with `Statement::query` and reads every row to the
/// end with `Rows::next`. Each row is read column by column with
/// `Row::get`, so it has one value per result column.
#[verifier::external_body]
fn read_rows(stmt: &mut rusqlite::Statement<'_>, params: &Vec<rusqlite::types::Value>) -> (r:
    Result<RawTable, rusqlite::Error>)
    ensures
        r is Ok ==> r->Ok_0.well_formed(),
{
    let columns: Vec<String> = stmt.column_names().map(String::from).collect();
    let mut rows = stmt.query(rusqlite::params_from_iter(params.iter()))?;
    let mut out = Vec::new();
    while let Some(row) = rows.next()? {
        let mut values = Vec::with_capacity(columns.len());
        for i in 0..columns.len() {
            values.push(row.get::<usize, rusqlite::types::Value>(i)?);
        }
        out.push(values);
    }
    Ok(RawTable { columns, rows: out })
}

/// The text that `rusqlite::Error` displays, from `to_string`.
#[verifier::external_body]
pub(crate) fn error_text(error: &rusqlite::Error) -> (text: String) {
    error.to_string()
}

fn bind_all(params: &Vec<SqlParam>) -> (bound: Vec<rusqlite::types::Value>)
    ensures
        bound@.len() == params@.len(),
{
    let mut bound: Vec<rusqlite::types::Value> = Vec::new();
    let mut i: usize = 0;
    while i < params.len()
        invariant
            i <= params.len(),
            bound@.len() == i,
        decreases params.len() - i,
    {
        bound.push(bound_value(&params[i]));
        i += 1;
    }
    bound
}

/// Executes one statement with positional parameters and returns the number
/// of rows the engine reports as changed.
pub fn db_execute(conn: &rusqlite::Connection, sql: &str, params: &Vec<SqlParam>) -> (r: Result<
    usize,
    rusqlite::Error,
>) {
    let bound = bind_all(params);
    run_statement(conn, sql, &bound)
}

/// Why a query failed: the engine refused to prepare the statement, or it
/// failed to bind the parameters or to read the rows.
#[derive(Debug)]
pub enum QueryFailure {
    Prepare(rusqlite::Error),
    Run(rusqlite::Error),
}

/// Runs one query with positional parameters and returns its rows, each
/// with one value per result column. A failure comes back in the engine's
/// own error, whichever step failed.
pub fn db_query(conn: &rusqlite::Connection, sql: &str, params: &Vec<SqlParam>) -> (r: Result<
    Vec<SqlRow>,
    rusqlite::Error,
>)
    ensures
        r is Ok ==> forall|i: int| 0 <= i < r->Ok_0@.len() ==> (#[trigger] r->Ok_0@[i]).well_formed(),
{
    match db_query_staged(conn, sql, params) {
        Ok(rows) => Ok(rows),
        Err(QueryFailure::Prepare(e)) => Err(e),
        Err(QueryFailure::Run(e)) => Err(e),
    }
}

/// The message for a failed query: the words for the step that failed, then
/// the engine's own.
pub fn staged_failure(failed: &QueryFailure, prepare_context: &str, run_context: &str) -> (message:
    String)
    ensures
        failed is Prepare ==> starts_with(message@, prepare_context@),
        failed is Run ==> starts_with(message@, run_context@),
{
    match failed {
        QueryFailure::Prepare(e) => failure(prepare_context, e),
        QueryFailure::Run(e) => failure(run_context, e),
    }
}

/// Runs one query with positional parameters and returns its rows, each
/// with one value per result column. A failure tells which step failed.
pub fn db_query_staged(conn: &rusqlite::Connection, sql: &str, params: &Vec<SqlParam>) -> (r:
    Result<Vec<SqlRow>, QueryFailure>)
    ensures
        r is Ok ==> forall|i: int| 0 <= i < r->Ok_0@.len() ==> (#[trigger] r->Ok_0@[i]).well_formed(),
{
    let bound = bind_all(params);
    let mut statement = match conn.prepare(sql) {
        Ok(statement) => statement,
        Err(e) => {
            return Err(QueryFailure::Prepare(e));
        },
    };
    let table = match read_rows(&mut statement, &bound) {
        Ok(table) => table,
        Err(e) => {
            return Err(QueryFailure::Run(e));
        },
    };
    let mut out: Vec<SqlRow> = Vec::new();
    let mut i: usize = 0;
    while i < table.rows.len()
        invariant
            i <= table.rows@.len(),
            table.well_formed(),
            out@.len() == i,
            forall|k: int| 0 <= k < out@.len() ==> (#[trigger] out@[k]).well_formed(),
        decreases table.rows.len() - i,
    {
        let raw = &table.rows[i];
        let mut values: Vec<SqlValue> = Vec::new();
        let mut j: usize = 0;
        while j < raw.len()
            invariant
                j <= raw@.len(),
                values@.len() == j,
            decreases raw.len() - j,
        {
            values.push(stored_value(&raw[j]));
            j += 1;
        }
        out.push(SqlRow { columns: table.columns.clone(), values });
        i += 1;
    }
    Ok(out)
}

/// The contents of a list of parameters.
pub open spec fn params_view(params: Seq<SqlParam>) -> Seq<SqlParamData> {
    Seq::new(params.len(), |i: int| params[i]@)
}

/// The content of an optional text parameter: the text, or `NULL`.
pub open spec fn opt_text_data(s: Option<String>) -> SqlParamData {
    match s {
        Some(t) => SqlParamData::Text(t@),
        None => SqlParamData::Null,
    }
}

/// A text parameter holding `s`.
pub fn text_param(s: &str) -> (p: SqlParam)
    ensures
        p@ == SqlParamData::Text(s@),
{
    SqlParam::Text(String::from_str(s))
}

/// A text parameter holding `s`, or `NULL` where there is none.
pub fn opt_text_param(s: &Option<String>) -> (p: SqlParam)
    ensures
        p@ == opt_text_data(*s),
{
    match s {
        Some(t) => SqlParam::Text(t.clone()),
        None => SqlParam::Null,
    }
}

/// The message for a failed database call: `context`, then the engine's own
/// words.
pub fn failure(context: &str, error: &rusqlite::Error) -> (message: String)
    ensures
        starts_with(message@, context@),
{
    let detail = error_text(error);
    let message = appended(context, detail.as_str());
    assert(message@.subrange(0, context@.len() as int) =~= context@);
    message
}

/// The words with which `rusqlite` reports a query that found no row.
pub const NO_ROWS: &'static str = "Query returned no rows";

/// The text that the variant `rusqlite::Error::QueryReturnedNoRows`
/// displays, from `to_string`: the fixed words of `NO_ROWS`.
#[verifier::external_body]
fn no_rows_message() -> (text: String)
    ensures
        text@ == NO_ROWS@,
{
    rusqlite::Error::QueryReturnedNoRows.to_string()
}

/// The words of `rusqlite` for a query that found no row.
pub fn no_rows_text() -> (text: String)
    ensures
        text@ == NO_ROWS@,
{
    no_rows_message()
}

/// The single parameter of a statement that names one row by a text.
pub fn key_params(key: &str) -> (params: Vec<SqlParam>)
    ensures
        params_view(params@) == seq![SqlParamData::Text(key@)],
{
    let mut params: Vec<SqlParam> = Vec::new();
    params.push(text_param(key));
    assert(params_view(params@) =~= seq![SqlParamData::Text(key@)]);
    params
}

/// The single parameter of a listing that is bounded by a limit.
pub fn limit_params(limit: i64) -> (params: Vec<SqlParam>)
    ensures
        params_view(params@) == seq![SqlParamData::Integer(limit as int)],
{
    let mut params: Vec<SqlParam> = Vec::new();
    params.push(SqlParam::Integer(limit));
    assert(params_view(params@) =~= seq![SqlParamData::Integer(limit as int)]);
    params
}

/// The text in the first column of the first row, where the rows have one.
pub open spec fn first_text_of(rows: Seq<SqlRow>) -> Option<Result<String, DecodeError>> {
    if rows.len() == 0 {
        None
    } else {
        Some(rows[0].text_at(0))
    }
}

/// Reads the text in the first column of the first row.
pub fn first_text(rows: &Vec<SqlRow>) -> (r: Option<Result<String, DecodeError>>)
    ensures
        r == first_text_of(rows@),
{
    if rows.len() == 0 {
        None
    } else {
        Some(rows[0].get_text(0))
    }
}

/// Whether a statement changed at least one row.
pub open spec fn found_row(changed: usize) -> bool {
    changed != 0
}

/// What a statement that names one row gives once the engine has answered:
/// success where a row was changed, the engine's error where it failed, and
/// the error for a missing row where nothing was changed.
pub fn require_row(answer: Result<usize, rusqlite::Error>) -> (r: Result<(), String>)
    ensures
        r is Ok <==> answer is Ok && found_row(answer->Ok_0),
        answer is Ok && !found_row(answer->Ok_0) ==> r is Err && r->Err_0@ == NO_ROWS@,
{
    match answer {
        Ok(changed) => {
            if changed == 0 {
                Err(no_rows_text())
            } else {
                Ok(())
            }
        },
        Err(e) => Err(error_text(&e)),
    }
}

/// What a statement gives where only its failure matters: success whatever
/// number of rows it changed, else the engine's words.
pub fn ignore_count(answer: Result<usize, rusqlite::Error>) -> (r: Result<(), String>)
    ensures
        r is Ok <==> answer is Ok,
{
    match answer {
        Ok(_) => Ok(()),
        Err(e) => Err(error_text(&e)),
    }
}

/// An integer parameter.
pub fn int_param(value: i64) -> (p: SqlParam)
    ensures
        p@ == SqlParamData::Integer(value as int),
{
    SqlParam::Integer(value)
}

/// One statement with what is bound to it, and the words that a failure
/// of it begins with.
pub struct PlannedStatement {
    pub sql: &'static str,
    pub params: Vec<SqlParam>,
    pub context: &'static str,
}

/// The mathematical content of a `PlannedStatement`.
pub ghost struct StatementData {
    pub sql: Seq<char>,
    pub params: Seq<SqlParamData>,
    pub context: Seq<char>,
}

impl View for PlannedStatement {
    type V = StatementData;

    open spec fn view(&self) -> StatementData {
        StatementData {
            sql: self.sql@,
            params: params_view(self.params@),
            context: self.context@,
        }
    }
}

/// The contents of a list of statements.
pub open spec fn statements_view(statements: Seq<PlannedStatement>) -> Seq<StatementData> {
    Seq::new(statements.len(), |i: int| statements[i]@)
}

/// Whether `message` begins with the context of one of the statements.
pub open spec fn is_failure_of(message: Seq<char>, statements: Seq<PlannedStatement>) -> bool {
    exists|i: int|
        0 <= i < statements.len() && starts_with(message, (#[trigger] statements[i]).context@)
}

/// Executes the statements in order and stops at the first that fails; its
/// failure is returned under its context. No statement, no failure.
pub fn run_all(conn: &rusqlite::Connection, statements: &Vec<PlannedStatement>) -> (r: Result<(), String>)
    ensures
        statements@.len() == 0 ==> r is Ok,
        r is Err ==> is_failure_of(r->Err_0@, statements@),
{
    let mut i: usize = 0;
    while i < statements.len()
        invariant
            i <= statements.len(),
        decreases statements.len() - i,
    {
        match db_execute(conn, statements[i].sql, &statements[i].params) {
            Ok(_) => {},
            Err(e) => {
                let message = failure(statements[i].context, &e);
                assert(starts_with(message@, statements@[i as int].context@));
                return Err(message);
            },
        }
        i += 1;
    }
    Ok(())
}

} // verus!
