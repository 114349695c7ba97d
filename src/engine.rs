use vstd::prelude::*;
use crate::value::SqlValue;

verus! {

#[verifier::external_type_specification]
#[verifier::external_body]
pub struct ExConnection(rusqlite::Connection);

#[verifier::external_type_specification]
#[verifier::external_body]
pub struct ExError(rusqlite::Error);

#[verifier::external_type_specification]
#[verifier::external_body]
pub struct ExValue(rusqlite::types::Value);

#[verifier::external_type_specification]
#[verifier::external_body]
pub struct ExStatement<'conn>(rusqlite::Statement<'conn>);

#[verifier::external_type_specification]
#[verifier::external_body]
pub struct ExRows<'stmt>(rusqlite::Rows<'stmt>);

#[verifier::external_type_specification]
#[verifier::external_body]
pub struct ExRow<'stmt>(rusqlite::Row<'stmt>);

/// Relies on rusqlite's `Value`, which has one variant per stored scalar kind.
#[verifier::external_body]
pub(crate) fn to_engine_value(v: &SqlValue) -> rusqlite::types::Value {
    match v {
        SqlValue::Null => rusqlite::types::Value::Null,
        SqlValue::Integer(i) => rusqlite::types::Value::Integer(*i),
        SqlValue::Text(s) => rusqlite::types::Value::Text(s.clone()),
        SqlValue::Blob(b) => rusqlite::types::Value::Blob(b.clone()),
    }
}

/// Relies on rusqlite's `Value`, which has one variant per stored scalar kind;
/// a floating-point value has no counterpart here and gives `None`.
#[verifier::external_body]
pub(crate) fn from_engine_value(v: rusqlite::types::Value) -> Option<SqlValue> {
    match v {
        rusqlite::types::Value::Null => Some(SqlValue::Null),
        rusqlite::types::Value::Integer(i) => Some(SqlValue::Integer(i)),
        rusqlite::types::Value::Real(_) => None,
        rusqlite::types::Value::Text(s) => Some(SqlValue::Text(s)),
        rusqlite::types::Value::Blob(b) => Some(SqlValue::Blob(b)),
    }
}

/// Relies on `rusqlite::Connection::execute`: runs one statement with the
/// given positional parameters, each converted to the engine's value, and
/// returns the number of rows it changed. What it returns depends on the
/// database, so nothing is stated of it.
#[verifier::external_body]
pub(crate) fn execute(conn: &rusqlite::Connection, sql: &String, params: &Vec<SqlValue>) -> Result<
    usize,
    rusqlite::Error,
> {
    conn.execute(sql.as_str(), rusqlite::params_from_iter(params.iter().map(to_engine_value)))
}

/// Relies on `rusqlite::Connection::last_insert_rowid`: the rowid of the most
/// recent successful insert on the connection.
#[verifier::external_body]
pub(crate) fn last_insert_rowid(conn: &rusqlite::Connection) -> i64 {
    conn.last_insert_rowid()
}

/// Relies on `rusqlite::Connection::prepare`: compiles one statement.
#[verifier::external_body]
pub(crate) fn prepare<'conn>(conn: &'conn rusqlite::Connection, sql: &String) -> Result<
    rusqlite::Statement<'conn>,
    rusqlite::Error,
> {
    conn.prepare(sql.as_str())
}

/// Relies on `rusqlite::Statement::column_index`: the position of the
/// result column with that name (compared ignoring ASCII case); it fails
/// only where no column has the name, which gives `None`.
#[verifier::external_body]
pub(crate) fn column_index(stmt: &rusqlite::Statement, name: &String) -> Option<usize> {
    stmt.column_index(name.as_str()).ok()
}

/// Relies on `rusqlite::Statement::query`: runs the statement with the given
/// positional parameters, each converted to the engine's value, and hands
/// out its rows.
#[verifier::external_body]
pub(crate) fn query<'stmt>(stmt: &'stmt mut rusqlite::Statement, params: &Vec<SqlValue>) -> Result<
    rusqlite::Rows<'stmt>,
    rusqlite::Error,
> {
    stmt.query(rusqlite::params_from_iter(params.iter().map(to_engine_value)))
}

/// Relies on `rusqlite::Rows::next`: the next row, or `None` after the last.
#[verifier::external_body]
pub(crate) fn next_row<'a, 'stmt>(rows: &'a mut rusqlite::Rows<'stmt>) -> Result<
    Option<&'a rusqlite::Row<'stmt>>,
    rusqlite::Error,
> {
    rows.next()
}

/// Relies on `rusqlite::Row::get`: the value of the column at `i`, or an
/// error where `i` is past the last column.
#[verifier::external_body]
pub(crate) fn row_value(row: &rusqlite::Row, i: usize) -> Result<
    rusqlite::types::Value,
    rusqlite::Error,
> {
    row.get::<usize, rusqlite::types::Value>(i)
}

} // verus!
