//! The query interface: trusted declarations around the embedded database
//! engine.
//!
//! The engine is an external collaborator. Each function here wraps exactly
//! one call into it; what the engine returns depends on the database on
//! disk, so the wrappers promise nothing about the values handed back —
//! everything done with those values afterwards is verified. The one trusted
//! assumption beyond the calls themselves is `rows_fuel`: a result cursor
//! yields finitely many rows, which is what lets the scan loops stand.

use vstd::prelude::*;
use crate::encode::Value;

verus! {

#[verifier::external_type_specification]
#[verifier::external_body]
pub struct ExConnection(rusqlite::Connection);

#[verifier::external_type_specification]
#[verifier::external_body]
pub struct ExStatement<'conn>(rusqlite::Statement<'conn>);

#[verifier::external_type_specification]
#[verifier::external_body]
pub struct ExRows<'stmt>(rusqlite::Rows<'stmt>);

#[verifier::external_type_specification]
#[verifier::external_body]
pub struct ExRow<'stmt>(rusqlite::Row<'stmt>);

#[verifier::external_type_specification]
#[verifier::external_body]
pub struct ExError(rusqlite::Error);

/// The number of rows a result cursor will still yield. A full scan of a
/// committed database visits finitely many rows, so each row taken leaves
/// strictly fewer; this measure carries that assumption and nothing else —
/// no contract speaks of its value.
pub uninterp spec fn rows_fuel(rows: rusqlite::Rows<'_>) -> nat;

/// Relies on rusqlite's `Connection::prepare`: compiles one SQL statement
/// against the open database.
#[verifier::external_body]
pub(crate) fn conn_prepare<'c>(conn: &'c rusqlite::Connection, sql: &str) -> (r: Result<
    rusqlite::Statement<'c>,
    rusqlite::Error,
>) {
    conn.prepare(sql)
}

/// Relies on rusqlite's `Statement::query`: begins execution of the prepared
/// statement, binding the optional text parameter as parameter 1.
#[verifier::external_body]
pub(crate) fn stmt_query<'s>(stmt: &'s mut rusqlite::Statement<'_>, param: Option<&str>) -> (r:
    Result<rusqlite::Rows<'s>, rusqlite::Error>) {
    match param {
        Some(p) => stmt.query([p]),
        None => stmt.query([]),
    }
}

/// Relies on rusqlite's `Rows::next`: steps the cursor, yielding the next
/// row, `None` once the result set is exhausted, or the engine's error.
#[verifier::external_body]
pub(crate) fn rows_next<'a, 'stmt>(rows: &'a mut rusqlite::Rows<'stmt>) -> (r: Result<
    Option<&'a rusqlite::Row<'stmt>>,
    rusqlite::Error,
>)
    ensures
        (r matches Ok(Some(_))) ==> rows_fuel(*final(rows)) < rows_fuel(*old(rows)),
{
    rows.next()
}

/// Relies on rusqlite's `Statement::column_count`, reached through the row's
/// statement handle: the number of columns of the result set.
#[verifier::external_body]
pub(crate) fn row_column_count(row: &rusqlite::Row<'_>) -> (r: usize) {
    let stmt: &rusqlite::Statement<'_> = row.as_ref();
    stmt.column_count()
}

/// Relies on rusqlite's `Row::get_ref`: the value of one column of the
/// current row, with its dynamic type. Each engine variant is carried over
/// one to one; a real's bit pattern is taken, and text and blob bytes are
/// taken exactly as stored.
#[verifier::external_body]
pub(crate) fn row_get_value(row: &rusqlite::Row<'_>, idx: usize) -> (r: Result<
    Value,
    rusqlite::Error,
>) {
    match row.get_ref(idx) {
        Ok(rusqlite::types::ValueRef::Null) => Ok(Value::Null),
        Ok(rusqlite::types::ValueRef::Integer(i)) => Ok(Value::Integer(i)),
        Ok(rusqlite::types::ValueRef::Real(x)) => Ok(Value::Real(x.to_bits())),
        Ok(rusqlite::types::ValueRef::Text(t)) => Ok(Value::Text(t.to_vec())),
        Ok(rusqlite::types::ValueRef::Blob(b)) => Ok(Value::Blob(b.to_vec())),
        Err(e) => Err(e),
    }
}

/// Relies on rusqlite's `Row::get`: the text of one column of the current
/// row as an owned string, or the engine's error if it is not text.
#[verifier::external_body]
pub(crate) fn row_get_string(row: &rusqlite::Row<'_>, idx: usize) -> (r: Result<
    String,
    rusqlite::Error,
>) {
    row.get(idx)
}

} // verus!
