//! The calls into the storage engine.
//!
//! Nothing here is proved: each function hands its arguments to `rusqlite` and hands
//! back what came. What comes back depends on the database behind the connection, so no
//! contract says what it is; the repository is verified for every value of it.

use vstd::prelude::*;

use crate::statement::{Param, Statement};

verus! {

/// `rusqlite::Connection`, a connection to a SQLite database. Nothing is known of what is
/// inside it.
#[verifier::external_type_specification]
#[verifier::external_body]
pub struct ExConnection(rusqlite::Connection);

/// `rusqlite::Connection::execute`, with the values handed over through
/// `rusqlite::params_from_iter`: prepares the statement, binds the values to its `?`s in
/// their order, and runs it. The engine answers with the number of rows that the statement
/// changed, inserted or deleted, or with an error. The contract claims nothing of the
/// answer.
#[verifier::external_body]
pub(crate) fn execute(conn: &rusqlite::Connection, statement: &Statement) -> (changed: Result<
    usize,
    rusqlite::Error,
>) {
    let mut values: Vec<rusqlite::types::Value> = Vec::new();
    for param in statement.params.iter() {
        values.push(
            match param {
                Param::Integer(n) => rusqlite::types::Value::Integer(*n),
                Param::Text(s) => rusqlite::types::Value::Text(s.clone()),
            },
        );
    }
    conn.execute(statement.sql, rusqlite::params_from_iter(values))
}

/// `rusqlite::Connection::prepare`, then `rusqlite::Statement::query_map` with nothing
/// bound: runs the query and reads the first three columns of every row with
/// `rusqlite::Row::get`, as a `u32` and two `String`s. The engine answers with the rows in
/// the order in which it walked them, or with an error, which may also be that of a column
/// that could not be read as its type. The contract claims nothing of the answer.
#[verifier::external_body]
pub(crate) fn query_rows(conn: &rusqlite::Connection, sql: &str) -> (rows: Result<
    Vec<(u32, String, String)>,
    rusqlite::Error,
>) {
    let mut prepared = conn.prepare(sql)?;
    let mapped = prepared.query_map([], |row| Ok((row.get(0)?, row.get(1)?, row.get(2)?)))?;
    mapped.collect()
}

} // verus!
