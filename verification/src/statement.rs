//! The statements that the repository hands to the storage engine.
//!
//! The table is `progress_logs`, with the columns `id` (an integer that the engine
//! assigns, growing and never given twice), `text` and `created_at` (both required text).

use vstd::prelude::*;

verus! {

/// Creates the table unless it exists.
pub const CREATE_TABLE_SQL: &'static str =
    "CREATE TABLE IF NOT EXISTS progress_logs (id INTEGER PRIMARY KEY AUTOINCREMENT, text TEXT NOT NULL, created_at TEXT NOT NULL)";

/// Inserts one row; the parameters are the text and the creation time.
pub const INSERT_SQL: &'static str = "INSERT INTO progress_logs (text, created_at) VALUES (?, ?)";

/// Deletes the row with an identifier; the parameter is the identifier.
pub const DELETE_SQL: &'static str = "DELETE FROM progress_logs WHERE id=?";

/// Selects every row, in the order of the identifiers.
pub const SELECT_SQL: &'static str = "SELECT id, text, created_at FROM progress_logs ORDER BY id";

/// A value bound to a `?` of a statement.
#[derive(Debug, PartialEq, Eq)]
pub enum Param {
    Integer(i64),
    Text(String),
}

/// A bound value as mathematics.
pub enum ParamView {
    Integer(int),
    Text(Seq<char>),
}

impl View for Param {
    type V = ParamView;

    open spec fn view(&self) -> ParamView {
        match self {
            Param::Integer(n) => ParamView::Integer(*n as int),
            Param::Text(s) => ParamView::Text(s@),
        }
    }
}

/// A statement with the values for its `?`s, in their order.
#[derive(Debug, PartialEq, Eq)]
pub struct Statement {
    pub sql: &'static str,
    pub params: Vec<Param>,
}

/// A statement as mathematics.
pub struct StatementView {
    pub sql: Seq<char>,
    pub params: Seq<ParamView>,
}

impl View for Statement {
    type V = StatementView;

    open spec fn view(&self) -> StatementView {
        StatementView { sql: self.sql@, params: self.params@.map_values(|p: Param| p@) }
    }
}

/// The statement that creates the table unless it exists. It binds nothing.
pub fn create_table_statement() -> (statement: Statement)
    ensures
        statement@ == (StatementView { sql: CREATE_TABLE_SQL@, params: seq![] }),
{
    let statement = Statement { sql: CREATE_TABLE_SQL, params: Vec::new() };
    assert(statement@.params == Seq::<ParamView>::empty());
    statement
}

/// The statement that inserts one row with the two texts, each bound as it was given.
pub fn insert_statement(text: &str, created_at: &str) -> (statement: Statement)
    ensures
        statement@ == (StatementView {
            sql: INSERT_SQL@,
            params: seq![ParamView::Text(text@), ParamView::Text(created_at@)],
        }),
{
    let mut params: Vec<Param> = Vec::new();
    params.push(Param::Text(text.to_owned()));
    params.push(Param::Text(created_at.to_owned()));
    let statement = Statement { sql: INSERT_SQL, params };
    assert(statement@.params == seq![ParamView::Text(text@), ParamView::Text(created_at@)]);
    statement
}

/// The statement that deletes the row with the identifier.
pub fn delete_statement(id: u32) -> (statement: Statement)
    ensures
        statement@ == (StatementView {
            sql: DELETE_SQL@,
            params: seq![ParamView::Integer(id as int)],
        }),
{
    let mut params: Vec<Param> = Vec::new();
    params.push(Param::Integer(id as i64));
    let statement = Statement { sql: DELETE_SQL, params };
    assert(statement@.params == seq![ParamView::Integer(id as int)]);
    statement
}

} // verus!
