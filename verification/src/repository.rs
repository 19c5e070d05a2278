//! The entry repository: the one mediator between the handlers and the storage engine.

use vstd::prelude::*;

use crate::entry::{entry_views, EntryView, LogEntry};
use crate::error::{executed, StorageError};
use crate::statement::{
    create_table_statement, delete_statement, insert_statement, SELECT_SQL,
};
use crate::storage::{execute, query_rows};

verus! {

/// The entry that a row of the table stands for.
pub open spec fn row_view(row: (u32, String, String)) -> EntryView {
    EntryView { id: row.0 as nat, text: row.1@, created_at: row.2@ }
}

/// The entries that the rows stand for, in the same order.
pub open spec fn row_views(rows: Seq<(u32, String, String)>) -> Seq<EntryView> {
    rows.map_values(|row: (u32, String, String)| row_view(row))
}

/// One entry for each row, in the order of the rows, with the identifier and the two
/// texts of the row unchanged.
pub fn entries_of(rows: Vec<(u32, String, String)>) -> (entries: Vec<LogEntry>)
    ensures
        entry_views(entries@) == row_views(rows@),
{
    let mut entries: Vec<LogEntry> = Vec::new();
    let mut i: usize = 0;
    while i < rows.len()
        invariant
            0 <= i <= rows.len(),
            entry_views(entries@) == row_views(rows@.take(i as int)),
        decreases rows.len() - i,
    {
        let row = &rows[i];
        let entry = LogEntry::new(row.0, row.1.clone(), row.2.clone());
        let ghost before = entries@;
        entries.push(entry);
        proof {
            assert(rows@.take(i + 1) == rows@.take(i as int).push(rows@[i as int]));
            assert(entry_views(entries@) == entry_views(before).push(entries@.last()@));
            assert(row_views(rows@.take(i + 1)) == row_views(rows@.take(i as int)).push(
                row_view(rows@[i as int]),
            ));
        }
        i += 1;
    }
    proof {
        assert(rows@.take(i as int) == rows@);
    }
    entries
}

/// Brings the outcome of the query for all rows into the library's terms: the rows
/// become entries, in their order; a failure of the engine becomes
/// [`StorageError::Statement`].
pub fn listed(outcome: Result<Vec<(u32, String, String)>, rusqlite::Error>) -> (entries: Result<
    Vec<LogEntry>,
    StorageError,
>)
    ensures
        match outcome {
            Ok(rows) => entries matches Ok(found) && entry_views(found@) == row_views(rows@),
            Err(e) => entries == Err::<Vec<LogEntry>, StorageError>(StorageError::Statement(e)),
        },
{
    match outcome {
        Ok(rows) => Ok(entries_of(rows)),
        Err(e) => Err(StorageError::Statement(e)),
    }
}

/// The repository over one connection to the storage engine.
///
/// Each operation is one statement on the connection. The repository holds no state and
/// takes no lock of its own: what is stored, and in what order concurrent writers get
/// their turn, is the engine's.
pub struct Repository<'a> {
    conn: &'a rusqlite::Connection,
}

impl<'a> Repository<'a> {
    /// The connection on which the repository runs its statements.
    pub closed spec fn connection(self) -> &'a rusqlite::Connection {
        self.conn
    }

    /// The repository over the connection.
    pub fn new(conn: &'a rusqlite::Connection) -> (repository: Repository<'a>)
        ensures
            repository.connection() == conn,
    {
        Repository { conn }
    }

    /// Creates the table unless it exists. To be called once before any other operation.
    ///
    /// Fails only with [`StorageError::Statement`], when the engine fails the statement.
    pub fn ensure_schema(&self) -> (done: Result<(), StorageError>)
        ensures
            done matches Err(e) ==> e is Statement,
    {
        let statement = create_table_statement();
        executed(execute(self.conn, &statement))
    }

    /// All entries, in the order of their identifiers; an empty `Vec` where there are none.
    ///
    /// Fails only with [`StorageError::Statement`], when the engine fails the query or
    /// a row cannot be read as an entry.
    pub fn list(&self) -> (entries: Result<Vec<LogEntry>, StorageError>)
        ensures
            entries matches Err(e) ==> e is Statement,
    {
        listed(query_rows(self.conn, SELECT_SQL))
    }

    /// Inserts one entry with the two texts as given; the engine assigns the identifier.
    /// Neither text is examined: an empty one is stored as any other.
    ///
    /// Fails only with [`StorageError::Statement`], when the engine fails the statement.
    pub fn add(&self, text: &str, created_at: &str) -> (done: Result<(), StorageError>)
        ensures
            done matches Err(e) ==> e is Statement,
    {
        let statement = insert_statement(text, created_at);
        executed(execute(self.conn, &statement))
    }

    /// Deletes the entry with the identifier. Where no entry carries it, nothing is
    /// deleted and the call succeeds all the same.
    ///
    /// Fails only with [`StorageError::Statement`], when the engine fails the statement.
    pub fn delete(&self, id: u32) -> (done: Result<(), StorageError>)
        ensures
            done matches Err(e) ==> e is Statement,
    {
        let statement = delete_statement(id);
        executed(execute(self.conn, &statement))
    }
}

} // verus!
