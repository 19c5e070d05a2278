//! The failures of a request, as one closed taxonomy.
//!
//! Whatever fails outside the library (the pool, the storage engine, the template engine)
//! is brought into one of these variants where it enters, and the request layer turns any
//! of them into the same kind of response.

use vstd::prelude::*;

verus! {

/// `rusqlite::Error`, what the storage engine reports of a statement that failed. Carried
/// through as it is.
#[verifier::external_type_specification]
#[verifier::external_body]
pub struct ExSqliteError(rusqlite::Error);

/// `r2d2::Error`, what the pool reports when it has no connection to hand out in time.
/// Carried through as it is.
#[verifier::external_type_specification]
#[verifier::external_body]
pub struct ExPoolError(r2d2::Error);

/// `askama::Error`, what the template engine reports when it could not produce the
/// document. Carried through as it is.
#[verifier::external_type_specification]
#[verifier::external_body]
pub struct ExRenderError(askama::Error);

/// A failure of the storage during one request.
#[derive(Debug)]
pub enum StorageError {
    /// No connection could be had from the pool.
    Connection(r2d2::Error),
    /// The storage engine refused a statement, or failed while it ran one.
    Statement(rusqlite::Error),
}

/// A failure of one request.
#[derive(Debug)]
pub enum RequestError {
    /// The storage failed.
    Storage(StorageError),
    /// The template engine failed while it produced the document.
    Render(askama::Error),
}

impl StorageError {
    /// What the client is told of the failure. It names the step that failed and
    /// nothing of what is stored.
    pub open spec fn message_text(self) -> Seq<char> {
        match self {
            StorageError::Connection(_) => "Failed to get connection"@,
            StorageError::Statement(_) => "Failed SQL executtion"@,
        }
    }

    /// The message, as a `String`.
    pub fn message(&self) -> (text: String)
        ensures
            text@ == self.message_text(),
    {
        match self {
            StorageError::Connection(_) => "Failed to get connection".to_owned(),
            StorageError::Statement(_) => "Failed SQL executtion".to_owned(),
        }
    }
}

impl RequestError {
    /// What the client is told of the failure. It names the step that failed and
    /// nothing of what is stored.
    pub open spec fn message_text(self) -> Seq<char> {
        match self {
            RequestError::Storage(e) => e.message_text(),
            RequestError::Render(_) => "Failed to render HTML"@,
        }
    }

    /// The message, as a `String`.
    pub fn message(&self) -> (text: String)
        ensures
            text@ == self.message_text(),
    {
        match self {
            RequestError::Storage(e) => e.message(),
            RequestError::Render(_) => "Failed to render HTML".to_owned(),
        }
    }
}

/// Brings the outcome of asking the pool for a connection into the taxonomy: a
/// connection is handed on as it is, a failure becomes [`StorageError::Connection`].
pub fn acquired<C>(checkout: Result<C, r2d2::Error>) -> (conn: Result<C, StorageError>)
    ensures
        match checkout {
            Ok(c) => conn == Ok::<C, StorageError>(c),
            Err(e) => conn == Err::<C, StorageError>(StorageError::Connection(e)),
        },
{
    match checkout {
        Ok(c) => Ok(c),
        Err(e) => Err(StorageError::Connection(e)),
    }
}

/// Brings the outcome of a statement that returns no rows into the taxonomy. However
/// many rows the statement changed, none included, it succeeded; a failure of the engine
/// becomes [`StorageError::Statement`].
pub fn executed(outcome: Result<usize, rusqlite::Error>) -> (done: Result<(), StorageError>)
    ensures
        match outcome {
            Ok(_) => done == Ok::<(), StorageError>(()),
            Err(e) => done == Err::<(), StorageError>(StorageError::Statement(e)),
        },
{
    match outcome {
        Ok(_) => Ok(()),
        Err(e) => Err(StorageError::Statement(e)),
    }
}

} // verus!
