//! What each of the three routes does, from the decoded request to the response.
//!
//! The server decodes the form, asks the pool for a connection and renders the document;
//! the decisions in between are made here.

use vstd::prelude::*;

use crate::entry::LogEntry;
use crate::error::{RequestError, StorageError};
use crate::repository::Repository;
use crate::response::{page, page_view, redirect_home, redirect_home_view, Response};

verus! {

/// The fields of the form for a new entry.
#[derive(Debug, PartialEq, Eq)]
pub struct AddParams {
    pub text: String,
    pub created_at: String,
}

impl Clone for AddParams {
    fn clone(&self) -> (copy: AddParams)
        ensures
            copy == *self,
    {
        AddParams { text: self.text.clone(), created_at: self.created_at.clone() }
    }
}

/// The field of the form that deletes an entry.
#[derive(Debug, Clone, Copy, PartialEq, Eq)]
pub struct DeleteParams {
    pub id: u32,
}

/// The entries to render, for a listing that the repository gave; its failure becomes
/// the failure of the request.
pub fn listing(listed: Result<Vec<LogEntry>, StorageError>) -> (entries: Result<
    Vec<LogEntry>,
    RequestError,
>)
    ensures
        match listed {
            Ok(found) => entries == Ok::<Vec<LogEntry>, RequestError>(found),
            Err(e) => entries == Err::<Vec<LogEntry>, RequestError>(RequestError::Storage(e)),
        },
{
    match listed {
        Ok(found) => Ok(found),
        Err(e) => Err(RequestError::Storage(e)),
    }
}

/// The response after a change to the table: the redirect to the listing where the
/// change succeeded; where it failed, the failure of the request.
pub fn redirect_after(changed: Result<(), StorageError>) -> (response: Result<
    Response,
    RequestError,
>)
    ensures
        match changed {
            Ok(()) => response matches Ok(made) && made@ == redirect_home_view(),
            Err(e) => response == Err::<Response, RequestError>(RequestError::Storage(e)),
        },
{
    match changed {
        Ok(()) => Ok(redirect_home()),
        Err(e) => Err(RequestError::Storage(e)),
    }
}

/// `GET /`, up to the template engine: all entries, in the order of the listing.
///
/// Fails only with a [`StorageError::Statement`], when the engine fails the query.
pub fn index(conn: &rusqlite::Connection) -> (entries: Result<Vec<LogEntry>, RequestError>)
    ensures
        entries matches Err(e) ==> e matches RequestError::Storage(StorageError::Statement(_)),
{
    listing(Repository::new(conn).list())
}

/// `GET /`, from the template engine on: the response that carries the rendered
/// document; where rendering failed, [`RequestError::Render`].
pub fn index_response(rendered: Result<String, askama::Error>) -> (response: Result<
    Response,
    RequestError,
>)
    ensures
        match rendered {
            Ok(document) => response matches Ok(made) && made@ == page_view(document@),
            Err(e) => response == Err::<Response, RequestError>(RequestError::Render(e)),
        },
{
    match rendered {
        Ok(document) => Ok(page(document)),
        Err(e) => Err(RequestError::Render(e)),
    }
}

/// `POST /add`: adds an entry with the text and the creation time of the form, then
/// redirects to the listing.
///
/// Fails only with a [`StorageError::Statement`], when the engine fails the statement.
pub fn add_log(params: &AddParams, conn: &rusqlite::Connection) -> (response: Result<
    Response,
    RequestError,
>)
    ensures
        match response {
            Ok(made) => made@ == redirect_home_view(),
            Err(e) => e matches RequestError::Storage(StorageError::Statement(_)),
        },
{
    redirect_after(Repository::new(conn).add(params.text.as_str(), params.created_at.as_str()))
}

/// `POST /delete`: deletes the entry with the identifier of the form, if there is one,
/// then redirects to the listing.
///
/// Fails only with a [`StorageError::Statement`], when the engine fails the statement.
pub fn delete_log(params: &DeleteParams, conn: &rusqlite::Connection) -> (response: Result<
    Response,
    RequestError,
>)
    ensures
        match response {
            Ok(made) => made@ == redirect_home_view(),
            Err(e) => e matches RequestError::Storage(StorageError::Statement(_)),
        },
{
    redirect_after(Repository::new(conn).delete(params.id))
}

} // verus!
