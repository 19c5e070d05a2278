//! The responses of the three routes, as plain values.
//!
//! The server that carries them is outside the library: it turns a [`Response`] into
//! its own response type, field by field.

use vstd::prelude::*;

use crate::error::RequestError;

verus! {

/// The path of the listing, and the target of every redirect.
pub const INDEX_PATH: &'static str = "/";

/// The path to which the form for a new entry is posted.
pub const ADD_PATH: &'static str = "/add";

/// The path to which the form that deletes an entry is posted.
pub const DELETE_PATH: &'static str = "/delete";

/// The status of a response that carries the document.
pub const OK: u16 = 200;

/// The status of a redirect that the client follows with `GET`.
pub const SEE_OTHER: u16 = 303;

/// The status of every failed request.
pub const INTERNAL_SERVER_ERROR: u16 = 500;

/// The content type of the document.
pub const HTML: &'static str = "text/html";

/// The content type of the message of a failed request.
pub const PLAIN_TEXT: &'static str = "text/plain; charset=utf-8";

/// What the server sends back: the status, the `Content-Type` and `Location` headers
/// where there are any, and the body.
#[derive(Debug, PartialEq, Eq)]
pub struct Response {
    pub status: u16,
    pub content_type: Option<String>,
    pub location: Option<String>,
    pub body: String,
}

/// A response as mathematics.
pub struct ResponseView {
    pub status: int,
    pub content_type: Option<Seq<char>>,
    pub location: Option<Seq<char>>,
    pub body: Seq<char>,
}

/// The text of an optional header.
pub open spec fn header_view(header: Option<String>) -> Option<Seq<char>> {
    match header {
        Some(value) => Some(value@),
        None => None,
    }
}

impl View for Response {
    type V = ResponseView;

    open spec fn view(&self) -> ResponseView {
        ResponseView {
            status: self.status as int,
            content_type: header_view(self.content_type),
            location: header_view(self.location),
            body: self.body@,
        }
    }
}

/// A copy of an optional header.
fn header_copy(header: &Option<String>) -> (copy: Option<String>)
    ensures
        copy == *header,
{
    match header {
        Some(value) => Some(value.clone()),
        None => None,
    }
}

impl Clone for Response {
    fn clone(&self) -> (copy: Response)
        ensures
            copy == *self,
    {
        Response {
            status: self.status,
            content_type: header_copy(&self.content_type),
            location: header_copy(&self.location),
            body: self.body.clone(),
        }
    }
}

/// The redirect to the listing: status 303, `Location: /`, no body.
pub open spec fn redirect_home_view() -> ResponseView {
    ResponseView {
        status: SEE_OTHER as int,
        content_type: None,
        location: Some(INDEX_PATH@),
        body: Seq::empty(),
    }
}

/// The response that carries a document: status 200, `Content-Type: text/html`, and the
/// document as the body.
pub open spec fn page_view(document: Seq<char>) -> ResponseView {
    ResponseView {
        status: OK as int,
        content_type: Some(HTML@),
        location: None,
        body: document,
    }
}

/// The response to a failed request: status 500 and, as plain text, the message of the
/// failure. Nothing of what is stored is in it.
pub open spec fn failure_view(error: RequestError) -> ResponseView {
    ResponseView {
        status: INTERNAL_SERVER_ERROR as int,
        content_type: Some(PLAIN_TEXT@),
        location: None,
        body: error.message_text(),
    }
}

/// The redirect to the listing.
pub fn redirect_home() -> (response: Response)
    ensures
        response@ == redirect_home_view(),
{
    Response {
        status: SEE_OTHER,
        content_type: None,
        location: Some(INDEX_PATH.to_owned()),
        body: String::new(),
    }
}

/// The response that carries the document.
pub fn page(document: String) -> (response: Response)
    ensures
        response@ == page_view(document@),
{
    Response { status: OK, content_type: Some(HTML.to_owned()), location: None, body: document }
}

/// The response to a failed request, the same for every kind of failure but for the
/// message.
pub fn failure(error: &RequestError) -> (response: Response)
    ensures
        response@ == failure_view(*error),
{
    Response {
        status: INTERNAL_SERVER_ERROR,
        content_type: Some(PLAIN_TEXT.to_owned()),
        location: None,
        body: error.message(),
    }
}

/// The response to a request, whatever its outcome: the response itself where the
/// request succeeded, the response to the failure where it failed.
pub fn respond(outcome: Result<Response, RequestError>) -> (response: Response)
    ensures
        match outcome {
            Ok(made) => response == made,
            Err(error) => response@ == failure_view(error),
        },
{
    match outcome {
        Ok(made) => made,
        Err(error) => failure(&error),
    }
}

} // verus!
