//! The plain values an HTTP exchange is made of: methods, status codes,
//! JSON payloads and complete responses.

use vstd::prelude::*;
use crate::json;

verus! {

/// An HTTP request method.
#[derive(Clone, Copy, Debug, PartialEq, Eq, Structural)]
pub enum Method {
    Get,
    Head,
    Post,
    Put,
    Delete,
    Options,
    Patch,
}

/// An HTTP status code.
#[derive(Clone, Copy, Debug, PartialEq, Eq, Structural)]
pub struct Status {
    pub code: u16,
}

impl Status {
    /// `200 OK`.
    pub fn ok() -> (status: Status)
        ensures
            status == (Status { code: 200 }),
    {
        Status { code: 200 }
    }

    /// `404 Not Found`.
    pub fn not_found() -> (status: Status)
        ensures
            status == (Status { code: 404 }),
    {
        Status { code: 404 }
    }
}

/// A string that is sent to the client as a JSON string value.
#[derive(Clone, Debug, PartialEq, Eq)]
pub struct Json(pub String);

impl View for Json {
    type V = Seq<char>;

    open spec fn view(&self) -> Seq<char> {
        self.0@
    }
}

/// The media type of a JSON body.
pub open spec fn json_media_type() -> Seq<char> {
    "application/json"@
}

/// What a handler hands back: a payload, or the status to fail with.
pub type Outcome = Result<Json, Status>;

/// The view of an `Outcome`: the payload's characters, or the status.
pub open spec fn outcome_view(outcome: Outcome) -> Result<Seq<char>, Status> {
    match outcome {
        Ok(json) => Ok(json@),
        Err(status) => Err(status),
    }
}

/// A complete HTTP response.
///
/// `content_type` is the value of the `Content-Type` header, where the
/// response carries one. A response that reports an error carries neither a
/// content type nor a body: what the client is shown for it is the server's
/// business.
#[derive(Clone, Debug, PartialEq, Eq)]
pub struct Response {
    pub status: Status,
    pub content_type: Option<String>,
    pub body: String,
}

/// The mathematical value of a `Response`.
pub struct ResponseView {
    pub status: Status,
    pub content_type: Option<Seq<char>>,
    pub body: Seq<char>,
}

impl View for Response {
    type V = ResponseView;

    open spec fn view(&self) -> ResponseView {
        ResponseView {
            status: self.status,
            content_type: match self.content_type {
                Some(media_type) => Some(media_type@),
                None => None,
            },
            body: self.body@,
        }
    }
}

/// The response that answers a handler's outcome.
///
/// A payload is answered with `200 OK`, the JSON media type and the payload's
/// JSON text as body; a failure with its status alone.
pub open spec fn response_to(outcome: Result<Seq<char>, Status>) -> ResponseView {
    match outcome {
        Ok(text) => ResponseView {
            status: Status { code: 200 },
            content_type: Some(json_media_type()),
            body: json::encoded(text),
        },
        Err(status) => ResponseView { status, content_type: None, body: Seq::empty() },
    }
}

/// Builds the response that answers `outcome`.
pub fn respond(outcome: Outcome) -> (response: Response)
    ensures
        response@ == response_to(outcome_view(outcome)),
{
    match outcome {
        Ok(payload) => Response {
            status: Status::ok(),
            content_type: Some("application/json".to_owned()),
            body: json::encode(payload.0.as_str()),
        },
        Err(status) => Response { status, content_type: None, body: String::new() },
    }
}

} // verus!
