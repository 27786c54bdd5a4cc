//! The heads of HTTP responses: status codes and content types.

use vstd::prelude::*;

verus! {

/// The request was served.
pub const OK: u16 = 200;

/// Something was created.
pub const CREATED: u16 = 201;

/// The request was served and there is nothing to say.
pub const NO_CONTENT: u16 = 204;

/// The request was at fault.
pub const BAD_REQUEST: u16 = 400;

/// Nothing goes by the given name.
pub const NOT_FOUND: u16 = 404;

/// The request failed on the server's side.
pub const INTERNAL_SERVER_ERROR: u16 = 500;

/// What a body holds.
#[derive(Debug, Clone, Copy, PartialEq, Eq, Structural)]
pub enum Content {
    /// Nothing, or bytes of no declared type.
    Untyped,
    Json,
    Html,
}

/// The head of a response: its status and what its body holds.
#[derive(Debug, Clone, Copy, PartialEq, Eq, Structural)]
pub struct Head {
    pub status: u16,
    pub content: Content,
}

impl Content {
    /// The value of the `Content-Type` header, if one is sent.
    pub fn content_type(&self) -> (value: Option<&'static str>)
        ensures
            match *self {
                Content::Untyped => value.is_none(),
                Content::Json => value matches Some(text) && text@ == "application/json"@,
                Content::Html => value matches Some(text) && text@ == "text/html"@,
            },
    {
        match self {
            Content::Untyped => None,
            Content::Json => Some("application/json"),
            Content::Html => Some("text/html"),
        }
    }
}

/// The head of a response without a body.
pub fn empty(status: u16) -> (head: Head)
    ensures
        head == (Head { status, content: Content::Untyped }),
{
    Head { status, content: Content::Untyped }
}

/// The head of a response whose body is a stream of bytes.
pub fn stream(status: u16) -> (head: Head)
    ensures
        head == (Head { status, content: Content::Untyped }),
{
    Head { status, content: Content::Untyped }
}

/// The head of a response whose body is a JSON document.
pub fn json(status: u16) -> (head: Head)
    ensures
        head == (Head { status, content: Content::Json }),
{
    Head { status, content: Content::Json }
}

/// The head of a response whose body is an HTML page.
pub fn html(status: u16) -> (head: Head)
    ensures
        head == (Head { status, content: Content::Html }),
{
    Head { status, content: Content::Html }
}

/// The head of the response to a lookup by id: 200 with the JSON of what
/// was found, or 404 with a JSON message.
pub fn found(exists: bool) -> (head: Head)
    ensures
        head == (Head {
            status: if exists {
                OK
            } else {
                NOT_FOUND
            },
            content: Content::Json,
        }),
{
    if exists {
        json(OK)
    } else {
        json(NOT_FOUND)
    }
}

/// The head of the response to a query that was run: 200 where it
/// succeeded, 400 where it did not, with a JSON document either way.
pub fn answered(succeeded: bool) -> (head: Head)
    ensures
        head == (Head {
            status: if succeeded {
                OK
            } else {
                BAD_REQUEST
            },
            content: Content::Json,
        }),
{
    if succeeded {
        json(OK)
    } else {
        json(BAD_REQUEST)
    }
}

} // verus!
