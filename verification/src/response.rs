use vstd::prelude::*;

verus! {

/// Status of an answer that carries what was asked for.
pub const STATUS_OK: u16 = 200;

/// Status of the answer to a confession that was stored.
pub const STATUS_CREATED: u16 = 201;

/// Status of the answer to a request for a file that cannot be served.
pub const STATUS_NOT_FOUND: u16 = 404;

/// Status of the answer to a request during which storage failed.
pub const STATUS_INTERNAL_SERVER_ERROR: u16 = 500;

/// The media type under which a body is sent.
#[derive(Debug, Clone, Copy, PartialEq, Eq, Structural)]
pub enum ContentType {
    /// `text/plain`
    Plain,
    /// `text/html`
    Html,
    /// `application/json`
    Json,
}

/// What a handler answers: a status, the media type of the body, the
/// `Location` header where there is one, and the body as a value that the
/// server still has to write out.
#[derive(Debug)]
pub struct Response<T> {
    pub status: u16,
    pub content_type: ContentType,
    pub location: Option<&'static str>,
    pub body: T,
}

/// The 404 answer whose body is `message`, sent as plain text.
pub fn not_found(message: String) -> (r: Response<String>)
    ensures
        r.status == STATUS_NOT_FOUND,
        r.content_type == ContentType::Plain,
        r.location is None,
        r.body == message,
{
    Response {
        status: STATUS_NOT_FOUND,
        content_type: ContentType::Plain,
        location: None,
        body: message,
    }
}

} // verus!
