//! What the server answers: a status, an optional content type and a body.
use vstd::prelude::*;

verus! {

/// An HTTP reply in plain values. `content_type` is `None` when the body
/// keeps the default type of a text body (`text/plain; charset=utf-8`).
pub struct HttpReply {
    pub status: u16,
    pub content_type: Option<String>,
    pub body: String,
}

/// A successfully rendered RSS document.
pub struct RssResponse(pub String);

/// The message of a route that failed.
pub struct ErrorResponse(pub String);

/// The content type of an RSS reply.
pub open spec fn rss_content_type() -> Seq<char> {
    "application/rss+xml; charset=utf-8"@
}

impl RssResponse {
    /// `200 OK` with the RSS content type and the document as body.
    pub fn into_response(self) -> (r: HttpReply)
        ensures
            r.status == 200,
            r.content_type matches Some(t) && t@ == rss_content_type(),
            r.body@ == self.0@,
    {
        HttpReply {
            status: 200,
            content_type: Some(crate::text::owned("application/rss+xml; charset=utf-8")),
            body: self.0,
        }
    }
}

impl ErrorResponse {
    /// `500 Internal Server Error` with the message as a plain-text body.
    pub fn into_response(self) -> (r: HttpReply)
        ensures
            r.status == 500,
            r.content_type is None,
            r.body@ == self.0@,
    {
        HttpReply { status: 500, content_type: None, body: self.0 }
    }
}

} // verus!
