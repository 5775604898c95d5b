//! Requests and replies as plain values. The library decides what is sent
//! and what a reply means; sending is the caller's part.

use crate::json::{opt_view, Json, JsonTree};
use vstd::prelude::*;

verus! {

/// The two kinds of request that the protocol makes.
#[derive(Clone, Copy, Debug, PartialEq, Eq, Structural)]
pub enum HttpMethod {
    Get,
    Post,
}

/// A request to be sent. A `Post` carries a JSON body, a `Get` none.
#[derive(Debug, Clone, PartialEq, Eq)]
pub struct HttpRequest {
    pub method: HttpMethod,
    pub url: String,
    pub body: Option<Json>,
}

/// The model of an [`HttpRequest`].
pub struct HttpRequestView {
    pub method: HttpMethod,
    pub url: Seq<char>,
    pub body: Option<JsonTree>,
}

impl View for HttpRequest {
    type V = HttpRequestView;

    open spec fn view(&self) -> HttpRequestView {
        HttpRequestView { method: self.method, url: self.url@, body: opt_view(self.body) }
    }
}

/// What came of sending a request.
#[derive(Debug, Clone, PartialEq, Eq)]
pub enum HttpReply {
    /// No answer: the connection, the name lookup or the wait failed.
    Failed { reason: String },
    /// An answer, with its status code and the bytes of its body.
    Answered { status: u16, body: Vec<u8> },
}

/// The model of an [`HttpReply`].
pub enum HttpReplyView {
    Failed { reason: Seq<char> },
    Answered { status: u16, body: Seq<u8> },
}

impl View for HttpReply {
    type V = HttpReplyView;

    open spec fn view(&self) -> HttpReplyView {
        match self {
            HttpReply::Failed { reason } => HttpReplyView::Failed { reason: reason@ },
            HttpReply::Answered { status, body } => HttpReplyView::Answered {
                status: *status,
                body: body@,
            },
        }
    }
}

/// Whether a status code reports success: 200 to 299.
pub open spec fn success_status(status: u16) -> bool {
    200 <= status < 300
}

/// Whether a status code reports success: 200 to 299.
pub fn is_success(status: u16) -> (r: bool)
    ensures
        r == success_status(status),
{
    200 <= status && status < 300
}

} // verus!
