//! One JSON-RPC call over HTTP: the request that is sent, and what the reply
//! to it amounts to.

use crate::codec::parsed_tree;
use crate::envelope::{
    build_request, lemma_request_round_trip, parse_response, response_outcome, RpcRequest,
    RpcRequestView,
};
use crate::error::{outcome_view, A2AError, A2AErrorView};
use crate::json::{opt_view, Json, JsonTree};
use crate::token::is_token;
use crate::transport::{
    is_success, success_status, HttpMethod, HttpReply, HttpReplyView, HttpRequest, HttpRequestView,
};
use vstd::prelude::*;

verus! {

/// The request that posts a call of `method` under `id` to `url`.
pub open spec fn call_with_id(
    id: Seq<char>,
    url: Seq<char>,
    method: Seq<char>,
    params: Option<JsonTree>,
) -> HttpRequestView {
    HttpRequestView {
        method: HttpMethod::Post,
        url,
        body: Some(RpcRequestView::call(id, method, params).to_tree()),
    }
}

/// Whether `request` posts a call of `method` to `url` under an id that has
/// the shape of a fresh token. The id is read from the body.
pub open spec fn is_call(
    request: HttpRequestView,
    url: Seq<char>,
    method: Seq<char>,
    params: Option<JsonTree>,
) -> bool {
    &&& request.body matches Some(body)
    &&& body.text_field("id"@) matches Some(id)
    &&& is_token(id)
    &&& request == call_with_id(id, url, method, params)
}

/// What a reply to a call amounts to. A reply that did not come is a
/// transport failure; a status outside 200 to 299 is reported as it is, and
/// the body is then not looked at; else the body is read as a response.
pub open spec fn reply_outcome(reply: HttpReplyView) -> Result<JsonTree, A2AErrorView> {
    match reply {
        HttpReplyView::Failed { reason } => Err(A2AErrorView::Transport(reason)),
        HttpReplyView::Answered { status, body } => if success_status(status) {
            response_outcome(parsed_tree(body))
        } else {
            Err(A2AErrorView::HttpStatus(status))
        },
    }
}

/// The request that posts a call of `method` to `url` under the id given.
pub fn request_with_id(id: String, url: &str, method: &str, params: Option<Json>) -> (r: HttpRequest)
    ensures
        r@ == call_with_id(id@, url@, method@, opt_view(params)),
{
    let envelope = RpcRequest::with_id(id, method, params);
    HttpRequest { method: HttpMethod::Post, url: url.to_owned(), body: Some(envelope.to_json()) }
}

/// The request that posts a call of `method` to `url` under a fresh id.
pub fn request(url: &str, method: &str, params: Option<Json>) -> (r: HttpRequest)
    ensures
        is_call(r@, url@, method@, opt_view(params)),
{
    let envelope = build_request(method, params);
    proof {
        lemma_request_round_trip(envelope@);
    }
    HttpRequest { method: HttpMethod::Post, url: url.to_owned(), body: Some(envelope.to_json()) }
}

/// What the reply to a call amounts to: its result, or the failure and the
/// layer it came from.
pub fn read_reply(reply: HttpReply) -> (r: Result<Json, A2AError>)
    ensures
        outcome_view(r) == reply_outcome(reply@),
{
    match reply {
        HttpReply::Failed { reason } => Err(A2AError::Transport(reason)),
        HttpReply::Answered { status, body } => {
            if is_success(status) {
                parse_response(body.as_slice())
            } else {
                Err(A2AError::HttpStatus(status))
            }
        },
    }
}

} // verus!
