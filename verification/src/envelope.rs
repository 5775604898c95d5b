//! The JSON-RPC 2.0 envelope: requests, responses, and what a response
//! amounts to for the caller.

use crate::codec::{parse, parsed_tree};
use crate::error::{outcome_view, A2AError, A2AErrorView};
use crate::json::{
    lemma_member_listed, lemma_member_push, members_of, opt_view, Json, JsonTree,
};
use crate::token::{fresh_token, is_token};
use vstd::prelude::*;

verus! {

/// A request: protocol version, id, the name of the method, and its
/// parameters where it has any.
#[derive(Debug, Clone, PartialEq, Eq)]
pub struct RpcRequest {
    pub jsonrpc: String,
    pub id: String,
    pub method: String,
    pub params: Option<Json>,
}

/// The model of an [`RpcRequest`].
pub struct RpcRequestView {
    pub jsonrpc: Seq<char>,
    pub id: Seq<char>,
    pub method: Seq<char>,
    pub params: Option<JsonTree>,
}

impl View for RpcRequest {
    type V = RpcRequestView;

    open spec fn view(&self) -> RpcRequestView {
        RpcRequestView {
            jsonrpc: self.jsonrpc@,
            id: self.id@,
            method: self.method@,
            params: opt_view(self.params),
        }
    }
}

impl RpcRequestView {
    /// The request for `method` under `id`, in version 2.0.
    pub open spec fn call(id: Seq<char>, method: Seq<char>, params: Option<JsonTree>) -> RpcRequestView {
        RpcRequestView { jsonrpc: "2.0"@, id, method, params }
    }

    /// The request as JSON. Parameters that are not there are left out.
    pub open spec fn to_tree(self) -> JsonTree {
        match self.params {
            Some(params) => JsonTree::Object(
                seq![
                    ("jsonrpc"@, JsonTree::Text(self.jsonrpc)),
                    ("id"@, JsonTree::Text(self.id)),
                    ("method"@, JsonTree::Text(self.method)),
                    ("params"@, params),
                ],
            ),
            None => JsonTree::Object(
                seq![
                    ("jsonrpc"@, JsonTree::Text(self.jsonrpc)),
                    ("id"@, JsonTree::Text(self.id)),
                    ("method"@, JsonTree::Text(self.method)),
                ],
            ),
        }
    }

    /// The request that a JSON value holds. `jsonrpc`, `id` and `method` must
    /// be strings; `params` may be left out. Parameters that are `null` are
    /// parameters.
    pub open spec fn from_tree(t: JsonTree) -> Option<RpcRequestView> {
        match (t.text_field("jsonrpc"@), t.text_field("id"@), t.text_field("method"@)) {
            (Some(jsonrpc), Some(id), Some(method)) => Some(
                RpcRequestView { jsonrpc, id, method, params: t.get("params"@) },
            ),
            _ => None,
        }
    }
}

impl RpcRequest {
    /// The request for `method` under the id given.
    pub fn with_id(id: String, method: &str, params: Option<Json>) -> (r: RpcRequest)
        ensures
            r@ == RpcRequestView::call(id@, method@, opt_view(params)),
    {
        RpcRequest { jsonrpc: "2.0".to_owned(), id, method: method.to_owned(), params }
    }

    /// The request as JSON.
    pub fn to_json(&self) -> (r: Json)
        ensures
            r@ == self@.to_tree(),
    {
        let mut members: Vec<(String, Json)> = Vec::new();
        assert(members_of(members@) =~= Seq::empty());
        Json::put(&mut members, "jsonrpc", Json::Text(self.jsonrpc.clone()));
        Json::put(&mut members, "id", Json::Text(self.id.clone()));
        Json::put(&mut members, "method", Json::Text(self.method.clone()));
        match &self.params {
            Some(params) => {
                Json::put(&mut members, "params", params.clone());
            },
            None => {},
        }
        let r = Json::object(members);
        assert(r@->Object_0 =~= self@.to_tree()->Object_0);
        r
    }

    /// Reads a request from JSON. `None` where the value does not hold one.
    pub fn from_json(j: &Json) -> (r: Option<RpcRequest>)
        ensures
            opt_view(r) == RpcRequestView::from_tree(j@),
    {
        let jsonrpc = match j.text_field("jsonrpc") {
            Some(s) => s,
            None => { return None; },
        };
        let id = match j.text_field("id") {
            Some(s) => s,
            None => { return None; },
        };
        let method = match j.text_field("method") {
            Some(s) => s,
            None => { return None; },
        };
        let params = match j.get("params") {
            Some(v) => Some(v.clone()),
            None => None,
        };
        Some(RpcRequest { jsonrpc, id, method, params })
    }
}

/// The keys of a request differ from one another.
proof fn lemma_request_keys()
    ensures
        "jsonrpc"@ != "id"@,
        "jsonrpc"@ != "method"@,
        "jsonrpc"@ != "params"@,
        "id"@ != "method"@,
        "id"@ != "params"@,
        "method"@ != "params"@,
{
    reveal_strlit("jsonrpc");
    reveal_strlit("id");
    reveal_strlit("method");
    reveal_strlit("params");
    assert("jsonrpc"@.len() == 7 && "id"@.len() == 2 && "method"@.len() == 6);
    assert("method"@[0] != "params"@[0]);
}

/// A request that is written as JSON and read back is the request that was
/// written.
pub proof fn lemma_request_round_trip(v: RpcRequestView)
    ensures
        RpcRequestView::from_tree(v.to_tree()) == Some(v),
{
    lemma_request_keys();
    let a = ("jsonrpc"@, JsonTree::Text(v.jsonrpc));
    let b = ("id"@, JsonTree::Text(v.id));
    let c = ("method"@, JsonTree::Text(v.method));
    let d = ("params"@, if v.params is Some { v.params->Some_0 } else { JsonTree::Null });
    lemma_member_listed(a, b, c, d, d, "jsonrpc"@);
    lemma_member_listed(a, b, c, d, d, "id"@);
    lemma_member_listed(a, b, c, d, d, "method"@);
    lemma_member_listed(a, b, c, d, d, "params"@);
}

/// A request for `method` under a fresh id, drawn at random.
pub fn build_request(method: &str, params: Option<Json>) -> (r: RpcRequest)
    ensures
        is_token(r@.id),
        r@ == RpcRequestView::call(r@.id, method@, opt_view(params)),
{
    RpcRequest::with_id(fresh_token(), method, params)
}

/// The error that the other side reports in a response.
#[derive(Debug, Clone, PartialEq, Eq)]
pub struct RpcFault {
    pub code: i32,
    pub message: String,
}

/// The model of an [`RpcFault`].
pub struct RpcFaultView {
    pub code: i32,
    pub message: Seq<char>,
}

impl View for RpcFault {
    type V = RpcFaultView;

    open spec fn view(&self) -> RpcFaultView {
        RpcFaultView { code: self.code, message: self.message@ }
    }
}

impl RpcFaultView {
    /// The error as JSON.
    pub open spec fn to_tree(self) -> JsonTree {
        JsonTree::Object(
            seq![
                ("code"@, JsonTree::Int(self.code as i128)),
                ("message"@, JsonTree::Text(self.message)),
            ],
        )
    }

    /// The error that a JSON value holds. `code` must be an integer of 32
    /// bits and `message` a string.
    pub open spec fn from_tree(t: JsonTree) -> Option<RpcFaultView> {
        match (t.get("code"@), t.text_field("message"@)) {
            (Some(code), Some(message)) if code.as_i32() is Some => Some(
                RpcFaultView { code: code.as_i32()->Some_0, message },
            ),
            _ => None,
        }
    }
}

impl RpcFault {
    /// The error as JSON.
    pub fn to_json(&self) -> (r: Json)
        ensures
            r@ == self@.to_tree(),
    {
        let mut members: Vec<(String, Json)> = Vec::new();
        assert(members_of(members@) =~= Seq::empty());
        Json::put(&mut members, "code", Json::Int(self.code as i128));
        Json::put(&mut members, "message", Json::Text(self.message.clone()));
        let r = Json::object(members);
        assert(r@->Object_0 =~= self@.to_tree()->Object_0);
        r
    }

    /// Reads an error from JSON. `None` where the value does not hold one.
    pub fn from_json(j: &Json) -> (r: Option<RpcFault>)
        ensures
            opt_view(r) == RpcFaultView::from_tree(j@),
    {
        let code = match j.get("code") {
            Some(v) => match v.as_i32() {
                Some(code) => code,
                None => { return None; },
            },
            None => { return None; },
        };
        let message = match j.text_field("message") {
            Some(s) => s,
            None => { return None; },
        };
        Some(RpcFault { code, message })
    }
}

/// An error that is written as JSON and read back is the error that was
/// written.
pub proof fn lemma_fault_round_trip(v: RpcFaultView)
    ensures
        RpcFaultView::from_tree(v.to_tree()) == Some(v),
{
    reveal_strlit("code");
    reveal_strlit("message");
    assert("code"@.len() == 4 && "message"@.len() == 7);
    let a = ("code"@, JsonTree::Int(v.code as i128));
    let b = ("message"@, JsonTree::Text(v.message));
    lemma_member_listed(a, b, b, b, b, "code"@);
    lemma_member_listed(a, b, b, b, b, "message"@);
}

/// A response: protocol version, the id of the request, and a result or an
/// error.
#[derive(Debug, Clone, PartialEq, Eq)]
pub struct RpcResponse {
    pub jsonrpc: String,
    pub id: String,
    pub result: Option<Json>,
    pub error: Option<RpcFault>,
}

/// The model of an [`RpcResponse`].
pub struct RpcResponseView {
    pub jsonrpc: Seq<char>,
    pub id: Seq<char>,
    pub result: Option<JsonTree>,
    pub error: Option<RpcFaultView>,
}

impl View for RpcResponse {
    type V = RpcResponseView;

    open spec fn view(&self) -> RpcResponseView {
        RpcResponseView {
            jsonrpc: self.jsonrpc@,
            id: self.id@,
            result: opt_view(self.result),
            error: opt_view(self.error),
        }
    }
}

/// The error under `error`, which may be left out or be `null`: then the
/// result is `Some(None)`. `None` where the member is anything else that
/// does not hold an error.
pub open spec fn fault_field(t: JsonTree) -> Option<Option<RpcFaultView>> {
    match t.field("error"@) {
        None => Some(None),
        Some(e) => match RpcFaultView::from_tree(e) {
            Some(fault) => Some(Some(fault)),
            None => None,
        },
    }
}

impl RpcResponseView {
    /// The response that carries a result, in version 2.0.
    pub open spec fn success(id: Seq<char>, result: JsonTree) -> RpcResponseView {
        RpcResponseView { jsonrpc: "2.0"@, id, result: Some(result), error: None }
    }

    /// The response that carries an error, in version 2.0.
    pub open spec fn failure(id: Seq<char>, code: i32, message: Seq<char>) -> RpcResponseView {
        RpcResponseView {
            jsonrpc: "2.0"@,
            id,
            result: None,
            error: Some(RpcFaultView { code, message }),
        }
    }

    /// The response as JSON. A result or an error that is not there is left
    /// out.
    pub open spec fn to_tree(self) -> JsonTree {
        let head = seq![("jsonrpc"@, JsonTree::Text(self.jsonrpc)), ("id"@, JsonTree::Text(self.id))];
        let with_result = match self.result {
            Some(result) => head.push(("result"@, result)),
            None => head,
        };
        match self.error {
            Some(fault) => JsonTree::Object(with_result.push(("error"@, fault.to_tree()))),
            None => JsonTree::Object(with_result),
        }
    }

    /// The response that a JSON value holds. `jsonrpc` and `id` must be
    /// strings. `result` may be left out; a result that is `null` is a result.
    /// `error` may be left out or `null`, and an `error` that is there must
    /// hold a code and a message.
    pub open spec fn from_tree(t: JsonTree) -> Option<RpcResponseView> {
        match (t.text_field("jsonrpc"@), t.text_field("id"@), fault_field(t)) {
            (Some(jsonrpc), Some(id), Some(error)) => Some(
                RpcResponseView { jsonrpc, id, result: t.get("result"@), error },
            ),
            _ => None,
        }
    }

    /// What the response amounts to: the error it reports, else its result,
    /// else the complaint that it has neither. The id is not looked at.
    pub open spec fn outcome(self) -> Result<JsonTree, A2AErrorView> {
        match self.error {
            Some(fault) => Err(A2AErrorView::Rpc { code: fault.code, message: fault.message }),
            None => match self.result {
                Some(result) => Ok(result),
                None => Err(A2AErrorView::MissingResult),
            },
        }
    }
}

impl RpcResponse {
    /// The response that carries `result` for the request with this id.
    pub fn success(id: String, result: Json) -> (r: RpcResponse)
        ensures
            r@ == RpcResponseView::success(id@, result@),
    {
        RpcResponse { jsonrpc: "2.0".to_owned(), id, result: Some(result), error: None }
    }

    /// The response that reports an error for the request with this id.
    pub fn failure(id: String, code: i32, message: String) -> (r: RpcResponse)
        ensures
            r@ == RpcResponseView::failure(id@, code, message@),
    {
        RpcResponse {
            jsonrpc: "2.0".to_owned(),
            id,
            result: None,
            error: Some(RpcFault { code, message }),
        }
    }

    /// The response as JSON.
    pub fn to_json(&self) -> (r: Json)
        ensures
            r@ == self@.to_tree(),
    {
        let mut members: Vec<(String, Json)> = Vec::new();
        assert(members_of(members@) =~= Seq::empty());
        Json::put(&mut members, "jsonrpc", Json::Text(self.jsonrpc.clone()));
        Json::put(&mut members, "id", Json::Text(self.id.clone()));
        match &self.result {
            Some(result) => {
                Json::put(&mut members, "result", result.clone());
            },
            None => {},
        }
        match &self.error {
            Some(fault) => {
                Json::put(&mut members, "error", fault.to_json());
            },
            None => {},
        }
        let r = Json::object(members);
        assert(r@->Object_0 =~= self@.to_tree()->Object_0);
        r
    }

    /// Reads a response from JSON. `None` where the value does not hold one.
    pub fn from_json(j: &Json) -> (r: Option<RpcResponse>)
        ensures
            opt_view(r) == RpcResponseView::from_tree(j@),
    {
        let jsonrpc = match j.text_field("jsonrpc") {
            Some(s) => s,
            None => { return None; },
        };
        let id = match j.text_field("id") {
            Some(s) => s,
            None => { return None; },
        };
        let error = match j.field("error") {
            Some(e) => match RpcFault::from_json(e) {
                Some(fault) => Some(fault),
                None => { return None; },
            },
            None => None,
        };
        let result = match j.get("result") {
            Some(v) => Some(v.clone()),
            None => None,
        };
        Some(RpcResponse { jsonrpc, id, result, error })
    }

    /// What the response amounts to for the caller.
    pub fn outcome(self) -> (r: Result<Json, A2AError>)
        ensures
            outcome_view(r) == self@.outcome(),
    {
        match self.error {
            Some(fault) => Err(A2AError::Rpc { code: fault.code, message: fault.message }),
            None => match self.result {
                Some(result) => Ok(result),
                None => Err(A2AError::MissingResult),
            },
        }
    }
}

/// What a JSON value amounts to when it is read as a response: a value that
/// is no response is a decoding failure.
pub open spec fn envelope_outcome(t: JsonTree) -> Result<JsonTree, A2AErrorView> {
    match RpcResponseView::from_tree(t) {
        Some(response) => response.outcome(),
        None => Err(A2AErrorView::Decode),
    }
}

/// The keys of a response differ from one another.
proof fn lemma_response_keys()
    ensures
        "jsonrpc"@ != "id"@,
        "jsonrpc"@ != "result"@,
        "jsonrpc"@ != "error"@,
        "id"@ != "result"@,
        "id"@ != "error"@,
        "result"@ != "error"@,
{
    reveal_strlit("jsonrpc");
    reveal_strlit("id");
    reveal_strlit("result");
    reveal_strlit("error");
    assert("jsonrpc"@.len() == 7 && "id"@.len() == 2 && "result"@.len() == 6 && "error"@.len() == 5);
}

/// A response that is written as JSON and read back is the response that
/// was written.
pub proof fn lemma_response_round_trip(v: RpcResponseView)
    ensures
        RpcResponseView::from_tree(v.to_tree()) == Some(v),
{
    lemma_response_keys();
    let a = ("jsonrpc"@, JsonTree::Text(v.jsonrpc));
    let b = ("id"@, JsonTree::Text(v.id));
    let head = seq![a, b];
    let with_result = match v.result {
        Some(result) => head.push(("result"@, result)),
        None => head,
    };
    let all = v.to_tree()->Object_0;
    assert forall|key: Seq<char>|
        key == "jsonrpc"@ || key == "id"@ || key == "result"@ || key == "error"@ implies #[trigger] v.to_tree().get(
        key,
    ) == (if key == "error"@ {
        match v.error {
            Some(fault) => Some(fault.to_tree()),
            None => None,
        }
    } else if key == "result"@ {
        v.result
    } else if key == "id"@ {
        Some(JsonTree::Text(v.id))
    } else {
        Some(JsonTree::Text(v.jsonrpc))
    }) by {
        lemma_member_listed(a, b, b, b, b, key);
        if v.result is Some {
            lemma_member_push(head, ("result"@, v.result->Some_0), key);
        }
        if v.error is Some {
            lemma_member_push(with_result, ("error"@, v.error->Some_0.to_tree()), key);
        }
    }
    assert(v.to_tree().get("jsonrpc"@) == Some(JsonTree::Text(v.jsonrpc)));
    assert(v.to_tree().get("id"@) == Some(JsonTree::Text(v.id)));
    assert(v.to_tree().get("result"@) == v.result);
    if v.error is Some {
        lemma_fault_round_trip(v.error->Some_0);
        assert(v.to_tree().get("error"@) == Some(v.error->Some_0.to_tree()));
    } else {
        assert(v.to_tree().get("error"@) is None);
    }
}

/// What the text of a response amounts to, given what was read from it.
pub open spec fn response_outcome(doc: Option<JsonTree>) -> Result<JsonTree, A2AErrorView> {
    match doc {
        Some(t) => envelope_outcome(t),
        None => Err(A2AErrorView::Decode),
    }
}

/// Reads a JSON value as a response and gives what it amounts to.
pub fn read_envelope(doc: &Json) -> (r: Result<Json, A2AError>)
    ensures
        outcome_view(r) == envelope_outcome(doc@),
{
    match RpcResponse::from_json(doc) {
        Some(response) => response.outcome(),
        None => Err(A2AError::Decode),
    }
}

/// Reads the text of a response and gives what it amounts to: the result,
/// the error that the other side reports, `MissingResult` where it has
/// neither, `Decode` where the text is no response.
pub fn parse_response(body: &[u8]) -> (r: Result<Json, A2AError>)
    ensures
        outcome_view(r) == response_outcome(parsed_tree(body@)),
{
    match parse(body) {
        Some(doc) => read_envelope(&doc),
        None => Err(A2AError::Decode),
    }
}

} // verus!
