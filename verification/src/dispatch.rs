//! Handing a task to another agent, step by step: the directory is asked
//! where the agent is, then the task goes to the agent itself.

use crate::call::{call_with_id, is_call, read_reply, reply_outcome, request_with_id};
use crate::codec::{parse, parsed_tree};
use crate::envelope::{lemma_request_round_trip, RpcRequestView};
use crate::error::{outcome_view, A2AError, A2AErrorView};
use crate::json::{Json, JsonTree};
use crate::records::{
    lemma_task_params_round_trip, AgentInfo, AgentInfoView, TaskParams, TaskParamsView, TaskResult,
    TaskResultView,
};
use crate::text::url_below;
use crate::token::{fresh_token, is_token};
use crate::transport::{
    is_success, success_status, HttpMethod, HttpReply, HttpReplyView, HttpRequest, HttpRequestView,
};
use vstd::prelude::*;

verus! {

/// Where the handing over of a task stands.
#[derive(Debug, Clone, PartialEq, Eq)]
pub enum Dispatch {
    /// The directory has been asked for the target's record.
    Resolving { target: String, action: String, sender: String, input: Json },
    /// The task has gone to the target.
    Delivering,
}

/// The model of a [`Dispatch`].
pub enum DispatchView {
    Resolving { target: Seq<char>, action: Seq<char>, sender: Seq<char>, input: JsonTree },
    Delivering,
}

impl View for Dispatch {
    type V = DispatchView;

    open spec fn view(&self) -> DispatchView {
        match self {
            Dispatch::Resolving { target, action, sender, input } => DispatchView::Resolving {
                target: target@,
                action: action@,
                sender: sender@,
                input: input@,
            },
            Dispatch::Delivering => DispatchView::Delivering,
        }
    }
}

/// What to do next: send one more request and come back with the reply, or
/// stop with what came of the task.
#[derive(Debug, PartialEq, Eq)]
pub enum DispatchStep {
    Deliver(Dispatch, HttpRequest),
    Finished(Result<TaskResult, A2AError>),
}

/// The model of a [`DispatchStep`].
pub enum DispatchStepView {
    Deliver(DispatchView, HttpRequestView),
    Finished(Result<TaskResultView, A2AErrorView>),
}

impl View for DispatchStep {
    type V = DispatchStepView;

    open spec fn view(&self) -> DispatchStepView {
        match self {
            DispatchStep::Deliver(state, request) => DispatchStepView::Deliver(state@, request@),
            DispatchStep::Finished(outcome) => DispatchStepView::Finished(outcome_view(*outcome)),
        }
    }
}

/// The request that asks the directory for the record of `target`.
pub open spec fn lookup_request(directory_url: Seq<char>, target: Seq<char>) -> HttpRequestView {
    HttpRequestView {
        method: HttpMethod::Get,
        url: url_below(directory_url, "/a2a/agents/"@ + target),
        body: None,
    }
}

/// The record that a JSON value holds, where it holds one that a task can be
/// sent to.
pub open spec fn target_record(doc: JsonTree) -> Result<AgentInfoView, A2AErrorView> {
    match AgentInfoView::from_tree(doc) {
        Some(info) if info.dispatchable() => Ok(info),
        _ => Err(A2AErrorView::Decode),
    }
}

/// What the directory's reply says of `target`. A reply that did not come is
/// a transport failure; a status outside 200 to 299 means that the directory
/// does not know the agent; else the body must hold its record.
pub open spec fn resolution(target: Seq<char>, reply: HttpReplyView) -> Result<AgentInfoView, A2AErrorView> {
    match reply {
        HttpReplyView::Failed { reason } => Err(A2AErrorView::Transport(reason)),
        HttpReplyView::Answered { status, body } => if success_status(status) {
            match parsed_tree(body) {
                Some(doc) => target_record(doc),
                None => Err(A2AErrorView::Decode),
            }
        } else {
            Err(A2AErrorView::AgentNotFound(target))
        },
    }
}

/// The result that the result of a task call holds.
pub open spec fn task_result(result: JsonTree) -> Result<TaskResultView, A2AErrorView> {
    match TaskResultView::from_tree(result) {
        Some(r) => Ok(r),
        None => Err(A2AErrorView::Decode),
    }
}

/// What the target's reply to the task amounts to.
pub open spec fn task_outcome(reply: HttpReplyView) -> Result<TaskResultView, A2AErrorView> {
    match reply_outcome(reply) {
        Ok(result) => task_result(result),
        Err(e) => Err(e),
    }
}

/// The request that hands `params` to the agent at `endpoint`, under the
/// request id given.
pub open spec fn delivery_with_ids(request_id: Seq<char>, endpoint: Seq<char>, params: TaskParamsView) -> HttpRequestView {
    call_with_id(request_id, endpoint, "a2a/task"@, Some(params.to_tree()))
}

/// Whether `request` hands the task described to the agent at `endpoint`,
/// as an `a2a/task` call whose request id and task id both have the shape of
/// fresh tokens. The task id is read from the body.
pub open spec fn is_delivery(
    request: HttpRequestView,
    endpoint: Seq<char>,
    action: Seq<char>,
    sender: Seq<char>,
    input: JsonTree,
) -> bool {
    &&& request.body matches Some(body)
    &&& body.field("params"@) matches Some(params)
    &&& params.text_field("taskId"@) matches Some(task_id)
    &&& is_token(task_id)
    &&& is_call(
        request,
        endpoint,
        "a2a/task"@,
        Some(TaskParamsView { task_id, action, sender, input }.to_tree()),
    )
}

/// Whether `step` may follow from `state` on `reply`.
///
/// While resolving: a reply that does not give a usable record ends the
/// dispatch with its failure, and nothing is sent; one that does leads to
/// exactly one request, the delivery to the record's endpoint. While
/// delivering: the reply ends the dispatch, whatever it is.
pub open spec fn step_allowed(state: DispatchView, reply: HttpReplyView, step: DispatchStepView) -> bool {
    match state {
        DispatchView::Resolving { target, action, sender, input } => match resolution(target, reply) {
            Err(e) => step == DispatchStepView::Finished(Err(e)),
            Ok(info) => {
                &&& step matches DispatchStepView::Deliver(next, request)
                &&& next == DispatchView::Delivering
                &&& is_delivery(request, info.endpoint, action, sender, input)
            },
        },
        DispatchView::Delivering => step == DispatchStepView::Finished(task_outcome(reply)),
    }
}

/// Reads the record of the target from the body of the directory's answer.
pub fn read_target(doc: &Json) -> (r: Result<AgentInfo, A2AError>)
    ensures
        outcome_view(r) == target_record(doc@),
{
    match AgentInfo::from_json(doc) {
        Some(info) => {
            if info.dispatchable() {
                Ok(info)
            } else {
                Err(A2AError::Decode)
            }
        },
        None => Err(A2AError::Decode),
    }
}

/// What the directory's reply says of `target`.
pub fn resolve(target: &str, reply: HttpReply) -> (r: Result<AgentInfo, A2AError>)
    ensures
        outcome_view(r) == resolution(target@, reply@),
{
    match reply {
        HttpReply::Failed { reason } => Err(A2AError::Transport(reason)),
        HttpReply::Answered { status, body } => {
            if is_success(status) {
                match parse(body.as_slice()) {
                    Some(doc) => read_target(&doc),
                    None => Err(A2AError::Decode),
                }
            } else {
                Err(A2AError::AgentNotFound(target.to_owned()))
            }
        },
    }
}

/// Reads the result of a task from the result of the call.
pub fn read_task_result(result: &Json) -> (r: Result<TaskResult, A2AError>)
    ensures
        outcome_view(r) == task_result(result@),
{
    match TaskResult::from_json(result) {
        Some(r) => Ok(r),
        None => Err(A2AError::Decode),
    }
}

/// What the target's reply to the task amounts to.
pub fn finish_task(reply: HttpReply) -> (r: Result<TaskResult, A2AError>)
    ensures
        outcome_view(r) == task_outcome(reply@),
{
    match read_reply(reply) {
        Ok(result) => read_task_result(&result),
        Err(e) => Err(e),
    }
}

/// The request that hands `params` to the agent at `endpoint`, under the
/// request id given.
pub fn delivery(request_id: String, endpoint: &str, params: &TaskParams) -> (r: HttpRequest)
    ensures
        r@ == delivery_with_ids(request_id@, endpoint@, params@),
{
    request_with_id(request_id, endpoint, "a2a/task", Some(params.to_json()))
}

/// A delivery under fresh ids is a delivery.
pub proof fn lemma_delivery(request_id: Seq<char>, endpoint: Seq<char>, params: TaskParamsView)
    requires
        is_token(request_id),
        is_token(params.task_id),
    ensures
        is_delivery(
            delivery_with_ids(request_id, endpoint, params),
            endpoint,
            params.action,
            params.sender,
            params.input,
        ),
{
    lemma_request_round_trip(RpcRequestView::call(request_id, "a2a/task"@, Some(params.to_tree())));
    lemma_task_params_round_trip(params);
}

impl Dispatch {
    /// Takes the reply to the request that is out and says what to do next.
    pub fn advance(self, reply: HttpReply) -> (r: DispatchStep)
        ensures
            step_allowed(self@, reply@, r@),
    {
        match self {
            Dispatch::Resolving { target, action, sender, input } => {
                match resolve(target.as_str(), reply) {
                    Err(e) => DispatchStep::Finished(Err(e)),
                    Ok(info) => {
                        let params = TaskParams { task_id: fresh_token(), action, sender, input };
                        let request_id = fresh_token();
                        proof {
                            lemma_delivery(request_id@, info.endpoint@, params@);
                        }
                        let request = delivery(request_id, info.endpoint.as_str(), &params);
                        DispatchStep::Deliver(Dispatch::Delivering, request)
                    },
                }
            },
            Dispatch::Delivering => DispatchStep::Finished(finish_task(reply)),
        }
    }
}

} // verus!
