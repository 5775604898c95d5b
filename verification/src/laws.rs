//! What holds of the protocol as a whole, proved from the definitions.

use crate::agent::{
    after_registration, agents_listed, discovery_outcome, discovery_params, registration_outcome,
    A2AAgentView,
};
use crate::call::reply_outcome;
use crate::codec::parsed_tree;
use crate::dispatch::{step_allowed, task_outcome, DispatchStepView, DispatchView};
use crate::envelope::{
    envelope_outcome, lemma_request_round_trip, lemma_response_round_trip, RpcRequestView,
    RpcResponseView,
};
use crate::error::A2AErrorView;
use crate::json::{text_array, JsonTree};
use crate::records::{lemma_task_params_round_trip, TaskParamsView};
use crate::transport::{success_status, HttpReplyView};
use vstd::prelude::*;

verus! {

/// Task parameters that are put into a request, written as JSON and read
/// back come out as they went in, whatever the action and the input are.
pub proof fn task_params_survive_the_envelope(id: Seq<char>, params: TaskParamsView)
    ensures
        ({
            let sent = RpcRequestView::call(id, "a2a/task"@, Some(params.to_tree()));
            &&& RpcRequestView::from_tree(sent.to_tree()) == Some(sent)
            &&& TaskParamsView::from_tree(sent.params->Some_0) == Some(params)
        }),
{
    lemma_request_round_trip(RpcRequestView::call(id, "a2a/task"@, Some(params.to_tree())));
    lemma_task_params_round_trip(params);
}

/// A response that carries a result is read as that result, `null` too, and
/// one that carries an error as that error.
pub proof fn responses_read_as_written(id: Seq<char>, result: JsonTree, code: i32, message: Seq<char>)
    ensures
        envelope_outcome(RpcResponseView::success(id, result).to_tree()) == Ok::<
            JsonTree,
            A2AErrorView,
        >(result),
        envelope_outcome(RpcResponseView::failure(id, code, message).to_tree()) == Err::<
            JsonTree,
            A2AErrorView,
        >(A2AErrorView::Rpc { code, message }),
{
    lemma_response_round_trip(RpcResponseView::success(id, result));
    lemma_response_round_trip(RpcResponseView::failure(id, code, message));
}

/// A registration succeeds exactly where the directory answers with a
/// status from 200 to 299 and a response that holds a result and no error,
/// and the agent then holds the endpoint it registered under. Every other
/// reply is reported as a failure that names its layer (the transport, the
/// status, the decoding, or the error that the directory reports) and leaves
/// the agent as it was.
pub proof fn registration_reports_each_layer(agent: A2AAgentView, endpoint: Seq<char>, reply: HttpReplyView)
    ensures
        registration_outcome(reply) is Ok ==> after_registration(agent, endpoint, reply).endpoint
            == Some(endpoint),
        registration_outcome(reply) is Err ==> after_registration(agent, endpoint, reply) == agent,
        registration_outcome(reply) is Ok <==> ({
            &&& reply matches HttpReplyView::Answered { status, body }
            &&& success_status(status)
            &&& parsed_tree(body) matches Some(doc)
            &&& RpcResponseView::from_tree(doc) matches Some(response)
            &&& response.error is None
            &&& response.result is Some
        }),
        match reply {
            HttpReplyView::Failed { reason } => registration_outcome(reply) == Err::<(), A2AErrorView>(
                A2AErrorView::Transport(reason),
            ),
            HttpReplyView::Answered { status, body } => if !success_status(status) {
                registration_outcome(reply) == Err::<(), A2AErrorView>(A2AErrorView::HttpStatus(status))
            } else {
                match parsed_tree(body) {
                    None => registration_outcome(reply) == Err::<(), A2AErrorView>(A2AErrorView::Decode),
                    Some(doc) => match RpcResponseView::from_tree(doc) {
                        None => registration_outcome(reply) == Err::<(), A2AErrorView>(
                            A2AErrorView::Decode,
                        ),
                        Some(response) => match response.error {
                            Some(fault) => registration_outcome(reply) == Err::<(), A2AErrorView>(
                                A2AErrorView::Rpc { code: fault.code, message: fault.message },
                            ),
                            None => if response.result is Some {
                                registration_outcome(reply) == Ok::<(), A2AErrorView>(())
                            } else {
                                registration_outcome(reply) == Err::<(), A2AErrorView>(
                                    A2AErrorView::MissingResult,
                                )
                            },
                        },
                    },
                }
            },
        },
{
}

/// A request for agents with no capability named is a request like any
/// other: its list of capabilities goes out empty.
pub proof fn empty_wish_goes_out_empty()
    ensures
        discovery_params(Seq::empty()) == JsonTree::Object(
            seq![("capabilities"@, JsonTree::Array(Seq::empty()))],
        ),
{
    assert(text_array(Seq::empty())->Array_0 =~= Seq::<JsonTree>::empty());
}

/// A discovery whose result lists no agents, or has no list at all, ends
/// with no match, which is no failure.
pub proof fn empty_listing_is_no_match(reply: HttpReplyView)
    requires
        reply_outcome(reply) matches Ok(result) && (result.get("agents"@) is None || result.get(
            "agents"@,
        ) == Some(JsonTree::Array(Seq::empty()))),
    ensures
        discovery_outcome(reply) == Ok::<Option<crate::records::AgentInfoView>, A2AErrorView>(None),
{
    let result = reply_outcome(reply)->Ok_0;
    assert(agents_listed(result) matches Some(agents) && agents.len() == 0);
}

/// Where the directory does not know the target, the dispatch ends there
/// with `AgentNotFound`: no step follows that sends the task anywhere.
pub proof fn unknown_target_ends_the_dispatch(
    target: Seq<char>,
    action: Seq<char>,
    sender: Seq<char>,
    input: JsonTree,
    status: u16,
    body: Seq<u8>,
    step: DispatchStepView,
)
    requires
        !success_status(status),
        step_allowed(
            DispatchView::Resolving { target, action, sender, input },
            HttpReplyView::Answered { status, body },
            step,
        ),
    ensures
        step == DispatchStepView::Finished(Err(A2AErrorView::AgentNotFound(target))),
{
}

/// A dispatch sends the task at most once: whatever the reply to the
/// delivery is, the dispatch ends with it.
pub proof fn delivery_ends_the_dispatch(reply: HttpReplyView, step: DispatchStepView)
    requires
        step_allowed(DispatchView::Delivering, reply, step),
    ensures
        step == DispatchStepView::Finished(task_outcome(reply)),
{
}

/// A reply to a task whose body is no JSON, or whose result lacks the id of
/// the task or its status, ends in a decoding failure.
pub proof fn malformed_task_result_is_a_decoding_failure(status: u16, body: Seq<u8>)
    requires
        success_status(status),
    ensures
        parsed_tree(body) is None ==> task_outcome(HttpReplyView::Answered { status, body }) == Err::<
            crate::records::TaskResultView,
            A2AErrorView,
        >(A2AErrorView::Decode),
        reply_outcome(HttpReplyView::Answered { status, body }) matches Ok(result) && (
        result.text_field("taskId"@) is None || result.text_field("status"@) is None)
            ==> task_outcome(HttpReplyView::Answered { status, body }) == Err::<
            crate::records::TaskResultView,
            A2AErrorView,
        >(A2AErrorView::Decode),
{
}

} // verus!
