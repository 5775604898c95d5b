//! An agent as a server: the handler that does the work, and how a task
//! that came in is handed to it and answered.

use crate::envelope::{RpcResponse, RpcResponseView};
use crate::json::{texts_of, Json, JsonTree};
use crate::records::{TaskParams, TaskResult, TaskResultView};
use vstd::prelude::*;

verus! {

/// The result of a task that the handler has worked off.
pub open spec fn completed(task_id: Seq<char>, output: JsonTree) -> TaskResultView {
    TaskResultView { task_id, status: "ok"@, output: Some(output) }
}

impl TaskResult {
    /// The result of the task `task_id` with what the handler gave back.
    pub fn completed(task_id: String, output: Json) -> (r: TaskResult)
        ensures
            r@ == completed(task_id@, output@),
    {
        TaskResult { task_id, status: "ok".to_owned(), output: Some(output) }
    }
}

/// An agent that takes tasks. The handler is a function from the action,
/// the input and the sender's id to the output; which actions it knows, and
/// what it gives back for one it does not know, is its own affair.
pub struct A2AServer<F> {
    agent_id: String,
    name: String,
    capabilities: Vec<String>,
    port: u16,
    task_handler: Option<F>,
}

/// The model of an [`A2AServer`], but for its handler.
pub struct A2AServerView {
    pub agent_id: Seq<char>,
    pub name: Seq<char>,
    pub capabilities: Seq<Seq<char>>,
    pub port: u16,
}

impl<F> View for A2AServer<F> {
    type V = A2AServerView;

    closed spec fn view(&self) -> A2AServerView {
        A2AServerView {
            agent_id: self.agent_id@,
            name: self.name@,
            capabilities: texts_of(self.capabilities@),
            port: self.port,
        }
    }
}

impl<F: Fn(String, Json, String) -> Json + Send + Sync + 'static> A2AServer<F> {
    /// The handler that is set, if one is.
    pub closed spec fn handler(&self) -> Option<F> {
        self.task_handler
    }

    /// Whether `result` is what the handler may give for `params`: the
    /// result for the same task, completed with an output that the handler
    /// may give back for the action, the input and the sender.
    pub open spec fn answers(handler: F, params: TaskParams, result: TaskResult) -> bool {
        exists|output: Json| #[trigger]
            call_ensures(handler, (params.action, params.input, params.sender), output) && result@
                == completed(params.task_id@, output@)
    }

    /// A server without a handler.
    pub fn new(agent_id: &str, name: &str, capabilities: Vec<String>, port: u16) -> (r: Self)
        ensures
            r@ == (A2AServerView {
                agent_id: agent_id@,
                name: name@,
                capabilities: texts_of(capabilities@),
                port,
            }),
            r.handler() is None,
    {
        A2AServer {
            agent_id: agent_id.to_owned(),
            name: name.to_owned(),
            capabilities,
            port,
            task_handler: None,
        }
    }

    /// The port that the server is meant to listen on.
    pub fn port(&self) -> (r: u16)
        ensures
            r == self@.port,
    {
        self.port
    }

    /// The id of the agent.
    pub fn agent_id(&self) -> (r: &String)
        ensures
            r@ == self@.agent_id,
    {
        &self.agent_id
    }

    /// Sets the handler, in place of the one before if there was one.
    pub fn handle_task(&mut self, handler: F)
        ensures
            final(self)@ == old(self)@,
            final(self).handler() == Some(handler),
    {
        self.task_handler = Some(handler);
    }

    /// Hands a task to the handler and wraps what it gives back as the
    /// result of that task. `None` where no handler is set.
    pub fn serve(&self, params: TaskParams) -> (r: Option<TaskResult>)
        requires
            self.handler() matches Some(h) ==> call_requires(
                h,
                (params.action, params.input, params.sender),
            ),
        ensures
            match self.handler() {
                Some(h) => r matches Some(result) && Self::answers(h, params, result),
                None => r is None,
            },
    {
        match &self.task_handler {
            Some(handler) => {
                let ghost given = params;
                let TaskParams { task_id, action, sender, input } = params;
                let output = handler(action, input, sender);
                let result = TaskResult::completed(task_id, output);
                assert(call_ensures(*handler, (given.action, given.input, given.sender), output));
                Some(result)
            },
            None => None,
        }
    }

    /// Hands a task to the handler and wraps the result as the response to
    /// the request with this id. `None` where no handler is set.
    pub fn answer(&self, id: String, params: TaskParams) -> (r: Option<RpcResponse>)
        requires
            self.handler() matches Some(h) ==> call_requires(
                h,
                (params.action, params.input, params.sender),
            ),
        ensures
            match self.handler() {
                Some(h) => r matches Some(response) && exists|result: TaskResult| #[trigger]
                    Self::answers(h, params, result) && response@ == RpcResponseView::success(
                        id@,
                        result@.to_tree(),
                    ),
                None => r is None,
            },
    {
        match self.serve(params) {
            Some(result) => {
                let response = RpcResponse::success(id, result.to_json());
                assert(Self::answers(self.handler()->Some_0, params, result));
                Some(response)
            },
            None => None,
        }
    }
}

} // verus!
