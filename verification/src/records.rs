//! The records that travel in messages, and how each is laid out as JSON.

use crate::json::{lemma_member_listed, opt_view, present, text_array, texts_of, Json, JsonTree};
use vstd::prelude::*;

verus! {

/// What the directory holds about one agent.
#[derive(Debug, Clone, PartialEq, Eq)]
pub struct AgentInfo {
    pub agent_id: String,
    pub name: String,
    pub capabilities: Vec<String>,
    pub endpoint: String,
    pub registered_at: Option<String>,
}

/// The model of an [`AgentInfo`].
pub struct AgentInfoView {
    pub agent_id: Seq<char>,
    pub name: Seq<char>,
    pub capabilities: Seq<Seq<char>>,
    pub endpoint: Seq<char>,
    pub registered_at: Option<Seq<char>>,
}

impl View for AgentInfo {
    type V = AgentInfoView;

    open spec fn view(&self) -> AgentInfoView {
        AgentInfoView {
            agent_id: self.agent_id@,
            name: self.name@,
            capabilities: texts_of(self.capabilities@),
            endpoint: self.endpoint@,
            registered_at: opt_view(self.registered_at),
        }
    }
}

impl AgentInfoView {
    /// Whether a task can be sent to the agent of this record: both its id
    /// and its endpoint are there.
    pub open spec fn dispatchable(self) -> bool {
        self.agent_id.len() > 0 && self.endpoint.len() > 0
    }

    /// The record as JSON.
    pub open spec fn to_tree(self) -> JsonTree {
        JsonTree::Object(
            seq![
                ("agent_id"@, JsonTree::Text(self.agent_id)),
                ("name"@, JsonTree::Text(self.name)),
                ("capabilities"@, text_array(self.capabilities)),
                ("endpoint"@, JsonTree::Text(self.endpoint)),
                (
                    "registeredAt"@,
                    match self.registered_at {
                        Some(at) => JsonTree::Text(at),
                        None => JsonTree::Null,
                    },
                ),
            ],
        )
    }

    /// The record that a JSON value holds. `agent_id`, `name` and `endpoint`
    /// must be strings and `capabilities` an array of strings; `registeredAt`
    /// may be left out or `null`. Other members are passed over.
    pub open spec fn from_tree(t: JsonTree) -> Option<AgentInfoView> {
        match (
            t.text_field("agent_id"@),
            t.text_field("name"@),
            t.texts_field("capabilities"@),
            t.text_field("endpoint"@),
            t.optional_text_field("registeredAt"@),
        ) {
            (Some(agent_id), Some(name), Some(capabilities), Some(endpoint), Some(registered_at)) => Some(
                AgentInfoView { agent_id, name, capabilities, endpoint, registered_at },
            ),
            _ => None,
        }
    }
}

impl AgentInfo {
    /// Whether a task can be sent to the agent of this record.
    pub fn dispatchable(&self) -> (r: bool)
        ensures
            r == self@.dispatchable(),
    {
        self.agent_id.as_str().unicode_len() > 0 && self.endpoint.as_str().unicode_len() > 0
    }

    /// The record as JSON.
    pub fn to_json(&self) -> (r: Json)
        ensures
            r@ == self@.to_tree(),
    {
        let mut members: Vec<(String, Json)> = Vec::new();
        assert(crate::json::members_of(members@) =~= Seq::empty());
        Json::put(&mut members, "agent_id", Json::Text(self.agent_id.clone()));
        Json::put(&mut members, "name", Json::Text(self.name.clone()));
        Json::put(&mut members, "capabilities", Json::texts(&self.capabilities));
        Json::put(&mut members, "endpoint", Json::Text(self.endpoint.clone()));
        let at = match &self.registered_at {
            Some(at) => Json::Text(at.clone()),
            None => Json::Null,
        };
        Json::put(&mut members, "registeredAt", at);
        let r = Json::object(members);
        assert(r@->Object_0 =~= self@.to_tree()->Object_0);
        r
    }

    /// Reads a record from JSON. `None` where the value does not hold one.
    pub fn from_json(j: &Json) -> (r: Option<AgentInfo>)
        ensures
            opt_view(r) == AgentInfoView::from_tree(j@),
    {
        let agent_id = match j.text_field("agent_id") {
            Some(s) => s,
            None => { return None; },
        };
        let name = match j.text_field("name") {
            Some(s) => s,
            None => { return None; },
        };
        let capabilities = match j.texts_field("capabilities") {
            Some(v) => v,
            None => { return None; },
        };
        let endpoint = match j.text_field("endpoint") {
            Some(s) => s,
            None => { return None; },
        };
        let registered_at = match j.optional_text_field("registeredAt") {
            Some(at) => at,
            None => { return None; },
        };
        Some(AgentInfo { agent_id, name, capabilities, endpoint, registered_at })
    }
}

/// A record that is written as JSON and read back is the record that was
/// written.
pub proof fn lemma_agent_info_round_trip(v: AgentInfoView)
    ensures
        AgentInfoView::from_tree(v.to_tree()) == Some(v),
{
    reveal_strlit("agent_id");
    reveal_strlit("name");
    reveal_strlit("capabilities");
    reveal_strlit("endpoint");
    reveal_strlit("registeredAt");
    assert("agent_id"@.len() == 8 && "name"@.len() == 4 && "capabilities"@.len() == 12);
    assert("agent_id"@[0] != "endpoint"@[0]);
    assert("capabilities"@[0] != "registeredAt"@[0]);
    let a = ("agent_id"@, JsonTree::Text(v.agent_id));
    let b = ("name"@, JsonTree::Text(v.name));
    let c = ("capabilities"@, text_array(v.capabilities));
    let d = ("endpoint"@, JsonTree::Text(v.endpoint));
    let e = (
        "registeredAt"@,
        match v.registered_at {
            Some(at) => JsonTree::Text(at),
            None => JsonTree::Null,
        },
    );
    lemma_member_listed(a, b, c, d, e, "agent_id"@);
    lemma_member_listed(a, b, c, d, e, "name"@);
    lemma_member_listed(a, b, c, d, e, "capabilities"@);
    lemma_member_listed(a, b, c, d, e, "endpoint"@);
    lemma_member_listed(a, b, c, d, e, "registeredAt"@);
    crate::json::lemma_text_array(v.capabilities);
    assert(v.to_tree()->Object_0 =~= seq![a, b, c, d, e]);
}

/// The work handed to another agent: which task, what to do, who asks, and
/// on what.
#[derive(Debug, Clone, PartialEq, Eq)]
pub struct TaskParams {
    pub task_id: String,
    pub action: String,
    pub sender: String,
    pub input: Json,
}

/// The model of a [`TaskParams`].
pub struct TaskParamsView {
    pub task_id: Seq<char>,
    pub action: Seq<char>,
    pub sender: Seq<char>,
    pub input: JsonTree,
}

impl View for TaskParams {
    type V = TaskParamsView;

    open spec fn view(&self) -> TaskParamsView {
        TaskParamsView {
            task_id: self.task_id@,
            action: self.action@,
            sender: self.sender@,
            input: self.input@,
        }
    }
}

impl TaskParamsView {
    /// The parameters as JSON.
    pub open spec fn to_tree(self) -> JsonTree {
        JsonTree::Object(
            seq![
                ("taskId"@, JsonTree::Text(self.task_id)),
                ("action"@, JsonTree::Text(self.action)),
                ("sender"@, JsonTree::Text(self.sender)),
                ("input"@, self.input),
            ],
        )
    }

    /// The parameters that a JSON value holds. `taskId`, `action` and
    /// `sender` must be strings; `input` must be there and may be any value,
    /// `null` too.
    pub open spec fn from_tree(t: JsonTree) -> Option<TaskParamsView> {
        match (t.text_field("taskId"@), t.text_field("action"@), t.text_field("sender"@), t.get("input"@)) {
            (Some(task_id), Some(action), Some(sender), Some(input)) => Some(
                TaskParamsView { task_id, action, sender, input },
            ),
            _ => None,
        }
    }
}

impl TaskParams {
    /// The parameters as JSON.
    pub fn to_json(&self) -> (r: Json)
        ensures
            r@ == self@.to_tree(),
    {
        let mut members: Vec<(String, Json)> = Vec::new();
        assert(crate::json::members_of(members@) =~= Seq::empty());
        Json::put(&mut members, "taskId", Json::Text(self.task_id.clone()));
        Json::put(&mut members, "action", Json::Text(self.action.clone()));
        Json::put(&mut members, "sender", Json::Text(self.sender.clone()));
        Json::put(&mut members, "input", self.input.clone());
        let r = Json::object(members);
        assert(r@->Object_0 =~= self@.to_tree()->Object_0);
        r
    }

    /// Reads parameters from JSON. `None` where the value does not hold them.
    pub fn from_json(j: &Json) -> (r: Option<TaskParams>)
        ensures
            opt_view(r) == TaskParamsView::from_tree(j@),
    {
        let task_id = match j.text_field("taskId") {
            Some(s) => s,
            None => { return None; },
        };
        let action = match j.text_field("action") {
            Some(s) => s,
            None => { return None; },
        };
        let sender = match j.text_field("sender") {
            Some(s) => s,
            None => { return None; },
        };
        let input = match j.get("input") {
            Some(v) => v.clone(),
            None => { return None; },
        };
        Some(TaskParams { task_id, action, sender, input })
    }
}

/// Parameters that are written as JSON and read back are the parameters that
/// were written.
pub proof fn lemma_task_params_round_trip(v: TaskParamsView)
    ensures
        TaskParamsView::from_tree(v.to_tree()) == Some(v),
{
    reveal_strlit("taskId");
    reveal_strlit("action");
    reveal_strlit("sender");
    reveal_strlit("input");
    assert("taskId"@.len() == 6 && "input"@.len() == 5);
    assert("taskId"@[0] != "action"@[0]);
    assert("taskId"@[0] != "sender"@[0]);
    assert("action"@[0] != "sender"@[0]);
    let a = ("taskId"@, JsonTree::Text(v.task_id));
    let b = ("action"@, JsonTree::Text(v.action));
    let c = ("sender"@, JsonTree::Text(v.sender));
    let d = ("input"@, v.input);
    lemma_member_listed(a, b, c, d, d, "taskId"@);
    lemma_member_listed(a, b, c, d, d, "action"@);
    lemma_member_listed(a, b, c, d, d, "sender"@);
    lemma_member_listed(a, b, c, d, d, "input"@);
}

/// What came of a task.
#[derive(Debug, Clone, PartialEq, Eq)]
pub struct TaskResult {
    pub task_id: String,
    pub status: String,
    pub output: Option<Json>,
}

/// The model of a [`TaskResult`].
pub struct TaskResultView {
    pub task_id: Seq<char>,
    pub status: Seq<char>,
    pub output: Option<JsonTree>,
}

impl View for TaskResult {
    type V = TaskResultView;

    open spec fn view(&self) -> TaskResultView {
        TaskResultView { task_id: self.task_id@, status: self.status@, output: opt_view(self.output) }
    }
}

impl TaskResultView {
    /// The result as JSON. An output that is not there is written as `null`.
    pub open spec fn to_tree(self) -> JsonTree {
        JsonTree::Object(
            seq![
                ("taskId"@, JsonTree::Text(self.task_id)),
                ("status"@, JsonTree::Text(self.status)),
                (
                    "output"@,
                    match self.output {
                        Some(output) => output,
                        None => JsonTree::Null,
                    },
                ),
            ],
        )
    }

    /// The result that a JSON value holds. `taskId` and `status` must be
    /// strings; `output` may be left out or `null`.
    pub open spec fn from_tree(t: JsonTree) -> Option<TaskResultView> {
        match (t.text_field("taskId"@), t.text_field("status"@)) {
            (Some(task_id), Some(status)) => Some(
                TaskResultView { task_id, status, output: t.field("output"@) },
            ),
            _ => None,
        }
    }
}

impl TaskResult {
    /// The result as JSON.
    pub fn to_json(&self) -> (r: Json)
        ensures
            r@ == self@.to_tree(),
    {
        let mut members: Vec<(String, Json)> = Vec::new();
        assert(crate::json::members_of(members@) =~= Seq::empty());
        Json::put(&mut members, "taskId", Json::Text(self.task_id.clone()));
        Json::put(&mut members, "status", Json::Text(self.status.clone()));
        let output = match &self.output {
            Some(output) => output.clone(),
            None => Json::Null,
        };
        Json::put(&mut members, "output", output);
        let r = Json::object(members);
        assert(r@->Object_0 =~= self@.to_tree()->Object_0);
        r
    }

    /// Reads a result from JSON. `None` where the value does not hold one.
    pub fn from_json(j: &Json) -> (r: Option<TaskResult>)
        ensures
            opt_view(r) == TaskResultView::from_tree(j@),
    {
        let task_id = match j.text_field("taskId") {
            Some(s) => s,
            None => { return None; },
        };
        let status = match j.text_field("status") {
            Some(s) => s,
            None => { return None; },
        };
        let output = match j.field("output") {
            Some(v) => Some(v.clone()),
            None => None,
        };
        Some(TaskResult { task_id, status, output })
    }
}

/// A result that is written as JSON and read back is the result that was
/// written, but that an output which is `null` comes back as none.
pub proof fn lemma_task_result_round_trip(v: TaskResultView)
    ensures
        TaskResultView::from_tree(v.to_tree()) == Some(
            TaskResultView { output: present(v.output), ..v },
        ),
{
    reveal_strlit("taskId");
    reveal_strlit("status");
    reveal_strlit("output");
    assert("taskId"@[0] != "status"@[0]);
    assert("taskId"@[0] != "output"@[0]);
    assert("status"@[0] != "output"@[0]);
    let a = ("taskId"@, JsonTree::Text(v.task_id));
    let b = ("status"@, JsonTree::Text(v.status));
    let c = (
        "output"@,
        match v.output {
            Some(output) => output,
            None => JsonTree::Null,
        },
    );
    lemma_member_listed(a, b, c, c, c, "taskId"@);
    lemma_member_listed(a, b, c, c, c, "status"@);
    lemma_member_listed(a, b, c, c, c, "output"@);
    assert(v.to_tree()->Object_0 =~= seq![a, b, c]);
}

} // verus!
