//! An agent as a client: registering with the directory, asking it for
//! other agents, and handing a task to one of them.

use crate::call::{is_call, read_reply, reply_outcome, request};
use crate::dispatch::{lookup_request, Dispatch, DispatchView};
use crate::error::{outcome_view, A2AError, A2AErrorView};
use crate::json::{members_of, opt_view, text_array, texts_of, Json, JsonTree};
use crate::records::{AgentInfo, AgentInfoView};
use crate::text::{join_url, url_below};
use crate::transport::{HttpMethod, HttpReply, HttpReplyView, HttpRequest};
use vstd::prelude::*;

verus! {

/// An agent: its id, its name, what it can do, and the endpoint under which
/// it has registered, if it has.
#[derive(Debug, Clone, PartialEq, Eq)]
pub struct A2AAgent {
    pub agent_id: String,
    pub name: String,
    pub capabilities: Vec<String>,
    pub endpoint: Option<String>,
}

/// The model of an [`A2AAgent`].
pub struct A2AAgentView {
    pub agent_id: Seq<char>,
    pub name: Seq<char>,
    pub capabilities: Seq<Seq<char>>,
    pub endpoint: Option<Seq<char>>,
}

impl View for A2AAgent {
    type V = A2AAgentView;

    open spec fn view(&self) -> A2AAgentView {
        A2AAgentView {
            agent_id: self.agent_id@,
            name: self.name@,
            capabilities: texts_of(self.capabilities@),
            endpoint: opt_view(self.endpoint),
        }
    }
}

/// The agent after it has taken `endpoint` as its own.
pub open spec fn registered(agent: A2AAgentView, endpoint: Seq<char>) -> A2AAgentView {
    A2AAgentView { endpoint: Some(endpoint), ..agent }
}

/// The parameters with which an agent registers under `endpoint`.
pub open spec fn registration_params(agent: A2AAgentView, endpoint: Seq<char>) -> JsonTree {
    JsonTree::Object(
        seq![
            ("agentId"@, JsonTree::Text(agent.agent_id)),
            ("name"@, JsonTree::Text(agent.name)),
            ("capabilities"@, text_array(agent.capabilities)),
            ("endpoint"@, JsonTree::Text(endpoint)),
        ],
    )
}

/// The parameters that ask for agents with the capabilities wanted. The list
/// goes out as it is, an empty one too: matching is the directory's part.
pub open spec fn discovery_params(wanted: Seq<Seq<char>>) -> JsonTree {
    JsonTree::Object(seq![("capabilities"@, text_array(wanted))])
}

/// What came of registering: nothing on success, else the failure.
pub open spec fn registration_outcome(reply: HttpReplyView) -> Result<(), A2AErrorView> {
    match reply_outcome(reply) {
        Ok(_) => Ok(()),
        Err(e) => Err(e),
    }
}

/// The agent after the directory has replied to its registration under
/// `endpoint`: it holds the endpoint where the registration succeeded, and is
/// unchanged where it failed.
pub open spec fn after_registration(agent: A2AAgentView, endpoint: Seq<char>, reply: HttpReplyView) -> A2AAgentView {
    if registration_outcome(reply) is Ok {
        registered(agent, endpoint)
    } else {
        agent
    }
}

/// The records in an array, where each item holds one.
pub open spec fn agents_in(items: Seq<JsonTree>) -> Option<Seq<AgentInfoView>> {
    if forall|i: int| 0 <= i < items.len() ==> AgentInfoView::from_tree(#[trigger] items[i]) is Some {
        Some(Seq::new(items.len(), |i: int| AgentInfoView::from_tree(items[i])->Some_0))
    } else {
        None
    }
}

/// The agents that a discovery result lists under `agents`, in its order. A
/// result without that member lists none. `None` where the member is not an
/// array of records.
pub open spec fn agents_listed(result: JsonTree) -> Option<Seq<AgentInfoView>> {
    match result.get("agents"@) {
        None => Some(Seq::empty()),
        Some(JsonTree::Array(items)) => agents_in(items),
        Some(_) => None,
    }
}

/// All the agents that a reply to a discovery lists.
pub open spec fn discovery_listing(reply: HttpReplyView) -> Result<Seq<AgentInfoView>, A2AErrorView> {
    match reply_outcome(reply) {
        Err(e) => Err(e),
        Ok(result) => match agents_listed(result) {
            Some(agents) => Ok(agents),
            None => Err(A2AErrorView::Decode),
        },
    }
}

/// The first of some agents, if there is one.
pub open spec fn first_of(agents: Seq<AgentInfoView>) -> Option<AgentInfoView> {
    if agents.len() == 0 {
        None
    } else {
        Some(agents[0])
    }
}

/// What came of a discovery: the first agent listed, or none where the list
/// is empty, which is no failure.
pub open spec fn discovery_outcome(reply: HttpReplyView) -> Result<Option<AgentInfoView>, A2AErrorView> {
    match discovery_listing(reply) {
        Err(e) => Err(e),
        Ok(agents) => Ok(first_of(agents)),
    }
}

/// The models of a sequence of records.
pub open spec fn infos_of(agents: Seq<AgentInfo>) -> Seq<AgentInfoView> {
    Seq::new(agents.len(), |i: int| agents[i]@)
}

/// The model of a listing or the failure to get one.
pub open spec fn listing_view(r: Result<Vec<AgentInfo>, A2AError>) -> Result<Seq<AgentInfoView>, A2AErrorView> {
    match r {
        Ok(agents) => Ok(infos_of(agents@)),
        Err(e) => Err(e@),
    }
}

/// The model of a find or the failure to make one.
pub open spec fn find_view(r: Result<Option<AgentInfo>, A2AError>) -> Result<Option<AgentInfoView>, A2AErrorView> {
    match r {
        Ok(found) => Ok(opt_view(found)),
        Err(e) => Err(e@),
    }
}

/// The agents that a discovery result lists. `None` where what it holds
/// under `agents` is not an array of records.
pub fn listed_agents(result: &Json) -> (r: Option<Vec<AgentInfo>>)
    ensures
        match r {
            Some(agents) => agents_listed(result@) == Some(infos_of(agents@)),
            None => agents_listed(result@) is None,
        },
{
    match result.get("agents") {
        None => {
            let agents: Vec<AgentInfo> = Vec::new();
            assert(infos_of(agents@) =~= Seq::empty());
            Some(agents)
        },
        Some(list) => match list.as_items() {
            None => None,
            Some(items) => {
                let ghost model = list@->Array_0;
                let mut agents: Vec<AgentInfo> = Vec::new();
                let mut i: usize = 0;
                while i < items.len()
                    invariant
                        i <= items.len(),
                        agents.len() == i,
                        model.len() == items.len(),
                        agents_listed(result@) == agents_in(model),
                        forall|k: int| 0 <= k < items.len() ==> (#[trigger] model[k]) == items[k]@,
                        forall|k: int|
                            0 <= k < i ==> AgentInfoView::from_tree(#[trigger] model[k]) == Some(
                                agents[k]@,
                            ),
                    decreases items.len() - i,
                {
                    match AgentInfo::from_json(&items[i]) {
                        Some(info) => {
                            agents.push(info);
                        },
                        None => {
                            assert(AgentInfoView::from_tree(model[i as int]) is None);
                            return None;
                        },
                    }
                    i = i + 1;
                }
                assert(agents_in(model)->Some_0 =~= infos_of(agents@));
                Some(agents)
            },
        },
    }
}

impl A2AAgent {
    /// An agent that has not registered yet.
    pub fn new(agent_id: &str, name: &str, capabilities: Vec<String>) -> (r: A2AAgent)
        ensures
            r@ == (A2AAgentView {
                agent_id: agent_id@,
                name: name@,
                capabilities: texts_of(capabilities@),
                endpoint: None,
            }),
    {
        A2AAgent { agent_id: agent_id.to_owned(), name: name.to_owned(), capabilities, endpoint: None }
    }

    /// The parameters with which this agent registers under `endpoint`.
    pub fn registration_params(&self, endpoint: &str) -> (r: Json)
        ensures
            r@ == registration_params(self@, endpoint@),
    {
        let mut members: Vec<(String, Json)> = Vec::new();
        assert(members_of(members@) =~= Seq::empty());
        Json::put(&mut members, "agentId", Json::Text(self.agent_id.clone()));
        Json::put(&mut members, "name", Json::Text(self.name.clone()));
        Json::put(&mut members, "capabilities", Json::texts(&self.capabilities));
        Json::put(&mut members, "endpoint", Json::text(endpoint));
        let r = Json::object(members);
        assert(r@->Object_0 =~= registration_params(self@, endpoint@)->Object_0);
        r
    }

    /// The request that registers this agent under `endpoint` with the
    /// directory at `directory_url`. The agent itself is left as it is:
    /// [`A2AAgent::finish_register`] takes the endpoint once the directory has
    /// agreed.
    pub fn register(&self, endpoint: &str, directory_url: &str) -> (r: HttpRequest)
        ensures
            is_call(
                r@,
                url_below(directory_url@, "/a2a/register"@),
                "a2a/register"@,
                Some(registration_params(self@, endpoint@)),
            ),
    {
        let params = self.registration_params(endpoint);
        let url = join_url(directory_url, "/a2a/register");
        request(url.as_str(), "a2a/register", Some(params))
    }

    /// Takes the directory's reply to the registration under `endpoint`.
    /// Where the reply is a success the agent holds the endpoint from here
    /// on; where it is a failure the agent is as it was.
    pub fn finish_register(&mut self, endpoint: &str, reply: HttpReply) -> (r: Result<(), A2AError>)
        ensures
            outcome_view(r) == registration_outcome(reply@),
            final(self)@ == after_registration(old(self)@, endpoint@, reply@),
    {
        match read_reply(reply) {
            Ok(_) => {
                self.endpoint = Some(endpoint.to_owned());
                Ok(())
            },
            Err(e) => Err(e),
        }
    }

    /// The parameters that ask for agents with the capabilities wanted.
    pub fn discovery_params(wanted_capabilities: &Vec<String>) -> (r: Json)
        ensures
            r@ == discovery_params(texts_of(wanted_capabilities@)),
    {
        let mut members: Vec<(String, Json)> = Vec::new();
        assert(members_of(members@) =~= Seq::empty());
        Json::put(&mut members, "capabilities", Json::texts(wanted_capabilities));
        let r = Json::object(members);
        assert(r@->Object_0 =~= discovery_params(texts_of(wanted_capabilities@))->Object_0);
        r
    }

    /// The request that asks the directory at `directory_url` for agents
    /// with the capabilities wanted.
    pub fn discover(&self, wanted_capabilities: Vec<String>, directory_url: &str) -> (r: HttpRequest)
        ensures
            is_call(
                r@,
                url_below(directory_url@, "/a2a/discover"@),
                "a2a/discover"@,
                Some(discovery_params(texts_of(wanted_capabilities@))),
            ),
    {
        let params = A2AAgent::discovery_params(&wanted_capabilities);
        let url = join_url(directory_url, "/a2a/discover");
        request(url.as_str(), "a2a/discover", Some(params))
    }

    /// All the agents that the directory's reply to a discovery lists, in its
    /// order.
    pub fn finish_discover_all(reply: HttpReply) -> (r: Result<Vec<AgentInfo>, A2AError>)
        ensures
            listing_view(r) == discovery_listing(reply@),
    {
        match read_reply(reply) {
            Err(e) => Err(e),
            Ok(result) => match listed_agents(&result) {
                Some(agents) => Ok(agents),
                None => Err(A2AError::Decode),
            },
        }
    }

    /// The first agent that the directory's reply to a discovery lists, or
    /// none where it lists none.
    pub fn finish_discover(reply: HttpReply) -> (r: Result<Option<AgentInfo>, A2AError>)
        ensures
            find_view(r) == discovery_outcome(reply@),
    {
        match A2AAgent::finish_discover_all(reply) {
            Err(e) => Err(e),
            Ok(agents) => {
                let mut agents = agents;
                if agents.len() == 0 {
                    Ok(None)
                } else {
                    let first = agents.swap_remove(0);
                    Ok(Some(first))
                }
            },
        }
    }

    /// Begins handing a task to the agent `target_agent_id`: gives the
    /// request that asks the directory at `directory_url` for that agent's
    /// record, and the state that takes the reply.
    pub fn send_task(&self, target_agent_id: &str, action: &str, input: Json, directory_url: &str) -> (r: (
        Dispatch,
        HttpRequest,
    ))
        ensures
            r.0@ == (DispatchView::Resolving {
                target: target_agent_id@,
                action: action@,
                sender: self@.agent_id,
                input: input@,
            }),
            r.1@ == lookup_request(directory_url@, target_agent_id@),
    {
        let path = "/a2a/agents/".to_owned().concat(target_agent_id);
        let url = join_url(directory_url, path.as_str());
        let state = Dispatch::Resolving {
            target: target_agent_id.to_owned(),
            action: action.to_owned(),
            sender: self.agent_id.clone(),
            input,
        };
        (state, HttpRequest { method: HttpMethod::Get, url, body: None })
    }
}

} // verus!
