use a2a::agent::{listed_agents, A2AAgent};
use a2a::call::{read_reply, request, request_with_id};
use a2a::dispatch::{delivery, finish_task, read_target, read_task_result, resolve, Dispatch, DispatchStep};
use a2a::error::A2AError;
use a2a::json::Json;
use a2a::records::{AgentInfo, TaskParams, TaskResult};
use a2a::text::join_url;
use a2a::transport::{is_success, HttpMethod, HttpReply, HttpRequest};

fn object(members: Vec<(&str, Json)>) -> Json {
    Json::Object(members.into_iter().map(|(k, v)| (k.to_string(), v)).collect())
}

fn answered(status: u16, body: &str) -> HttpReply {
    HttpReply::Answered { status, body: body.as_bytes().to_vec() }
}

fn is_token(s: &str) -> bool {
    let bytes = s.as_bytes();
    bytes.len() == 36
        && bytes.iter().enumerate().all(|(i, b)| match i {
            8 | 13 | 18 | 23 => *b == b'-',
            _ => b.is_ascii_digit() || (b'a'..=b'f').contains(b),
        })
        && bytes[14] == b'4'
        && matches!(bytes[19], b'8' | b'9' | b'a' | b'b')
}

fn agent() -> A2AAgent {
    A2AAgent::new("calc-1", "Calculator", vec!["math".to_string(), "add".to_string()])
}

fn body_of(request: &HttpRequest) -> &Json {
    request.body.as_ref().unwrap()
}

#[test]
fn a_new_agent_has_no_endpoint() {
    let a = agent();
    assert_eq!(a.agent_id, "calc-1");
    assert_eq!(a.name, "Calculator");
    assert_eq!(a.capabilities, vec!["math".to_string(), "add".to_string()]);
    assert_eq!(a.endpoint, None);
}

#[test]
fn join_url_takes_the_slashes_off_the_base() {
    assert_eq!(join_url("http://d:8080", "/a2a/register"), "http://d:8080/a2a/register");
    assert_eq!(join_url("http://d:8080/", "/a2a/register"), "http://d:8080/a2a/register");
    assert_eq!(join_url("http://d:8080///", "/a2a/register"), "http://d:8080/a2a/register");
    assert_eq!(join_url("http://d/x/", "/y/"), "http://d/x/y/");
    assert_eq!(join_url("///", "/p"), "/p");
    assert_eq!(join_url("", ""), "");
}

#[test]
fn success_is_the_two_hundreds() {
    assert!(!is_success(199));
    assert!(is_success(200));
    assert!(is_success(204));
    assert!(is_success(299));
    assert!(!is_success(300));
    assert!(!is_success(404));
    assert!(!is_success(0));
}

#[test]
fn request_posts_an_envelope_with_a_fresh_id() {
    let r = request("http://x/y", "a2a/discover", Some(Json::Int(1)));
    assert_eq!(r.method, HttpMethod::Post);
    assert_eq!(r.url, "http://x/y");
    let body = body_of(&r);
    assert_eq!(body.get("jsonrpc"), Some(&Json::text("2.0")));
    assert_eq!(body.get("method"), Some(&Json::text("a2a/discover")));
    assert_eq!(body.get("params"), Some(&Json::Int(1)));
    assert!(is_token(&body.text_field("id").unwrap()));
    let again = request("http://x/y", "a2a/discover", Some(Json::Int(1)));
    assert_ne!(body.get("id"), body_of(&again).get("id"));
}

#[test]
fn request_with_id_is_exact() {
    let r = request_with_id("id-1".to_string(), "http://x", "m", None);
    assert_eq!(
        r,
        HttpRequest {
            method: HttpMethod::Post,
            url: "http://x".to_string(),
            body: Some(object(vec![
                ("jsonrpc", Json::text("2.0")),
                ("id", Json::text("id-1")),
                ("method", Json::text("m")),
            ])),
        }
    );
}

#[test]
fn read_reply_names_the_layer_that_failed() {
    assert_eq!(
        read_reply(HttpReply::Failed { reason: "dns".to_string() }),
        Err(A2AError::Transport("dns".to_string()))
    );
    assert_eq!(read_reply(answered(500, "{}")), Err(A2AError::HttpStatus(500)));
    assert_eq!(
        read_reply(answered(404, "{\"jsonrpc\":\"2.0\",\"id\":\"1\",\"result\":1}")),
        Err(A2AError::HttpStatus(404))
    );
    assert_eq!(read_reply(answered(200, "<html>")), Err(A2AError::Decode));
    assert_eq!(
        read_reply(answered(200, "{\"jsonrpc\":\"2.0\",\"id\":\"1\",\"error\":{\"code\":3,\"message\":\"m\"}}")),
        Err(A2AError::Rpc { code: 3, message: "m".to_string() })
    );
    assert_eq!(read_reply(answered(200, "{\"jsonrpc\":\"2.0\",\"id\":\"1\"}")), Err(A2AError::MissingResult));
    assert_eq!(read_reply(answered(201, "{\"jsonrpc\":\"2.0\",\"id\":\"1\",\"result\":1}")), Ok(Json::Int(1)));
    assert_eq!(read_reply(answered(200, "{\"jsonrpc\":\"2.0\",\"id\":\"1\",\"result\":null}")), Ok(Json::Null));
}

#[test]
fn register_asks_the_directory_and_leaves_the_agent_as_it_is() {
    let a = agent();
    let r = a.register("http://h:9001", "http://d:8080/");
    assert_eq!(a, agent());
    assert_eq!(r.method, HttpMethod::Post);
    assert_eq!(r.url, "http://d:8080/a2a/register");
    let body = body_of(&r);
    assert_eq!(body.get("method"), Some(&Json::text("a2a/register")));
    assert_eq!(
        body.get("params"),
        Some(&object(vec![
            ("agentId", Json::text("calc-1")),
            ("name", Json::text("Calculator")),
            ("capabilities", Json::Array(vec![Json::text("math"), Json::text("add")])),
            ("endpoint", Json::text("http://h:9001")),
        ]))
    );
}

const ACKNOWLEDGED: &str = "{\"jsonrpc\":\"2.0\",\"id\":\"1\",\"result\":{\"ok\":true}}";

#[test]
fn finish_register_takes_the_endpoint_on_success() {
    let mut a = agent();
    assert_eq!(a.finish_register("http://h:9001", answered(200, ACKNOWLEDGED)), Ok(()));
    assert_eq!(a.endpoint, Some("http://h:9001".to_string()));
    assert_eq!(a.agent_id, "calc-1");
    assert_eq!(a.name, "Calculator");
    assert_eq!(a.capabilities, vec!["math".to_string(), "add".to_string()]);
}

#[test]
fn finish_register_takes_any_result_for_an_acknowledgement() {
    let mut a = agent();
    assert_eq!(
        a.finish_register("http://h:9001", answered(204, "{\"jsonrpc\":\"2.0\",\"id\":\"1\",\"result\":null}")),
        Ok(())
    );
    assert_eq!(a.endpoint, Some("http://h:9001".to_string()));
}

#[test]
fn a_later_registration_takes_the_place_of_the_one_before() {
    let mut a = agent();
    assert_eq!(a.finish_register("http://h:9001", answered(200, ACKNOWLEDGED)), Ok(()));
    let r = a.register("http://h:9002", "http://d");
    assert_eq!(a.endpoint, Some("http://h:9001".to_string()));
    assert_eq!(r.body.as_ref().unwrap().get("params").unwrap().get("endpoint"), Some(&Json::text("http://h:9002")));
    assert_eq!(
        a.finish_register("http://h:9002", answered(200, "{\"jsonrpc\":\"2.0\",\"id\":\"1\",\"result\":null}")),
        Ok(())
    );
    assert_eq!(a.endpoint, Some("http://h:9002".to_string()));
}

#[test]
fn finish_register_reports_each_failure_and_leaves_the_agent_as_it_was() {
    let mut a = agent();
    assert_eq!(
        a.finish_register("http://h:9001", HttpReply::Failed { reason: "timeout".to_string() }),
        Err(A2AError::Transport("timeout".to_string()))
    );
    assert_eq!(a.finish_register("http://h:9001", answered(503, ACKNOWLEDGED)), Err(A2AError::HttpStatus(503)));
    assert_eq!(
        a.finish_register(
            "http://h:9001",
            answered(200, "{\"jsonrpc\":\"2.0\",\"id\":\"1\",\"error\":{\"code\":-1,\"message\":\"taken\"}}")
        ),
        Err(A2AError::Rpc { code: -1, message: "taken".to_string() })
    );
    assert_eq!(a.finish_register("http://h:9001", answered(200, "")), Err(A2AError::Decode));
    assert_eq!(
        a.finish_register("http://h:9001", answered(200, "{\"jsonrpc\":\"2.0\",\"id\":\"1\"}")),
        Err(A2AError::MissingResult)
    );
    assert_eq!(a, agent());
}

#[test]
fn a_failed_registration_keeps_the_endpoint_of_the_one_before() {
    let mut a = agent();
    assert_eq!(a.finish_register("http://h:9001", answered(200, ACKNOWLEDGED)), Ok(()));
    assert_eq!(a.finish_register("http://h:9002", answered(500, "")), Err(A2AError::HttpStatus(500)));
    assert_eq!(a.endpoint, Some("http://h:9001".to_string()));
}

#[test]
fn discover_sends_the_wish_as_it_is() {
    let a = agent();
    let r = a.discover(vec!["math".to_string(), "Math".to_string(), "math".to_string()], "http://d:8080");
    assert_eq!(r.url, "http://d:8080/a2a/discover");
    assert_eq!(body_of(&r).get("method"), Some(&Json::text("a2a/discover")));
    assert_eq!(
        body_of(&r).get("params"),
        Some(&object(vec![(
            "capabilities",
            Json::Array(vec![Json::text("math"), Json::text("Math"), Json::text("math")])
        )]))
    );
}

#[test]
fn discover_with_no_capability_sends_an_empty_list() {
    let r = agent().discover(vec![], "http://d:8080");
    assert_eq!(r.method, HttpMethod::Post);
    assert_eq!(body_of(&r).get("params"), Some(&object(vec![("capabilities", Json::Array(vec![]))])));
    assert_eq!(A2AAgent::discovery_params(&vec![]), object(vec![("capabilities", Json::Array(vec![]))]));
}

const TWO_AGENTS: &str = "{\"jsonrpc\":\"2.0\",\"id\":\"1\",\"result\":{\"agents\":[{\"agent_id\":\"calc-1\",\"name\":\"Calculator\",\"capabilities\":[\"math\",\"add\"],\"endpoint\":\"http://h:9001\"},{\"agent_id\":\"calc-2\",\"name\":\"Other\",\"capabilities\":[\"math\"],\"endpoint\":\"http://h:9002\",\"registeredAt\":\"t\"}]}}";

fn calc() -> AgentInfo {
    AgentInfo {
        agent_id: "calc-1".to_string(),
        name: "Calculator".to_string(),
        capabilities: vec!["math".to_string(), "add".to_string()],
        endpoint: "http://h:9001".to_string(),
        registered_at: None,
    }
}

#[test]
fn finish_discover_gives_the_first_agent() {
    assert_eq!(A2AAgent::finish_discover(answered(200, TWO_AGENTS)), Ok(Some(calc())));
}

#[test]
fn finish_discover_all_gives_every_agent_in_order() {
    let all = A2AAgent::finish_discover_all(answered(200, TWO_AGENTS)).unwrap();
    assert_eq!(all.len(), 2);
    assert_eq!(all[0], calc());
    assert_eq!(all[1].agent_id, "calc-2");
    assert_eq!(all[1].registered_at, Some("t".to_string()));
}

#[test]
fn finish_discover_on_no_agents_is_no_match() {
    assert_eq!(
        A2AAgent::finish_discover(answered(200, "{\"jsonrpc\":\"2.0\",\"id\":\"1\",\"result\":{\"agents\":[]}}")),
        Ok(None)
    );
    assert_eq!(
        A2AAgent::finish_discover(answered(200, "{\"jsonrpc\":\"2.0\",\"id\":\"1\",\"result\":{}}")),
        Ok(None)
    );
    assert_eq!(
        A2AAgent::finish_discover(answered(200, "{\"jsonrpc\":\"2.0\",\"id\":\"1\",\"result\":[1,2]}")),
        Ok(None)
    );
    assert_eq!(
        A2AAgent::finish_discover_all(answered(200, "{\"jsonrpc\":\"2.0\",\"id\":\"1\",\"result\":{\"agents\":[]}}")),
        Ok(vec![])
    );
}

#[test]
fn finish_discover_refuses_a_list_that_is_none() {
    assert_eq!(
        A2AAgent::finish_discover(answered(200, "{\"jsonrpc\":\"2.0\",\"id\":\"1\",\"result\":{\"agents\":null}}")),
        Err(A2AError::Decode)
    );
    assert_eq!(
        A2AAgent::finish_discover(answered(200, "{\"jsonrpc\":\"2.0\",\"id\":\"1\",\"result\":{\"agents\":{}}}")),
        Err(A2AError::Decode)
    );
}

#[test]
fn finish_discover_refuses_a_bad_record_anywhere_in_the_list() {
    let body = "{\"jsonrpc\":\"2.0\",\"id\":\"1\",\"result\":{\"agents\":[{\"agent_id\":\"calc-1\",\"name\":\"Calculator\",\"capabilities\":[\"math\",\"add\"],\"endpoint\":\"http://h:9001\"},{\"name\":\"broken\"}]}}";
    assert_eq!(A2AAgent::finish_discover(answered(200, body)), Err(A2AError::Decode));
}

#[test]
fn finish_discover_passes_failures_on() {
    assert_eq!(A2AAgent::finish_discover(answered(500, TWO_AGENTS)), Err(A2AError::HttpStatus(500)));
    assert_eq!(
        A2AAgent::finish_discover(HttpReply::Failed { reason: "r".to_string() }),
        Err(A2AError::Transport("r".to_string()))
    );
}

#[test]
fn listed_agents_reads_a_result() {
    assert_eq!(listed_agents(&object(vec![])), Some(vec![]));
    assert_eq!(listed_agents(&object(vec![("agents", Json::Array(vec![calc().to_json()]))])), Some(vec![calc()]));
    assert_eq!(listed_agents(&object(vec![("agents", Json::Int(1))])), None);
}

#[test]
fn send_task_asks_the_directory_first() {
    let (state, r) = agent().send_task("calc-2", "add", Json::Int(1), "http://d:8080/");
    assert_eq!(
        r,
        HttpRequest { method: HttpMethod::Get, url: "http://d:8080/a2a/agents/calc-2".to_string(), body: None }
    );
    assert_eq!(
        state,
        Dispatch::Resolving {
            target: "calc-2".to_string(),
            action: "add".to_string(),
            sender: "calc-1".to_string(),
            input: Json::Int(1),
        }
    );
}

#[test]
fn an_unknown_agent_ends_the_dispatch_without_a_delivery() {
    let (state, _) = agent().send_task("ghost", "add", Json::Int(1), "http://d");
    assert_eq!(
        state.advance(answered(404, "{\"error\":\"no such agent\"}")),
        DispatchStep::Finished(Err(A2AError::AgentNotFound("ghost".to_string())))
    );
}

#[test]
fn a_directory_that_does_not_answer_ends_the_dispatch() {
    let (state, _) = agent().send_task("calc-2", "add", Json::Int(1), "http://d");
    assert_eq!(
        state.advance(HttpReply::Failed { reason: "refused".to_string() }),
        DispatchStep::Finished(Err(A2AError::Transport("refused".to_string())))
    );
}

#[test]
fn a_record_that_cannot_be_read_ends_the_dispatch() {
    let (state, _) = agent().send_task("calc-2", "add", Json::Int(1), "http://d");
    assert_eq!(state.clone().advance(answered(200, "oops")), DispatchStep::Finished(Err(A2AError::Decode)));
    assert_eq!(
        state.clone().advance(answered(200, "{\"agent_id\":\"calc-2\"}")),
        DispatchStep::Finished(Err(A2AError::Decode))
    );
    assert_eq!(
        state.advance(answered(200, "{\"agent_id\":\"calc-2\",\"name\":\"n\",\"capabilities\":[],\"endpoint\":\"\"}")),
        DispatchStep::Finished(Err(A2AError::Decode))
    );
}

#[test]
fn a_known_agent_gets_the_task_at_its_endpoint() {
    let input = object(vec![("a", Json::Int(10)), ("b", Json::Int(20))]);
    let (state, _) = agent().send_task("calc-2", "add", input.clone(), "http://d");
    let step = state.advance(answered(
        200,
        "{\"agent_id\":\"calc-2\",\"name\":\"Other\",\"capabilities\":[\"math\"],\"endpoint\":\"http://h:9002/rpc\"}",
    ));
    match step {
        DispatchStep::Deliver(next, r) => {
            assert_eq!(next, Dispatch::Delivering);
            assert_eq!(r.method, HttpMethod::Post);
            assert_eq!(r.url, "http://h:9002/rpc");
            let body = body_of(&r);
            assert_eq!(body.get("jsonrpc"), Some(&Json::text("2.0")));
            assert_eq!(body.get("method"), Some(&Json::text("a2a/task")));
            let request_id = body.text_field("id").unwrap();
            assert!(is_token(&request_id));
            let params = TaskParams::from_json(body.get("params").unwrap()).unwrap();
            assert!(is_token(&params.task_id));
            assert_ne!(params.task_id, request_id);
            assert_eq!(params.action, "add");
            assert_eq!(params.sender, "calc-1");
            assert_eq!(params.input, input);
        }
        other => panic!("expected a delivery, got {:?}", other),
    }
}

#[test]
fn the_reply_to_the_delivery_ends_the_dispatch() {
    let done = Dispatch::Delivering.advance(answered(
        200,
        "{\"jsonrpc\":\"2.0\",\"id\":\"1\",\"result\":{\"taskId\":\"t-1\",\"status\":\"ok\",\"output\":{\"result\":30}}}",
    ));
    assert_eq!(
        done,
        DispatchStep::Finished(Ok(TaskResult {
            task_id: "t-1".to_string(),
            status: "ok".to_string(),
            output: Some(object(vec![("result", Json::Int(30))])),
        }))
    );
    assert_eq!(
        Dispatch::Delivering.advance(answered(502, "")),
        DispatchStep::Finished(Err(A2AError::HttpStatus(502)))
    );
}

#[test]
fn a_task_result_without_its_id_is_a_decoding_failure() {
    let body = "{\"jsonrpc\":\"2.0\",\"id\":\"1\",\"result\":{\"status\":\"ok\",\"output\":1}}";
    assert_eq!(finish_task(answered(200, body)), Err(A2AError::Decode));
    assert_eq!(Dispatch::Delivering.advance(answered(200, body)), DispatchStep::Finished(Err(A2AError::Decode)));
    assert_eq!(finish_task(answered(200, "{\"jsonrpc\":\"2.0\",\"id\":\"1\",\"result\":\"done\"}")), Err(A2AError::Decode));
    assert_eq!(finish_task(answered(200, "\u{0}")), Err(A2AError::Decode));
}

#[test]
fn finish_task_passes_failures_on() {
    assert_eq!(
        finish_task(answered(200, "{\"jsonrpc\":\"2.0\",\"id\":\"1\",\"error\":{\"code\":9,\"message\":\"busy\"}}")),
        Err(A2AError::Rpc { code: 9, message: "busy".to_string() })
    );
    assert_eq!(finish_task(answered(200, "{\"jsonrpc\":\"2.0\",\"id\":\"1\"}")), Err(A2AError::MissingResult));
    assert_eq!(
        finish_task(HttpReply::Failed { reason: "reset".to_string() }),
        Err(A2AError::Transport("reset".to_string()))
    );
}

#[test]
fn the_parts_of_a_dispatch_work_on_their_own() {
    assert_eq!(read_target(&calc().to_json()), Ok(calc()));
    assert_eq!(read_target(&Json::Null), Err(A2AError::Decode));
    assert_eq!(resolve("x", answered(301, "")), Err(A2AError::AgentNotFound("x".to_string())));
    assert_eq!(resolve("calc-1", answered(200, "{\"agent_id\":\"calc-1\",\"name\":\"Calculator\",\"capabilities\":[\"math\",\"add\"],\"endpoint\":\"http://h:9001\"}")), Ok(calc()));
    assert_eq!(read_task_result(&Json::Int(1)), Err(A2AError::Decode));
    let params = TaskParams { task_id: "t".to_string(), action: "a".to_string(), sender: "s".to_string(), input: Json::Null };
    let r = delivery("r".to_string(), "http://e", &params);
    assert_eq!(r, request_with_id("r".to_string(), "http://e", "a2a/task", Some(params.to_json())));
}
