use a2a::agent::A2AAgent;
use a2a::codec::render;
use a2a::dispatch::DispatchStep;
use a2a::envelope::RpcRequest;
use a2a::error::A2AError;
use a2a::json::Json;
use a2a::records::{TaskParams, TaskResult};
use a2a::server::A2AServer;
use a2a::transport::HttpReply;

fn object(members: Vec<(&str, Json)>) -> Json {
    Json::Object(members.into_iter().map(|(k, v)| (k.to_string(), v)).collect())
}

fn number(input: &Json, key: &str) -> i128 {
    match input.get(key) {
        Some(Json::Int(i)) => *i,
        _ => 0,
    }
}

fn calculator(action: String, input: Json, _sender: String) -> Json {
    match action.as_str() {
        "add" => object(vec![("result", Json::Int(number(&input, "a") + number(&input, "b")))]),
        "echo" => object(vec![("echo", input.get("message").cloned().unwrap_or(Json::Null))]),
        _ => object(vec![("error", Json::text("Unknown action"))]),
    }
}

fn task(action: &str, input: Json) -> TaskParams {
    TaskParams { task_id: "t-1".to_string(), action: action.to_string(), sender: "me".to_string(), input }
}

#[test]
fn a_new_server_has_no_handler() {
    let server: A2AServer<fn(String, Json, String) -> Json> =
        A2AServer::new("calc-1", "Calculator", vec!["math".to_string()], 9001);
    assert_eq!(server.port(), 9001);
    assert_eq!(server.agent_id(), "calc-1");
    assert_eq!(server.serve(task("add", Json::Null)), None);
    assert_eq!(server.answer("r-1".to_string(), task("add", Json::Null)), None);
}

#[test]
fn serve_hands_the_task_to_the_handler() {
    let mut server = A2AServer::new("calc-1", "Calculator", vec!["math".to_string()], 9001);
    server.handle_task(calculator);
    let result = server.serve(task("add", object(vec![("a", Json::Int(10)), ("b", Json::Int(20))])));
    assert_eq!(
        result,
        Some(TaskResult {
            task_id: "t-1".to_string(),
            status: "ok".to_string(),
            output: Some(object(vec![("result", Json::Int(30))])),
        })
    );
}

#[test]
fn the_handler_sees_action_input_and_sender() {
    let mut server = A2AServer::new("calc-1", "Calculator", vec![], 1);
    server.handle_task(|action: String, input: Json, sender: String| {
        Json::Array(vec![Json::Text(action), input, Json::Text(sender)])
    });
    let result = server.serve(task("act", Json::Bool(true))).unwrap();
    assert_eq!(
        result.output,
        Some(Json::Array(vec![Json::text("act"), Json::Bool(true), Json::text("me")]))
    );
}

#[test]
fn an_action_that_the_handler_does_not_know_is_the_handlers_affair() {
    let mut server = A2AServer::new("calc-1", "Calculator", vec![], 1);
    server.handle_task(calculator);
    let result = server.serve(task("fly", Json::Null)).unwrap();
    assert_eq!(result.status, "ok");
    assert_eq!(result.output, Some(object(vec![("error", Json::text("Unknown action"))])));
}

#[test]
fn a_later_handler_takes_the_place_of_the_one_before() {
    let mut server: A2AServer<fn(String, Json, String) -> Json> = A2AServer::new("a", "n", vec![], 1);
    server.handle_task(|_, _, _| Json::Int(1));
    server.handle_task(|_, _, _| Json::Int(2));
    assert_eq!(server.serve(task("x", Json::Null)).unwrap().output, Some(Json::Int(2)));
}

#[test]
fn completed_wraps_an_output() {
    assert_eq!(
        TaskResult::completed("t".to_string(), Json::Null),
        TaskResult { task_id: "t".to_string(), status: "ok".to_string(), output: Some(Json::Null) }
    );
}

#[test]
fn answer_wraps_the_result_as_a_response() {
    let mut server = A2AServer::new("calc-1", "Calculator", vec![], 1);
    server.handle_task(calculator);
    let response = server.answer("r-1".to_string(), task("echo", object(vec![("message", Json::text("hi"))]))).unwrap();
    assert_eq!(response.jsonrpc, "2.0");
    assert_eq!(response.id, "r-1");
    assert_eq!(response.error, None);
    assert_eq!(
        response.result,
        Some(object(vec![
            ("taskId", Json::text("t-1")),
            ("status", Json::text("ok")),
            ("output", object(vec![("echo", Json::text("hi"))])),
        ]))
    );
}

#[test]
fn a_registers_is_found_and_adds_ten_and_twenty() {
    // The agent registers with the directory.
    let mut calc = A2AAgent::new("calc-1", "Calculator", vec!["math".to_string(), "add".to_string()]);
    let registration = calc.register("http://h:9001", "http://dir");
    assert_eq!(registration.url, "http://dir/a2a/register");
    let record = object(vec![
        ("agent_id", Json::text("calc-1")),
        ("name", Json::text("Calculator")),
        ("capabilities", Json::Array(vec![Json::text("math"), Json::text("add")])),
        ("endpoint", Json::text("http://h:9001")),
    ]);
    assert_eq!(calc.endpoint, None);
    assert_eq!(
        calc.finish_register(
            "http://h:9001",
            HttpReply::Answered {
                status: 200,
                body: b"{\"jsonrpc\":\"2.0\",\"id\":\"x\",\"result\":{\"registered\":true}}".to_vec(),
            }
        ),
        Ok(())
    );
    assert_eq!(calc.endpoint, Some("http://h:9001".to_string()));

    // Another agent finds it by capability.
    let caller = A2AAgent::new("user-1", "User", vec![]);
    let discovery = caller.discover(vec!["math".to_string()], "http://dir");
    assert_eq!(discovery.url, "http://dir/a2a/discover");
    let listing = object(vec![
        ("jsonrpc", Json::text("2.0")),
        ("id", Json::text("y")),
        ("result", object(vec![("agents", Json::Array(vec![record.clone()]))])),
    ]);
    let found = A2AAgent::finish_discover(HttpReply::Answered { status: 200, body: render(&listing).unwrap() })
        .unwrap()
        .unwrap();
    assert_eq!(found.agent_id, "calc-1");
    assert_eq!(found.capabilities, vec!["math".to_string(), "add".to_string()]);

    // It hands over a task: first the directory is asked for the endpoint.
    let input = object(vec![("a", Json::Int(10)), ("b", Json::Int(20))]);
    let (state, lookup) = caller.send_task("calc-1", "add", input.clone(), "http://dir");
    assert_eq!(lookup.url, "http://dir/a2a/agents/calc-1");
    let step = state.advance(HttpReply::Answered { status: 200, body: render(&record).unwrap() });
    let (state, delivery) = match step {
        DispatchStep::Deliver(state, delivery) => (state, delivery),
        other => panic!("expected a delivery, got {:?}", other),
    };
    assert_eq!(delivery.url, "http://h:9001");

    // The target reads the request from its text, works it off and answers.
    let sent = a2a::codec::parse(&render(delivery.body.as_ref().unwrap()).unwrap()).unwrap();
    let request = RpcRequest::from_json(&sent).unwrap();
    assert_eq!(request.method, "a2a/task");
    let params = TaskParams::from_json(&request.params.unwrap()).unwrap();
    assert_eq!(params.input, input);
    assert_eq!(params.sender, "user-1");
    let task_id = params.task_id.clone();
    let mut server = A2AServer::new("calc-1", "Calculator", vec!["math".to_string(), "add".to_string()], 9001);
    server.handle_task(calculator);
    let response = server.answer(request.id, params).unwrap();

    // The caller reads the answer.
    let done = state.advance(HttpReply::Answered { status: 200, body: render(&response.to_json()).unwrap() });
    assert_eq!(
        done,
        DispatchStep::Finished(Ok(TaskResult {
            task_id,
            status: "ok".to_string(),
            output: Some(object(vec![("result", Json::Int(30))])),
        }))
    );
}

#[test]
fn a_failure_of_the_target_reaches_the_caller() {
    let caller = A2AAgent::new("user-1", "User", vec![]);
    let (state, _) = caller.send_task("calc-1", "add", Json::Null, "http://dir");
    let step = state.advance(HttpReply::Answered {
        status: 200,
        body: b"{\"agent_id\":\"calc-1\",\"name\":\"Calculator\",\"capabilities\":[],\"endpoint\":\"http://h:9001\"}".to_vec(),
    });
    let state = match step {
        DispatchStep::Deliver(state, _) => state,
        other => panic!("expected a delivery, got {:?}", other),
    };
    let failure = a2a::envelope::RpcResponse::failure("r".to_string(), -32000, "handler failed".to_string());
    assert_eq!(
        state.advance(HttpReply::Answered { status: 200, body: render(&failure.to_json()).unwrap() }),
        DispatchStep::Finished(Err(A2AError::Rpc { code: -32000, message: "handler failed".to_string() }))
    );
}
