//! The Unix-domain-socket transport: a client's exchange and a server's session
//! joined by the lines they send.
use midw::ipc::{IpcEvent, IpcExchange, IpcNodeHandle, IpcPending};
use midw::ipc_server::{
    IpcNodeServer, IpcService, IpcServiceEvent, IpcServicePending, IpcSession, IpcSessionEvent,
};
use midw::node::NodeState;
use midw::protocol::{
    Command, ConfigParams, NodeError, NodeInterface, NodeStatus, Response, TestResult,
};
use midw::text::{decimal_text, frame, pad_right, truth_text, unframe};
use serde_json::Value;

fn tagged(tag: &str, content: Value) -> Value {
    let mut object = serde_json::Map::new();
    object.insert(tag.to_string(), content);
    Value::Object(object)
}

fn text(value: &Value, field: &str) -> Option<String> {
    value.get(field)?.as_str().map(|s| s.to_string())
}

fn encode_command(command: &Command) -> String {
    let value = match command {
        Command::Start => Value::from("Start"),
        Command::Stop => Value::from("Stop"),
        Command::Query => Value::from("Query"),
        Command::Test => Value::from("Test"),
        Command::Config(params) => {
            let mut fields = serde_json::Map::new();
            fields.insert("key".to_string(), Value::from(params.key.as_str()));
            fields.insert("value".to_string(), Value::from(params.value.as_str()));
            tagged("Config", Value::Object(fields))
        }
    };
    serde_json::to_string(&value).unwrap()
}

fn decode_command(json: &str) -> Result<Command, String> {
    let value: Value = serde_json::from_str(json).map_err(|e| e.to_string())?;
    match value.as_str() {
        Some("Start") => return Ok(Command::Start),
        Some("Stop") => return Ok(Command::Stop),
        Some("Query") => return Ok(Command::Query),
        Some("Test") => return Ok(Command::Test),
        _ => {}
    }
    let params = value.get("Config").ok_or("unknown variant")?;
    Ok(Command::Config(ConfigParams {
        key: text(params, "key").ok_or("missing field `key`")?,
        value: text(params, "value").ok_or("missing field `value`")?,
    }))
}

fn encode_response(response: &Response) -> String {
    let value = match response {
        Response::Completed => Value::from("Ok"),
        Response::Error(message) => tagged("Error", Value::from(message.as_str())),
        Response::Status(s) => {
            let mut fields = serde_json::Map::new();
            fields.insert("id".to_string(), Value::from(s.id.as_str()));
            fields.insert("running".to_string(), Value::from(s.running));
            fields.insert("uptime_secs".to_string(), Value::from(s.uptime_secs));
            fields.insert("message_count".to_string(), Value::from(s.message_count));
            tagged("Status", Value::Object(fields))
        }
        Response::TestResult(t) => {
            let mut fields = serde_json::Map::new();
            fields.insert("passed".to_string(), Value::from(t.passed));
            fields.insert("message".to_string(), Value::from(t.message.as_str()));
            fields.insert("details".to_string(), Value::from(t.details.clone()));
            tagged("TestResult", Value::Object(fields))
        }
    };
    serde_json::to_string(&value).unwrap()
}

fn decode_response(json: &str) -> Result<Response, String> {
    let value: Value = serde_json::from_str(json).map_err(|e| e.to_string())?;
    if value.as_str() == Some("Ok") {
        return Ok(Response::Completed);
    }
    if let Some(message) = text(&value, "Error") {
        return Ok(Response::Error(message));
    }
    if let Some(s) = value.get("Status") {
        return Ok(Response::Status(NodeStatus {
            id: text(s, "id").ok_or("id")?,
            running: s["running"].as_bool().ok_or("running")?,
            uptime_secs: s["uptime_secs"].as_u64().ok_or("uptime_secs")?,
            message_count: s["message_count"].as_u64().ok_or("message_count")?,
        }));
    }
    let t = value.get("TestResult").ok_or("unknown variant")?;
    let details = t["details"].as_array().ok_or("details")?;
    Ok(Response::TestResult(TestResult {
        passed: t["passed"].as_bool().ok_or("passed")?,
        message: text(t, "message").ok_or("message")?,
        details: details.iter().map(|d| d.as_str().unwrap_or("").to_string()).collect(),
    }))
}

/// The first line of an input, with its line feed.
fn read_line(input: &str) -> String {
    match input.find('\n') {
        Some(end) => input[..=end].to_string(),
        None => input.to_string(),
    }
}

/// What a server writes back on a connection that brings `input`.
fn serve_connection(state: &mut NodeState, input: &str) -> String {
    let mut written = String::new();
    let mut session = IpcSession::new();
    loop {
        let event = match &session {
            IpcSession::Receive => IpcSessionEvent::Text(read_line(input)),
            IpcSession::Decode(json) => match decode_command(json) {
                Ok(command) => IpcSessionEvent::Decoded(command),
                Err(reason) => IpcSessionEvent::Failed(reason),
            },
            IpcSession::Apply(_) => {
                session = session.apply(state);
                continue;
            }
            IpcSession::Encode(response) | IpcSession::EncodeRefusal(response) => {
                IpcSessionEvent::Text(encode_response(response))
            }
            IpcSession::Send(line) => {
                written.push_str(line);
                IpcSessionEvent::Succeeded
            }
            IpcSession::Closed => return written,
        };
        session = session.step(event);
    }
}

struct Pair {
    handle: IpcNodeHandle,
    service: IpcService,
    state: NodeState,
}

fn make_pair(id: &str) -> Pair {
    let socket_path = format!("/tmp/midw-test-{}.sock", id);
    let server = IpcNodeServer::new(id.to_string(), socket_path.clone());
    let mut service = server.serve();
    assert!(matches!(service.pending, IpcServicePending::RemoveStale));
    service = service.step(IpcServiceEvent::Failed("no such file".to_string()));
    assert!(matches!(service.pending, IpcServicePending::Bind));
    service = service.step(IpcServiceEvent::Succeeded);
    assert!(matches!(service.pending, IpcServicePending::Accept));
    let state = service.node_state();
    Pair { handle: IpcNodeHandle::new(id.to_string(), socket_path), service, state }
}

/// Carries an exchange to a server that answers with `serve`.
fn carry<F: FnMut(&str) -> String>(
    mut exchange: IpcExchange,
    mut serve: F,
) -> Result<Response, NodeError> {
    let mut sent = String::new();
    loop {
        let event = match exchange.pending {
            IpcPending::Over(outcome) => return outcome,
            IpcPending::Connect(_) => IpcEvent::Succeeded,
            IpcPending::Encode(ref command) => IpcEvent::Text(encode_command(command)),
            IpcPending::Send(ref line) => {
                sent.push_str(line);
                IpcEvent::Succeeded
            }
            IpcPending::EndInput => IpcEvent::Succeeded,
            IpcPending::Receive => IpcEvent::Text(read_line(&serve(&sent))),
            IpcPending::Decode(ref json) => match decode_response(json) {
                Ok(response) => IpcEvent::Decoded(response),
                Err(reason) => IpcEvent::Failed(reason),
            },
        };
        exchange = exchange.step(event);
    }
}

impl Pair {
    fn call(&mut self, exchange: IpcExchange) -> Result<Response, NodeError> {
        assert!(matches!(self.service.pending, IpcServicePending::Accept));
        let state = &mut self.state;
        carry(exchange, |input| serve_connection(state, input))
    }

    fn start(&mut self) -> Result<Response, NodeError> {
        let exchange = self.handle.start();
        self.call(exchange)
    }

    fn stop(&mut self) -> Result<Response, NodeError> {
        let exchange = self.handle.stop();
        self.call(exchange)
    }

    fn query(&mut self) -> Result<Response, NodeError> {
        let exchange = self.handle.query();
        self.call(exchange)
    }

    fn config(&mut self, params: ConfigParams) -> Result<Response, NodeError> {
        let exchange = self.handle.config(params);
        self.call(exchange)
    }

    fn test(&mut self) -> Result<Response, NodeError> {
        let exchange = self.handle.test();
        self.call(exchange)
    }
}

#[test]
fn ipc_start_stop() {
    let mut handle = make_pair("ipc-test-A");
    assert!(matches!(handle.start().unwrap(), Response::Completed));
    assert!(matches!(handle.stop().unwrap(), Response::Completed));
}

#[test]
fn ipc_query() {
    let mut handle = make_pair("ipc-test-B");
    handle.start().unwrap();
    match handle.query().unwrap() {
        Response::Status(s) => assert!(s.running),
        other => panic!("unexpected: {:?}", other),
    }
}

#[test]
fn ipc_config() {
    let mut handle = make_pair("ipc-test-C");
    let resp = handle
        .config(ConfigParams { key: "rate".to_string(), value: "100".to_string() })
        .unwrap();
    assert!(matches!(resp, Response::Completed));
}

#[test]
fn ipc_test_pass_fail() {
    let mut handle = make_pair("ipc-test-D");
    match handle.test().unwrap() {
        Response::TestResult(t) => assert!(!t.passed),
        other => panic!("unexpected: {:?}", other),
    }
    handle.start().unwrap();
    match handle.test().unwrap() {
        Response::TestResult(t) => assert!(t.passed),
        other => panic!("unexpected: {:?}", other),
    }
}

#[test]
fn ipc_concurrent_requests() {
    let mut pair = make_pair("ipc-conc");
    let mut sessions = Vec::new();
    for i in 0..5 {
        let h = IpcNodeHandle::new(format!("ipc-conc-{}", i), "/tmp/midw-test.sock".to_string());
        assert_eq!(h.id(), format!("ipc-conc-{}", i));
        let session = IpcSession::new()
            .step(IpcSessionEvent::Text(frame(&encode_command(&Command::Query))))
            .step(IpcSessionEvent::Decoded(Command::Query));
        sessions.push((h.query(), session));
    }
    let mut counts = Vec::new();
    for (exchange, session) in sessions {
        let line = match session.apply(&mut pair.state) {
            IpcSession::Encode(response) => frame(&encode_response(&response)),
            _ => panic!("a query has a response"),
        };
        match carry(exchange, |_| line.clone()).unwrap() {
            Response::Status(s) => counts.push(s.message_count),
            other => panic!("unexpected: {:?}", other),
        }
    }
    assert_eq!(counts, vec![1, 2, 3, 4, 5]);
}

#[test]
fn request_and_reply_are_one_line_each() {
    let handle = IpcNodeHandle::new("C".to_string(), "/tmp/midw-C.sock".to_string());
    let params = ConfigParams { key: "a\nb".to_string(), value: " \t ".to_string() };
    let exchange = handle.config(params);
    assert_eq!(exchange.socket_path, "/tmp/midw-C.sock");
    let exchange = exchange.step(IpcEvent::Succeeded);
    let json = match exchange.pending {
        IpcPending::Encode(ref command) => encode_command(command),
        _ => panic!("the command is encoded after the connection is there"),
    };
    let exchange = exchange.step(IpcEvent::Text(json.clone()));
    let line = match exchange.pending {
        IpcPending::Send(ref line) => line.clone(),
        _ => panic!("the encoded command is sent"),
    };
    assert_eq!(line, format!("{}\n", json));
    assert_eq!(line.matches('\n').count(), 1);
    assert_eq!(unframe(&line), Some(json));
    let mut state = NodeState::new("C".to_string());
    assert_eq!(serve_connection(&mut state, &line), "\"Ok\"\n");
    assert_eq!(state.message_count(), 1);
}

#[test]
fn bad_request_is_answered_and_leaves_the_node() {
    let mut state = NodeState::new("C".to_string());
    let reply = serve_connection(&mut state, "{nonsense}\n");
    match decode_response(reply.trim()).unwrap() {
        Response::Error(message) => assert!(message.starts_with("parse error: key must be a string")),
        other => panic!("unexpected: {:?}", other),
    }
    assert_eq!(state.message_count(), 0);
}

#[test]
fn empty_request_is_not_answered() {
    let mut state = NodeState::new("C".to_string());
    for input in ["", "\n", " \t\r\n", "\u{a0}\u{2003}\u{3000}\n\"Start\"\n"] {
        assert_eq!(serve_connection(&mut state, input), "");
    }
    assert_eq!(state.message_count(), 0);
}

#[test]
fn only_the_first_line_is_a_request() {
    let mut state = NodeState::new("C".to_string());
    assert_eq!(serve_connection(&mut state, "  \"Start\" \r\n\"Stop\"\n"), "\"Ok\"\n");
    assert_eq!(state.message_count(), 1);
}

#[test]
fn session_failures() {
    let failed = || IpcSessionEvent::Failed("broken".to_string());
    assert!(matches!(IpcSession::Receive.step(failed()), IpcSession::Closed));
    assert!(matches!(IpcSession::Encode(Response::Completed).step(failed()), IpcSession::Closed));
    let refusal = IpcSession::EncodeRefusal(Response::Completed).step(failed());
    assert!(matches!(refusal, IpcSession::Send(line) if line == "\n"));
    let refused = IpcSession::Decode("x".to_string()).step(failed());
    assert!(matches!(
        refused,
        IpcSession::EncodeRefusal(Response::Error(message)) if message == "parse error: broken"
    ));
    assert!(matches!(IpcSession::Send("x\n".to_string()).step(failed()), IpcSession::Closed));
    assert!(matches!(IpcSession::Closed.step(failed()), IpcSession::Closed));
    assert!(matches!(
        IpcSession::Receive.step(IpcSessionEvent::Succeeded),
        IpcSession::Receive
    ));
    let mut state = NodeState::new("C".to_string());
    assert!(matches!(IpcSession::Receive.apply(&mut state), IpcSession::Receive));
    assert_eq!(state.message_count(), 0);
}

fn exchange_at(pending: IpcPending) -> IpcExchange {
    IpcExchange {
        node_id: "C".to_string(),
        socket_path: "/tmp/c.sock".to_string(),
        pending,
    }
}

fn outcome_after(pending: IpcPending, event: IpcEvent) -> Result<Response, NodeError> {
    match exchange_at(pending).step(event).pending {
        IpcPending::Over(outcome) => outcome,
        _ => panic!("the call is not over"),
    }
}

#[test]
fn each_failing_step_has_its_error() {
    let failed = || IpcEvent::Failed("refused".to_string());
    assert!(matches!(
        outcome_after(IpcPending::Connect(Command::Start), failed()),
        Err(NodeError::Communication(message))
            if message == "cannot connect to node 'C' at /tmp/c.sock: refused"
    ));
    assert!(matches!(
        outcome_after(IpcPending::Encode(Command::Start), failed()),
        Err(NodeError::Serialization(message)) if message == "refused"
    ));
    for pending in [IpcPending::Send("x\n".to_string()), IpcPending::EndInput, IpcPending::Receive]
    {
        assert!(matches!(
            outcome_after(pending, failed()),
            Err(NodeError::Io(message)) if message == "refused"
        ));
    }
    assert!(matches!(
        outcome_after(IpcPending::Decode("x".to_string()), failed()),
        Err(NodeError::Serialization(message)) if message == "refused"
    ));
}

#[test]
fn closed_connection_is_a_communication_error() {
    assert!(matches!(
        outcome_after(IpcPending::Receive, IpcEvent::Text(String::new())),
        Err(NodeError::Communication(message))
            if message == "node 'C' closed connection without a response"
    ));
    // A line of white space is no response either, but it is one to decode.
    let blank = exchange_at(IpcPending::Receive).step(IpcEvent::Text("\n".to_string()));
    assert!(matches!(blank.pending, IpcPending::Decode(json) if json.is_empty()));
}

#[test]
fn a_call_that_is_over_stays_over() {
    let over = exchange_at(IpcPending::Over(Ok(Response::Completed)));
    let still = over.step(IpcEvent::Failed("late".to_string()));
    assert!(matches!(still.pending, IpcPending::Over(Ok(Response::Completed))));
    let waiting = exchange_at(IpcPending::Receive).step(IpcEvent::Succeeded);
    assert!(matches!(waiting.pending, IpcPending::Receive));
}

#[test]
fn service_that_cannot_bind_or_accept() {
    let service = IpcNodeServer::new("C".to_string(), "/tmp/c.sock".to_string()).serve();
    assert_eq!(service.node_id, "C");
    assert_eq!(service.socket_path, "/tmp/c.sock");
    let service = service.step(IpcServiceEvent::Succeeded);
    let unbound = service.step(IpcServiceEvent::Failed("in use".to_string()));
    assert!(matches!(unbound.pending, IpcServicePending::NotBound(reason) if reason == "in use"));

    let service = make_pair("C").service.step(IpcServiceEvent::Succeeded);
    assert!(matches!(service.pending, IpcServicePending::Accept));
    let ended = service.step(IpcServiceEvent::Failed("too many files".to_string()));
    assert!(matches!(ended.pending, IpcServicePending::Ended));
}

#[test]
fn unframing_drops_white_space_as_str_trim_does() {
    let mut every: String = String::new();
    for code in 0..0x11_0000u32 {
        if let Some(c) = char::from_u32(code) {
            if c.is_whitespace() {
                every.push(c);
            }
        }
    }
    assert_eq!(every.chars().count(), 25);
    assert_eq!(unframe(&every), None);
    assert_eq!(unframe(&format!("{}x y{}", every, every)), Some("x y".to_string()));
    assert_eq!(unframe("\u{200b}x"), Some("\u{200b}x".to_string()));
}

#[test]
fn numbers_words_and_padding() {
    for n in [0, 7, 10, 99, 100, 1_234_567_890, u64::MAX] {
        assert_eq!(decimal_text(n), n.to_string());
    }
    assert_eq!(truth_text(true), "true");
    assert_eq!(truth_text(false), "false");
    assert_eq!(pad_right("é—x", 5), "é—x  ");
    assert_eq!(pad_right("abcdef", 5), "abcdef");
    assert_eq!(pad_right("", 0), "");
}
