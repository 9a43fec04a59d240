//! Local nodes: a handle, the state behind it, and the queue in between.
use midw::local::{LocalCall, LocalEnd, LocalExchange, LocalNodeHandle};
use midw::node::{NodeState, LAST_READING, NANOS_PER_SEC};
use midw::protocol::{Command, ConfigParams, NodeError, NodeInterface, Response};

struct LocalNode {
    handle: LocalNodeHandle,
    state: NodeState,
}

impl LocalNode {
    fn new(id: &str, capacity: usize) -> LocalNode {
        let handle = LocalNodeHandle::new(id.to_string(), capacity);
        let state = handle.node_state();
        LocalNode { handle, state }
    }

    fn carry(&mut self, exchange: LocalExchange) -> Result<Response, NodeError> {
        let LocalExchange { command, call } = exchange;
        let response = self.state.handle(command);
        call.finish(LocalEnd::Replied(response))
    }

    fn start(&mut self) -> Result<Response, NodeError> {
        let exchange = self.handle.start();
        self.carry(exchange)
    }

    fn stop(&mut self) -> Result<Response, NodeError> {
        let exchange = self.handle.stop();
        self.carry(exchange)
    }

    fn query(&mut self) -> Result<Response, NodeError> {
        let exchange = self.handle.query();
        self.carry(exchange)
    }

    fn config(&mut self, params: ConfigParams) -> Result<Response, NodeError> {
        let exchange = self.handle.config(params);
        self.carry(exchange)
    }

    fn test(&mut self) -> Result<Response, NodeError> {
        let exchange = self.handle.test();
        self.carry(exchange)
    }
}

fn set(key: &str, value: &str) -> Command {
    Command::Config(ConfigParams { key: key.to_string(), value: value.to_string() })
}

#[test]
fn start_stop_cycle() {
    let mut node = LocalNode::new("test-A", 8);

    match node.query().unwrap() {
        Response::Status(s) => assert!(!s.running),
        other => panic!("unexpected: {:?}", other),
    }
    assert!(matches!(node.start().unwrap(), Response::Completed));
    match node.query().unwrap() {
        Response::Status(s) => assert!(s.running),
        other => panic!("unexpected: {:?}", other),
    }
    assert!(matches!(node.stop().unwrap(), Response::Completed));
    assert!(matches!(node.stop().unwrap(), Response::Error(_)));
}

#[test]
fn config_applied() {
    let mut node = LocalNode::new("test-B", 8);
    let params = ConfigParams { key: "timeout".to_string(), value: "30".to_string() };
    assert!(matches!(node.config(params).unwrap(), Response::Completed));
}

#[test]
fn test_fails_when_stopped() {
    let mut node = LocalNode::new("test-C", 8);
    match node.test().unwrap() {
        Response::TestResult(t) => assert!(!t.passed),
        other => panic!("unexpected: {:?}", other),
    }
}

#[test]
fn test_passes_when_running() {
    let mut node = LocalNode::new("test-D", 8);
    node.start().unwrap();
    match node.test().unwrap() {
        Response::TestResult(t) => assert!(t.passed),
        other => panic!("unexpected: {:?}", other),
    }
}

#[test]
fn second_start_is_refused_and_counted() {
    let mut state = NodeState::new("A".to_string());
    assert!(matches!(state.handle_at(Command::Start, 0), Response::Completed));
    match state.handle_at(Command::Start, 7) {
        Response::Error(message) => assert_eq!(message, "node 'A' is already running"),
        other => panic!("unexpected: {:?}", other),
    }
    assert_eq!(state.message_count(), 2);
}

#[test]
fn stop_of_a_stopped_node_is_refused() {
    let mut state = NodeState::new("A".to_string());
    match state.handle_at(Command::Stop, 0) {
        Response::Error(message) => assert_eq!(message, "node 'A' is not running"),
        other => panic!("unexpected: {:?}", other),
    }
}

#[test]
fn self_test_details_are_exact() {
    let mut state = NodeState::new("D".to_string());
    state.handle_at(set("rate", "100"), 0);
    state.handle_at(set("rate", "200"), 0);
    state.handle_at(set("retries", "3"), 0);
    match state.handle_at(Command::Test, 0) {
        Response::TestResult(t) => {
            assert!(!t.passed);
            assert_eq!(t.message, "node 'D' self-test failed: node not running");
            assert_eq!(
                t.details,
                vec!["running: false", "message_count: 4", "config_entries: 2"]
            );
        }
        other => panic!("unexpected: {:?}", other),
    }
    state.handle_at(Command::Start, 0);
    match state.handle_at(Command::Test, 0) {
        Response::TestResult(t) => {
            assert!(t.passed);
            assert_eq!(t.message, "node 'D' self-test passed");
            assert_eq!(
                t.details,
                vec!["running: true", "message_count: 6", "config_entries: 2"]
            );
        }
        other => panic!("unexpected: {:?}", other),
    }
}

fn status_at(state: &mut NodeState, now: u128) -> (bool, u64, u64) {
    match state.handle_at(Command::Query, now) {
        Response::Status(s) => (s.running, s.uptime_secs, s.message_count),
        other => panic!("unexpected: {:?}", other),
    }
}

#[test]
fn uptime_counts_whole_seconds_from_the_start() {
    let mut state = NodeState::new("U".to_string());
    assert_eq!(status_at(&mut state, 5 * NANOS_PER_SEC), (false, 0, 1));
    state.handle_at(Command::Start, 5 * NANOS_PER_SEC);
    assert_eq!(status_at(&mut state, 6 * NANOS_PER_SEC - 1), (true, 0, 3));
    assert_eq!(status_at(&mut state, 6 * NANOS_PER_SEC), (true, 1, 4));
    state.handle_at(Command::Start, 7 * NANOS_PER_SEC);
    assert_eq!(status_at(&mut state, 65 * NANOS_PER_SEC), (true, 60, 6));
    state.handle_at(Command::Stop, 66 * NANOS_PER_SEC);
    assert_eq!(status_at(&mut state, 67 * NANOS_PER_SEC), (false, 0, 8));
    state.handle_at(Command::Start, 70 * NANOS_PER_SEC);
    assert_eq!(status_at(&mut state, 72 * NANOS_PER_SEC), (true, 2, 10));
}

#[test]
fn uptime_reaches_the_last_reading() {
    let mut state = NodeState::new("U".to_string());
    state.handle_at(Command::Start, 0);
    assert_eq!(status_at(&mut state, LAST_READING), (true, u64::MAX, 2));
}

#[test]
fn uptime_follows_the_clock_of_the_node() {
    let handle = LocalNodeHandle::new("K".to_string(), 1);
    let mut state = handle.node_state();
    assert_eq!(state.message_count(), 0);
    state.handle(Command::Start);
    let started = state.clock();
    while state.clock() < started + NANOS_PER_SEC {
        if state.message_count() < 3 {
            state.handle(set("k", "v"));
        }
    }
    match state.handle(Command::Query) {
        Response::Status(s) => {
            assert_eq!(s.id, "K");
            assert!(s.running && s.uptime_secs >= 1);
            assert_eq!(s.message_count, 4);
        }
        other => panic!("unexpected: {:?}", other),
    }
}

#[test]
fn the_clock_of_a_node_goes_on() {
    let state = NodeState::new("K".to_string());
    let first = state.clock();
    while state.clock() <= first {}
    assert!(state.clock() > first);
    assert!(first <= LAST_READING);
}

#[test]
fn stop_takes_a_start_back() {
    let mut state = NodeState::new("A".to_string());
    state.handle_at(set("k", "v"), 0);
    state.handle_at(Command::Start, 1);
    state.handle_at(Command::Stop, 2);
    assert_eq!(status_at(&mut state, 3), (false, 0, 4));
}

#[test]
fn running_follows_the_last_switch() {
    let mut state = NodeState::new("A".to_string());
    let commands = vec![
        (Command::Start, true),
        (Command::Query, true),
        (Command::Stop, false),
        (Command::Stop, false),
        (set("a", "b"), false),
        (Command::Start, true),
        (Command::Start, true),
        (Command::Test, true),
    ];
    for (command, running) in commands {
        state.handle(command);
        assert_eq!(status_at(&mut state, 0).0, running);
    }
}

#[test]
fn lost_calls_are_communication_errors() {
    let closed = LocalCall { node_id: "A".to_string() }.finish(LocalEnd::ChannelClosed);
    match closed {
        Err(NodeError::Communication(message)) => assert_eq!(message, "node 'A' channel closed"),
        other => panic!("unexpected: {:?}", other),
    }
    let dropped = LocalCall { node_id: "B".to_string() }.finish(LocalEnd::ReplyDropped);
    match dropped {
        Err(NodeError::Communication(message)) => assert_eq!(message, "node 'B' reply dropped"),
        other => panic!("unexpected: {:?}", other),
    }
}

#[test]
fn each_operation_sends_its_command() {
    let handle = LocalNodeHandle::new("A".to_string(), 1);
    assert_eq!(handle.id(), "A");
    assert_eq!(handle.capacity(), 1);
    assert!(matches!(handle.start().command, Command::Start));
    assert!(matches!(handle.stop().command, Command::Stop));
    assert!(matches!(handle.query().command, Command::Query));
    assert!(matches!(handle.test().command, Command::Test));
    let params = ConfigParams { key: "k".to_string(), value: "v".to_string() };
    match handle.config(params.clone()).command {
        Command::Config(sent) => assert_eq!(sent, params),
        other => panic!("unexpected: {:?}", other),
    }
    let twin = handle.clone();
    assert_eq!(twin.id(), "A");
    assert_eq!(twin.start().call.node_id, "A");
}
