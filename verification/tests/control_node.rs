//! The control node: registration, single calls and broadcasts.
use midw::control::{join_results, ControlNode, TaskEnd};
use midw::link::LinkedNode;
use midw::local::{LocalEnd, LocalExchange, LocalNodeHandle};
use midw::node::NodeState;
use midw::protocol::{Command, ConfigParams, NodeError, NodeInterface, Response};
use midw::registry::{text_is_below, Registry};
use midw::report::{result_line, result_lines, section_lines};
use std::sync::Arc;

struct Nodes {
    states: Vec<(String, NodeState)>,
}

impl Nodes {
    fn of(ids: &[&str]) -> Nodes {
        Nodes {
            states: ids.iter().map(|id| (id.to_string(), NodeState::new(id.to_string()))).collect(),
        }
    }

    fn carry(&mut self, exchange: LocalExchange) -> Result<Response, NodeError> {
        let LocalExchange { command, call } = exchange;
        let state = self.states.iter_mut().find(|(id, _)| *id == call.node_id).unwrap();
        let response = state.1.handle(command);
        call.finish(LocalEnd::Replied(response))
    }

    fn carry_all(
        &mut self,
        exchanges: Vec<(String, LocalExchange)>,
    ) -> Registry<Result<Response, NodeError>> {
        let mut tasks = Vec::new();
        for (id, exchange) in exchanges {
            tasks.push((id, TaskEnd::Finished(self.carry(exchange))));
        }
        join_results(tasks)
    }
}

fn make_control_with_two_local_nodes() -> (ControlNode<LocalNodeHandle>, Nodes) {
    let mut ctrl = ControlNode::new("X".to_string());
    ctrl.register(LocalNodeHandle::new("A".to_string(), 8));
    ctrl.register(LocalNodeHandle::new("B".to_string(), 8));
    (ctrl, Nodes::of(&["A", "B"]))
}

#[test]
fn start_all_returns_ok_for_all_nodes() {
    let (ctrl, mut nodes) = make_control_with_two_local_nodes();
    let results = nodes.carry_all(ctrl.start_all());
    assert_eq!(results.len(), 2);
    for i in 0..results.len() {
        assert!(
            matches!(results.value_at(i), Ok(Response::Completed)),
            "node {} returned unexpected {:?}",
            results.id_at(i),
            results.value_at(i)
        );
    }
}

#[test]
fn query_all_after_start() {
    let (ctrl, mut nodes) = make_control_with_two_local_nodes();
    nodes.carry_all(ctrl.start_all());
    let results = nodes.carry_all(ctrl.query_all());
    assert_eq!(results.len(), 2);
    for i in 0..results.len() {
        match results.value_at(i).as_ref().unwrap() {
            Response::Status(s) => assert!(s.running),
            other => panic!("unexpected: {:?}", other),
        }
    }
}

#[test]
fn not_found_error_for_unknown_node() {
    let (ctrl, _) = make_control_with_two_local_nodes();
    match ctrl.start_node("Z") {
        Err(err) => {
            assert_eq!(err.to_text(), "node 'Z' not registered");
            assert!(matches!(err, NodeError::NotFound(id) if id == "Z"));
        }
        Ok(_) => panic!("node Z is not registered"),
    }
}

#[test]
fn test_all_fails_before_start() {
    let (ctrl, mut nodes) = make_control_with_two_local_nodes();
    let results = nodes.carry_all(ctrl.test_all());
    assert_eq!(results.len(), 2);
    for i in 0..results.len() {
        match results.value_at(i).as_ref().unwrap() {
            Response::TestResult(t) => assert!(!t.passed),
            other => panic!("unexpected: {:?}", other),
        }
    }
}

#[test]
fn config_single_node() {
    let (ctrl, mut nodes) = make_control_with_two_local_nodes();
    let params = ConfigParams { key: "max_retries".to_string(), value: "5".to_string() };
    let resp = nodes.carry(ctrl.config_node("A", params).unwrap()).unwrap();
    assert!(matches!(resp, Response::Completed));
}

#[test]
fn node_ids_are_sorted() {
    let (ctrl, _) = make_control_with_two_local_nodes();
    let ids = ctrl.node_ids();
    assert_eq!(ids, vec!["A", "B"]);
}

#[test]
fn node_ids_are_sorted_whatever_the_order_of_registration() {
    let mut ctrl = ControlNode::new("X".to_string());
    for id in ["b", "", "é", "B", "ab", "a", "𝄞", "b"] {
        ctrl.register(LocalNodeHandle::new(id.to_string(), 1));
    }
    assert_eq!(ctrl.id(), "X");
    let mut expected = vec!["b", "", "é", "B", "ab", "a", "𝄞"];
    expected.sort_unstable();
    assert_eq!(ctrl.node_ids(), expected);
}

#[test]
fn later_registration_replaces() {
    let mut ctrl = ControlNode::new("X".to_string());
    ctrl.register(LocalNodeHandle::new("A".to_string(), 1));
    ctrl.register(LocalNodeHandle::new("A".to_string(), 2));
    assert_eq!(ctrl.node_ids(), vec!["A"]);
    assert_eq!(ctrl.start_all().len(), 1);
}

#[test]
fn single_calls_reach_the_named_node() {
    let (ctrl, mut nodes) = make_control_with_two_local_nodes();
    nodes.carry(ctrl.start_node("B").unwrap()).unwrap();
    assert!(matches!(
        nodes.carry(ctrl.stop_node("A").unwrap()).unwrap(),
        Response::Error(message) if message == "node 'A' is not running"
    ));
    assert!(matches!(
        nodes.carry(ctrl.test_node("B").unwrap()).unwrap(),
        Response::TestResult(t) if t.passed
    ));
    assert!(matches!(
        nodes.carry(ctrl.query_node("A").unwrap()).unwrap(),
        Response::Status(s) if s.id == "A" && !s.running && s.message_count == 2
    ));
    let results = nodes.carry_all(ctrl.stop_all());
    assert!(matches!(results.get("A"), Some(Ok(Response::Error(_)))));
    assert!(matches!(results.get("B"), Some(Ok(Response::Completed))));
    assert!(results.get("C").is_none());
}

#[test]
fn lost_task_is_a_communication_error() {
    let results = join_results(vec![
        ("B".to_string(), TaskEnd::Lost("task 3 panicked".to_string())),
        ("A".to_string(), TaskEnd::Finished(Ok(Response::Completed))),
    ]);
    assert_eq!(results.len(), 2);
    assert_eq!(results.id_at(0), "A");
    match results.get("B") {
        Some(Err(NodeError::Communication(message))) => {
            assert_eq!(message, "task join error: task 3 panicked")
        }
        other => panic!("unexpected: {:?}", other),
    }
}

#[test]
fn order_of_text_is_that_of_its_bytes() {
    let texts = ["", "A", "AB", "B", "a", "z", "é", "ß", "漢", "𝄞"];
    for a in texts {
        for b in texts {
            assert_eq!(text_is_below(a, b), a < b);
        }
    }
}

#[test]
fn error_sentences() {
    let sentence = |e: NodeError| e.to_text();
    assert_eq!(sentence(NodeError::NotFound("Q".to_string())), "node 'Q' not registered");
    assert_eq!(sentence(NodeError::Communication("c".to_string())), "communication error: c");
    assert_eq!(sentence(NodeError::Serialization("s".to_string())), "serialization error: s");
    assert_eq!(sentence(NodeError::Io("i".to_string())), "I/O error: i");
}

#[test]
fn result_lines_come_in_the_order_of_the_ids() {
    let (ctrl, mut nodes) = make_control_with_two_local_nodes();
    nodes.carry(ctrl.start_node("A").unwrap()).unwrap();
    let tested = nodes.carry_all(ctrl.test_all());
    assert_eq!(
        result_lines(&tested),
        vec![
            "  [A]  ✓  Test: PASS — node 'A' self-test passed",
            "  [B]  ✗  Test: FAIL — node 'B' self-test failed: node not running",
        ]
    );
    let stopped = nodes.carry_all(ctrl.stop_all());
    assert_eq!(
        result_lines(&stopped),
        vec!["  [A]  ✓  Ok", "  [B]  ✗  Node error: node 'B' is not running"]
    );
    let status = nodes.carry(ctrl.query_node("B").unwrap());
    assert_eq!(result_line("B", &status), "  [B]  ✓  Status: running=false, uptime=0s, msgs=3");
    let unknown = ctrl.query_node("Z").map(|exchange| nodes.carry(exchange).unwrap());
    assert_eq!(result_line("Z", &unknown), "  [Z]  ✗  Transport error: node 'Z' not registered");
}

#[test]
fn section_heading_is_boxed() {
    let lines = section_lines("1. start() — broadcast to all nodes");
    assert_eq!(lines.len(), 4);
    assert_eq!(lines[0], "");
    assert_eq!(lines[1], "┌─────────────────────────────────────────────────────┐");
    assert_eq!(lines[2], format!("│  {:<51}│", "1. start() — broadcast to all nodes"));
    assert_eq!(lines[3], "└─────────────────────────────────────────────────────┘");
    let long = "x".repeat(60);
    assert_eq!(section_lines(&long)[2], format!("│  {:<51}│", long));
}

#[test]
fn nodes_of_any_link_can_be_registered() {
    let mut ctrl: ControlNode<LinkedNode<&str>> = ControlNode::new("X".to_string());
    ctrl.register(LinkedNode::new("C".to_string(), Arc::new("socket")));
    ctrl.register(LinkedNode::new("A".to_string(), Arc::new("channel")));
    assert_eq!(ctrl.node_ids(), vec!["A", "C"]);
    let call = ctrl.stop_node("C").ok().unwrap();
    assert_eq!(*call.link, "socket");
    assert!(matches!(call.command, Command::Stop));
    let calls = ctrl.query_all();
    let reached: Vec<(&str, &str)> = calls.iter().map(|(id, c)| (id.as_str(), *c.link)).collect();
    assert_eq!(reached, vec![("A", "channel"), ("C", "socket")]);
    assert_eq!(LinkedNode::new("B".to_string(), Arc::new(0u8)).id(), "B");
}
