//! The DDS transport: calls and the service of requests, joined by the messages
//! they publish.
use midw::cli::{dds_node_args, ipc_node_args};
use midw::dds::{
    call_delivery, CorrelationSeq, DdsEvent, DdsExchange, DdsNodeHandle, DdsPending, NodeReply,
    NodeRequest, TransportMode, DOMAIN_ID, POLL_INTERVAL_MICROS, REPLY_TIMEOUT_NANOS,
};
use midw::dds_calls::DdsCalls;
use midw::dds_server::{
    DdsNodeServer, DdsService, DdsServiceEvent, DdsServicePending, DdsSession, DdsSessionEvent,
    DdsSessionPending, RemoteExceptionCode,
};
use midw::dds_setup::{DdsRole, DdsSetUp, DdsSetUpError, DdsSetUpEvent, DdsSetUpPending};
use midw::protocol::{Command, ConfigParams, NodeError, NodeInterface, Response};
use std::collections::VecDeque;

/// A codec that remembers what it encoded and hands it back.
struct Codec<T> {
    known: Vec<Option<T>>,
}

impl<T> Codec<T> {
    fn new() -> Codec<T> {
        Codec { known: Vec::new() }
    }

    fn encode(&mut self, value: T) -> Vec<u8> {
        self.known.push(Some(value));
        vec![(self.known.len() - 1) as u8]
    }

    fn decode(&mut self, bytes: &[u8]) -> Result<T, String> {
        match bytes {
            [i] => self.known[*i as usize].take().ok_or("decoded twice".to_string()),
            _ => Err("EOF while parsing a value".to_string()),
        }
    }
}

struct Pair {
    handle: DdsNodeHandle,
    ids: CorrelationSeq,
    service: DdsService,
    commands: Codec<Command>,
    responses: Codec<Response>,
    replies: VecDeque<NodeReply>,
}

fn make_pair(id: &str) -> Pair {
    let transport = TransportMode::IntraProcess;
    let service = DdsNodeServer::new(id.to_string(), transport).serve();
    let handle = DdsNodeHandle::new(id.to_string(), transport);
    assert_eq!(handle.request_topic(), service.request_topic);
    assert_eq!(handle.reply_topic(), service.reply_topic);
    Pair {
        handle,
        ids: CorrelationSeq::new(),
        service,
        commands: Codec::new(),
        responses: Codec::new(),
        replies: VecDeque::new(),
    }
}

impl Pair {
    fn serve(&mut self, request: NodeRequest) -> NodeReply {
        let mut session = DdsSession::new(request);
        loop {
            let event = match session.pending {
                DdsSessionPending::Decode(ref payload) => match self.commands.decode(payload) {
                    Ok(command) => DdsSessionEvent::Decoded(command),
                    Err(reason) => DdsSessionEvent::Failed(reason),
                },
                DdsSessionPending::Apply(_) => {
                    session = session.apply(&mut self.service.state);
                    continue;
                }
                DdsSessionPending::Encode(ref response) => {
                    DdsSessionEvent::Encoded(self.responses.encode(response.clone()))
                }
                DdsSessionPending::Reply(_) => return session.into_reply().unwrap(),
            };
            session = session.step(event);
        }
    }

    fn call(&mut self, mut exchange: DdsExchange) -> Result<Response, NodeError> {
        loop {
            let event = match exchange.pending {
                DdsPending::Over(outcome) => return outcome,
                DdsPending::Encode(ref command) => {
                    DdsEvent::Encoded(self.commands.encode(command.clone()))
                }
                DdsPending::Address(_) => {
                    exchange = exchange.address(&mut self.ids);
                    continue;
                }
                DdsPending::Publish(ref request) => {
                    let reply = self.serve(request.clone());
                    self.replies.push_back(reply);
                    DdsEvent::Succeeded
                }
                DdsPending::Poll(_) => match self.replies.pop_front() {
                    Some(reply) => DdsEvent::Taken(reply),
                    None => DdsEvent::Nothing(REPLY_TIMEOUT_NANOS),
                },
                DdsPending::Rest(_) => DdsEvent::Succeeded,
                DdsPending::Decode(ref payload) => match self.responses.decode(payload) {
                    Ok(response) => DdsEvent::Decoded(response),
                    Err(reason) => DdsEvent::Failed(reason),
                },
            };
            exchange = exchange.step(event);
        }
    }

    fn start(&mut self) -> Result<Response, NodeError> {
        let exchange = self.handle.start();
        self.call(exchange)
    }

    fn stop(&mut self) -> Result<Response, NodeError> {
        let exchange = self.handle.stop();
        self.call(exchange)
    }

    fn query(&mut self) -> Result<Response, NodeError> {
        let exchange = self.handle.query();
        self.call(exchange)
    }

    fn config(&mut self, params: ConfigParams) -> Result<Response, NodeError> {
        let exchange = self.handle.config(params);
        self.call(exchange)
    }

    fn test(&mut self) -> Result<Response, NodeError> {
        let exchange = self.handle.test();
        self.call(exchange)
    }
}

#[test]
fn dds_start_stop() {
    let mut handle = make_pair("dds-test-A");
    assert!(matches!(handle.start().unwrap(), Response::Completed));
    assert!(matches!(handle.stop().unwrap(), Response::Completed));
}

#[test]
fn dds_query() {
    let mut handle = make_pair("dds-test-B");
    handle.start().unwrap();
    match handle.query().unwrap() {
        Response::Status(s) => assert!(s.running),
        other => panic!("unexpected: {:?}", other),
    }
}

#[test]
fn dds_config() {
    let mut handle = make_pair("dds-test-C");
    let resp = handle
        .config(ConfigParams { key: "rate".to_string(), value: "100".to_string() })
        .unwrap();
    assert!(matches!(resp, Response::Completed));
}

#[test]
fn dds_test_pass_fail() {
    let mut handle = make_pair("dds-test-D");
    match handle.test().unwrap() {
        Response::TestResult(t) => assert!(!t.passed),
        other => panic!("unexpected: {:?}", other),
    }
    handle.start().unwrap();
    match handle.test().unwrap() {
        Response::TestResult(t) => assert!(t.passed),
        other => panic!("unexpected: {:?}", other),
    }
}

#[test]
fn dds_stop_already_stopped() {
    let mut handle = make_pair("dds-test-E");
    match handle.stop().unwrap() {
        Response::Error(_) => {}
        other => panic!("expected Error, got: {:?}", other),
    }
}

#[test]
fn stale_replies_are_passed_over() {
    let mut pair = make_pair("D");
    for correlation_id in [0, 2, 99, u64::MAX] {
        pair.replies.push_back(NodeReply { correlation_id, payload: vec![7, 7] });
    }
    assert!(matches!(pair.start().unwrap(), Response::Completed));
    assert!(pair.replies.is_empty());
    match pair.query().unwrap() {
        Response::Status(s) => assert_eq!(s.message_count, 2),
        other => panic!("unexpected: {:?}", other),
    }
}

fn call_at(pending: DdsPending) -> DdsExchange {
    DdsExchange { node_id: "C".to_string(), pending }
}

#[test]
fn call_waits_until_the_deadline() {
    assert_eq!(REPLY_TIMEOUT_NANOS, 10 * 1_000_000_000);
    assert_eq!(POLL_INTERVAL_MICROS, 100);
    let early = call_at(DdsPending::Poll(5)).step(DdsEvent::Nothing(REPLY_TIMEOUT_NANOS - 1));
    assert!(matches!(early.pending, DdsPending::Rest(5)));
    let again = early.step(DdsEvent::Succeeded);
    assert!(matches!(again.pending, DdsPending::Poll(5)));
    let late = again.step(DdsEvent::Nothing(REPLY_TIMEOUT_NANOS));
    assert!(matches!(
        late.pending,
        DdsPending::Over(Err(NodeError::Communication(message)))
            if message == "DDS timeout waiting for reply from node 'C'"
    ));
}

fn outcome_after(pending: DdsPending, reason: &str) -> Result<Response, NodeError> {
    match call_at(pending).step(DdsEvent::Failed(reason.to_string())).pending {
        DdsPending::Over(outcome) => outcome,
        _ => panic!("the call is not over"),
    }
}

#[test]
fn each_failing_step_of_a_call_has_its_error() {
    assert!(matches!(
        outcome_after(DdsPending::Encode(Command::Start), "e"),
        Err(NodeError::Serialization(message)) if message == "e"
    ));
    let request = NodeRequest { correlation_id: 1, payload: vec![] };
    assert!(matches!(
        outcome_after(DdsPending::Publish(request), "w"),
        Err(NodeError::Communication(message)) if message == "w"
    ));
    assert!(matches!(
        outcome_after(DdsPending::Poll(1), "t"),
        Err(NodeError::Communication(message)) if message == "t"
    ));
    assert!(matches!(
        outcome_after(DdsPending::Decode(vec![]), "d"),
        Err(NodeError::Serialization(message)) if message == "d"
    ));
    assert!(matches!(
        outcome_after(DdsPending::Over(Ok(Response::Completed)), "late"),
        Ok(Response::Completed)
    ));
}

#[test]
fn correlation_ids_count_up() {
    let mut ids = CorrelationSeq::new();
    let drawn: Vec<u64> = (0..4).map(|_| ids.draw()).collect();
    assert_eq!(drawn, vec![1, 2, 3, 4]);
    let mut sent = Vec::new();
    for payload in [vec![1u8], vec![2], vec![3]] {
        match call_at(DdsPending::Address(payload.clone())).address(&mut ids).pending {
            DdsPending::Publish(request) => {
                assert_eq!(request.payload, payload);
                sent.push(request.correlation_id);
            }
            _ => panic!("an addressed payload is published"),
        }
    }
    assert_eq!(sent, vec![5, 6, 7]);
    let untouched = call_at(DdsPending::Poll(3)).address(&mut ids);
    assert!(matches!(untouched.pending, DdsPending::Poll(3)));
    assert_eq!(ids.draw(), 8);
}

fn opened(calls: &mut DdsCalls, payload: Vec<u8>) -> DdsExchange {
    let call = calls.open(call_at(DdsPending::Address(payload.clone())));
    match call.pending {
        DdsPending::Publish(ref request) => assert_eq!(request.payload, payload),
        _ => panic!("an opened call is published"),
    }
    calls.step(call, DdsEvent::Succeeded)
}

fn taken(correlation_id: u64, payload: Vec<u8>) -> DdsEvent {
    DdsEvent::Taken(NodeReply { correlation_id, payload })
}

#[test]
fn overlapping_calls_get_their_own_replies() {
    let mut calls = DdsCalls::new();
    let a = opened(&mut calls, vec![10]);
    let b = opened(&mut calls, vec![20]);
    assert_eq!(a.pending.awaited(), Some(1));
    assert_eq!(b.pending.awaited(), Some(2));

    // Each takes the reply of the other, and a late second one.
    let a = calls.step(a, taken(2, vec![22]));
    assert!(matches!(a.pending, DdsPending::Poll(1)));
    let a = calls.step(a, taken(2, vec![99]));
    assert!(matches!(a.pending, DdsPending::Poll(1)));
    let b = calls.step(b, taken(1, vec![11]));
    assert!(matches!(b.pending, DdsPending::Decode(ref payload) if *payload == vec![22]));
    let a = calls.step(a, DdsEvent::Nothing(REPLY_TIMEOUT_NANOS));
    assert!(matches!(a.pending, DdsPending::Decode(ref payload) if *payload == vec![11]));

    let a = calls.step(a, DdsEvent::Decoded(Response::Completed));
    assert!(matches!(a.pending, DdsPending::Over(Ok(Response::Completed))));
    let b = calls.step(b, DdsEvent::Decoded(Response::Error("e".to_string())));
    assert!(matches!(b.pending, DdsPending::Over(Ok(Response::Error(m))) if m == "e"));
}

#[test]
fn a_resting_call_gets_its_reply() {
    let mut calls = DdsCalls::new();
    let a = opened(&mut calls, vec![]);
    let b = opened(&mut calls, vec![]);
    let a = calls.step(a, DdsEvent::Nothing(0));
    assert!(matches!(a.pending, DdsPending::Rest(1)));
    let b = calls.step(b, taken(1, vec![5]));
    assert!(matches!(b.pending, DdsPending::Poll(2)));
    let b = calls.step(b, taken(2, vec![6]));
    assert!(matches!(b.pending, DdsPending::Decode(ref payload) if *payload == vec![6]));
    let a = calls.step(a, DdsEvent::Succeeded);
    assert!(matches!(a.pending, DdsPending::Poll(1)));
    let a = calls.step(a, DdsEvent::Failed("t".to_string()));
    assert!(matches!(a.pending, DdsPending::Decode(ref payload) if *payload == vec![5]));
}

#[test]
fn nothing_is_kept_for_calls_that_are_over() {
    let mut calls = DdsCalls::new();
    let a = opened(&mut calls, vec![]);
    let b = opened(&mut calls, vec![]);
    let a = calls.step(a, DdsEvent::Nothing(REPLY_TIMEOUT_NANOS));
    assert!(matches!(a.pending, DdsPending::Over(Err(NodeError::Communication(_)))));
    let b = calls.step(b, taken(1, vec![1]));
    assert!(matches!(b.pending, DdsPending::Poll(2)));
    let again = calls.step(call_at(DdsPending::Poll(1)), DdsEvent::Nothing(0));
    assert!(matches!(again.pending, DdsPending::Rest(1)));

    let c = opened(&mut calls, vec![]);
    let b = calls.step(b, taken(3, vec![3]));
    calls.forget(3);
    let c = calls.step(c, DdsEvent::Nothing(0));
    assert!(matches!(c.pending, DdsPending::Rest(3)));
    let b = calls.step(b, DdsEvent::Failed("t".to_string()));
    assert!(matches!(b.pending, DdsPending::Over(Err(NodeError::Communication(m))) if m == "t"));

    let untouched = calls.open(call_at(DdsPending::Poll(9)));
    assert!(matches!(untouched.pending, DdsPending::Poll(9)));
    assert_eq!(opened(&mut calls, vec![]).pending.awaited(), Some(4));
}

#[test]
fn faults_are_replied_to_without_a_response() {
    let request = NodeRequest { correlation_id: 42, payload: vec![0xff] };
    let refused = DdsSession::new(request).step(DdsSessionEvent::Failed("bad".to_string()));
    match refused.pending {
        DdsSessionPending::Reply(Err(ref fault)) => {
            assert_eq!(fault.code, RemoteExceptionCode::InvalidArgument);
            assert_eq!(fault.message, "parse error: bad");
        }
        _ => panic!("a bad request is a fault"),
    }
    let reply = refused.into_reply().unwrap();
    assert_eq!(reply.correlation_id, 42);
    assert!(reply.payload.is_empty());

    let broken = DdsSession {
        correlation_id: 43,
        pending: DdsSessionPending::Encode(Response::Completed),
    }
    .step(DdsSessionEvent::Failed("bad".to_string()));
    match broken.pending {
        DdsSessionPending::Reply(Err(ref fault)) => {
            assert_eq!(fault.code, RemoteExceptionCode::InternalError);
            assert_eq!(fault.message, "serialize error: bad");
        }
        _ => panic!("a response that cannot be encoded is a fault"),
    }
    let undecided = DdsSession::new(NodeRequest { correlation_id: 1, payload: vec![] });
    assert!(undecided.into_reply().is_none());
}

fn failing(set_up: DdsSetUp, reason: &str) -> DdsSetUp {
    set_up.step(DdsSetUpEvent::Failed(reason.to_string()))
}

fn caller_after(steps: usize) -> DdsSetUp {
    let handle = DdsNodeHandle::new("C".to_string(), TransportMode::UdpMulticast);
    (0..steps).fold(handle.set_up(), |set_up, _| set_up.step(DdsSetUpEvent::Succeeded))
}

fn server_after(steps: usize) -> DdsSetUp {
    let server = DdsNodeServer::new("C".to_string(), TransportMode::IntraProcess);
    (0..steps).fold(server.set_up(), |set_up, _| set_up.step(DdsSetUpEvent::Succeeded))
}

#[test]
fn a_handle_is_set_up_in_order() {
    assert_eq!(caller_after(0).role, DdsRole::Caller);
    assert_eq!(caller_after(2).node_id, "C");
    assert!(matches!(
        caller_after(0).pending,
        DdsSetUpPending::Join(name, TransportMode::UdpMulticast) if name == "midw-ctrl-C"
    ));
    assert!(matches!(
        caller_after(1).pending,
        DdsSetUpPending::OpenWriter(topic) if topic == "midw/node/C/req"
    ));
    assert!(matches!(
        caller_after(2).pending,
        DdsSetUpPending::OpenReader(topic) if topic == "midw/node/C/rep"
    ));
    assert!(matches!(caller_after(3).pending, DdsSetUpPending::Ready));
    assert!(matches!(caller_after(4).pending, DdsSetUpPending::Ready));
}

#[test]
fn a_server_is_set_up_in_order() {
    assert_eq!(server_after(0).role, DdsRole::Server);
    assert!(matches!(
        server_after(0).pending,
        DdsSetUpPending::Join(name, TransportMode::IntraProcess) if name == "midw-node-C"
    ));
    assert!(matches!(
        server_after(1).pending,
        DdsSetUpPending::OpenReader(topic) if topic == "midw/node/C/req"
    ));
    assert!(matches!(
        server_after(2).pending,
        DdsSetUpPending::OpenWriter(topic) if topic == "midw/node/C/rep"
    ));
    assert!(matches!(
        server_after(3).pending,
        DdsSetUpPending::Spawn(name) if name == "midw-node-C"
    ));
    assert!(matches!(server_after(4).pending, DdsSetUpPending::Ready));
    assert!(matches!(failing(server_after(4), "late").pending, DdsSetUpPending::Ready));
}

#[test]
fn each_failing_step_of_a_set_up_has_its_error() {
    for set_up in [caller_after(0), server_after(0)] {
        assert!(matches!(
            failing(set_up, "p").pending,
            DdsSetUpPending::Refused(DdsSetUpError::Participant(m)) if m == "p"
        ));
    }
    for set_up in [caller_after(1), caller_after(2), server_after(1), server_after(2)] {
        assert!(matches!(
            failing(set_up, "t").pending,
            DdsSetUpPending::Refused(DdsSetUpError::InvalidState(m)) if m == "t"
        ));
    }
    let refused = failing(server_after(3), "s");
    assert!(matches!(refused.pending, DdsSetUpPending::Refused(DdsSetUpError::Io(ref m)) if m == "s"));
    let still = failing(refused.step(DdsSetUpEvent::Succeeded), "more");
    assert!(matches!(still.pending, DdsSetUpPending::Refused(DdsSetUpError::Io(m)) if m == "s"));
}

fn service() -> DdsService {
    DdsNodeServer::new("S".to_string(), TransportMode::IntraProcess).serve()
}

#[test]
fn a_service_answers_one_request_after_the_other() {
    let mut service = service();
    for (correlation_id, command) in [(7, Command::Start), (8, Command::Start)] {
        assert!(matches!(service.pending, DdsServicePending::Take));
        service = service.step(DdsServiceEvent::Nothing);
        assert!(matches!(service.pending, DdsServicePending::Rest));
        service = service.step(DdsServiceEvent::Succeeded);
        let request = NodeRequest { correlation_id, payload: vec![1] };
        service = service.step(DdsServiceEvent::Taken(request));
        assert!(matches!(service.pending, DdsServicePending::Answer(_)));
        service = service.step(DdsServiceEvent::Session(DdsSessionEvent::Decoded(command)));
        service = service.apply();
        match service.pending {
            DdsServicePending::Answer(ref session) => match session.pending {
                DdsSessionPending::Encode(Response::Completed) => assert_eq!(correlation_id, 7),
                DdsSessionPending::Encode(Response::Error(ref m)) => {
                    assert_eq!(correlation_id, 8);
                    assert_eq!(m, "node 'S' is already running");
                }
                _ => panic!("an applied command is answered"),
            },
            _ => panic!("an applied command is answered"),
        }
        let bytes = DdsSessionEvent::Encoded(vec![2, 3]);
        service = service.step(DdsServiceEvent::Session(bytes));
        match service.pending {
            DdsServicePending::Publish(ref reply) => {
                assert_eq!(reply.correlation_id, correlation_id);
                assert_eq!(reply.payload, vec![2, 3]);
            }
            _ => panic!("an answer is published"),
        }
        service = service.step(DdsServiceEvent::Succeeded);
        assert!(matches!(service.pending, DdsServicePending::Rest));
        service = service.step(DdsServiceEvent::Succeeded);
    }
    assert_eq!(service.state.message_count(), 2);
    assert_eq!(service.request_topic, "midw/node/S/req");
}

#[test]
fn nothing_stops_a_service() {
    let mut service = service().step(DdsServiceEvent::Failed("take".to_string()));
    assert!(matches!(service.pending, DdsServicePending::Rest));
    service = service.step(DdsServiceEvent::Succeeded);
    let request = NodeRequest { correlation_id: 9, payload: vec![] };
    service = service.step(DdsServiceEvent::Taken(request));
    let refusal = DdsSessionEvent::Failed("bad".to_string());
    service = service.step(DdsServiceEvent::Session(refusal)).apply();
    match service.pending {
        DdsServicePending::Publish(ref reply) => {
            assert_eq!(reply.correlation_id, 9);
            assert!(reply.payload.is_empty());
        }
        _ => panic!("a refusal is published"),
    }
    service = service.step(DdsServiceEvent::Failed("write".to_string()));
    assert!(matches!(service.pending, DdsServicePending::Rest));
    service = service.step(DdsServiceEvent::Succeeded);
    assert!(matches!(service.pending, DdsServicePending::Take));
    assert_eq!(service.state.message_count(), 0);

    let done = DdsSession { correlation_id: 3, pending: DdsSessionPending::Reply(Ok(vec![4])) };
    service.pending = DdsServicePending::Answer(done);
    service = service.step(DdsServiceEvent::Nothing);
    assert!(matches!(
        service.pending,
        DdsServicePending::Publish(reply) if reply.correlation_id == 3 && reply.payload == vec![4]
    ));
}

#[test]
fn names_of_a_node() {
    let handle = DdsNodeHandle::new("C".to_string(), TransportMode::UdpMulticast);
    assert_eq!(handle.id(), "C");
    assert_eq!(handle.transport(), TransportMode::UdpMulticast);
    assert_eq!(handle.participant_name(), "midw-ctrl-C");
    assert_eq!(handle.request_topic(), "midw/node/C/req");
    assert_eq!(handle.reply_topic(), "midw/node/C/rep");
    let server = DdsNodeServer::new("C".to_string(), TransportMode::UdpMulticast);
    assert_eq!(server.transport(), TransportMode::UdpMulticast);
    assert_eq!(server.participant_name(), "midw-node-C");
    let service = server.serve();
    assert_eq!(service.node_id, "C");
    assert_eq!(service.service_name, "midw/node/C");
    assert_eq!(service.state.message_count(), 0);
    let delivery = call_delivery();
    assert!(delivery.reliable && delivery.keep_all && delivery.volatile);
    assert_eq!(DOMAIN_ID, 0);
}

fn line(words: &[&str]) -> Vec<String> {
    words.iter().map(|w| w.to_string()).collect()
}

#[test]
fn command_lines() {
    let parsed = ipc_node_args(&line(&["midw-node", "C", "/tmp/midw-C.sock", "more"])).ok().unwrap();
    assert_eq!(parsed.node_id, "C");
    assert_eq!(parsed.socket_path, "/tmp/midw-C.sock");
    assert_eq!(
        ipc_node_args(&line(&["midw-node", "C"])).err().unwrap(),
        "Usage: midw-node <NODE_ID> <SOCKET_PATH>"
    );
    let mode = |words: &[&str]| dds_node_args(&line(words)).ok().unwrap().transport;
    assert_eq!(mode(&["midw-dds-node", "C"]), TransportMode::IntraProcess);
    assert_eq!(mode(&["midw-dds-node", "C", "intra"]), TransportMode::IntraProcess);
    assert_eq!(mode(&["midw-dds-node", "C", "udp"]), TransportMode::UdpMulticast);
    assert_eq!(mode(&["midw-dds-node", "C", "UDP"]), TransportMode::IntraProcess);
    assert_eq!(dds_node_args(&line(&["midw-dds-node", "D"])).ok().unwrap().node_id, "D");
    assert_eq!(
        dds_node_args(&line(&["midw-dds-node"])).err().unwrap(),
        "Usage: midw-dds-node <NODE_ID> [udp|intra]"
    );
}
