//! Publish/subscribe transport over DDS: the calling side.
//!
//! A call publishes a request with a correlation identifier of its own on the
//! node's request topic, and polls the reply topic until the reply with that
//! identifier arrives or the deadline passes. Calls that overlap on one handle
//! share what they take ([`dds_calls`](crate::dds_calls)).
use crate::dds_setup;
use crate::dds_setup::{participant_name, DdsRole, DdsSetUp, DdsSetUpPendingView};
use crate::protocol;
use crate::protocol::{
    Command, CommandView, NodeError, NodeErrorView, NodeInterface, Response, ResponseView,
};
use crate::text::{join2, join3};
use vstd::prelude::*;

verus! {

/// DDS message carrying a node command with a correlation id.
#[derive(Debug, Clone)]
pub struct NodeRequest {
    pub correlation_id: u64,
    pub payload: Vec<u8>,
}

/// DDS message carrying a node response with a matching correlation id.
#[derive(Debug, Clone)]
pub struct NodeReply {
    pub correlation_id: u64,
    pub payload: Vec<u8>,
}

/// What a [`NodeRequest`] or a [`NodeReply`] says.
#[verifier::ext_equal]
pub struct MessageView {
    pub correlation_id: u64,
    pub payload: Seq<u8>,
}

impl View for NodeRequest {
    type V = MessageView;

    open spec fn view(&self) -> MessageView {
        MessageView { correlation_id: self.correlation_id, payload: self.payload@ }
    }
}

impl View for NodeReply {
    type V = MessageView;

    open spec fn view(&self) -> MessageView {
        MessageView { correlation_id: self.correlation_id, payload: self.payload@ }
    }
}

/// The RTPS transport of a participant.
#[derive(Debug, Clone, Copy, PartialEq, Eq, Structural)]
pub enum TransportMode {
    /// Same process.
    IntraProcess,
    /// Across processes and machines.
    UdpMulticast,
}

/// How samples travel between a writer and a reader.
#[derive(Debug, Clone, Copy, PartialEq, Eq, Structural)]
pub struct Delivery {
    /// Lost samples are sent again.
    pub reliable: bool,
    /// Every sample is kept until it is taken.
    pub keep_all: bool,
    /// Samples are not kept for readers that join later.
    pub volatile: bool,
}

/// The DDS domain all nodes share.
pub const DOMAIN_ID: u32 = 0;

/// How long a call waits for its reply, in nanoseconds.
pub const REPLY_TIMEOUT_NANOS: u128 = 10_000_000_000;

/// How long a call, or a server, rests between two looks at its topic, in
/// microseconds.
pub const POLL_INTERVAL_MICROS: u64 = 100;

/// The DDS service of the node `id`.
pub open spec fn service(id: Seq<char>) -> Seq<char> {
    "midw/node/"@ + id
}

/// The topic on which requests to the node `id` are published.
pub open spec fn request_topic_of(id: Seq<char>) -> Seq<char> {
    service(id) + "/req"@
}

/// The topic on which replies of the node `id` are published.
pub open spec fn reply_topic_of(id: Seq<char>) -> Seq<char> {
    service(id) + "/rep"@
}

/// The name of the DDS service of the node `id`.
pub fn service_name(id: &str) -> (r: String)
    ensures
        r@ == service(id@),
{
    join2("midw/node/", id)
}

/// The name of the topic for requests to the node `id`.
pub fn request_topic(id: &str) -> (r: String)
    ensures
        r@ == request_topic_of(id@),
{
    join2(service_name(id).as_str(), "/req")
}

/// The name of the topic for replies of the node `id`.
pub fn reply_topic(id: &str) -> (r: String)
    ensures
        r@ == reply_topic_of(id@),
{
    join2(service_name(id).as_str(), "/rep")
}

/// The delivery that requests and replies need: nothing is lost, and nothing
/// outlives the call.
pub fn call_delivery() -> (r: Delivery)
    ensures
        r.reliable,
        r.keep_all,
        r.volatile,
{
    Delivery { reliable: true, keep_all: true, volatile: true }
}

/// The correlation identifiers a handle gives to its requests, in order.
pub struct CorrelationSeq {
    next: u64,
}

/// The identifier after `id`; the last one is followed by 0.
pub open spec fn following(id: u64) -> u64 {
    if id == u64::MAX {
        0
    } else {
        (id + 1) as u64
    }
}

impl CorrelationSeq {
    /// The identifier that is drawn next.
    pub closed spec fn upcoming(&self) -> u64 {
        self.next
    }

    /// The identifiers from 1 on.
    pub fn new() -> (r: Self)
        ensures
            r.upcoming() == 1,
    {
        CorrelationSeq { next: 1 }
    }

    /// Draws the next identifier.
    pub fn draw(&mut self) -> (r: u64)
        ensures
            r == old(self).upcoming(),
            final(self).upcoming() == following(old(self).upcoming()),
    {
        let r: u64 = self.next;
        self.next = if r == u64::MAX {
            0
        } else {
            r + 1
        };
        r
    }
}

/// A handle that routes [`NodeInterface`] calls to a
/// [`DdsNodeServer`](crate::dds_server::DdsNodeServer) over DDS.
pub struct DdsNodeHandle {
    id: String,
    transport: TransportMode,
}

impl DdsNodeHandle {
    /// The transport of the handle's participant.
    pub closed spec fn transport_mode(&self) -> TransportMode {
        self.transport
    }

    /// Create a new handle. `transport` must match the server's transport.
    pub fn new(id: String, transport: TransportMode) -> (r: Self)
        ensures
            r.node_id() == id@,
            r.transport_mode() == transport,
    {
        DdsNodeHandle { id, transport }
    }

    /// The transport of the handle's participant.
    pub fn transport(&self) -> (r: TransportMode)
        ensures
            r == self.transport_mode(),
    {
        self.transport
    }

    /// The name of the handle's participant.
    pub fn participant_name(&self) -> (r: String)
        ensures
            r@ == dds_setup::participant_of(DdsRole::Caller, self.node_id()),
    {
        participant_name(DdsRole::Caller, self.id.as_str())
    }

    /// The set-up of the handle's participant, writer and reader; calls are made
    /// once it is ready.
    pub fn set_up(&self) -> (r: DdsSetUp)
        ensures
            r.role == DdsRole::Caller,
            r.node_id@ == self.node_id(),
            r.pending@ == DdsSetUpPendingView::Join(
                dds_setup::participant_of(DdsRole::Caller, self.node_id()),
                self.transport_mode(),
            ),
    {
        DdsSetUp::new(DdsRole::Caller, self.id.clone(), self.transport)
    }

    /// The topic the handle writes to.
    pub fn request_topic(&self) -> (r: String)
        ensures
            r@ == request_topic_of(self.node_id()),
    {
        request_topic(self.id.as_str())
    }

    /// The topic the handle reads from.
    pub fn reply_topic(&self) -> (r: String)
        ensures
            r@ == reply_topic_of(self.node_id()),
    {
        reply_topic(self.id.as_str())
    }
}

impl NodeInterface for DdsNodeHandle {
    type Exchange = DdsExchange;

    closed spec fn node_id(&self) -> Seq<char> {
        self.id@
    }

    open spec fn opens(&self, command: CommandView, exchange: DdsExchange) -> bool {
        &&& exchange.node_id@ == self.node_id()
        &&& exchange.pending@ == DdsPendingView::Encode(command)
    }

    fn id(&self) -> (r: &str) {
        self.id.as_str()
    }

    fn dispatch(&self, command: Command) -> (exchange: DdsExchange) {
        DdsExchange { node_id: self.id.clone(), pending: DdsPending::Encode(command) }
    }
}

/// One call over DDS.
pub struct DdsExchange {
    pub node_id: String,
    pub pending: DdsPending,
}

/// What a call does next.
pub enum DdsPending {
    /// Encode the command as JSON.
    Encode(Command),
    /// Give this payload a correlation identifier.
    Address(Vec<u8>),
    /// Publish the request; the time the call has waited counts from there.
    Publish(NodeRequest),
    /// Take the next reply, to find the one with this identifier.
    Poll(u64),
    /// Rest before the next look for the reply with this identifier.
    Rest(u64),
    /// Decode this JSON as a response.
    Decode(Vec<u8>),
    /// Nothing: the call is over, with this outcome.
    Over(Result<Response, NodeError>),
}

/// How the pending step of a call went.
pub enum DdsEvent {
    /// Publishing or resting is done.
    Succeeded,
    /// Encoding gave these bytes.
    Encoded(Vec<u8>),
    /// A reply was taken.
    Taken(NodeReply),
    /// No reply is there; the call has waited so many nanoseconds.
    Nothing(u128),
    /// Decoding gave this response.
    Decoded(Response),
    /// The step failed; the text says why.
    Failed(String),
}

/// What a [`DdsPending`] says.
#[verifier::ext_equal]
pub enum DdsPendingView {
    Encode(CommandView),
    Address(Seq<u8>),
    Publish(MessageView),
    Poll(u64),
    Rest(u64),
    Decode(Seq<u8>),
    Over(Result<ResponseView, NodeErrorView>),
}

impl View for DdsPending {
    type V = DdsPendingView;

    open spec fn view(&self) -> DdsPendingView {
        match self {
            DdsPending::Encode(command) => DdsPendingView::Encode(command@),
            DdsPending::Address(payload) => DdsPendingView::Address(payload@),
            DdsPending::Publish(request) => DdsPendingView::Publish(request@),
            DdsPending::Poll(wanted) => DdsPendingView::Poll(*wanted),
            DdsPending::Rest(wanted) => DdsPendingView::Rest(*wanted),
            DdsPending::Decode(payload) => DdsPendingView::Decode(payload@),
            DdsPending::Over(outcome) => DdsPendingView::Over(protocol::outcome_view(*outcome)),
        }
    }
}

/// What a [`DdsEvent`] says.
#[verifier::ext_equal]
pub enum DdsEventView {
    Succeeded,
    Encoded(Seq<u8>),
    Taken(MessageView),
    Nothing(nat),
    Decoded(ResponseView),
    Failed(Seq<char>),
}

impl View for DdsEvent {
    type V = DdsEventView;

    open spec fn view(&self) -> DdsEventView {
        match self {
            DdsEvent::Succeeded => DdsEventView::Succeeded,
            DdsEvent::Encoded(payload) => DdsEventView::Encoded(payload@),
            DdsEvent::Taken(reply) => DdsEventView::Taken(reply@),
            DdsEvent::Nothing(waited) => DdsEventView::Nothing(*waited as nat),
            DdsEvent::Decoded(response) => DdsEventView::Decoded(response@),
            DdsEvent::Failed(reason) => DdsEventView::Failed(reason@),
        }
    }
}

/// The error of a call to the node `id` that got no reply in time.
pub open spec fn timed_out(id: Seq<char>) -> NodeErrorView {
    NodeErrorView::Communication("DDS timeout waiting for reply from node '"@ + id + "'"@)
}

impl DdsPendingView {
    /// What comes next after `event`, in a call to the node `id`.
    ///
    /// A reply with another identifier is not this call's and leaves it polling;
    /// [`DdsCalls`](crate::dds_calls::DdsCalls) sees to it that the call it
    /// belongs to gets it. The deadline is looked at only when no reply is there.
    pub open spec fn next(self, id: Seq<char>, event: DdsEventView) -> DdsPendingView {
        match (self, event) {
            (DdsPendingView::Encode(_), DdsEventView::Encoded(payload)) => DdsPendingView::Address(
                payload,
            ),
            (DdsPendingView::Encode(_), DdsEventView::Failed(reason)) => DdsPendingView::Over(
                Err(NodeErrorView::Serialization(reason)),
            ),
            (DdsPendingView::Publish(request), DdsEventView::Succeeded) => DdsPendingView::Poll(
                request.correlation_id,
            ),
            (DdsPendingView::Publish(_), DdsEventView::Failed(reason)) => DdsPendingView::Over(
                Err(NodeErrorView::Communication(reason)),
            ),
            (DdsPendingView::Poll(wanted), DdsEventView::Taken(reply)) => if reply.correlation_id
                == wanted {
                DdsPendingView::Decode(reply.payload)
            } else {
                self
            },
            (DdsPendingView::Poll(wanted), DdsEventView::Nothing(waited)) => if waited
                >= REPLY_TIMEOUT_NANOS {
                DdsPendingView::Over(Err(timed_out(id)))
            } else {
                DdsPendingView::Rest(wanted)
            },
            (DdsPendingView::Poll(_), DdsEventView::Failed(reason)) => DdsPendingView::Over(
                Err(NodeErrorView::Communication(reason)),
            ),
            (DdsPendingView::Rest(wanted), DdsEventView::Succeeded) => DdsPendingView::Poll(wanted),
            (DdsPendingView::Decode(_), DdsEventView::Decoded(response)) => DdsPendingView::Over(
                Ok(response),
            ),
            (DdsPendingView::Decode(_), DdsEventView::Failed(reason)) => DdsPendingView::Over(
                Err(NodeErrorView::Serialization(reason)),
            ),
            _ => self,
        }
    }

    /// What comes next once a pending payload has been given the identifier
    /// `correlation_id`.
    pub open spec fn addressed(self, correlation_id: u64) -> DdsPendingView {
        match self {
            DdsPendingView::Address(payload) => DdsPendingView::Publish(
                MessageView { correlation_id, payload },
            ),
            _ => self,
        }
    }
}

impl DdsExchange {
    /// Gives a pending payload the next correlation identifier; without one,
    /// nothing happens and no identifier is drawn.
    pub fn address(self, ids: &mut CorrelationSeq) -> (r: Self)
        ensures
            r.node_id@ == self.node_id@,
            r.pending@ == self.pending@.addressed(old(ids).upcoming()),
            final(ids).upcoming() == if self.pending@ is Address {
                following(old(ids).upcoming())
            } else {
                old(ids).upcoming()
            },
    {
        let pending = match self.pending {
            DdsPending::Address(payload) => DdsPending::Publish(
                NodeRequest { correlation_id: ids.draw(), payload },
            ),
            pending => pending,
        };
        DdsExchange { node_id: self.node_id, pending }
    }

    /// The call after `event`, which concerns this call alone.
    pub fn step(self, event: DdsEvent) -> (r: Self)
        ensures
            r.node_id@ == self.node_id@,
            r.pending@ == self.pending@.next(self.node_id@, event@),
    {
        let pending = match (self.pending, event) {
            (DdsPending::Encode(_), DdsEvent::Encoded(payload)) => DdsPending::Address(payload),
            (DdsPending::Encode(_), DdsEvent::Failed(reason)) => DdsPending::Over(
                Err(NodeError::Serialization(reason)),
            ),
            (DdsPending::Publish(request), DdsEvent::Succeeded) => DdsPending::Poll(
                request.correlation_id,
            ),
            (DdsPending::Publish(_), DdsEvent::Failed(reason)) => DdsPending::Over(
                Err(NodeError::Communication(reason)),
            ),
            (DdsPending::Poll(wanted), DdsEvent::Taken(reply)) => if reply.correlation_id
                == wanted {
                DdsPending::Decode(reply.payload)
            } else {
                DdsPending::Poll(wanted)
            },
            (DdsPending::Poll(wanted), DdsEvent::Nothing(waited)) => if waited
                >= REPLY_TIMEOUT_NANOS {
                DdsPending::Over(
                    Err(
                        NodeError::Communication(
                            join3(
                                "DDS timeout waiting for reply from node '",
                                self.node_id.as_str(),
                                "'",
                            ),
                        ),
                    ),
                )
            } else {
                DdsPending::Rest(wanted)
            },
            (DdsPending::Poll(_), DdsEvent::Failed(reason)) => DdsPending::Over(
                Err(NodeError::Communication(reason)),
            ),
            (DdsPending::Rest(wanted), DdsEvent::Succeeded) => DdsPending::Poll(wanted),
            (DdsPending::Decode(_), DdsEvent::Decoded(response)) => DdsPending::Over(Ok(response)),
            (DdsPending::Decode(_), DdsEvent::Failed(reason)) => DdsPending::Over(
                Err(NodeError::Serialization(reason)),
            ),
            (pending, _) => pending,
        };
        DdsExchange { node_id: self.node_id, pending }
    }
}

} // verus!
