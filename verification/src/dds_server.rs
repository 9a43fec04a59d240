//! Publish/subscribe transport over DDS: the serving side.
//!
//! A server takes requests from its node's request topic, one at a time, and
//! answers each on the reply topic, with the correlation identifier of the
//! request. Between two looks at the request topic it rests.
use crate::dds;
use crate::dds::{
    reply_topic, request_topic, service_name, MessageView, NodeReply, NodeRequest, TransportMode,
};
use crate::dds_setup;
use crate::dds_setup::{participant_name, DdsRole, DdsSetUp, DdsSetUpPendingView};
use crate::node::{NodeState, NodeStateView, LAST_READING};
use crate::protocol::{Command, CommandView, Response, ResponseView};
use crate::text::join2;
use vstd::prelude::*;

verus! {

/// DDS node server.
///
/// Once it [serves](DdsNodeServer::serve), the node offers the DDS service
/// `midw/node/<id>`. Clients call it through a
/// [`DdsNodeHandle`](crate::dds::DdsNodeHandle).
pub struct DdsNodeServer {
    id: String,
    transport: TransportMode,
}

impl DdsNodeServer {
    /// The identifier of the served node.
    pub closed spec fn node_id(&self) -> Seq<char> {
        self.id@
    }

    /// The transport of the server's participant.
    pub closed spec fn transport_mode(&self) -> TransportMode {
        self.transport
    }

    /// Create a new server configuration.
    ///
    /// The service is **not** offered until [`serve`](Self::serve) is called.
    pub fn new(id: String, transport: TransportMode) -> (r: Self)
        ensures
            r.node_id() == id@,
            r.transport_mode() == transport,
    {
        DdsNodeServer { id, transport }
    }

    /// The transport of the server's participant.
    pub fn transport(&self) -> (r: TransportMode)
        ensures
            r == self.transport_mode(),
    {
        self.transport
    }

    /// The name of the server's participant, and of the thread that serves.
    pub fn participant_name(&self) -> (r: String)
        ensures
            r@ == dds_setup::participant_of(DdsRole::Server, self.node_id()),
    {
        participant_name(DdsRole::Server, self.id.as_str())
    }

    /// The set-up of the server's participant, reader, writer and thread; the
    /// node is served once it is ready.
    pub fn set_up(&self) -> (r: DdsSetUp)
        ensures
            r.role == DdsRole::Server,
            r.node_id@ == self.node_id(),
            r.pending@ == DdsSetUpPendingView::Join(
                dds_setup::participant_of(DdsRole::Server, self.node_id()),
                self.transport_mode(),
            ),
    {
        DdsSetUp::new(DdsRole::Server, self.id.clone(), self.transport)
    }

    /// Start serving: the service, its topics, and the node's state before any
    /// command. The service looks for a request first.
    pub fn serve(self) -> (r: DdsService)
        ensures
            r.node_id@ == self.node_id(),
            r.service_name@ == dds::service(self.node_id()),
            r.request_topic@ == dds::request_topic_of(self.node_id()),
            r.reply_topic@ == dds::reply_topic_of(self.node_id()),
            r.state@ == NodeStateView::fresh(self.node_id()),
            r.pending@ == DdsServicePendingView::Take,
    {
        DdsService {
            service_name: service_name(self.id.as_str()),
            request_topic: request_topic(self.id.as_str()),
            reply_topic: reply_topic(self.id.as_str()),
            state: NodeState::new(self.id.clone()),
            pending: DdsServicePending::Take,
            node_id: self.id,
        }
    }
}

/// A server at work.
pub struct DdsService {
    pub node_id: String,
    pub service_name: String,
    pub request_topic: String,
    pub reply_topic: String,
    pub state: NodeState,
    pub pending: DdsServicePending,
}

/// What the server does next.
pub enum DdsServicePending {
    /// Take the next request.
    Take,
    /// Serve a request: do what its session does next.
    Answer(DdsSession),
    /// Publish this reply.
    Publish(NodeReply),
    /// Rest before the next look at the request topic.
    Rest,
}

/// How the pending step of the server went.
pub enum DdsServiceEvent {
    /// Publishing or resting is done.
    Succeeded,
    /// A request was taken.
    Taken(NodeRequest),
    /// No request is there.
    Nothing,
    /// The pending step of the session went so.
    Session(DdsSessionEvent),
    /// The step failed; the text says why.
    Failed(String),
}

/// What a service reports when it cannot process a request.
#[derive(Debug, Clone, Copy, PartialEq, Eq, Structural)]
pub enum RemoteExceptionCode {
    /// Invalid arguments.
    InvalidArgument,
    /// Internal error in service.
    InternalError,
}

/// Why a request was not processed, or its response not encoded.
pub struct ServiceFault {
    pub code: RemoteExceptionCode,
    pub message: String,
}

/// What a [`ServiceFault`] says.
#[verifier::ext_equal]
pub struct ServiceFaultView {
    pub code: RemoteExceptionCode,
    pub message: Seq<char>,
}

impl View for ServiceFault {
    type V = ServiceFaultView;

    open spec fn view(&self) -> ServiceFaultView {
        ServiceFaultView { code: self.code, message: self.message@ }
    }
}

/// The service of one request.
pub struct DdsSession {
    pub correlation_id: u64,
    pub pending: DdsSessionPending,
}

/// What the service of a request does next.
pub enum DdsSessionPending {
    /// Decode this JSON as a command.
    Decode(Vec<u8>),
    /// Apply the command to the node's state.
    Apply(Command),
    /// Encode the node's response as JSON.
    Encode(Response),
    /// Reply: with these bytes, or after this fault.
    Reply(Result<Vec<u8>, ServiceFault>),
}

/// How the pending step of the service went.
pub enum DdsSessionEvent {
    /// Decoding gave this command.
    Decoded(Command),
    /// Encoding gave these bytes.
    Encoded(Vec<u8>),
    /// The step failed; the text says why.
    Failed(String),
}

/// What a [`DdsSessionPending`] says.
#[verifier::ext_equal]
pub enum DdsSessionPendingView {
    Decode(Seq<u8>),
    Apply(CommandView),
    Encode(ResponseView),
    Reply(Result<Seq<u8>, ServiceFaultView>),
}

impl View for DdsSessionPending {
    type V = DdsSessionPendingView;

    open spec fn view(&self) -> DdsSessionPendingView {
        match self {
            DdsSessionPending::Decode(payload) => DdsSessionPendingView::Decode(payload@),
            DdsSessionPending::Apply(command) => DdsSessionPendingView::Apply(command@),
            DdsSessionPending::Encode(response) => DdsSessionPendingView::Encode(response@),
            DdsSessionPending::Reply(Ok(payload)) => DdsSessionPendingView::Reply(Ok(payload@)),
            DdsSessionPending::Reply(Err(fault)) => DdsSessionPendingView::Reply(Err(fault@)),
        }
    }
}

/// What a [`DdsSessionEvent`] says.
#[verifier::ext_equal]
pub enum DdsSessionEventView {
    Decoded(CommandView),
    Encoded(Seq<u8>),
    Failed(Seq<char>),
}

impl View for DdsSessionEvent {
    type V = DdsSessionEventView;

    open spec fn view(&self) -> DdsSessionEventView {
        match self {
            DdsSessionEvent::Decoded(command) => DdsSessionEventView::Decoded(command@),
            DdsSessionEvent::Encoded(payload) => DdsSessionEventView::Encoded(payload@),
            DdsSessionEvent::Failed(reason) => DdsSessionEventView::Failed(reason@),
        }
    }
}

impl DdsSessionPendingView {
    /// What comes next after `event`.
    pub open spec fn next(self, event: DdsSessionEventView) -> DdsSessionPendingView {
        match (self, event) {
            (
                DdsSessionPendingView::Decode(_),
                DdsSessionEventView::Decoded(command),
            ) => DdsSessionPendingView::Apply(command),
            (
                DdsSessionPendingView::Decode(_),
                DdsSessionEventView::Failed(reason),
            ) => DdsSessionPendingView::Reply(
                Err(
                    ServiceFaultView {
                        code: RemoteExceptionCode::InvalidArgument,
                        message: "parse error: "@ + reason,
                    },
                ),
            ),
            (
                DdsSessionPendingView::Encode(_),
                DdsSessionEventView::Encoded(payload),
            ) => DdsSessionPendingView::Reply(Ok(payload)),
            (
                DdsSessionPendingView::Encode(_),
                DdsSessionEventView::Failed(reason),
            ) => DdsSessionPendingView::Reply(
                Err(
                    ServiceFaultView {
                        code: RemoteExceptionCode::InternalError,
                        message: "serialize error: "@ + reason,
                    },
                ),
            ),
            _ => self,
        }
    }

    /// What comes next once a pending command has been applied to `state` at
    /// clock reading `now`.
    pub open spec fn applied(self, state: NodeStateView, now: nat) -> DdsSessionPendingView {
        match self {
            DdsSessionPendingView::Apply(command) => DdsSessionPendingView::Encode(
                state.answer(command, now),
            ),
            _ => self,
        }
    }

    /// The node's state once a pending command has been applied to `state` at
    /// clock reading `now`.
    pub open spec fn effect(self, state: NodeStateView, now: nat) -> NodeStateView {
        match self {
            DdsSessionPendingView::Apply(command) => state.after(command, now),
            _ => state,
        }
    }

    /// The reply to the request `correlation_id`, if it has come to that: the
    /// encoded response, or an empty payload after a fault.
    pub open spec fn reply(self, correlation_id: u64) -> Option<MessageView> {
        match self {
            DdsSessionPendingView::Reply(Ok(payload)) => Some(
                MessageView { correlation_id, payload },
            ),
            DdsSessionPendingView::Reply(Err(_)) => Some(
                MessageView { correlation_id, payload: Seq::empty() },
            ),
            _ => None,
        }
    }
}

/// What a [`DdsServicePending`] says.
#[verifier::ext_equal]
pub enum DdsServicePendingView {
    Take,
    Answer(u64, DdsSessionPendingView),
    Publish(MessageView),
    Rest,
}

impl View for DdsServicePending {
    type V = DdsServicePendingView;

    open spec fn view(&self) -> DdsServicePendingView {
        match self {
            DdsServicePending::Take => DdsServicePendingView::Take,
            DdsServicePending::Answer(session) => DdsServicePendingView::Answer(
                session.correlation_id,
                session.pending@,
            ),
            DdsServicePending::Publish(reply) => DdsServicePendingView::Publish(reply@),
            DdsServicePending::Rest => DdsServicePendingView::Rest,
        }
    }
}

/// What a [`DdsServiceEvent`] says.
#[verifier::ext_equal]
pub enum DdsServiceEventView {
    Succeeded,
    Taken(MessageView),
    Nothing,
    Session(DdsSessionEventView),
    Failed(Seq<char>),
}

impl View for DdsServiceEvent {
    type V = DdsServiceEventView;

    open spec fn view(&self) -> DdsServiceEventView {
        match self {
            DdsServiceEvent::Succeeded => DdsServiceEventView::Succeeded,
            DdsServiceEvent::Taken(request) => DdsServiceEventView::Taken(request@),
            DdsServiceEvent::Nothing => DdsServiceEventView::Nothing,
            DdsServiceEvent::Session(event) => DdsServiceEventView::Session(event@),
            DdsServiceEvent::Failed(reason) => DdsServiceEventView::Failed(reason@),
        }
    }
}

/// What a server does with a session on the request `correlation_id`: it goes on
/// with it until there is a reply, and then publishes the reply.
pub open spec fn settled(
    correlation_id: u64,
    session: DdsSessionPendingView,
) -> DdsServicePendingView {
    match session.reply(correlation_id) {
        Some(reply) => DdsServicePendingView::Publish(reply),
        None => DdsServicePendingView::Answer(correlation_id, session),
    }
}

impl DdsServicePendingView {
    /// What comes next after `event`.
    ///
    /// Neither a look that fails nor a reply that cannot be published stops the
    /// server: it rests and looks again.
    pub open spec fn next(self, event: DdsServiceEventView) -> DdsServicePendingView {
        match (self, event) {
            (
                DdsServicePendingView::Take,
                DdsServiceEventView::Taken(request),
            ) => DdsServicePendingView::Answer(
                request.correlation_id,
                DdsSessionPendingView::Decode(request.payload),
            ),
            (
                DdsServicePendingView::Take,
                DdsServiceEventView::Nothing,
            ) => DdsServicePendingView::Rest,
            (
                DdsServicePendingView::Take,
                DdsServiceEventView::Failed(_),
            ) => DdsServicePendingView::Rest,
            (
                DdsServicePendingView::Answer(correlation_id, session),
                DdsServiceEventView::Session(event),
            ) => settled(correlation_id, session.next(event)),
            (DdsServicePendingView::Answer(correlation_id, session), _) => settled(
                correlation_id,
                session,
            ),
            (
                DdsServicePendingView::Publish(_),
                DdsServiceEventView::Succeeded,
            ) => DdsServicePendingView::Rest,
            (
                DdsServicePendingView::Publish(_),
                DdsServiceEventView::Failed(_),
            ) => DdsServicePendingView::Rest,
            (
                DdsServicePendingView::Rest,
                DdsServiceEventView::Succeeded,
            ) => DdsServicePendingView::Take,
            _ => self,
        }
    }

    /// Whether a command waits to be applied to the node's state.
    pub open spec fn applies(self) -> bool {
        self matches DdsServicePendingView::Answer(_, session) && session is Apply
    }

    /// What comes next once a pending command has been applied to `state` at
    /// clock reading `now`.
    pub open spec fn applied(self, state: NodeStateView, now: nat) -> DdsServicePendingView {
        match self {
            DdsServicePendingView::Answer(
                correlation_id,
                session,
            ) => DdsServicePendingView::Answer(correlation_id, session.applied(state, now)),
            _ => self,
        }
    }

    /// The node's state once a pending command has been applied to `state` at
    /// clock reading `now`.
    pub open spec fn effect(self, state: NodeStateView, now: nat) -> NodeStateView {
        match self {
            DdsServicePendingView::Answer(_, session) => session.effect(state, now),
            _ => state,
        }
    }
}

impl DdsService {
    /// Whether `other` is this service with another pending step, and perhaps
    /// another state of the node.
    pub open spec fn same_node(&self, other: &DdsService) -> bool {
        &&& other.node_id@ == self.node_id@
        &&& other.service_name@ == self.service_name@
        &&& other.request_topic@ == self.request_topic@
        &&& other.reply_topic@ == self.reply_topic@
    }

    /// The service after `event`, which leaves the node's state alone.
    pub fn step(self, event: DdsServiceEvent) -> (r: Self)
        ensures
            self.same_node(&r),
            r.state == self.state,
            r.pending@ == self.pending@.next(event@),
    {
        let pending = match (self.pending, event) {
            (DdsServicePending::Take, DdsServiceEvent::Taken(request)) => DdsServicePending::Answer(
                DdsSession::new(request),
            ),
            (DdsServicePending::Take, DdsServiceEvent::Nothing) => DdsServicePending::Rest,
            (DdsServicePending::Take, DdsServiceEvent::Failed(_)) => DdsServicePending::Rest,
            (
                DdsServicePending::Answer(session),
                DdsServiceEvent::Session(event),
            ) => session.step(event).settle(),
            (DdsServicePending::Answer(session), _) => session.settle(),
            (DdsServicePending::Publish(_), DdsServiceEvent::Succeeded) => DdsServicePending::Rest,
            (DdsServicePending::Publish(_), DdsServiceEvent::Failed(_)) => DdsServicePending::Rest,
            (DdsServicePending::Rest, DdsServiceEvent::Succeeded) => DdsServicePending::Take,
            (pending, _) => pending,
        };
        DdsService {
            node_id: self.node_id,
            service_name: self.service_name,
            request_topic: self.request_topic,
            reply_topic: self.reply_topic,
            state: self.state,
            pending,
        }
    }

    /// Applies a pending command to the node's state at clock reading `now`;
    /// without one, nothing happens.
    pub fn apply_at(self, now: u128) -> (r: Self)
        requires
            self.pending@.applies() ==> self.state.can_count(),
            now <= LAST_READING,
        ensures
            self.same_node(&r),
            r.pending@ == self.pending@.applied(self.state@, now as nat),
            r.state@ == self.pending@.effect(self.state@, now as nat),
            forall|t: u128| r.state.reads(t) == #[trigger] self.state.reads(t),
    {
        let mut state = self.state;
        let pending = match self.pending {
            DdsServicePending::Answer(session) => DdsServicePending::Answer(
                session.apply_at(&mut state, now),
            ),
            pending => pending,
        };
        DdsService {
            node_id: self.node_id,
            service_name: self.service_name,
            request_topic: self.request_topic,
            reply_topic: self.reply_topic,
            state,
            pending,
        }
    }

    /// Applies a pending command to the node's state at a reading of the node's
    /// own clock; without one, nothing happens.
    pub fn apply(self) -> (r: Self)
        requires
            self.pending@.applies() ==> self.state.can_count(),
        ensures
            self.same_node(&r),
            exists|now: u128| #[trigger]
                self.state.reads(now) && now <= LAST_READING && r.pending@ == self.pending@.applied(
                    self.state@,
                    now as nat,
                ) && r.state@ == self.pending@.effect(self.state@, now as nat),
            forall|t: u128| r.state.reads(t) == #[trigger] self.state.reads(t),
    {
        let now: u128 = self.state.clock();
        self.apply_at(now)
    }
}

impl DdsSession {
    /// What a server does with the session: go on with it, or publish its reply.
    fn settle(self) -> (r: DdsServicePending)
        ensures
            r@ == settled(self.correlation_id, self.pending@),
    {
        match self.pending {
            DdsSessionPending::Reply(Ok(payload)) => DdsServicePending::Publish(
                NodeReply { correlation_id: self.correlation_id, payload },
            ),
            DdsSessionPending::Reply(Err(_)) => {
                let payload: Vec<u8> = Vec::new();
                assert(payload@ =~= Seq::empty());
                DdsServicePending::Publish(
                    NodeReply { correlation_id: self.correlation_id, payload },
                )
            },
            pending => DdsServicePending::Answer(
                DdsSession { correlation_id: self.correlation_id, pending },
            ),
        }
    }

    /// The service of `request`.
    pub fn new(request: NodeRequest) -> (r: Self)
        ensures
            r.correlation_id == request.correlation_id,
            r.pending@ == DdsSessionPendingView::Decode(request.payload@),
    {
        DdsSession {
            correlation_id: request.correlation_id,
            pending: DdsSessionPending::Decode(request.payload),
        }
    }

    /// The service after `event`.
    pub fn step(self, event: DdsSessionEvent) -> (r: Self)
        ensures
            r.correlation_id == self.correlation_id,
            r.pending@ == self.pending@.next(event@),
    {
        let pending = match (self.pending, event) {
            (
                DdsSessionPending::Decode(_),
                DdsSessionEvent::Decoded(command),
            ) => DdsSessionPending::Apply(command),
            (
                DdsSessionPending::Decode(_),
                DdsSessionEvent::Failed(reason),
            ) => DdsSessionPending::Reply(
                Err(
                    ServiceFault {
                        code: RemoteExceptionCode::InvalidArgument,
                        message: join2("parse error: ", reason.as_str()),
                    },
                ),
            ),
            (
                DdsSessionPending::Encode(_),
                DdsSessionEvent::Encoded(payload),
            ) => DdsSessionPending::Reply(Ok(payload)),
            (
                DdsSessionPending::Encode(_),
                DdsSessionEvent::Failed(reason),
            ) => DdsSessionPending::Reply(
                Err(
                    ServiceFault {
                        code: RemoteExceptionCode::InternalError,
                        message: join2("serialize error: ", reason.as_str()),
                    },
                ),
            ),
            (pending, _) => pending,
        };
        DdsSession { correlation_id: self.correlation_id, pending }
    }

    /// Applies a pending command to the node's state at clock reading `now`;
    /// without one, nothing happens.
    pub fn apply_at(self, state: &mut NodeState, now: u128) -> (r: Self)
        requires
            self.pending@ is Apply ==> old(state).can_count(),
            now <= LAST_READING,
        ensures
            r.correlation_id == self.correlation_id,
            r.pending@ == self.pending@.applied(old(state)@, now as nat),
            final(state)@ == self.pending@.effect(old(state)@, now as nat),
            forall|t: u128| final(state).reads(t) == #[trigger] old(state).reads(t),
    {
        let pending = match self.pending {
            DdsSessionPending::Apply(command) => DdsSessionPending::Encode(
                state.handle_at(command, now),
            ),
            pending => pending,
        };
        DdsSession { correlation_id: self.correlation_id, pending }
    }

    /// Applies a pending command to the node's state at a reading of the node's
    /// own clock; without one, nothing happens.
    pub fn apply(self, state: &mut NodeState) -> (r: Self)
        requires
            self.pending@ is Apply ==> old(state).can_count(),
        ensures
            r.correlation_id == self.correlation_id,
            exists|now: u128| #[trigger]
                old(state).reads(now) && now <= LAST_READING && r.pending@ == self.pending@.applied(
                    old(state)@,
                    now as nat,
                ) && final(state)@ == self.pending@.effect(old(state)@, now as nat),
            forall|t: u128| final(state).reads(t) == #[trigger] old(state).reads(t),
    {
        let now: u128 = state.clock();
        self.apply_at(state, now)
    }

    /// The reply to publish, once it has come to that.
    pub fn into_reply(self) -> (r: Option<NodeReply>)
        ensures
            match r {
                Some(reply) => self.pending@.reply(self.correlation_id) == Some(reply@),
                None => self.pending@.reply(self.correlation_id) is None,
            },
    {
        match self.pending {
            DdsSessionPending::Reply(Ok(payload)) => Some(
                NodeReply { correlation_id: self.correlation_id, payload },
            ),
            DdsSessionPending::Reply(Err(_)) => {
                let payload: Vec<u8> = Vec::new();
                assert(payload@ =~= Seq::empty());
                Some(NodeReply { correlation_id: self.correlation_id, payload })
            },
            _ => None,
        }
    }
}

/// Services of the same node agree in its identifier and its topics.
pub proof fn law_same_node(one: DdsService, other: DdsService)
    ensures
        one.same_node(&other) <==> {
            &&& one.node_id@ == other.node_id@
            &&& one.service_name@ == other.service_name@
            &&& one.request_topic@ == other.request_topic@
            &&& one.reply_topic@ == other.reply_topic@
        },
{
}

} // verus!
