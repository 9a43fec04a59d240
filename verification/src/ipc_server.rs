//! The serving side of the Unix-domain-socket transport: binding the socket,
//! accepting connections, and one session per connection.
//!
//! 1. Read one JSON line and decode it as a command.
//! 2. Apply the command to the node's state.
//! 3. Encode the response and write one JSON line back.
//! 4. Close the connection.
use crate::node::{NodeState, NodeStateView, LAST_READING};
use crate::protocol::{Command, CommandView, Response, ResponseView};
use crate::text;
use crate::text::{frame, join2, unframe};
use vstd::prelude::*;

verus! {

/// Unix-domain socket server for an IPC-resident node.
pub struct IpcNodeServer {
    id: String,
    socket_path: String,
}

impl IpcNodeServer {
    /// The identifier of the served node.
    pub closed spec fn node_id(&self) -> Seq<char> {
        self.id@
    }

    /// The socket the server binds.
    pub closed spec fn socket(&self) -> Seq<char> {
        self.socket_path@
    }

    /// Create a new server configuration.
    ///
    /// The socket is **not** bound until [`serve`](Self::serve) is called.
    pub fn new(id: String, socket_path: String) -> (r: Self)
        ensures
            r.node_id() == id@,
            r.socket() == socket_path@,
    {
        IpcNodeServer { id, socket_path }
    }

    /// Start serving: the service first removes a stale socket file, binds the
    /// socket, and from then on accepts connections.
    pub fn serve(self) -> (r: IpcService)
        ensures
            r.node_id@ == self.node_id(),
            r.socket_path@ == self.socket(),
            r.pending@ == IpcServicePendingView::RemoveStale,
    {
        IpcService {
            node_id: self.id,
            socket_path: self.socket_path,
            pending: IpcServicePending::RemoveStale,
        }
    }
}

/// A server at work.
pub struct IpcService {
    pub node_id: String,
    pub socket_path: String,
    pub pending: IpcServicePending,
}

/// What the server does next.
pub enum IpcServicePending {
    /// Remove what is left of an earlier socket; there may be nothing to remove.
    RemoveStale,
    /// Bind the socket.
    Bind,
    /// Accept the next connection, and serve each in a session of its own.
    Accept,
    /// Nothing: the socket could not be bound; the text says why.
    NotBound(String),
    /// Nothing: accepting failed, and no more connections are taken.
    Ended,
}

/// How the pending step of the server went.
pub enum IpcServiceEvent {
    Succeeded,
    /// The step failed; the text says why.
    Failed(String),
}

/// What an [`IpcServicePending`] says.
#[verifier::ext_equal]
pub enum IpcServicePendingView {
    RemoveStale,
    Bind,
    Accept,
    NotBound(Seq<char>),
    Ended,
}

impl View for IpcServicePending {
    type V = IpcServicePendingView;

    open spec fn view(&self) -> IpcServicePendingView {
        match self {
            IpcServicePending::RemoveStale => IpcServicePendingView::RemoveStale,
            IpcServicePending::Bind => IpcServicePendingView::Bind,
            IpcServicePending::Accept => IpcServicePendingView::Accept,
            IpcServicePending::NotBound(reason) => IpcServicePendingView::NotBound(reason@),
            IpcServicePending::Ended => IpcServicePendingView::Ended,
        }
    }
}

impl IpcServicePendingView {
    /// What comes next after `event`.
    pub open spec fn next(self, event: IpcServiceEvent) -> IpcServicePendingView {
        match (self, event) {
            (IpcServicePendingView::RemoveStale, _) => IpcServicePendingView::Bind,
            (
                IpcServicePendingView::Bind,
                IpcServiceEvent::Succeeded,
            ) => IpcServicePendingView::Accept,
            (
                IpcServicePendingView::Bind,
                IpcServiceEvent::Failed(reason),
            ) => IpcServicePendingView::NotBound(reason@),
            (
                IpcServicePendingView::Accept,
                IpcServiceEvent::Failed(_),
            ) => IpcServicePendingView::Ended,
            _ => self,
        }
    }
}

impl IpcService {
    /// The state of the served node, before any command.
    pub fn node_state(&self) -> (r: NodeState)
        ensures
            r@ == NodeStateView::fresh(self.node_id@),
    {
        NodeState::new(self.node_id.clone())
    }

    /// The service after `event`.
    pub fn step(self, event: IpcServiceEvent) -> (r: Self)
        ensures
            r.node_id@ == self.node_id@,
            r.socket_path@ == self.socket_path@,
            r.pending@ == self.pending@.next(event),
    {
        let pending = match (self.pending, event) {
            (IpcServicePending::RemoveStale, _) => IpcServicePending::Bind,
            (IpcServicePending::Bind, IpcServiceEvent::Succeeded) => IpcServicePending::Accept,
            (
                IpcServicePending::Bind,
                IpcServiceEvent::Failed(reason),
            ) => IpcServicePending::NotBound(reason),
            (IpcServicePending::Accept, IpcServiceEvent::Failed(_)) => IpcServicePending::Ended,
            (pending, _) => pending,
        };
        IpcService { node_id: self.node_id, socket_path: self.socket_path, pending }
    }
}

/// The server's side of one connection: what it does next.
pub enum IpcSession {
    /// Read one line.
    Receive,
    /// Decode this JSON as a command.
    Decode(String),
    /// Apply the command to the node's state.
    Apply(Command),
    /// Encode the node's response as JSON.
    Encode(Response),
    /// Encode the refusal of a request that could not be decoded as JSON.
    EncodeRefusal(Response),
    /// Write this line.
    Send(String),
    /// Nothing: the connection is closed.
    Closed,
}

/// How the pending step of the server's side went.
pub enum IpcSessionEvent {
    /// Sending succeeded.
    Succeeded,
    /// Receiving or encoding gave this text.
    Text(String),
    /// Decoding gave this command.
    Decoded(Command),
    /// The step failed; the text says why.
    Failed(String),
}

/// What an [`IpcSession`] says.
#[verifier::ext_equal]
pub enum IpcSessionView {
    Receive,
    Decode(Seq<char>),
    Apply(CommandView),
    Encode(ResponseView),
    EncodeRefusal(ResponseView),
    Send(Seq<char>),
    Closed,
}

impl View for IpcSession {
    type V = IpcSessionView;

    open spec fn view(&self) -> IpcSessionView {
        match self {
            IpcSession::Receive => IpcSessionView::Receive,
            IpcSession::Decode(json) => IpcSessionView::Decode(json@),
            IpcSession::Apply(command) => IpcSessionView::Apply(command@),
            IpcSession::Encode(response) => IpcSessionView::Encode(response@),
            IpcSession::EncodeRefusal(response) => IpcSessionView::EncodeRefusal(response@),
            IpcSession::Send(line) => IpcSessionView::Send(line@),
            IpcSession::Closed => IpcSessionView::Closed,
        }
    }
}

/// What an [`IpcSessionEvent`] says.
#[verifier::ext_equal]
pub enum IpcSessionEventView {
    Succeeded,
    Text(Seq<char>),
    Decoded(CommandView),
    Failed(Seq<char>),
}

impl View for IpcSessionEvent {
    type V = IpcSessionEventView;

    open spec fn view(&self) -> IpcSessionEventView {
        match self {
            IpcSessionEvent::Succeeded => IpcSessionEventView::Succeeded,
            IpcSessionEvent::Text(content) => IpcSessionEventView::Text(content@),
            IpcSessionEvent::Decoded(command) => IpcSessionEventView::Decoded(command@),
            IpcSessionEvent::Failed(reason) => IpcSessionEventView::Failed(reason@),
        }
    }
}

impl IpcSessionView {
    /// What comes next after `event`.
    ///
    /// A line without content is not answered, and a request that cannot be
    /// decoded is answered with an error. Where encoding that error fails, an
    /// empty line is sent; where encoding the node's response fails, nothing is.
    pub open spec fn next(self, event: IpcSessionEventView) -> IpcSessionView {
        match (self, event) {
            (IpcSessionView::Receive, IpcSessionEventView::Text(line)) => if text::trimmed(
                line,
            ).len() == 0 {
                IpcSessionView::Closed
            } else {
                IpcSessionView::Decode(text::trimmed(line))
            },
            (IpcSessionView::Receive, IpcSessionEventView::Failed(_)) => IpcSessionView::Closed,
            (
                IpcSessionView::Decode(_),
                IpcSessionEventView::Decoded(command),
            ) => IpcSessionView::Apply(command),
            (
                IpcSessionView::Decode(_),
                IpcSessionEventView::Failed(reason),
            ) => IpcSessionView::EncodeRefusal(ResponseView::Error("parse error: "@ + reason)),
            (
                IpcSessionView::Encode(_),
                IpcSessionEventView::Text(json),
            ) => IpcSessionView::Send(text::framed(json)),
            (IpcSessionView::Encode(_), IpcSessionEventView::Failed(_)) => IpcSessionView::Closed,
            (
                IpcSessionView::EncodeRefusal(_),
                IpcSessionEventView::Text(json),
            ) => IpcSessionView::Send(text::framed(json)),
            (
                IpcSessionView::EncodeRefusal(_),
                IpcSessionEventView::Failed(_),
            ) => IpcSessionView::Send(text::framed(Seq::empty())),
            (IpcSessionView::Send(_), IpcSessionEventView::Succeeded) => IpcSessionView::Closed,
            (IpcSessionView::Send(_), IpcSessionEventView::Failed(_)) => IpcSessionView::Closed,
            _ => self,
        }
    }

    /// What comes next once a pending command has been applied to `state` at
    /// clock reading `now`.
    pub open spec fn applied(self, state: NodeStateView, now: nat) -> IpcSessionView {
        match self {
            IpcSessionView::Apply(command) => IpcSessionView::Encode(state.answer(command, now)),
            _ => self,
        }
    }

    /// The node's state once a pending command has been applied to `state` at
    /// clock reading `now`.
    pub open spec fn effect(self, state: NodeStateView, now: nat) -> NodeStateView {
        match self {
            IpcSessionView::Apply(command) => state.after(command, now),
            _ => state,
        }
    }
}

impl IpcSession {
    /// A session on a fresh connection.
    pub fn new() -> (r: Self)
        ensures
            r@ == IpcSessionView::Receive,
    {
        IpcSession::Receive
    }

    /// The session after `event`.
    pub fn step(self, event: IpcSessionEvent) -> (r: Self)
        ensures
            r@ == self@.next(event@),
    {
        match (self, event) {
            (IpcSession::Receive, IpcSessionEvent::Text(line)) => match unframe(line.as_str()) {
                Some(json) => IpcSession::Decode(json),
                None => IpcSession::Closed,
            },
            (IpcSession::Receive, IpcSessionEvent::Failed(_)) => IpcSession::Closed,
            (IpcSession::Decode(_), IpcSessionEvent::Decoded(command)) => IpcSession::Apply(
                command,
            ),
            (IpcSession::Decode(_), IpcSessionEvent::Failed(reason)) => IpcSession::EncodeRefusal(
                Response::Error(join2("parse error: ", reason.as_str())),
            ),
            (IpcSession::Encode(_), IpcSessionEvent::Text(json)) => IpcSession::Send(
                frame(json.as_str()),
            ),
            (IpcSession::Encode(_), IpcSessionEvent::Failed(_)) => IpcSession::Closed,
            (IpcSession::EncodeRefusal(_), IpcSessionEvent::Text(json)) => IpcSession::Send(
                frame(json.as_str()),
            ),
            (IpcSession::EncodeRefusal(_), IpcSessionEvent::Failed(_)) => IpcSession::Send(
                frame(String::new().as_str()),
            ),
            (IpcSession::Send(_), IpcSessionEvent::Succeeded) => IpcSession::Closed,
            (IpcSession::Send(_), IpcSessionEvent::Failed(_)) => IpcSession::Closed,
            (session, _) => session,
        }
    }

    /// Applies a pending command to the node's state at clock reading `now`;
    /// without one, nothing happens.
    pub fn apply_at(self, state: &mut NodeState, now: u128) -> (r: Self)
        requires
            self@ is Apply ==> old(state).can_count(),
            now <= LAST_READING,
        ensures
            r@ == self@.applied(old(state)@, now as nat),
            final(state)@ == self@.effect(old(state)@, now as nat),
            forall|t: u128| final(state).reads(t) == #[trigger] old(state).reads(t),
    {
        match self {
            IpcSession::Apply(command) => IpcSession::Encode(state.handle_at(command, now)),
            session => session,
        }
    }

    /// Applies a pending command to the node's state at a reading of the node's
    /// own clock; without one, nothing happens.
    pub fn apply(self, state: &mut NodeState) -> (r: Self)
        requires
            self@ is Apply ==> old(state).can_count(),
        ensures
            exists|now: u128| #[trigger]
                old(state).reads(now) && now <= LAST_READING && r@ == self@.applied(
                    old(state)@,
                    now as nat,
                ) && final(state)@ == self@.effect(old(state)@, now as nat),
            forall|t: u128| final(state).reads(t) == #[trigger] old(state).reads(t),
    {
        let now: u128 = state.clock();
        self.apply_at(state, now)
    }
}

} // verus!
