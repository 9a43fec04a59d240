//! Unix-domain-socket transport.
//!
//! ```text
//! client → server:  <JSON command>\n
//! server → client:  <JSON response>\n
//! ```
//!
//! Each connection carries exactly one request/response pair, then closes. Both
//! ends are state machines: each state names the one thing to do next, and the
//! event that tells how it went leads to the next state. An event that answers
//! something else than what is pending changes nothing.
use crate::protocol;
use crate::protocol::{
    Command, CommandView, NodeError, NodeErrorView, NodeInterface, Response, ResponseView,
};
use crate::text;
use crate::text::{frame, join3, trim};
use vstd::prelude::*;
use vstd::string::*;

verus! {

/// A handle that routes [`NodeInterface`] calls to an [`IpcNodeServer`](crate::ipc_server::IpcNodeServer) over a
/// Unix-domain socket.
///
/// Each call opens a fresh connection, sends one JSON line, reads one JSON line,
/// then closes the connection.
pub struct IpcNodeHandle {
    id: String,
    socket_path: String,
}

impl IpcNodeHandle {
    /// The socket this handle connects to.
    pub closed spec fn socket(&self) -> Seq<char> {
        self.socket_path@
    }

    /// Create a new handle.
    ///
    /// `socket_path` must point to the Unix-domain socket bound by the
    /// corresponding [`IpcNodeServer`](crate::ipc_server::IpcNodeServer).
    pub fn new(id: String, socket_path: String) -> (r: Self)
        ensures
            r.node_id() == id@,
            r.socket() == socket_path@,
    {
        IpcNodeHandle { id, socket_path }
    }
}

impl NodeInterface for IpcNodeHandle {
    type Exchange = IpcExchange;

    closed spec fn node_id(&self) -> Seq<char> {
        self.id@
    }

    open spec fn opens(&self, command: CommandView, exchange: IpcExchange) -> bool {
        &&& exchange.node_id@ == self.node_id()
        &&& exchange.socket_path@ == self.socket()
        &&& exchange.pending@ == IpcPendingView::Connect(command)
    }

    fn id(&self) -> (r: &str) {
        self.id.as_str()
    }

    fn dispatch(&self, command: Command) -> (exchange: IpcExchange) {
        IpcExchange {
            node_id: self.id.clone(),
            socket_path: self.socket_path.clone(),
            pending: IpcPending::Connect(command),
        }
    }
}

/// The client's side of one connection.
pub struct IpcExchange {
    pub node_id: String,
    pub socket_path: String,
    pub pending: IpcPending,
}

/// What the client's side does next.
pub enum IpcPending {
    /// Connect to the socket, to send this command.
    Connect(Command),
    /// Encode the command as JSON.
    Encode(Command),
    /// Write this line.
    Send(String),
    /// Shut the writing half down, so that the server sees the end of input.
    EndInput,
    /// Read one line.
    Receive,
    /// Decode this JSON as a response.
    Decode(String),
    /// Nothing: the call is over, with this outcome.
    Over(Result<Response, NodeError>),
}

/// How the pending step of the client's side went.
pub enum IpcEvent {
    /// Connecting, sending or shutting down succeeded.
    Succeeded,
    /// Encoding or receiving gave this text.
    Text(String),
    /// Decoding gave this response.
    Decoded(Response),
    /// The step failed; the text says why.
    Failed(String),
}

/// What an [`IpcPending`] says.
#[verifier::ext_equal]
pub enum IpcPendingView {
    Connect(CommandView),
    Encode(CommandView),
    Send(Seq<char>),
    EndInput,
    Receive,
    Decode(Seq<char>),
    Over(Result<ResponseView, NodeErrorView>),
}

impl View for IpcPending {
    type V = IpcPendingView;

    open spec fn view(&self) -> IpcPendingView {
        match self {
            IpcPending::Connect(command) => IpcPendingView::Connect(command@),
            IpcPending::Encode(command) => IpcPendingView::Encode(command@),
            IpcPending::Send(line) => IpcPendingView::Send(line@),
            IpcPending::EndInput => IpcPendingView::EndInput,
            IpcPending::Receive => IpcPendingView::Receive,
            IpcPending::Decode(json) => IpcPendingView::Decode(json@),
            IpcPending::Over(outcome) => IpcPendingView::Over(protocol::outcome_view(*outcome)),
        }
    }
}

/// What an [`IpcEvent`] says.
#[verifier::ext_equal]
pub enum IpcEventView {
    Succeeded,
    Text(Seq<char>),
    Decoded(ResponseView),
    Failed(Seq<char>),
}

impl View for IpcEvent {
    type V = IpcEventView;

    open spec fn view(&self) -> IpcEventView {
        match self {
            IpcEvent::Succeeded => IpcEventView::Succeeded,
            IpcEvent::Text(content) => IpcEventView::Text(content@),
            IpcEvent::Decoded(response) => IpcEventView::Decoded(response@),
            IpcEvent::Failed(reason) => IpcEventView::Failed(reason@),
        }
    }
}

impl IpcPendingView {
    /// The error a failure of this step is reported as.
    pub open spec fn failure(
        self,
        id: Seq<char>,
        socket_path: Seq<char>,
        reason: Seq<char>,
    ) -> NodeErrorView {
        match self {
            IpcPendingView::Connect(_) => NodeErrorView::Communication(
                "cannot connect to node '"@ + id + "' at "@ + socket_path + ": "@ + reason,
            ),
            IpcPendingView::Encode(_) | IpcPendingView::Decode(_) => NodeErrorView::Serialization(
                reason,
            ),
            _ => NodeErrorView::Io(reason),
        }
    }

    /// What comes next after `event`, on a connection to the node `id` at
    /// `socket_path`.
    pub open spec fn next(
        self,
        id: Seq<char>,
        socket_path: Seq<char>,
        event: IpcEventView,
    ) -> IpcPendingView {
        match (self, event) {
            (IpcPendingView::Over(_), _) => self,
            (_, IpcEventView::Failed(reason)) => IpcPendingView::Over(
                Err(self.failure(id, socket_path, reason)),
            ),
            (IpcPendingView::Connect(command), IpcEventView::Succeeded) => IpcPendingView::Encode(
                command,
            ),
            (IpcPendingView::Encode(_), IpcEventView::Text(json)) => IpcPendingView::Send(
                text::framed(json),
            ),
            (IpcPendingView::Send(_), IpcEventView::Succeeded) => IpcPendingView::EndInput,
            (IpcPendingView::EndInput, IpcEventView::Succeeded) => IpcPendingView::Receive,
            (IpcPendingView::Receive, IpcEventView::Text(line)) => if line.len() == 0 {
                IpcPendingView::Over(
                    Err(
                        NodeErrorView::Communication(
                            "node '"@ + id + "' closed connection without a response"@,
                        ),
                    ),
                )
            } else {
                IpcPendingView::Decode(text::trimmed(line))
            },
            (
                IpcPendingView::Decode(_),
                IpcEventView::Decoded(response),
            ) => IpcPendingView::Over(Ok(response)),
            _ => self,
        }
    }
}

impl IpcExchange {
    fn failure(&self, reason: String) -> (r: NodeError)
        ensures
            r@ == self.pending@.failure(self.node_id@, self.socket_path@, reason@),
    {
        match &self.pending {
            IpcPending::Connect(_) => {
                let mut message = join3("cannot connect to node '", self.node_id.as_str(), "' at ");
                message.append(self.socket_path.as_str());
                message.append(": ");
                message.append(reason.as_str());
                NodeError::Communication(message)
            },
            IpcPending::Encode(_) => NodeError::Serialization(reason),
            IpcPending::Decode(_) => NodeError::Serialization(reason),
            _ => NodeError::Io(reason),
        }
    }

    /// The exchange after `event`.
    pub fn step(self, event: IpcEvent) -> (r: Self)
        ensures
            r.node_id@ == self.node_id@,
            r.socket_path@ == self.socket_path@,
            r.pending@ == self.pending@.next(self.node_id@, self.socket_path@, event@),
    {
        if let IpcEvent::Failed(reason) = event {
            return match self.pending {
                IpcPending::Over(outcome) => IpcExchange {
                    node_id: self.node_id,
                    socket_path: self.socket_path,
                    pending: IpcPending::Over(outcome),
                },
                _ => {
                    let error = self.failure(reason);
                    IpcExchange {
                        node_id: self.node_id,
                        socket_path: self.socket_path,
                        pending: IpcPending::Over(Err(error)),
                    }
                },
            };
        }
        let pending = match (self.pending, event) {
            (IpcPending::Connect(command), IpcEvent::Succeeded) => IpcPending::Encode(command),
            (IpcPending::Encode(_), IpcEvent::Text(json)) => IpcPending::Send(
                frame(json.as_str()),
            ),
            (IpcPending::Send(_), IpcEvent::Succeeded) => IpcPending::EndInput,
            (IpcPending::EndInput, IpcEvent::Succeeded) => IpcPending::Receive,
            (IpcPending::Receive, IpcEvent::Text(line)) => if line.as_str().is_empty() {
                IpcPending::Over(
                    Err(
                        NodeError::Communication(
                            join3(
                                "node '",
                                self.node_id.as_str(),
                                "' closed connection without a response",
                            ),
                        ),
                    ),
                )
            } else {
                IpcPending::Decode(String::from_str(trim(line.as_str())))
            },
            (IpcPending::Decode(_), IpcEvent::Decoded(response)) => IpcPending::Over(Ok(response)),
            (pending, _) => pending,
        };
        IpcExchange { node_id: self.node_id, socket_path: self.socket_path, pending }
    }
}

} // verus!
