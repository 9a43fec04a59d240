//! The protocol every transport carries: commands, responses, the errors of a
//! call, and the interface of a node.
use crate::text::{join2, join3};
use vstd::prelude::*;

verus! {

/// Key/value pair sent with a [`Command::Config`] request.
#[derive(Debug, Clone, PartialEq, Eq)]
pub struct ConfigParams {
    pub key: String,
    pub value: String,
}

/// Runtime status returned by [`Command::Query`].
#[derive(Debug, Clone, PartialEq, Eq)]
pub struct NodeStatus {
    pub id: String,
    pub running: bool,
    pub uptime_secs: u64,
    pub message_count: u64,
}

/// Result returned by [`Command::Test`].
#[derive(Debug, Clone, PartialEq, Eq)]
pub struct TestResult {
    pub passed: bool,
    pub message: String,
    pub details: Vec<String>,
}

/// Commands that can be dispatched to any node.
#[derive(Debug)]
pub enum Command {
    Start,
    Stop,
    Query,
    Config(ConfigParams),
    Test,
}

/// Responses produced by a node after processing a [`Command`].
#[derive(Debug, Clone)]
pub enum Response {
    /// Command completed successfully with no extra payload.
    Completed,
    /// Status snapshot (reply to [`Command::Query`]).
    Status(NodeStatus),
    /// Self-test outcome (reply to [`Command::Test`]).
    TestResult(TestResult),
    /// Node-level error message.
    Error(String),
}

/// Why a call to a node failed before a response was there. The serialization
/// and I/O variants carry the text of the failure.
#[derive(Debug)]
pub enum NodeError {
    NotFound(String),
    Communication(String),
    Serialization(String),
    Io(String),
}

/// What a [`ConfigParams`] says.
#[verifier::ext_equal]
pub struct ConfigParamsView {
    pub key: Seq<char>,
    pub value: Seq<char>,
}

impl View for ConfigParams {
    type V = ConfigParamsView;

    open spec fn view(&self) -> ConfigParamsView {
        ConfigParamsView { key: self.key@, value: self.value@ }
    }
}

/// What a [`NodeStatus`] says.
#[verifier::ext_equal]
pub struct NodeStatusView {
    pub id: Seq<char>,
    pub running: bool,
    pub uptime_secs: nat,
    pub message_count: nat,
}

impl View for NodeStatus {
    type V = NodeStatusView;

    open spec fn view(&self) -> NodeStatusView {
        NodeStatusView {
            id: self.id@,
            running: self.running,
            uptime_secs: self.uptime_secs as nat,
            message_count: self.message_count as nat,
        }
    }
}

/// What a [`TestResult`] says.
#[verifier::ext_equal]
pub struct TestResultView {
    pub passed: bool,
    pub message: Seq<char>,
    pub details: Seq<Seq<char>>,
}

impl View for TestResult {
    type V = TestResultView;

    open spec fn view(&self) -> TestResultView {
        TestResultView {
            passed: self.passed,
            message: self.message@,
            details: self.details@.map_values(|line: String| line@),
        }
    }
}

/// What a [`Command`] says.
#[verifier::ext_equal]
pub enum CommandView {
    Start,
    Stop,
    Query,
    Config(ConfigParamsView),
    Test,
}

impl View for Command {
    type V = CommandView;

    open spec fn view(&self) -> CommandView {
        match self {
            Command::Start => CommandView::Start,
            Command::Stop => CommandView::Stop,
            Command::Query => CommandView::Query,
            Command::Config(params) => CommandView::Config(params@),
            Command::Test => CommandView::Test,
        }
    }
}

/// What a [`Response`] says.
#[verifier::ext_equal]
pub enum ResponseView {
    Completed,
    Status(NodeStatusView),
    TestResult(TestResultView),
    Error(Seq<char>),
}

impl View for Response {
    type V = ResponseView;

    open spec fn view(&self) -> ResponseView {
        match self {
            Response::Completed => ResponseView::Completed,
            Response::Status(status) => ResponseView::Status(status@),
            Response::TestResult(result) => ResponseView::TestResult(result@),
            Response::Error(message) => ResponseView::Error(message@),
        }
    }
}

/// What a [`NodeError`] says.
#[verifier::ext_equal]
pub enum NodeErrorView {
    NotFound(Seq<char>),
    Communication(Seq<char>),
    Serialization(Seq<char>),
    Io(Seq<char>),
}

impl View for NodeError {
    type V = NodeErrorView;

    open spec fn view(&self) -> NodeErrorView {
        match self {
            NodeError::NotFound(id) => NodeErrorView::NotFound(id@),
            NodeError::Communication(message) => NodeErrorView::Communication(message@),
            NodeError::Serialization(message) => NodeErrorView::Serialization(message@),
            NodeError::Io(message) => NodeErrorView::Io(message@),
        }
    }
}

/// What the outcome of a call says.
pub open spec fn outcome_view(outcome: Result<Response, NodeError>) -> Result<
    ResponseView,
    NodeErrorView,
> {
    match outcome {
        Ok(response) => Ok(response@),
        Err(error) => Err(error@),
    }
}

impl Clone for Command {
    fn clone(&self) -> (r: Self)
        ensures
            r@ == self@,
    {
        match self {
            Command::Start => Command::Start,
            Command::Stop => Command::Stop,
            Command::Query => Command::Query,
            Command::Config(params) => Command::Config(
                ConfigParams { key: params.key.clone(), value: params.value.clone() },
            ),
            Command::Test => Command::Test,
        }
    }
}

impl NodeErrorView {
    /// The sentence that reports this error.
    pub open spec fn sentence(self) -> Seq<char> {
        match self {
            NodeErrorView::NotFound(id) => "node '"@ + id + "' not registered"@,
            NodeErrorView::Communication(message) => "communication error: "@ + message,
            NodeErrorView::Serialization(message) => "serialization error: "@ + message,
            NodeErrorView::Io(message) => "I/O error: "@ + message,
        }
    }
}

impl NodeError {
    /// The sentence that reports this error.
    pub fn to_text(&self) -> (r: String)
        ensures
            r@ == self@.sentence(),
    {
        match self {
            NodeError::NotFound(id) => join3("node '", id.as_str(), "' not registered"),
            NodeError::Communication(message) => join2("communication error: ", message.as_str()),
            NodeError::Serialization(message) => join2("serialization error: ", message.as_str()),
            NodeError::Io(message) => join2("I/O error: ", message.as_str()),
        }
    }
}

/// The five operations exposed by every controlled node.
///
/// A call opens an exchange: what the node's transport does to carry one command
/// to the node and one response back. Each operation opens the exchange of its
/// own command.
pub trait NodeInterface: Send + Sync {
    /// The exchange that a call on this kind of node opens.
    type Exchange;

    /// The identifier of this node.
    spec fn node_id(&self) -> Seq<char>;

    /// Whether `exchange` is freshly opened on this node for `command`.
    spec fn opens(&self, command: CommandView, exchange: Self::Exchange) -> bool;

    /// Unique identifier for this node (e.g. `"A"`, `"C"`).
    fn id(&self) -> (r: &str)
        ensures
            r@ == self.node_id(),
    ;

    /// Opens the exchange that carries `command` to this node.
    fn dispatch(&self, command: Command) -> (exchange: Self::Exchange)
        ensures
            self.opens(command@, exchange),
    ;

    /// Transition the node to the *running* state.
    fn start(&self) -> (exchange: Self::Exchange)
        ensures
            self.opens(CommandView::Start, exchange),
    {
        self.dispatch(Command::Start)
    }

    /// Transition the node to the *stopped* state.
    fn stop(&self) -> (exchange: Self::Exchange)
        ensures
            self.opens(CommandView::Stop, exchange),
    {
        self.dispatch(Command::Stop)
    }

    /// Return a [`NodeStatus`] snapshot.
    fn query(&self) -> (exchange: Self::Exchange)
        ensures
            self.opens(CommandView::Query, exchange),
    {
        self.dispatch(Command::Query)
    }

    /// Apply a key/value configuration parameter.
    fn config(&self, params: ConfigParams) -> (exchange: Self::Exchange)
        ensures
            self.opens(CommandView::Config(params@), exchange),
    {
        self.dispatch(Command::Config(params))
    }

    /// Run the node's self-test and return a [`TestResult`].
    fn test(&self) -> (exchange: Self::Exchange)
        ensures
            self.opens(CommandView::Test, exchange),
    {
        self.dispatch(Command::Test)
    }
}

/// What a command says is the command itself, with the key and the value of a
/// configuration as they are.
pub proof fn law_command_is_what_it_says(command: Command)
    ensures
        match command {
            Command::Start => command@ is Start,
            Command::Stop => command@ is Stop,
            Command::Query => command@ is Query,
            Command::Config(params) => command@ matches CommandView::Config(said) && said.key
                == params.key@ && said.value == params.value@,
            Command::Test => command@ is Test,
        },
{
}

/// What a response says is the response itself, with all that it carries.
pub proof fn law_response_is_what_it_says(response: Response)
    ensures
        match response {
            Response::Completed => response@ is Completed,
            Response::Status(status) => response@ matches ResponseView::Status(said) && {
                &&& said.id == status.id@
                &&& said.running == status.running
                &&& said.uptime_secs == status.uptime_secs
                &&& said.message_count == status.message_count
            },
            Response::TestResult(result) => response@ matches ResponseView::TestResult(said) && {
                &&& said.passed == result.passed
                &&& said.message == result.message@
                &&& said.details.len() == result.details@.len()
                &&& forall|i: int|
                    0 <= i < said.details.len() ==> #[trigger] said.details[i]
                        == result.details@[i]@
            },
            Response::Error(message) => response@ matches ResponseView::Error(said) && said
                == message@,
        },
{
}

/// What an error says is the error itself, with its text.
pub proof fn law_error_is_what_it_says(error: NodeError)
    ensures
        match error {
            NodeError::NotFound(id) => error@ matches NodeErrorView::NotFound(said) && said == id@,
            NodeError::Communication(message) => error@ matches NodeErrorView::Communication(said)
                && said == message@,
            NodeError::Serialization(message) => error@ matches NodeErrorView::Serialization(said)
                && said == message@,
            NodeError::Io(message) => error@ matches NodeErrorView::Io(said) && said == message@,
        },
{
}

/// An outcome says success exactly where it is one, and says its own response or
/// error.
pub proof fn law_outcome_is_what_it_says(outcome: Result<Response, NodeError>)
    ensures
        outcome_view(outcome) is Ok <==> outcome is Ok,
        outcome matches Ok(response) ==> outcome_view(outcome) == Ok::<ResponseView, NodeErrorView>(
            response@,
        ),
        outcome matches Err(error) ==> outcome_view(outcome) == Err::<ResponseView, NodeErrorView>(
            error@,
        ),
{
}

/// The sentence of an error names its kind and gives its text unchanged.
pub proof fn law_sentence_gives_the_text(said: Seq<char>)
    ensures
        NodeErrorView::NotFound(said).sentence() == "node '"@ + said + "' not registered"@,
        NodeErrorView::Communication(said).sentence() == "communication error: "@ + said,
        NodeErrorView::Serialization(said).sentence() == "serialization error: "@ + said,
        NodeErrorView::Io(said).sentence() == "I/O error: "@ + said,
{
}

/// Each of the five operations of a node, whatever kind of node it is, opens the
/// exchange of its own command.
pub proof fn law_operations_send_their_commands<N: NodeInterface>(
    node: N,
    params: ConfigParams,
    exchange: N::Exchange,
)
    ensures
        call_ensures(N::start, (&node,), exchange) ==> node.opens(CommandView::Start, exchange),
        call_ensures(N::stop, (&node,), exchange) ==> node.opens(CommandView::Stop, exchange),
        call_ensures(N::query, (&node,), exchange) ==> node.opens(CommandView::Query, exchange),
        call_ensures(N::config, (&node, params), exchange) ==> node.opens(
            CommandView::Config(ConfigParamsView { key: params.key@, value: params.value@ }),
            exchange,
        ),
        call_ensures(N::test, (&node,), exchange) ==> node.opens(CommandView::Test, exchange),
{
}

/// An error is reported with its kind and its own text.
pub proof fn law_errors_are_reported(error: NodeError, sentence: String)
    requires
        call_ensures(NodeError::to_text, (&error,), sentence),
    ensures
        match error {
            NodeError::NotFound(id) => sentence@ == "node '"@ + id@ + "' not registered"@,
            NodeError::Communication(message) => sentence@ == "communication error: "@ + message@,
            NodeError::Serialization(message) => sentence@ == "serialization error: "@ + message@,
            NodeError::Io(message) => sentence@ == "I/O error: "@ + message@,
        },
{
}

} // verus!
