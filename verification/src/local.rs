//! In-process transport: commands go to the node's task through a bounded queue,
//! and each response comes back through a channel of its own. Nothing is copied
//! or serialized on the way.
use crate::node::{NodeState, NodeStateView};
use crate::protocol;
use crate::protocol::{
    Command, CommandView, NodeError, NodeErrorView, NodeInterface, Response, ResponseView,
};
use crate::text::join3;
use vstd::prelude::*;

verus! {

/// The deepest command queue there can be.
pub open spec fn deepest_queue() -> nat {
    usize::MAX as nat / 8
}

/// A handle to a node that lives in this process.
pub struct LocalNodeHandle {
    id: String,
    capacity: usize,
}

impl LocalNodeHandle {
    /// The depth of the node's command queue.
    pub closed spec fn queue_depth(&self) -> nat {
        self.capacity as nat
    }

    /// A handle to the node `id`. `capacity` is the depth of its command queue
    /// (backpressure): at least one, and no more than a queue can hold.
    pub fn new(id: String, capacity: usize) -> (r: Self)
        requires
            0 < capacity <= deepest_queue(),
        ensures
            r.node_id() == id@,
            r.queue_depth() == capacity,
    {
        LocalNodeHandle { id, capacity }
    }

    /// The depth of the node's command queue.
    pub fn capacity(&self) -> (r: usize)
        ensures
            r == self.queue_depth(),
    {
        self.capacity
    }

    /// The state of the node, before any command.
    pub fn node_state(&self) -> (r: NodeState)
        ensures
            r@ == NodeStateView::fresh(self.node_id()),
    {
        NodeState::new(self.id.clone())
    }
}

impl Clone for LocalNodeHandle {
    fn clone(&self) -> (r: Self)
        ensures
            r.node_id() == self.node_id(),
            r.queue_depth() == self.queue_depth(),
    {
        LocalNodeHandle { id: self.id.clone(), capacity: self.capacity }
    }
}

impl NodeInterface for LocalNodeHandle {
    type Exchange = LocalExchange;

    closed spec fn node_id(&self) -> Seq<char> {
        self.id@
    }

    open spec fn opens(&self, command: CommandView, exchange: LocalExchange) -> bool {
        &&& exchange.command@ == command
        &&& exchange.call.node_id@ == self.node_id()
    }

    fn id(&self) -> (r: &str) {
        self.id.as_str()
    }

    fn dispatch(&self, command: Command) -> (exchange: LocalExchange) {
        LocalExchange { command, call: LocalCall { node_id: self.id.clone() } }
    }
}

/// A call that is about to be made: the command to queue, and the call that its
/// reply ends.
pub struct LocalExchange {
    pub command: Command,
    pub call: LocalCall,
}

/// A call whose outcome is open.
pub struct LocalCall {
    pub node_id: String,
}

/// How a call ended.
pub enum LocalEnd {
    /// The node's task is gone: the command could not be queued.
    ChannelClosed,
    /// The command was queued, and the node's task went away before it replied.
    ReplyDropped,
    /// The node replied.
    Replied(Response),
}

/// The outcome of a call to the node `id` that ended with `end`.
pub open spec fn local_outcome(id: Seq<char>, end: LocalEnd) -> Result<
    ResponseView,
    NodeErrorView,
> {
    match end {
        LocalEnd::ChannelClosed => Err(
            NodeErrorView::Communication("node '"@ + id + "' channel closed"@),
        ),
        LocalEnd::ReplyDropped => Err(
            NodeErrorView::Communication("node '"@ + id + "' reply dropped"@),
        ),
        LocalEnd::Replied(response) => Ok(response@),
    }
}

impl LocalCall {
    /// The outcome of the call.
    pub fn finish(self, end: LocalEnd) -> (r: Result<Response, NodeError>)
        ensures
            protocol::outcome_view(r) == local_outcome(self.node_id@, end),
    {
        match end {
            LocalEnd::ChannelClosed => Err(
                NodeError::Communication(
                    join3("node '", self.node_id.as_str(), "' channel closed"),
                ),
            ),
            LocalEnd::ReplyDropped => Err(
                NodeError::Communication(join3("node '", self.node_id.as_str(), "' reply dropped")),
            ),
            LocalEnd::Replied(response) => Ok(response),
        }
    }
}

/// The transport is transparent: a call that is replied to gives the response
/// itself, and a call fails only where the command could not be queued or no
/// reply came.
pub proof fn law_local_call_gives_the_nodes_answer(
    handle: LocalNodeHandle,
    command: CommandView,
    exchange: LocalExchange,
    state: NodeStateView,
    now: nat,
    end: LocalEnd,
)
    requires
        handle.opens(command, exchange),
        end matches LocalEnd::Replied(response) ==> response@ == state.answer(
            exchange.command@,
            now,
        ),
    ensures
        local_outcome(exchange.call.node_id@, end) is Ok <==> end is Replied,
        end is Replied ==> local_outcome(exchange.call.node_id@, end) == Ok::<
            ResponseView,
            NodeErrorView,
        >(state.answer(command, now)),
{
}

/// A handle sends the command it is given, unchanged, and the call that goes
/// with it is one to the handle's own node.
pub proof fn law_local_handle_sends_its_command(
    handle: LocalNodeHandle,
    command: CommandView,
    exchange: LocalExchange,
)
    requires
        handle.opens(command, exchange),
    ensures
        exchange.command@ == command,
        exchange.call.node_id@ == handle.node_id(),
{
}

/// A call ends with the node's own reply, or with an error that names the node
/// and says where the call broke off.
pub proof fn law_local_call_ends_as_it_went(
    call: LocalCall,
    end: LocalEnd,
    outcome: Result<Response, NodeError>,
)
    requires
        call_ensures(LocalCall::finish, (call, end), outcome),
    ensures
        outcome is Ok <==> end is Replied,
        end matches LocalEnd::Replied(response) ==> (outcome matches Ok(given) && given@
            == response@),
        end is ChannelClosed ==> (outcome matches Err(error) && error@
            == NodeErrorView::Communication("node '"@ + call.node_id@ + "' channel closed"@)),
        end is ReplyDropped ==> (outcome matches Err(error) && error@
            == NodeErrorView::Communication("node '"@ + call.node_id@ + "' reply dropped"@)),
{
    protocol::law_outcome_is_what_it_says(outcome);
}

/// A queue can be as deep as an eighth of what can be counted, and no deeper.
pub proof fn law_deepest_queue()
    ensures
        8 * deepest_queue() <= usize::MAX,
        8 * (deepest_queue() + 1) > usize::MAX,
{
}

/// A local handle is made as asked: it is called by the identifier it was given,
/// its queue is as deep as it was told, its copies are alike, and its node starts
/// from nothing.
pub proof fn law_local_handle_is_made_as_asked(
    id: String,
    capacity: usize,
    handle: LocalNodeHandle,
    copy: LocalNodeHandle,
    named: &str,
    depth: usize,
    state: NodeState,
    command: Command,
    exchange: LocalExchange,
)
    requires
        call_ensures(LocalNodeHandle::new, (id, capacity), handle),
    ensures
        call_ensures(LocalNodeHandle::id, (&handle,), named) ==> named@ == id@,
        call_ensures(LocalNodeHandle::capacity, (&handle,), depth) ==> depth == capacity,
        call_ensures(LocalNodeHandle::clone, (&handle,), copy) ==> copy.node_id() == id@
            && copy.queue_depth() == capacity,
        call_ensures(LocalNodeHandle::node_state, (&handle,), state) ==> state@.id == id@
            && !state@.running && state@.message_count == 0 && state@.config == Map::<
            Seq<char>,
            Seq<char>,
        >::empty(),
        call_ensures(LocalNodeHandle::dispatch, (&handle, command), exchange)
            ==> exchange.command@ == command@ && exchange.call.node_id@ == id@,
{
}

} // verus!
