//! A node of any transport, as a control node holds it: its identifier, and the
//! link over which it is reached. Which transport that is, the control node does
//! not see.
use crate::protocol::{Command, CommandView, NodeInterface};
use std::sync::Arc;
use vstd::prelude::*;

verus! {

/// A node that is reached over a link of type `L`.
pub struct LinkedNode<L> {
    id: String,
    link: Arc<L>,
}

/// A call that is about to be made: the command, and the link that carries it.
pub struct LinkedCall<L> {
    pub link: Arc<L>,
    pub command: Command,
}

impl<L: Send + Sync> LinkedNode<L> {
    /// The link over which the node is reached.
    pub closed spec fn reached_over(&self) -> Arc<L> {
        self.link
    }

    /// The node `id`, reached over `link`.
    pub fn new(id: String, link: Arc<L>) -> (r: Self)
        ensures
            r.node_id() == id@,
            r.reached_over() == link,
    {
        LinkedNode { id, link }
    }
}

impl<L: Send + Sync> NodeInterface for LinkedNode<L> {
    type Exchange = LinkedCall<L>;

    closed spec fn node_id(&self) -> Seq<char> {
        self.id@
    }

    open spec fn opens(&self, command: CommandView, exchange: LinkedCall<L>) -> bool {
        &&& exchange.link == self.reached_over()
        &&& exchange.command@ == command
    }

    fn id(&self) -> (r: &str) {
        self.id.as_str()
    }

    fn dispatch(&self, command: Command) -> (exchange: LinkedCall<L>) {
        LinkedCall { link: Arc::clone(&self.link), command }
    }
}

/// A linked node sends the command it is given, unchanged, over its own link.
pub proof fn law_linked_node_sends_its_command<L: Send + Sync>(
    node: LinkedNode<L>,
    command: CommandView,
    call: LinkedCall<L>,
)
    requires
        node.opens(command, call),
    ensures
        call.command@ == command,
        call.link == node.reached_over(),
{
}

/// A linked node is made as asked: it is called by the identifier it was given,
/// and its calls carry their command over the link it was given.
pub proof fn law_linked_node_is_made_as_asked<L: Send + Sync>(
    id: String,
    link: Arc<L>,
    node: LinkedNode<L>,
    named: &str,
    command: Command,
    call: LinkedCall<L>,
)
    requires
        call_ensures(LinkedNode::<L>::new, (id, link), node),
    ensures
        call_ensures(LinkedNode::<L>::id, (&node,), named) ==> named@ == id@,
        call_ensures(LinkedNode::<L>::dispatch, (&node, command), call) ==> call.command@
            == command@ && call.link == link,
{
}

} // verus!
