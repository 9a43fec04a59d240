//! **Control node X** — the hub that manages all registered nodes.
//!
//! A [`ControlNode`] opens exchanges: with a single named node, or with every
//! registered node at once. The results of a broadcast are put together by
//! [`join_results`].
use crate::node::NodeStateView;
use crate::protocol;
use crate::protocol::{
    Command, CommandView, ConfigParams, NodeError, NodeErrorView, NodeInterface, Response,
    ResponseView,
};
use crate::registry;
use crate::registry::Registry;
use crate::text::join2;
use vstd::prelude::*;
use vstd::string::*;

verus! {

/// The control hub. Register nodes with [`register`](Self::register), then drive
/// them through the [`NodeInterface`] operations.
pub struct ControlNode<N> {
    id: String,
    nodes: Registry<N>,
}

impl<N: NodeInterface> ControlNode<N> {
    /// The identifier of this control node.
    pub closed spec fn control_id(&self) -> Seq<char> {
        self.id@
    }

    /// The registered nodes.
    pub closed spec fn registered(&self) -> Registry<N> {
        self.nodes
    }

    /// The registered nodes by their identifiers.
    pub open spec fn nodes(&self) -> Map<Seq<char>, N> {
        self.registered().map()
    }

    /// Every node is registered under its own identifier.
    pub open spec fn well_formed(&self) -> bool {
        &&& self.registered().well_formed()
        &&& forall|id: Seq<char>| #[trigger]
            self.nodes().contains_key(id) ==> self.nodes()[id].node_id() == id
    }

    /// What a call of `command` on the node `id` gives: an exchange opened on the
    /// node registered under `id`, or that there is none.
    pub open spec fn calls(
        &self,
        id: Seq<char>,
        command: CommandView,
        result: Result<N::Exchange, NodeError>,
    ) -> bool {
        match result {
            Ok(exchange) => self.nodes().contains_key(id) && self.nodes()[id].opens(
                command,
                exchange,
            ),
            Err(error) => !self.nodes().contains_key(id) && error@ == NodeErrorView::NotFound(id),
        }
    }

    /// What a broadcast of `command` gives: for each registered node, in the
    /// order of the identifiers, an exchange opened on it.
    pub open spec fn calls_all(
        &self,
        command: CommandView,
        exchanges: Seq<(String, N::Exchange)>,
    ) -> bool {
        &&& exchanges.len() == self.registered().ids().len()
        &&& forall|i: int|
            0 <= i < exchanges.len() ==> {
                &&& (#[trigger] exchanges[i]).0@ == self.registered().ids()[i]
                &&& self.registered().values()[i].opens(command, exchanges[i].1)
            }
    }

    /// Create a new control node with the given identifier.
    pub fn new(id: String) -> (r: Self)
        ensures
            r.well_formed(),
            r.control_id() == id@,
            r.nodes() == Map::<Seq<char>, N>::empty(),
    {
        ControlNode { id, nodes: Registry::new() }
    }

    /// The identifier of this control node (always `"X"` in the demo).
    pub fn id(&self) -> (r: &str)
        ensures
            r@ == self.control_id(),
    {
        self.id.as_str()
    }

    /// Register a node under its own `id()`.
    ///
    /// If a node with the same ID was already registered it is replaced.
    pub fn register(&mut self, node: N)
        requires
            old(self).well_formed(),
        ensures
            final(self).well_formed(),
            final(self).control_id() == old(self).control_id(),
            final(self).nodes() == old(self).nodes().insert(node.node_id(), node),
    {
        let id = String::from_str(node.id());
        self.nodes.insert(id, node);
        assert forall|other: Seq<char>| #[trigger]
            self.nodes().contains_key(other) implies self.nodes()[other].node_id() == other by {
            if other != node.node_id() {
                assert(old(self).nodes().contains_key(other));
            }
        }
    }

    /// Return the IDs of all registered nodes (sorted for deterministic output).
    pub fn node_ids(&self) -> (r: Vec<&str>)
        requires
            self.well_formed(),
        ensures
            r@.map_values(|id: &str| id@) == self.registered().ids(),
            registry::rising(r@.map_values(|id: &str| id@)),
            r@.map_values(|id: &str| id@).to_set() == self.nodes().dom(),
    {
        let mut r: Vec<&str> = Vec::new();
        let count: usize = self.nodes.len();
        let mut i: usize = 0;
        while i < count
            invariant
                self.nodes.well_formed(),
                count == self.nodes.ids().len(),
                i <= count,
                r@.len() == i,
                forall|j: int| 0 <= j < i ==> (#[trigger] r@[j])@ == self.nodes.ids()[j],
            decreases count - i,
        {
            r.push(self.nodes.id_at(i));
            i = i + 1;
        }
        assert(r@.map_values(|id: &str| id@) =~= self.registered().ids());
        proof {
            registry::law_registry_is_its_map(self.nodes);
        }
        r
    }

    fn get(&self, id: &str) -> (r: Result<&N, NodeError>)
        requires
            self.well_formed(),
        ensures
            match r {
                Ok(node) => self.nodes().contains_key(id@) && *node == self.nodes()[id@],
                Err(error) => {
                    &&& !self.nodes().contains_key(id@)
                    &&& error@ == NodeErrorView::NotFound(id@)
                },
            },
    {
        match self.nodes.get(id) {
            Some(node) => Ok(node),
            None => Err(NodeError::NotFound(String::from_str(id))),
        }
    }

    /// Call `start` on the node `id`.
    pub fn start_node(&self, id: &str) -> (r: Result<N::Exchange, NodeError>)
        requires
            self.well_formed(),
        ensures
            self.calls(id@, CommandView::Start, r),
    {
        Ok(self.get(id)?.start())
    }

    /// Call `stop` on the node `id`.
    pub fn stop_node(&self, id: &str) -> (r: Result<N::Exchange, NodeError>)
        requires
            self.well_formed(),
        ensures
            self.calls(id@, CommandView::Stop, r),
    {
        Ok(self.get(id)?.stop())
    }

    /// Call `query` on the node `id`.
    pub fn query_node(&self, id: &str) -> (r: Result<N::Exchange, NodeError>)
        requires
            self.well_formed(),
        ensures
            self.calls(id@, CommandView::Query, r),
    {
        Ok(self.get(id)?.query())
    }

    /// Call `config` on the node `id`.
    pub fn config_node(&self, id: &str, params: ConfigParams) -> (r: Result<
        N::Exchange,
        NodeError,
    >)
        requires
            self.well_formed(),
        ensures
            self.calls(id@, CommandView::Config(params@), r),
    {
        Ok(self.get(id)?.config(params))
    }

    /// Call `test` on the node `id`.
    pub fn test_node(&self, id: &str) -> (r: Result<N::Exchange, NodeError>)
        requires
            self.well_formed(),
        ensures
            self.calls(id@, CommandView::Test, r),
    {
        Ok(self.get(id)?.test())
    }

    /// Start every registered node.
    pub fn start_all(&self) -> (r: Vec<(String, N::Exchange)>)
        requires
            self.well_formed(),
        ensures
            self.calls_all(CommandView::Start, r@),
    {
        self.broadcast(&Command::Start)
    }

    /// Stop every registered node.
    pub fn stop_all(&self) -> (r: Vec<(String, N::Exchange)>)
        requires
            self.well_formed(),
        ensures
            self.calls_all(CommandView::Stop, r@),
    {
        self.broadcast(&Command::Stop)
    }

    /// Query every registered node.
    pub fn query_all(&self) -> (r: Vec<(String, N::Exchange)>)
        requires
            self.well_formed(),
        ensures
            self.calls_all(CommandView::Query, r@),
    {
        self.broadcast(&Command::Query)
    }

    /// Run the self-test on every registered node.
    pub fn test_all(&self) -> (r: Vec<(String, N::Exchange)>)
        requires
            self.well_formed(),
        ensures
            self.calls_all(CommandView::Test, r@),
    {
        self.broadcast(&Command::Test)
    }

    /// Opens the exchange of `command` with every registered node.
    fn broadcast(&self, command: &Command) -> (r: Vec<(String, N::Exchange)>)
        requires
            self.well_formed(),
        ensures
            self.calls_all(command@, r@),
    {
        let mut r: Vec<(String, N::Exchange)> = Vec::new();
        let count: usize = self.nodes.len();
        let mut i: usize = 0;
        while i < count
            invariant
                self.nodes.well_formed(),
                count == self.nodes.ids().len(),
                i <= count,
                r@.len() == i,
                forall|j: int|
                    0 <= j < i ==> {
                        &&& (#[trigger] r@[j]).0@ == self.nodes.ids()[j]
                        &&& self.nodes.values()[j].opens(command@, r@[j].1)
                    },
            decreases count - i,
        {
            let id = String::from_str(self.nodes.id_at(i));
            let exchange = self.nodes.value_at(i).dispatch(command.clone());
            r.push((id, exchange));
            i = i + 1;
        }
        r
    }
}

/// How the task that carried one exchange of a broadcast ended.
pub enum TaskEnd {
    /// The exchange came to its outcome.
    Finished(Result<Response, NodeError>),
    /// The task itself was lost; the text says why.
    Lost(String),
}

impl View for TaskEnd {
    type V = Result<ResponseView, NodeErrorView>;

    /// The outcome that is reported for the node.
    open spec fn view(&self) -> Result<ResponseView, NodeErrorView> {
        match self {
            TaskEnd::Finished(outcome) => protocol::outcome_view(*outcome),
            TaskEnd::Lost(reason) => Err(
                NodeErrorView::Communication("task join error: "@ + reason@),
            ),
        }
    }
}

/// What the results of a broadcast say, by node.
pub open spec fn results_view(results: Registry<Result<Response, NodeError>>) -> Map<
    Seq<char>,
    Result<ResponseView, NodeErrorView>,
> {
    results.map().map_values(|outcome: Result<Response, NodeError>| protocol::outcome_view(outcome))
}

/// The results by node of the first `n` tasks: each under the identifier of its
/// node.
pub open spec fn joined(tasks: Seq<(String, TaskEnd)>, n: nat) -> Map<
    Seq<char>,
    Result<ResponseView, NodeErrorView>,
>
    recommends
        n <= tasks.len(),
    decreases n,
{
    if n == 0 {
        Map::empty()
    } else {
        joined(tasks, (n - 1) as nat).insert(tasks[n - 1].0@, tasks[n - 1].1@)
    }
}

/// Puts the results of a broadcast together by node.
pub fn join_results(tasks: Vec<(String, TaskEnd)>) -> (r: Registry<Result<Response, NodeError>>)
    ensures
        r.well_formed(),
        results_view(r) == joined(tasks@, tasks@.len()),
{
    let mut r: Registry<Result<Response, NodeError>> = Registry::new();
    let ghost all = tasks@;
    assert(results_view(r) =~= joined(all, 0));
    for task in it: tasks
        invariant
            it.seq() == all,
            r.well_formed(),
            results_view(r) == joined(all, it.index() as nat),
    {
        let ghost before = results_view(r);
        let ghost entry = task;
        let (id, end) = task;
        let outcome = match end {
            TaskEnd::Finished(outcome) => outcome,
            TaskEnd::Lost(reason) => Err(
                NodeError::Communication(join2("task join error: ", reason.as_str())),
            ),
        };
        r.insert(id, outcome);
        assert(results_view(r) =~= before.insert(entry.0@, entry.1@));
    }
    r
}

/// The listed identifiers are sorted, none comes twice, and they are those of
/// the registered nodes.
pub proof fn law_node_ids_are_sorted<N: NodeInterface>(control: ControlNode<N>)
    requires
        control.well_formed(),
    ensures
        registry::rising(control.registered().ids()),
        control.registered().ids().no_duplicates(),
        control.registered().ids().to_set() == control.nodes().dom(),
{
    registry::law_registry_is_its_map(control.registered());
}

/// A later registration under the same identifier replaces the earlier one, as
/// if that had never been made.
pub proof fn law_registration_replaces<N: NodeInterface>(
    before: ControlNode<N>,
    once: ControlNode<N>,
    twice: ControlNode<N>,
    first: N,
    second: N,
)
    requires
        once.nodes() == before.nodes().insert(first.node_id(), first),
        twice.nodes() == once.nodes().insert(second.node_id(), second),
        first.node_id() == second.node_id(),
    ensures
        twice.nodes() == before.nodes().insert(second.node_id(), second),
{
    assert(twice.nodes() =~= before.nodes().insert(second.node_id(), second));
}

/// A broadcast reaches each registered node once and no other: the exchange
/// under a node's identifier is opened on that node.
pub proof fn law_broadcast_reaches_each_node_once<N: NodeInterface>(
    control: ControlNode<N>,
    command: CommandView,
    exchanges: Seq<(String, N::Exchange)>,
)
    requires
        control.well_formed(),
        control.calls_all(command, exchanges),
    ensures
        exchanges.map_values(|entry: (String, N::Exchange)| entry.0@).no_duplicates(),
        exchanges.map_values(|entry: (String, N::Exchange)| entry.0@).to_set()
            == control.nodes().dom(),
        forall|i: int|
            0 <= i < exchanges.len() ==> control.nodes()[(#[trigger] exchanges[i]).0@].opens(
                command,
                exchanges[i].1,
            ),
{
    let ids = control.registered().ids();
    registry::law_registry_is_its_map(control.registered());
    assert(exchanges.map_values(|entry: (String, N::Exchange)| entry.0@) =~= ids);
}

proof fn lemma_joined(tasks: Seq<(String, TaskEnd)>, ids: Seq<Seq<char>>, n: nat)
    requires
        n <= tasks.len(),
        tasks.len() == ids.len(),
        ids.no_duplicates(),
        forall|i: int| 0 <= i < tasks.len() ==> (#[trigger] tasks[i]).0@ == ids[i],
    ensures
        joined(tasks, n).dom() == ids.take(n as int).to_set(),
        forall|i: int| 0 <= i < n ==> joined(tasks, n)[#[trigger] ids[i]] == tasks[i].1@,
    decreases n,
{
    if n == 0 {
        assert(joined(tasks, n).dom() =~= ids.take(0).to_set());
    } else {
        let m = (n - 1) as nat;
        lemma_joined(tasks, ids, m);
        assert(ids.take(n as int) =~= ids.take(m as int).push(ids[m as int]));
        assert forall|id: Seq<char>| #[trigger]
            ids.take(n as int).contains(id) <==> ids.take(m as int).contains(id) || id
                == ids[m as int] by {
            if ids.take(m as int).contains(id) {
                let i = choose|i: int| 0 <= i < m && ids.take(m as int)[i] == id;
                assert(ids.take(n as int)[i] == id);
            }
            assert(ids.take(n as int)[m as int] == ids[m as int]);
        }
        assert(tasks[m as int].0@ == ids[m as int]);
        assert(joined(tasks, n).dom() =~= ids.take(n as int).to_set());
    }
}

/// The results of a broadcast hold one entry for each registered node, and it is
/// what the task of that node ended with.
pub proof fn law_results_cover_all_nodes<N: NodeInterface>(
    control: ControlNode<N>,
    tasks: Seq<(String, TaskEnd)>,
)
    requires
        control.well_formed(),
        tasks.len() == control.registered().ids().len(),
        forall|i: int|
            0 <= i < tasks.len() ==> (#[trigger] tasks[i]).0@ == control.registered().ids()[i],
    ensures
        joined(tasks, tasks.len()).dom() == control.nodes().dom(),
        forall|i: int|
            0 <= i < tasks.len() ==> joined(tasks, tasks.len())[(#[trigger] tasks[i]).0@]
                == tasks[i].1@,
{
    let ids = control.registered().ids();
    registry::law_registry_is_its_map(control.registered());
    lemma_joined(tasks, ids, tasks.len());
    assert(ids.take(ids.len() as int) =~= ids);
    assert forall|i: int| 0 <= i < tasks.len() implies joined(tasks, tasks.len())[(
    #[trigger] tasks[i]).0@] == tasks[i].1@ by {
        assert(joined(tasks, tasks.len())[ids[i]] == tasks[i].1@);
    }
}

/// Where every task of a broadcast ended with its node's answer, the results give
/// for each registered node the answer of that node, whatever the others did.
pub proof fn law_broadcast_gives_each_nodes_answer<N: NodeInterface>(
    control: ControlNode<N>,
    command: CommandView,
    states: Map<Seq<char>, NodeStateView>,
    readings: Map<Seq<char>, nat>,
    tasks: Seq<(String, TaskEnd)>,
)
    requires
        control.well_formed(),
        tasks.len() == control.registered().ids().len(),
        forall|i: int|
            0 <= i < tasks.len() ==> {
                let id = control.registered().ids()[i];
                &&& (#[trigger] tasks[i]).0@ == id
                &&& tasks[i].1@ == Ok::<ResponseView, NodeErrorView>(
                    states[id].answer(command, readings[id]),
                )
            },
    ensures
        joined(tasks, tasks.len()).dom() == control.nodes().dom(),
        forall|id: Seq<char>| #[trigger]
            control.nodes().contains_key(id) ==> joined(tasks, tasks.len())[id] == Ok::<
                ResponseView,
                NodeErrorView,
            >(states[id].answer(command, readings[id])),
{
    let ids = control.registered().ids();
    law_results_cover_all_nodes(control, tasks);
    assert forall|id: Seq<char>| #[trigger] control.nodes().contains_key(id) implies joined(
        tasks,
        tasks.len(),
    )[id] == Ok::<ResponseView, NodeErrorView>(states[id].answer(command, readings[id])) by {
        let i = ids.index_of(id);
        assert(ids.contains(id));
        assert(tasks[i].0@ == id);
    }
}

/// Whether `reported` is a faithful report of `end`: what the exchange came to,
/// success or error, with what it carries; of a task that was lost, that it was
/// and why.
pub open spec fn reports(reported: Result<ResponseView, NodeErrorView>, end: TaskEnd) -> bool {
    match end {
        TaskEnd::Finished(Ok(response)) => reported == Ok::<ResponseView, NodeErrorView>(response@),
        TaskEnd::Finished(Err(error)) => reported == Err::<ResponseView, NodeErrorView>(error@),
        TaskEnd::Lost(reason) => reported == Err::<ResponseView, NodeErrorView>(
            NodeErrorView::Communication("task join error: "@ + reason@),
        ),
    }
}

/// The end of a task is reported as it was, errors included: it is a success
/// exactly where the exchange succeeded.
pub proof fn law_task_end_is_reported_as_it_was(end: TaskEnd)
    ensures
        reports(end@, end),
        end@ is Ok <==> (end matches TaskEnd::Finished(outcome) && outcome is Ok),
{
}

/// Whether no two tasks belong to the same node.
pub open spec fn one_per_node(tasks: Seq<(String, TaskEnd)>) -> bool {
    forall|i: int, j: int|
        0 <= i < tasks.len() && 0 <= j < tasks.len() && i != j ==> (#[trigger] tasks[i]).0@ != (
        #[trigger] tasks[j]).0@
}

/// The results of a broadcast are those of its tasks: there is one for each node
/// that had a task and for no other, and it is what the task of that node came
/// to, whatever became of the other tasks.
pub proof fn law_results_are_those_of_the_tasks(
    tasks: Vec<(String, TaskEnd)>,
    results: Registry<Result<Response, NodeError>>,
)
    requires
        call_ensures(join_results, (tasks,), results),
        one_per_node(tasks@),
    ensures
        results.well_formed(),
        results.ids().len() == tasks@.len(),
        forall|i: int|
            0 <= i < tasks@.len() ==> results.map().contains_key((#[trigger] tasks@[i]).0@)
                && reports(
                protocol::outcome_view(results.map()[tasks@[i].0@]),
                tasks@[i].1,
            ) && (tasks@[i].1 matches TaskEnd::Finished(outcome) ==> (results.map()[tasks@[i].0@]
                is Ok <==> outcome is Ok)),
        forall|id: Seq<char>| #[trigger]
            results.map().contains_key(id) ==> exists|i: int|
                0 <= i < tasks@.len() && (#[trigger] tasks@[i]).0@ == id,
{
    let all = tasks@;
    let ids = all.map_values(|task: (String, TaskEnd)| task.0@);
    assert forall|i: int, j: int| 0 <= i < ids.len() && 0 <= j < ids.len() && i != j implies ids[i]
        != ids[j] by {
        assert(all[i].0@ != all[j].0@);
    }
    lemma_joined(all, ids, all.len());
    assert(ids.take(ids.len() as int) =~= ids);
    let said = results_view(results);
    assert forall|i: int| 0 <= i < all.len() implies results.map().contains_key(
        (#[trigger] all[i]).0@,
    ) && reports(protocol::outcome_view(results.map()[all[i].0@]), all[i].1) && (
    all[i].1 matches TaskEnd::Finished(outcome) ==> (results.map()[all[i].0@] is Ok <==> outcome
        is Ok)) by {
        assert(ids[i] == all[i].0@);
        assert(ids.to_set().contains(ids[i]));
        assert(said.contains_key(ids[i]));
        law_task_end_is_reported_as_it_was(all[i].1);
    }
    assert forall|id: Seq<char>| #[trigger] results.map().contains_key(id) implies exists|i: int|
        0 <= i < all.len() && (#[trigger] all[i]).0@ == id by {
        assert(said.contains_key(id));
        assert(ids.contains(id));
        let i = ids.index_of(id);
        assert(all[i].0@ == id);
    }
    registry::law_registry_is_its_map(results);
    assert(results.map().dom() =~= ids.to_set()) by {
        assert(results.map().dom() =~= said.dom());
    }
    ids.unique_seq_to_set();
}

/// A call by identifier reaches the node that is registered under it, with the
/// command of the operation, and where none is registered the error names the
/// identifier that was asked for.
pub proof fn law_calls_reach_the_named_node<N: NodeInterface>(
    control: ControlNode<N>,
    id: &str,
    params: ConfigParams,
    result: Result<N::Exchange, NodeError>,
    command: CommandView,
)
    requires
        control.well_formed(),
        ({
            ||| command is Start && call_ensures(
                ControlNode::<N>::start_node,
                (&control, id),
                result,
            )
            ||| command is Stop && call_ensures(ControlNode::<N>::stop_node, (&control, id), result)
            ||| command is Query && call_ensures(
                ControlNode::<N>::query_node,
                (&control, id),
                result,
            )
            ||| command == CommandView::Config(params@) && call_ensures(
                ControlNode::<N>::config_node,
                (&control, id, params),
                result,
            )
            ||| command is Test && call_ensures(ControlNode::<N>::test_node, (&control, id), result)
        }),
    ensures
        result is Ok <==> control.nodes().contains_key(id@),
        result matches Ok(exchange) ==> control.nodes()[id@].opens(command, exchange)
            && control.nodes()[id@].node_id() == id@,
        result matches Err(error) ==> error@ == NodeErrorView::NotFound(id@),
{
}

/// A broadcast opens, for each registered node, one exchange of its command with
/// that node, under the node's identifier, and no other exchange.
pub proof fn law_broadcasts_reach_every_node<N: NodeInterface>(
    control: ControlNode<N>,
    exchanges: Vec<(String, N::Exchange)>,
    command: CommandView,
)
    requires
        control.well_formed(),
        ({
            ||| command is Start && call_ensures(
                ControlNode::<N>::start_all,
                (&control,),
                exchanges,
            )
            ||| command is Stop && call_ensures(ControlNode::<N>::stop_all, (&control,), exchanges)
            ||| command is Query && call_ensures(
                ControlNode::<N>::query_all,
                (&control,),
                exchanges,
            )
            ||| command is Test && call_ensures(ControlNode::<N>::test_all, (&control,), exchanges)
        }),
    ensures
        exchanges@.len() == control.nodes().dom().len(),
        forall|i: int|
            0 <= i < exchanges@.len() ==> {
                let id = (#[trigger] exchanges@[i]).0@;
                &&& control.nodes().contains_key(id)
                &&& control.nodes()[id].node_id() == id
                &&& control.nodes()[id].opens(command, exchanges@[i].1)
            },
        forall|id: Seq<char>| #[trigger]
            control.nodes().contains_key(id) ==> exists|i: int|
                0 <= i < exchanges@.len() && (#[trigger] exchanges@[i]).0@ == id,
        forall|i: int, j: int|
            0 <= i < j < exchanges@.len() ==> (#[trigger] exchanges@[i]).0@ != (
            #[trigger] exchanges@[j]).0@,
{
    let all = exchanges@;
    let ids = all.map_values(|entry: (String, N::Exchange)| entry.0@);
    registry::law_registry_is_its_map(control.registered());
    law_broadcast_reaches_each_node_once(control, command, all);
    assert(ids =~= control.registered().ids());
    assert forall|i: int| 0 <= i < all.len() implies control.nodes().contains_key(
        (#[trigger] all[i]).0@,
    ) by {
        assert(ids[i] == all[i].0@);
        assert(ids.to_set().contains(ids[i]));
    }
    assert forall|id: Seq<char>| #[trigger] control.nodes().contains_key(id) implies exists|i: int|
        0 <= i < all.len() && (#[trigger] all[i]).0@ == id by {
        assert(ids.to_set().contains(id));
        let i = ids.index_of(id);
        assert(all[i].0@ == id);
    }
    assert forall|i: int, j: int| 0 <= i < j < all.len() implies (#[trigger] all[i]).0@ != (
    #[trigger] all[j]).0@ by {
        assert(ids[i] != ids[j]);
    }
}

/// The listed identifiers are those of the registered nodes, and each comes
/// before all that follow it in the dictionary order of text.
pub proof fn law_listed_identifiers<N: NodeInterface>(control: ControlNode<N>, listed: Vec<&str>)
    requires
        control.well_formed(),
        call_ensures(ControlNode::<N>::node_ids, (&control,), listed),
    ensures
        listed@.len() == control.nodes().dom().len(),
        forall|i: int|
            0 <= i < listed@.len() ==> control.nodes().contains_key((#[trigger] listed@[i])@),
        forall|id: Seq<char>| #[trigger]
            control.nodes().contains_key(id) ==> exists|i: int|
                0 <= i < listed@.len() && (#[trigger] listed@[i])@ == id,
        forall|i: int, j: int|
            0 <= i < j < listed@.len() ==> registry::comes_first(
                (#[trigger] listed@[i])@,
                (#[trigger] listed@[j])@,
            ),
{
    let ids = listed@.map_values(|id: &str| id@);
    registry::law_registry_is_its_map(control.registered());
    registry::law_rising_identifiers(ids);
    assert forall|i: int| 0 <= i < listed@.len() implies control.nodes().contains_key(
        (#[trigger] listed@[i])@,
    ) by {
        assert(ids[i] == listed@[i]@);
        assert(ids.to_set().contains(ids[i]));
    }
    assert forall|id: Seq<char>| #[trigger] control.nodes().contains_key(id) implies exists|i: int|
        0 <= i < listed@.len() && (#[trigger] listed@[i])@ == id by {
        assert(ids.to_set().contains(id));
        let i = ids.index_of(id);
        assert(listed@[i]@ == id);
    }
    assert forall|i: int, j: int| 0 <= i < j < listed@.len() implies registry::comes_first(
        (#[trigger] listed@[i])@,
        (#[trigger] listed@[j])@,
    ) by {
        assert(registry::comes_first(ids[i], ids[j]));
    }
}

/// A registered node is found under its own identifier, in place of what was
/// there; the other nodes and the control node's identifier stay as they were. A
/// new control node has its identifier and no nodes.
pub proof fn law_registered_node_is_found<N: NodeInterface>(
    control: &mut ControlNode<N>,
    node: N,
    other: Seq<char>,
    id: String,
    made: ControlNode<N>,
    named: &str,
)
    requires
        old(control).well_formed(),
        other != node.node_id(),
    ensures
        call_ensures(ControlNode::<N>::register, (control, node), ()) ==> {
            &&& final(control).well_formed()
            &&& final(control).control_id() == old(control).control_id()
            &&& final(control).nodes().contains_key(node.node_id())
            &&& final(control).nodes()[node.node_id()] == node
            &&& final(control).nodes().contains_key(other) == old(control).nodes().contains_key(
                other,
            )
            &&& old(control).nodes().contains_key(other) ==> final(control).nodes()[other] == old(
                control,
            ).nodes()[other]
        },
        call_ensures(ControlNode::<N>::new, (id,), made) ==> made.well_formed()
            && made.control_id() == id@ && !made.nodes().contains_key(other),
        call_ensures(ControlNode::<N>::id, (&made,), named) ==> named@ == made.control_id(),
{
}

} // verus!
