//! What holds of every node, whatever commands it is sent.
use crate::node::{NodeState, NodeStateView, LAST_READING, NANOS_PER_SEC};
use crate::protocol::{Command, CommandView, ConfigParamsView, Response, ResponseView};
use crate::text;
use vstd::prelude::*;

verus! {

/// Commands with the clock readings at which they are processed.
pub type Calls = Seq<(CommandView, nat)>;

/// The state after `calls`, processed in order.
pub open spec fn run(state: NodeStateView, calls: Calls) -> NodeStateView
    decreases calls.len(),
{
    if calls.len() == 0 {
        state
    } else {
        run(state, calls.drop_last()).after(calls.last().0, calls.last().1)
    }
}

/// What the last start or stop among `calls` asked for, if there is one.
pub open spec fn last_switch(calls: Calls) -> Option<bool>
    decreases calls.len(),
{
    if calls.len() == 0 {
        None
    } else {
        match calls.last().0 {
            CommandView::Start => Some(true),
            CommandView::Stop => Some(false),
            _ => last_switch(calls.drop_last()),
        }
    }
}

/// The value the last configuration of `key` among `calls` carried, if there is
/// one.
pub open spec fn last_value(calls: Calls, key: Seq<char>) -> Option<Seq<char>>
    decreases calls.len(),
{
    if calls.len() == 0 {
        None
    } else {
        match calls.last().0 {
            CommandView::Config(params) if params.key == key => Some(params.value),
            _ => last_value(calls.drop_last(), key),
        }
    }
}

/// No command makes a well-formed state ill-formed, and a fresh one is
/// well-formed: a running node always knows when it was started.
pub proof fn law_well_formed(id: Seq<char>, state: NodeStateView, command: CommandView, now: nat)
    requires
        state.well_formed(),
    ensures
        NodeStateView::fresh(id).well_formed(),
        state.after(command, now).well_formed(),
{
}

/// A start is accepted exactly by a stopped node, and a stop exactly by a running
/// one. Accepted, they switch the node on and off; refused, they change nothing
/// but the message count.
pub proof fn law_start_and_stop(state: NodeStateView, now: nat)
    ensures
        state.answer(CommandView::Start, now) == ResponseView::Completed <==> !state.running,
        state.answer(CommandView::Start, now) is Error <==> state.running,
        state.after(CommandView::Start, now).running,
        state.answer(CommandView::Stop, now) == ResponseView::Completed <==> state.running,
        state.answer(CommandView::Stop, now) is Error <==> !state.running,
        !state.after(CommandView::Stop, now).running,
        state.running ==> state.after(CommandView::Start, now) == (NodeStateView {
            message_count: state.message_count + 1,
            ..state
        }),
        !state.running ==> state.after(CommandView::Stop, now) == (NodeStateView {
            message_count: state.message_count + 1,
            ..state
        }),
{
}

/// A stop takes a start back: the node is stopped as it was, with the same
/// configuration, and two messages have been counted.
pub proof fn law_stop_undoes_start(state: NodeStateView, started: nat, stopped: nat)
    requires
        !state.running,
    ensures
        ({
            let end = state.after(CommandView::Start, started).after(CommandView::Stop, stopped);
            &&& !end.running
            &&& end.id == state.id
            &&& end.config == state.config
            &&& end.message_count == state.message_count + 2
        }),
{
}

/// Querying and testing look but do not touch: they change nothing but the
/// message count.
pub proof fn law_query_and_test_only_look(state: NodeStateView, now: nat)
    ensures
        state.after(CommandView::Query, now) == (NodeStateView {
            message_count: state.message_count + 1,
            ..state
        }),
        state.after(CommandView::Test, now) == (NodeStateView {
            message_count: state.message_count + 1,
            ..state
        }),
{
}

/// A configuration is always accepted, is found under its key afterwards, and
/// leaves the other keys, the identifier and the running state alone.
pub proof fn law_config_is_kept(
    state: NodeStateView,
    params: ConfigParamsView,
    other: Seq<char>,
    now: nat,
)
    requires
        other != params.key,
    ensures
        state.answer(CommandView::Config(params), now) == ResponseView::Completed,
        ({
            let end = state.after(CommandView::Config(params), now);
            &&& end.config.contains_key(params.key)
            &&& end.config[params.key] == params.value
            &&& end.config.contains_key(other) == state.config.contains_key(other)
            &&& state.config.contains_key(other) ==> end.config[other] == state.config[other]
            &&& end.id == state.id
            &&& end.running == state.running
            &&& end.start_time == state.start_time
        }),
{
}

/// The self-test passes exactly on a running node, and a query tells whether the
/// node runs.
pub proof fn law_test_and_query_tell_running(state: NodeStateView, now: nat)
    ensures
        state.answer(CommandView::Test, now) matches ResponseView::TestResult(result)
            && result.passed == state.running,
        state.answer(CommandView::Query, now) matches ResponseView::Status(status)
            && status.running == state.running && status.id == state.id,
{
}

/// A node that was started reports that it runs and passes its self-test, and a
/// node that was stopped does neither, whether the switch was accepted or not.
pub proof fn law_switched_node_reports_it(state: NodeStateView, switched: nat, asked: nat)
    ensures
        state.after(CommandView::Start, switched).answer(CommandView::Query, asked) matches
            ResponseView::Status(status) && status.running,
        state.after(CommandView::Start, switched).answer(CommandView::Test, asked) matches
            ResponseView::TestResult(result) && result.passed,
        state.after(CommandView::Stop, switched).answer(CommandView::Query, asked) matches
            ResponseView::Status(status) && !status.running && status.uptime_secs == 0,
        state.after(CommandView::Stop, switched).answer(CommandView::Test, asked) matches
            ResponseView::TestResult(result) && !result.passed,
{
}

/// Each command has its kind of response: only a query is answered with a
/// status, only a test with a test result, and an error means a start of a
/// running node or a stop of a stopped one.
pub proof fn law_kind_of_answer(state: NodeStateView, command: CommandView, now: nat)
    ensures
        state.answer(command, now) is Status <==> command is Query,
        state.answer(command, now) is TestResult <==> command is Test,
        state.answer(command, now) is Error <==> {
            ||| command is Start && state.running
            ||| command is Stop && !state.running
        },
{
}

/// Over any calls a node keeps its identifier and counts every command.
pub proof fn law_run_counts(state: NodeStateView, calls: Calls)
    ensures
        run(state, calls).id == state.id,
        run(state, calls).message_count == state.message_count + calls.len(),
        state.well_formed() ==> run(state, calls).well_formed(),
    decreases calls.len(),
{
    if calls.len() > 0 {
        law_run_counts(state, calls.drop_last());
    }
}

/// Whether a node runs is what the last start or stop asked for.
pub proof fn law_run_follows_last_switch(state: NodeStateView, calls: Calls)
    ensures
        run(state, calls).running == match last_switch(calls) {
            Some(on) => on,
            None => state.running,
        },
    decreases calls.len(),
{
    if calls.len() > 0 {
        law_run_follows_last_switch(state, calls.drop_last());
    }
}

/// Over any calls the last configuration of a key wins, and a key that no call
/// configures keeps what it had.
pub proof fn law_run_keeps_last_value(state: NodeStateView, calls: Calls, key: Seq<char>)
    ensures
        ({
            let config = run(state, calls).config;
            match last_value(calls, key) {
                Some(value) => config.contains_key(key) && config[key] == value,
                None => {
                    &&& config.contains_key(key) == state.config.contains_key(key)
                    &&& config.contains_key(key) ==> config[key] == state.config[key]
                },
            }
        }),
    decreases calls.len(),
{
    if calls.len() > 0 {
        law_run_keeps_last_value(state, calls.drop_last(), key);
    }
}

/// Uptime counts whole seconds from the accepted start: as long as no stop
/// comes, later commands, refused starts among them, do not set it back.
pub proof fn law_uptime_counts_from_start(
    state: NodeStateView,
    started: nat,
    calls: Calls,
    now: nat,
)
    requires
        !state.running,
        started <= now,
        forall|i: int| 0 <= i < calls.len() ==> !((#[trigger] calls[i]).0 is Stop),
    ensures
        run(state.after(CommandView::Start, started), calls).uptime(now) == (now - started)
            / NANOS_PER_SEC as int,
{
    lemma_start_time_kept(state.after(CommandView::Start, started), calls);
}

proof fn lemma_start_time_kept(state: NodeStateView, calls: Calls)
    requires
        state.running,
        forall|i: int| 0 <= i < calls.len() ==> !((#[trigger] calls[i]).0 is Stop),
    ensures
        run(state, calls).running,
        run(state, calls).start_time == state.start_time,
    decreases calls.len(),
{
    if calls.len() > 0 {
        assert(calls[calls.len() - 1] == calls.last());
        lemma_start_time_kept(state, calls.drop_last());
    }
}

/// Uptime never shrinks as time goes by, and a stopped node has none.
pub proof fn law_uptime_grows(state: NodeStateView, earlier: nat, later: nat)
    requires
        earlier <= later,
    ensures
        state.uptime(earlier) <= state.uptime(later),
        !state.running ==> state.uptime(later) == 0,
{
}

/// A status tells the truth about the state it is taken of: who the node is,
/// whether it runs, for how long it has, and how many messages it has processed,
/// the query among them.
pub proof fn law_status_reports_the_state(state: NodeStateView, now: nat)
    ensures
        state.answer(CommandView::Query, now) matches ResponseView::Status(status) && {
            let after = state.after(CommandView::Query, now);
            &&& status.id == after.id
            &&& status.running == after.running
            &&& status.uptime_secs == after.uptime(now)
            &&& status.message_count == after.message_count
        },
{
}

/// Each message counts once, whatever it is: a query that follows another
/// command at once reports one message more than a query in its place would have
/// done.
pub proof fn law_each_message_counts_once(
    state: NodeStateView,
    command: CommandView,
    earlier: nat,
    later: nat,
)
    ensures
        state.after(command, earlier).answer(CommandView::Query, later) matches
            ResponseView::Status(second) && state.answer(CommandView::Query, earlier) matches
            ResponseView::Status(first) && second.message_count == first.message_count + 1,
{
}

/// Uptime is read in whole seconds: on a running node it goes up by one with
/// each thousand million nanoseconds that pass, and starts from zero.
pub proof fn law_uptime_is_in_seconds(state: NodeStateView, started: nat, seconds: nat, nanos: nat)
    requires
        !state.running,
        nanos < 1_000_000_000,
    ensures
        ({
            let now = (started + 1_000_000_000 * seconds + nanos) as nat;
            state.after(CommandView::Start, started).answer(CommandView::Query, now) matches
                ResponseView::Status(status) && status.running && status.uptime_secs == seconds
        }),
{
}

/// A refused start or stop names the node and says why.
pub proof fn law_refusals_say_why(state: NodeStateView, now: nat)
    ensures
        state.running ==> state.answer(CommandView::Start, now) == ResponseView::Error(
            "node '"@ + state.id + "' is already running"@,
        ),
        !state.running ==> state.answer(CommandView::Stop, now) == ResponseView::Error(
            "node '"@ + state.id + "' is not running"@,
        ),
{
}

/// Whether `line` is `label` and the plain numeral of `n`.
pub open spec fn counts(line: Seq<char>, label: Seq<char>, n: nat) -> bool {
    exists|numeral: Seq<char>| #[trigger]
        text::plain_numeral(numeral) && text::number(numeral) == n && line == label + numeral
}

/// A self-test names the node and its verdict, and gives as its details whether
/// the node runs, how many messages it has processed, the test among them, and
/// how many configuration entries it holds.
pub proof fn law_test_reports_the_state(state: NodeStateView, now: nat)
    ensures
        state.answer(CommandView::Test, now) matches ResponseView::TestResult(result) && {
            let after = state.after(CommandView::Test, now);
            &&& result.passed == after.running
            &&& result.message == if after.running {
                "node '"@ + state.id + "' self-test passed"@
            } else {
                "node '"@ + state.id + "' self-test failed: node not running"@
            }
            &&& result.details.len() == 3
            &&& result.details[0] == if after.running {
                "running: "@ + "true"@
            } else {
                "running: "@ + "false"@
            }
            &&& counts(result.details[1], "message_count: "@, after.message_count)
            &&& counts(result.details[2], "config_entries: "@, after.config.dom().len())
        },
{
    let after = state.after(CommandView::Test, now);
    text::law_number_reads_back(after.message_count);
    text::law_number_reads_back(after.config.dom().len());
    let details = state.answer(CommandView::Test, now)->TestResult_0.details;
    assert(details[1] == "message_count: "@ + text::decimal(after.message_count));
    assert(details[2] == "config_entries: "@ + text::decimal(after.config.dom().len()));
}

/// Whether `call` configures `key`.
pub open spec fn sets(call: (CommandView, nat), key: Seq<char>) -> bool {
    call.0 matches CommandView::Config(params) && params.key == key
}

/// The keys that `calls` configure.
pub open spec fn configured(calls: Calls) -> Set<Seq<char>> {
    Set::new(
        |key: Seq<char>|
            exists|i: int| 0 <= i < calls.len() && #[trigger] sets(calls[i], key),
    )
}

proof fn lemma_last_value(calls: Calls, key: Seq<char>)
    ensures
        last_value(calls, key) is Some <==> configured(calls).contains(key),
    decreases calls.len(),
{
    if calls.len() > 0 {
        let before = calls.drop_last();
        lemma_last_value(before, key);
        if configured(before).contains(key) {
            let i = choose|i: int| 0 <= i < before.len() && #[trigger] sets(before[i], key);
            assert(sets(calls[i], key));
        }
        if configured(calls).contains(key) {
            let i = choose|i: int| 0 <= i < calls.len() && #[trigger] sets(calls[i], key);
            if i < before.len() {
                assert(sets(before[i], key));
            }
        }
        assert(sets(calls[calls.len() - 1], key) == sets(calls.last(), key));
    }
}

/// A node that starts from nothing is what its calls made it: it has its
/// identifier, has counted the calls, runs if it was last told to start, and
/// holds an entry for each key that was configured, with the last value, and no
/// other.
pub proof fn law_node_is_what_its_calls_made_it(id: Seq<char>, calls: Calls, now: nat)
    ensures
        ({
            let state = run(NodeStateView::fresh(id), calls);
            &&& state.answer(CommandView::Query, now) matches ResponseView::Status(status) && {
                &&& status.id == id
                &&& status.message_count == calls.len() + 1
                &&& status.running == (last_switch(calls) == Some(true))
            }
            &&& state.config.dom() == configured(calls)
            &&& forall|key: Seq<char>| #[trigger]
                state.config.contains_key(key) ==> last_value(calls, key) == Some(state.config[key])
            &&& state.answer(CommandView::Test, now) matches ResponseView::TestResult(result)
                && result.passed == (last_switch(calls) == Some(true)) && counts(
                result.details[2],
                "config_entries: "@,
                configured(calls).len(),
            )
        }),
{
    let fresh = NodeStateView::fresh(id);
    let state = run(fresh, calls);
    law_run_counts(fresh, calls);
    law_run_follows_last_switch(fresh, calls);
    assert forall|key: Seq<char>| #[trigger]
        configured(calls).contains(key) == state.config.dom().contains(key) by {
        law_run_keeps_last_value(fresh, calls, key);
        lemma_last_value(calls, key);
    }
    assert forall|key: Seq<char>| #[trigger]
        state.config.contains_key(key) implies last_value(calls, key) == Some(
        state.config[key],
    ) by {
        law_run_keeps_last_value(fresh, calls, key);
    }
    assert(state.config.dom() =~= configured(calls));
    law_test_reports_the_state(state, now);
}

/// A node that was sent nothing yet is stopped and empty, whatever its identifier
/// is.
pub proof fn law_fresh_nodes_are_alike(id: Seq<char>, other: Seq<char>, now: nat)
    ensures
        ({
            let fresh = NodeStateView::fresh(id);
            &&& fresh.id == id
            &&& !fresh.running
            &&& fresh.start_time is None
            &&& fresh.message_count == 0
            &&& fresh.config == Map::<Seq<char>, Seq<char>>::empty()
            &&& fresh.uptime(now) == 0
            &&& fresh.well_formed()
            &&& NodeStateView { id: other, ..fresh } == NodeStateView::fresh(other)
        }),
{
}

/// Whether a node that was in the state `before` and is in the state `after` has
/// processed `command` with `response` at clock reading `now`.
///
/// Every command counts, and none changes who the node is. A start or a stop
/// switches the node, and is an error where it was so already; a configuration
/// sets its key; a query and a test change nothing, and tell what they found.
pub open spec fn processed(
    before: NodeStateView,
    command: Command,
    now: nat,
    after: NodeStateView,
    response: Response,
) -> bool {
    &&& after.id == before.id
    &&& after.message_count == before.message_count + 1
    &&& match command {
        Command::Start => {
            &&& after.running
            &&& after.config == before.config
            &&& before.running ==> after.start_time == before.start_time
            &&& !before.running ==> after.start_time == Some(now)
            &&& response is Completed <==> !before.running
            &&& before.running ==> (response matches Response::Error(message) && message@
                == "node '"@ + before.id + "' is already running"@)
        },
        Command::Stop => {
            &&& !after.running
            &&& after.config == before.config
            &&& response is Completed <==> before.running
            &&& !before.running ==> (response matches Response::Error(message) && message@
                == "node '"@ + before.id + "' is not running"@)
        },
        Command::Query => {
            &&& after.running == before.running
            &&& after.start_time == before.start_time
            &&& after.config == before.config
            &&& response matches Response::Status(status) && {
                &&& status.id@ == before.id
                &&& status.running == before.running
                &&& status.message_count == before.message_count + 1
                &&& !before.running ==> status.uptime_secs == 0
                &&& before.running && before.start_time is Some && before.start_time->0 <= now
                    ==> status.uptime_secs == (now - before.start_time->0) / 1_000_000_000
            }
        },
        Command::Config(params) => {
            &&& after.running == before.running
            &&& after.start_time == before.start_time
            &&& after.config == before.config.insert(params.key@, params.value@)
            &&& response is Completed
        },
        Command::Test => {
            &&& after.running == before.running
            &&& after.start_time == before.start_time
            &&& after.config == before.config
            &&& response matches Response::TestResult(result) && {
                &&& result.passed == before.running
                &&& result.message@ == if before.running {
                    "node '"@ + before.id + "' self-test passed"@
                } else {
                    "node '"@ + before.id + "' self-test failed: node not running"@
                }
                &&& result.details@.len() == 3
                &&& result.details@[0]@ == "running: "@ + (if before.running {
                    "true"@
                } else {
                    "false"@
                })
                &&& counts(result.details@[1]@, "message_count: "@, before.message_count + 1)
                &&& counts(result.details@[2]@, "config_entries: "@, before.config.dom().len())
            }
        },
    }
}

proof fn lemma_processed(
    before: NodeStateView,
    command: Command,
    now: nat,
    after: NodeStateView,
    response: Response,
)
    requires
        after == before.after(command@, now),
        response@ == before.answer(command@, now),
    ensures
        processed(before, command, now, after, response),
{
    if let Command::Test = command {
        law_test_reports_the_state(before, now);
        let result = response->TestResult_0;
        assert(response@ == ResponseView::TestResult(result@));
        assert(result@.details.len() == result.details@.len());
        assert(result@.details[0] == result.details@[0]@);
        assert(result@.details[1] == result.details@[1]@);
        assert(result@.details[2] == result.details@[2]@);
    }
}

/// Handling a command is processing it, at the given reading or at one that the
/// node's own clock gives.
pub proof fn law_handling_is_processing(
    at: &mut NodeState,
    at_once: &mut NodeState,
    command: Command,
    now: u128,
    response: Response,
)
    ensures
        call_ensures(NodeState::handle_at, (at, command, now), response) ==> processed(
            old(at)@,
            command,
            now as nat,
            final(at)@,
            response,
        ),
        call_ensures(NodeState::handle, (at_once, command), response) ==> exists|reading: u128|
            #[trigger] old(at_once).reads(reading) && processed(
                old(at_once)@,
                command,
                reading as nat,
                final(at_once)@,
                response,
            ),
{
    if call_ensures(NodeState::handle_at, (at, command, now), response) {
        lemma_processed(old(at)@, command, now as nat, final(at)@, response);
    }
    if call_ensures(NodeState::handle, (at_once, command), response) {
        let reading = choose|reading: u128| #[trigger]
            old(at_once).reads(reading) && final(at_once)@ == old(at_once)@.after(
                command@,
                reading as nat,
            ) && response@ == old(at_once)@.answer(command@, reading as nat);
        lemma_processed(old(at_once)@, command, reading as nat, final(at_once)@, response);
    }
}

/// A new node has its identifier and has processed nothing; the count that a node
/// gives is that of the messages it has processed.
pub proof fn law_new_node_and_its_count(id: String, made: NodeState, node: NodeState, count: u64)
    ensures
        call_ensures(NodeState::new, (id,), made) ==> {
            &&& made@.id == id@
            &&& !made@.running
            &&& made@.start_time is None
            &&& made@.message_count == 0
            &&& made@.config == Map::<Seq<char>, Seq<char>>::empty()
        },
        call_ensures(NodeState::message_count, (&node,), count) ==> count == node@.message_count,
{
}

/// A node's clock can be read as long as the whole seconds on it can be told, and
/// no longer.
pub proof fn law_last_reading(now: nat)
    ensures
        now <= LAST_READING <==> now / 1_000_000_000 <= u64::MAX,
{
}

} // verus!
