//! The state of a node and its answer to each command. Every transport serves
//! the same state, so a node behaves alike wherever it lives.
use crate::protocol::{
    Command, CommandView, ConfigParams, NodeStatus, NodeStatusView, Response, ResponseView,
    TestResult, TestResultView,
};
use crate::text;
use crate::text::{decimal_text, join2, join3, truth_text};
use std::time::Instant;
use vstd::hash_map::StringHashMap;
use vstd::prelude::*;

verus! {

/// `std::time::Instant`, a moment of a clock that never goes back. Nothing is
/// said of what it holds.
#[verifier::external_type_specification]
#[verifier::external_body]
pub struct ExInstant(Instant);

/// `Instant::now`: the present moment. Nothing is promised of it.
#[verifier::external_body]
fn present() -> (r: Instant) {
    Instant::now()
}

/// `Instant::elapsed`, counted in nanoseconds. How much time has passed is up to
/// the clock; that the count fits what a `Duration` holds is promised: at most
/// `u64::MAX` whole seconds and less than one second more.
#[verifier::external_body]
fn nanos_since(origin: &Instant) -> (r: u128)
    ensures
        r <= LAST_READING,
{
    origin.elapsed().as_nanos()
}

/// Nanoseconds in a second.
pub const NANOS_PER_SEC: u128 = 1_000_000_000;

/// The largest reading of a node's clock, in nanoseconds.
pub const LAST_READING: u128 = 18_446_744_073_709_551_615_999_999_999;

/// What a node's state says.
///
/// `start_time` is the clock reading, in nanoseconds, of the last start.
#[verifier::ext_equal]
pub struct NodeStateView {
    pub id: Seq<char>,
    pub running: bool,
    pub start_time: Option<nat>,
    pub message_count: nat,
    pub config: Map<Seq<char>, Seq<char>>,
}

impl NodeStateView {
    /// A node that has not processed any command: stopped and not configured.
    pub open spec fn fresh(id: Seq<char>) -> Self {
        NodeStateView {
            id,
            running: false,
            start_time: None,
            message_count: 0,
            config: Map::empty(),
        }
    }

    /// A running node knows when it was started, and a configuration has
    /// finitely many entries.
    pub open spec fn well_formed(self) -> bool {
        &&& self.running ==> self.start_time is Some
        &&& self.config.dom().finite()
    }

    /// Whole seconds since the node was started; 0 while it is stopped.
    pub open spec fn uptime(self, now: nat) -> nat {
        match self.start_time {
            Some(started) if self.running && started <= now => {
                ((now - started) / NANOS_PER_SEC as int) as nat
            },
            _ => 0,
        }
    }

    /// The state after the node has processed `command` at clock reading `now`.
    ///
    /// Every command counts, also one that is answered with an error.
    pub open spec fn after(self, command: CommandView, now: nat) -> Self {
        let counted = NodeStateView { message_count: self.message_count + 1, ..self };
        match command {
            CommandView::Start => if self.running {
                counted
            } else {
                NodeStateView { running: true, start_time: Some(now), ..counted }
            },
            CommandView::Stop => NodeStateView { running: false, ..counted },
            CommandView::Query => counted,
            CommandView::Config(params) => NodeStateView {
                config: self.config.insert(params.key, params.value),
                ..counted
            },
            CommandView::Test => counted,
        }
    }

    /// The response to `command` at clock reading `now`.
    pub open spec fn answer(self, command: CommandView, now: nat) -> ResponseView {
        match command {
            CommandView::Start => if self.running {
                ResponseView::Error("node '"@ + self.id + "' is already running"@)
            } else {
                ResponseView::Completed
            },
            CommandView::Stop => if self.running {
                ResponseView::Completed
            } else {
                ResponseView::Error("node '"@ + self.id + "' is not running"@)
            },
            CommandView::Query => ResponseView::Status(
                NodeStatusView {
                    id: self.id,
                    running: self.running,
                    uptime_secs: self.uptime(now),
                    message_count: self.message_count + 1,
                },
            ),
            CommandView::Config(params) => ResponseView::Completed,
            CommandView::Test => ResponseView::TestResult(self.test_result()),
        }
    }

    /// The outcome of the self-test, which counts itself as a message.
    pub open spec fn test_result(self) -> TestResultView {
        TestResultView {
            passed: self.running,
            message: if self.running {
                "node '"@ + self.id + "' self-test passed"@
            } else {
                "node '"@ + self.id + "' self-test failed: node not running"@
            },
            details: seq![
                "running: "@ + text::truth(self.running),
                "message_count: "@ + text::decimal(self.message_count + 1),
                "config_entries: "@ + text::decimal(self.config.dom().len()),
            ],
        }
    }
}

/// The state of one node, owned by whatever serves the node.
pub struct NodeState {
    id: String,
    running: bool,
    start_time: Option<u128>,
    message_count: u64,
    config: StringHashMap<String>,
    origin: Instant,
}

impl View for NodeState {
    type V = NodeStateView;

    closed spec fn view(&self) -> NodeStateView {
        NodeStateView {
            id: self.id@,
            running: self.running,
            start_time: match self.start_time {
                Some(started) => Some(started as nat),
                None => None,
            },
            message_count: self.message_count as nat,
            config: self.config@.map_values(|value: String| value@),
        }
    }
}

impl NodeState {
    /// Whether the node can count one more message.
    pub open spec fn can_count(&self) -> bool {
        self@.message_count < u64::MAX
    }

    /// Whether `now` is a reading that the measure of the time since this node's
    /// own origin can give. Which of them it gives is up to the clock.
    pub closed spec fn reads(&self, now: u128) -> bool {
        call_ensures(nanos_since, (&self.origin,), now)
    }

    /// The state of a node that has not processed any command.
    pub fn new(id: String) -> (r: Self)
        ensures
            r@ == NodeStateView::fresh(id@),
    {
        let r = NodeState {
            id,
            running: false,
            start_time: None,
            message_count: 0,
            config: StringHashMap::new(),
            origin: present(),
        };
        assert(r@.config =~= Map::empty());
        r
    }

    /// The number of commands processed so far.
    pub fn message_count(&self) -> (r: u64)
        ensures
            r == self@.message_count,
    {
        self.message_count
    }

    /// The present reading of the node's clock: nanoseconds since the node was
    /// made.
    pub fn clock(&self) -> (r: u128)
        ensures
            self.reads(r),
            r <= LAST_READING,
    {
        nanos_since(&self.origin)
    }

    fn uptime_secs(&self, now: u128) -> (r: u64)
        requires
            now <= LAST_READING,
        ensures
            r == self@.uptime(now as nat),
    {
        match self.start_time {
            Some(started) => if self.running && started <= now {
                ((now - started) / NANOS_PER_SEC) as u64
            } else {
                0
            },
            None => 0,
        }
    }

    fn test_result(&self) -> (r: TestResult)
        requires
            self@.message_count > 0,
        ensures
            r@ == (NodeStateView {
                message_count: (self@.message_count - 1) as nat,
                ..self@
            }).test_result(),
    {
        let message = if self.running {
            join3("node '", self.id.as_str(), "' self-test passed")
        } else {
            join3("node '", self.id.as_str(), "' self-test failed: node not running")
        };
        let entries: u64 = self.config.len() as u64;
        let running_line = join2("running: ", truth_text(self.running));
        let count_line = join2("message_count: ", decimal_text(self.message_count).as_str());
        let entries_line = join2("config_entries: ", decimal_text(entries).as_str());
        let details = vec![running_line, count_line, entries_line];
        assert(self@.config.dom() =~= self.config@.dom());
        let r = TestResult { passed: self.running, message, details };
        assert(r@.details =~= seq![
            "running: "@ + text::truth(self.running),
            "message_count: "@ + text::decimal(self.message_count as nat),
            "config_entries: "@ + text::decimal(self@.config.dom().len()),
        ]);
        r
    }

    /// Processes `command` at clock reading `now` and gives the response. The
    /// node keeps its clock.
    pub fn handle_at(&mut self, command: Command, now: u128) -> (r: Response)
        requires
            old(self).can_count(),
            now <= LAST_READING,
        ensures
            final(self)@ == old(self)@.after(command@, now as nat),
            r@ == old(self)@.answer(command@, now as nat),
            forall|t: u128| final(self).reads(t) == #[trigger] old(self).reads(t),
    {
        self.message_count = self.message_count + 1;
        match command {
            Command::Start => {
                if self.running {
                    Response::Error(join3("node '", self.id.as_str(), "' is already running"))
                } else {
                    self.running = true;
                    self.start_time = Some(now);
                    Response::Completed
                }
            },
            Command::Stop => {
                if !self.running {
                    Response::Error(join3("node '", self.id.as_str(), "' is not running"))
                } else {
                    self.running = false;
                    Response::Completed
                }
            },
            Command::Query => {
                Response::Status(
                    NodeStatus {
                        id: self.id.clone(),
                        running: self.running,
                        uptime_secs: self.uptime_secs(now),
                        message_count: self.message_count,
                    },
                )
            },
            Command::Config(ConfigParams { key, value }) => {
                self.config.insert(key, value);
                assert(self@.config =~= old(self)@.config.insert(key@, value@));
                Response::Completed
            },
            Command::Test => Response::TestResult(self.test_result()),
        }
    }

    /// Processes `command` now and gives the response.
    ///
    /// The node's own clock decides the reading; everything else is fixed by the
    /// state and the command. The node keeps its clock.
    pub fn handle(&mut self, command: Command) -> (r: Response)
        requires
            old(self).can_count(),
        ensures
            exists|now: u128| #[trigger]
                old(self).reads(now) && now <= LAST_READING && final(self)@ == old(self)@.after(
                    command@,
                    now as nat,
                ) && r@ == old(self)@.answer(command@, now as nat),
            forall|t: u128| final(self).reads(t) == #[trigger] old(self).reads(t),
    {
        let now: u128 = self.clock();
        self.handle_at(command, now)
    }
}

} // verus!
