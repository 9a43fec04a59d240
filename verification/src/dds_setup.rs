//! Setting up the DDS side of a handle or a server: joining the domain, opening
//! the writer and the reader, and spawning the thread that serves. A step that
//! fails ends the set-up, and nothing more is done.
use crate::dds;
use crate::dds::{reply_topic, request_topic, TransportMode};
use crate::text::join2;
use vstd::prelude::*;

verus! {

/// Which end of a node's topics is set up.
#[derive(Debug, Clone, Copy, PartialEq, Eq, Structural)]
pub enum DdsRole {
    /// A handle writes requests and reads replies.
    Caller,
    /// A server reads requests and writes replies, on a thread of its own.
    Server,
}

/// Why a set-up was given up.
#[derive(Debug)]
pub enum DdsSetUpError {
    /// There is no participant; the text is the participant's own error.
    Participant(String),
    /// A topic, a writer or a reader is missing; the text says why.
    InvalidState(String),
    /// The thread could not be spawned; the text says why.
    Io(String),
}

/// What a [`DdsSetUpError`] says.
#[verifier::ext_equal]
pub enum DdsSetUpErrorView {
    Participant(Seq<char>),
    InvalidState(Seq<char>),
    Io(Seq<char>),
}

impl View for DdsSetUpError {
    type V = DdsSetUpErrorView;

    open spec fn view(&self) -> DdsSetUpErrorView {
        match self {
            DdsSetUpError::Participant(reason) => DdsSetUpErrorView::Participant(reason@),
            DdsSetUpError::InvalidState(reason) => DdsSetUpErrorView::InvalidState(reason@),
            DdsSetUpError::Io(reason) => DdsSetUpErrorView::Io(reason@),
        }
    }
}

/// A set-up at work.
pub struct DdsSetUp {
    pub role: DdsRole,
    pub node_id: String,
    pub pending: DdsSetUpPending,
}

/// What a set-up does next.
pub enum DdsSetUpPending {
    /// Join the domain as the participant of this name, over this transport.
    Join(String, TransportMode),
    /// Open a writer on this topic, with the delivery of calls.
    OpenWriter(String),
    /// Open a reader on this topic, with the delivery of calls.
    OpenReader(String),
    /// Spawn the thread of this name, which serves.
    Spawn(String),
    /// Nothing: all is there.
    Ready,
    /// Nothing: a step failed.
    Refused(DdsSetUpError),
}

/// How the pending step of a set-up went.
pub enum DdsSetUpEvent {
    Succeeded,
    /// The step failed; the text says why.
    Failed(String),
}

/// What a [`DdsSetUpPending`] says.
#[verifier::ext_equal]
pub enum DdsSetUpPendingView {
    Join(Seq<char>, TransportMode),
    OpenWriter(Seq<char>),
    OpenReader(Seq<char>),
    Spawn(Seq<char>),
    Ready,
    Refused(DdsSetUpErrorView),
}

impl View for DdsSetUpPending {
    type V = DdsSetUpPendingView;

    open spec fn view(&self) -> DdsSetUpPendingView {
        match self {
            DdsSetUpPending::Join(name, transport) => DdsSetUpPendingView::Join(name@, *transport),
            DdsSetUpPending::OpenWriter(topic) => DdsSetUpPendingView::OpenWriter(topic@),
            DdsSetUpPending::OpenReader(topic) => DdsSetUpPendingView::OpenReader(topic@),
            DdsSetUpPending::Spawn(name) => DdsSetUpPendingView::Spawn(name@),
            DdsSetUpPending::Ready => DdsSetUpPendingView::Ready,
            DdsSetUpPending::Refused(error) => DdsSetUpPendingView::Refused(error@),
        }
    }
}

/// What a [`DdsSetUpEvent`] says.
#[verifier::ext_equal]
pub enum DdsSetUpEventView {
    Succeeded,
    Failed(Seq<char>),
}

impl View for DdsSetUpEvent {
    type V = DdsSetUpEventView;

    open spec fn view(&self) -> DdsSetUpEventView {
        match self {
            DdsSetUpEvent::Succeeded => DdsSetUpEventView::Succeeded,
            DdsSetUpEvent::Failed(reason) => DdsSetUpEventView::Failed(reason@),
        }
    }
}

/// The name of the participant that takes the role `role` for the node `id`.
pub open spec fn participant_of(role: DdsRole, id: Seq<char>) -> Seq<char> {
    match role {
        DdsRole::Caller => "midw-ctrl-"@ + id,
        DdsRole::Server => "midw-node-"@ + id,
    }
}

/// The name of the participant that takes the role `role` for the node `id`.
pub fn participant_name(role: DdsRole, id: &str) -> (r: String)
    ensures
        r@ == participant_of(role, id@),
{
    match role {
        DdsRole::Caller => join2("midw-ctrl-", id),
        DdsRole::Server => join2("midw-node-", id),
    }
}

impl DdsSetUpPendingView {
    /// What follows once the pending step has succeeded, in the role `role` for
    /// the node `id`.
    ///
    /// A caller opens the writer of requests before the reader of replies; a
    /// server opens the reader of requests before the writer of replies, and
    /// spawns its thread last.
    pub open spec fn onward(self, role: DdsRole, id: Seq<char>) -> DdsSetUpPendingView {
        match (self, role) {
            (DdsSetUpPendingView::Join(_, _), DdsRole::Caller) => DdsSetUpPendingView::OpenWriter(
                dds::request_topic_of(id),
            ),
            (DdsSetUpPendingView::OpenWriter(_), DdsRole::Caller) => {
                DdsSetUpPendingView::OpenReader(dds::reply_topic_of(id))
            },
            (DdsSetUpPendingView::OpenReader(_), DdsRole::Caller) => DdsSetUpPendingView::Ready,
            (DdsSetUpPendingView::Join(_, _), DdsRole::Server) => DdsSetUpPendingView::OpenReader(
                dds::request_topic_of(id),
            ),
            (DdsSetUpPendingView::OpenReader(_), DdsRole::Server) => {
                DdsSetUpPendingView::OpenWriter(dds::reply_topic_of(id))
            },
            (DdsSetUpPendingView::OpenWriter(_), DdsRole::Server) => DdsSetUpPendingView::Spawn(
                participant_of(role, id),
            ),
            (DdsSetUpPendingView::Spawn(_), _) => DdsSetUpPendingView::Ready,
            _ => self,
        }
    }

    /// What follows once the pending step has failed: a participant's error
    /// stands as it is, that of a topic, a writer or a reader becomes an invalid
    /// state, and that of the thread an I/O error.
    pub open spec fn failure(self, reason: Seq<char>) -> DdsSetUpPendingView {
        match self {
            DdsSetUpPendingView::Join(_, _) => DdsSetUpPendingView::Refused(
                DdsSetUpErrorView::Participant(reason),
            ),
            DdsSetUpPendingView::OpenWriter(_) => DdsSetUpPendingView::Refused(
                DdsSetUpErrorView::InvalidState(reason),
            ),
            DdsSetUpPendingView::OpenReader(_) => DdsSetUpPendingView::Refused(
                DdsSetUpErrorView::InvalidState(reason),
            ),
            DdsSetUpPendingView::Spawn(_) => DdsSetUpPendingView::Refused(
                DdsSetUpErrorView::Io(reason),
            ),
            _ => self,
        }
    }

    /// What comes next after `event`, in the role `role` for the node `id`.
    pub open spec fn next(
        self,
        role: DdsRole,
        id: Seq<char>,
        event: DdsSetUpEventView,
    ) -> DdsSetUpPendingView {
        match event {
            DdsSetUpEventView::Succeeded => self.onward(role, id),
            DdsSetUpEventView::Failed(reason) => self.failure(reason),
        }
    }
}

impl DdsSetUp {
    /// The set-up of the role `role` for the node `node_id` over `transport`,
    /// which joins the domain first.
    pub fn new(role: DdsRole, node_id: String, transport: TransportMode) -> (r: Self)
        ensures
            r.role == role,
            r.node_id@ == node_id@,
            r.pending@ == DdsSetUpPendingView::Join(participant_of(role, node_id@), transport),
    {
        let name = participant_name(role, node_id.as_str());
        DdsSetUp { role, node_id, pending: DdsSetUpPending::Join(name, transport) }
    }

    /// The set-up after `event`.
    pub fn step(self, event: DdsSetUpEvent) -> (r: Self)
        ensures
            r.role == self.role,
            r.node_id@ == self.node_id@,
            r.pending@ == self.pending@.next(self.role, self.node_id@, event@),
    {
        let id = self.node_id.as_str();
        let pending = match (self.pending, event) {
            (DdsSetUpPending::Join(_, _), DdsSetUpEvent::Succeeded) => match self.role {
                DdsRole::Caller => DdsSetUpPending::OpenWriter(request_topic(id)),
                DdsRole::Server => DdsSetUpPending::OpenReader(request_topic(id)),
            },
            (DdsSetUpPending::OpenWriter(_), DdsSetUpEvent::Succeeded) => match self.role {
                DdsRole::Caller => DdsSetUpPending::OpenReader(reply_topic(id)),
                DdsRole::Server => DdsSetUpPending::Spawn(participant_name(self.role, id)),
            },
            (DdsSetUpPending::OpenReader(_), DdsSetUpEvent::Succeeded) => match self.role {
                DdsRole::Caller => DdsSetUpPending::Ready,
                DdsRole::Server => DdsSetUpPending::OpenWriter(reply_topic(id)),
            },
            (DdsSetUpPending::Spawn(_), DdsSetUpEvent::Succeeded) => DdsSetUpPending::Ready,
            (DdsSetUpPending::Join(_, _), DdsSetUpEvent::Failed(reason)) => {
                DdsSetUpPending::Refused(DdsSetUpError::Participant(reason))
            },
            (DdsSetUpPending::OpenWriter(_), DdsSetUpEvent::Failed(reason)) => {
                DdsSetUpPending::Refused(DdsSetUpError::InvalidState(reason))
            },
            (DdsSetUpPending::OpenReader(_), DdsSetUpEvent::Failed(reason)) => {
                DdsSetUpPending::Refused(DdsSetUpError::InvalidState(reason))
            },
            (DdsSetUpPending::Spawn(_), DdsSetUpEvent::Failed(reason)) => {
                DdsSetUpPending::Refused(DdsSetUpError::Io(reason))
            },
            (pending, _) => pending,
        };
        DdsSetUp { role: self.role, node_id: self.node_id, pending }
    }
}

/// A set-up after `events`, in order.
pub open spec fn set_up_run(
    pending: DdsSetUpPendingView,
    role: DdsRole,
    id: Seq<char>,
    events: Seq<DdsSetUpEventView>,
) -> DdsSetUpPendingView
    decreases events.len(),
{
    if events.len() == 0 {
        pending
    } else {
        set_up_run(pending, role, id, events.drop_last()).next(role, id, events.last())
    }
}

/// A set-up that is ready or refused stays so: after a failed step nothing is
/// opened, and nothing is spawned.
pub proof fn law_set_up_ends(
    pending: DdsSetUpPendingView,
    role: DdsRole,
    id: Seq<char>,
    events: Seq<DdsSetUpEventView>,
)
    requires
        pending is Ready || pending is Refused,
    ensures
        set_up_run(pending, role, id, events) == pending,
    decreases events.len(),
{
    if events.len() > 0 {
        law_set_up_ends(pending, role, id, events.drop_last());
    }
}

/// How many steps of a set-up in the role `role` have succeeded.
pub open spec fn set_up_stage(pending: DdsSetUpPendingView, role: DdsRole) -> nat {
    match (pending, role) {
        (DdsSetUpPendingView::Join(_, _), _) => 0,
        (DdsSetUpPendingView::OpenWriter(_), DdsRole::Caller) => 1,
        (DdsSetUpPendingView::OpenReader(_), DdsRole::Caller) => 2,
        (DdsSetUpPendingView::OpenReader(_), DdsRole::Server) => 1,
        (DdsSetUpPendingView::OpenWriter(_), DdsRole::Server) => 2,
        (DdsSetUpPendingView::Spawn(_), _) => 3,
        _ => 4,
    }
}

/// A set-up is ready only after all of its steps have succeeded in their order:
/// joining, opening the writer and the reader, and, for a server, spawning.
/// Where the step in turn fails instead, the set-up is refused, with the error
/// of that step.
pub proof fn law_set_up_takes_every_step(
    role: DdsRole,
    id: Seq<char>,
    transport: TransportMode,
    events: Seq<DdsSetUpEventView>,
    reason: Seq<char>,
)
    requires
        forall|i: int| 0 <= i < events.len() ==> #[trigger] events[i] is Succeeded,
    ensures
        ({
            let start = DdsSetUpPendingView::Join(participant_of(role, id), transport);
            let reached = set_up_run(start, role, id, events);
            let refused = set_up_run(
                start,
                role,
                id,
                events.push(DdsSetUpEventView::Failed(reason)),
            );
            let n = events.len();
            let request_topic = dds::request_topic_of(id);
            let reply_topic = dds::reply_topic_of(id);
            &&& n == 0 ==> reached == start && refused == DdsSetUpPendingView::Refused(
                DdsSetUpErrorView::Participant(reason),
            )
            &&& n == 1 ==> reached == match role {
                DdsRole::Caller => DdsSetUpPendingView::OpenWriter(request_topic),
                DdsRole::Server => DdsSetUpPendingView::OpenReader(request_topic),
            }
            &&& n == 2 ==> reached == match role {
                DdsRole::Caller => DdsSetUpPendingView::OpenReader(reply_topic),
                DdsRole::Server => DdsSetUpPendingView::OpenWriter(reply_topic),
            }
            &&& n == 1 || n == 2 ==> refused == DdsSetUpPendingView::Refused(
                DdsSetUpErrorView::InvalidState(reason),
            )
            &&& n == 3 && role is Server ==> reached == DdsSetUpPendingView::Spawn(
                participant_of(role, id),
            ) && refused == DdsSetUpPendingView::Refused(DdsSetUpErrorView::Io(reason))
            &&& n >= 4 || (n == 3 && role is Caller) ==> reached is Ready && refused is Ready
        }),
    decreases events.len(),
{
    let start = DdsSetUpPendingView::Join(participant_of(role, id), transport);
    assert(events.push(DdsSetUpEventView::Failed(reason)).drop_last() =~= events);
    if events.len() > 0 {
        assert(events.last() == events[events.len() - 1]);
        law_set_up_takes_every_step(role, id, transport, events.drop_last(), reason);
    }
}

/// Whatever happens in a set-up, each event leaves it as it is or takes it
/// further on, so that no step is done twice.
pub proof fn law_set_up_moves_on(
    pending: DdsSetUpPendingView,
    role: DdsRole,
    id: Seq<char>,
    event: DdsSetUpEventView,
)
    ensures
        pending.next(role, id, event) == pending || set_up_stage(
            pending.next(role, id, event),
            role,
        ) > set_up_stage(pending, role),
{
}

/// Participants are named after their node and their role.
pub proof fn law_participants_are_named_after_the_node(id: Seq<char>)
    ensures
        participant_of(DdsRole::Caller, id) == "midw-ctrl-"@ + id,
        participant_of(DdsRole::Server, id) == "midw-node-"@ + id,
{
}

/// What a set-up says of its pending step and of an event is the step and the
/// event itself, with all that they carry.
pub proof fn law_set_up_is_what_it_says(pending: DdsSetUpPending, event: DdsSetUpEvent)
    ensures
        match pending {
            DdsSetUpPending::Join(name, transport) => pending@ == DdsSetUpPendingView::Join(
                name@,
                transport,
            ),
            DdsSetUpPending::OpenWriter(topic) => pending@ == DdsSetUpPendingView::OpenWriter(
                topic@,
            ),
            DdsSetUpPending::OpenReader(topic) => pending@ == DdsSetUpPendingView::OpenReader(
                topic@,
            ),
            DdsSetUpPending::Spawn(name) => pending@ == DdsSetUpPendingView::Spawn(name@),
            DdsSetUpPending::Ready => pending@ is Ready,
            DdsSetUpPending::Refused(DdsSetUpError::Participant(reason)) => pending@
                == DdsSetUpPendingView::Refused(DdsSetUpErrorView::Participant(reason@)),
            DdsSetUpPending::Refused(DdsSetUpError::InvalidState(reason)) => pending@
                == DdsSetUpPendingView::Refused(DdsSetUpErrorView::InvalidState(reason@)),
            DdsSetUpPending::Refused(DdsSetUpError::Io(reason)) => pending@
                == DdsSetUpPendingView::Refused(DdsSetUpErrorView::Io(reason@)),
        },
        match event {
            DdsSetUpEvent::Succeeded => event@ is Succeeded,
            DdsSetUpEvent::Failed(reason) => event@ == DdsSetUpEventView::Failed(reason@),
        },
{
}

/// A set-up joins first, as the participant of its role and node, and every step
/// is the one that its pending step and the event call for.
pub proof fn law_set_up_steps(
    role: DdsRole,
    node_id: String,
    transport: TransportMode,
    id: &str,
    name: String,
    started: DdsSetUp,
    set_up: DdsSetUp,
    event: DdsSetUpEvent,
    stepped: DdsSetUp,
)
    ensures
        call_ensures(participant_name, (role, id), name) ==> name@ == (match role {
            DdsRole::Caller => "midw-ctrl-"@,
            DdsRole::Server => "midw-node-"@,
        }) + id@,
        call_ensures(DdsSetUp::new, (role, node_id, transport), started) ==> {
            &&& started.role == role
            &&& started.node_id@ == node_id@
            &&& started.pending@ matches DdsSetUpPendingView::Join(joined, mode) && mode
                == transport && joined == (match role {
                DdsRole::Caller => "midw-ctrl-"@,
                DdsRole::Server => "midw-node-"@,
            }) + node_id@
        },
        call_ensures(DdsSetUp::step, (set_up, event), stepped) ==> {
            &&& stepped.role == set_up.role
            &&& stepped.node_id@ == set_up.node_id@
            &&& stepped.pending@ == set_up.pending@.next(set_up.role, set_up.node_id@, event@)
        },
{
}

} // verus!
