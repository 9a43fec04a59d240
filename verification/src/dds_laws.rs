//! What holds of every call over DDS.
use crate::dds;
use crate::dds::{
    CorrelationSeq, DdsEvent, DdsEventView, DdsExchange, DdsNodeHandle, DdsPending, DdsPendingView,
    Delivery, MessageView, NodeReply, NodeRequest, TransportMode, REPLY_TIMEOUT_NANOS,
};
use crate::dds_server::{
    DdsNodeServer, DdsService, DdsServiceEvent, DdsServiceEventView, DdsServicePending, DdsServicePendingView,
    DdsSession, DdsSessionEvent, DdsSessionEventView, DdsSessionPending, DdsSessionPendingView,
    RemoteExceptionCode, ServiceFaultView,
};
use crate::dds_setup::{DdsRole, DdsSetUp, DdsSetUpPendingView};
use crate::node::{NodeState, NodeStateView};
use crate::protocol::{Command, CommandView, NodeErrorView, NodeInterface, ResponseView};
use vstd::prelude::*;

verus! {

/// The identifier `n` draws after `first`.
pub open spec fn nth_id(first: u64, n: nat) -> u64
    decreases n,
{
    if n == 0 {
        first
    } else {
        dds::following(nth_id(first, (n - 1) as nat))
    }
}

proof fn lemma_nth_id(first: u64, n: nat)
    ensures
        nth_id(first, n) == (first + n) % 0x1_0000_0000_0000_0000,
    decreases n,
{
    if n > 0 {
        lemma_nth_id(first, (n - 1) as nat);
        let before = (first + n - 1) % 0x1_0000_0000_0000_0000;
        assert((first + n) % 0x1_0000_0000_0000_0000 == if before == 0xffff_ffff_ffff_ffff {
            0
        } else {
            before + 1
        });
    }
}

/// No two of 2^64 successive requests of a handle share an identifier.
pub proof fn law_correlation_ids_are_distinct(first: u64, i: nat, j: nat)
    requires
        i < j,
        j - i < 0x1_0000_0000_0000_0000,
    ensures
        nth_id(first, i) != nth_id(first, j),
{
    lemma_nth_id(first, i);
    lemma_nth_id(first, j);
    let m: int = 0x1_0000_0000_0000_0000;
    let a = first + i;
    let b = first + j;
    if a % m == b % m {
        assert(b - a == m * (b / m - a / m)) by {
            vstd::arithmetic::div_mod::lemma_fundamental_div_mod(a as int, m);
            vstd::arithmetic::div_mod::lemma_fundamental_div_mod(b as int, m);
            assert(m * (b / m) - m * (a / m) == m * (b / m - a / m)) by (nonlinear_arith);
        }
        let k = b / m - a / m;
        assert(k <= 0 || k >= 1);
        assert(0 < m * k < m);
    }
}

/// A request carries the identifier that was drawn for it, and its payload
/// unchanged; each request draws one identifier.
pub proof fn law_request_carries_its_id(
    id: Seq<char>,
    command: CommandView,
    payload: Seq<u8>,
    ids: CorrelationSeq,
)
    ensures
        DdsPendingView::Encode(command).next(id, DdsEventView::Encoded(payload)).addressed(
            ids.upcoming(),
        ) == DdsPendingView::Publish(MessageView { correlation_id: ids.upcoming(), payload }),
        DdsPendingView::Publish(MessageView { correlation_id: ids.upcoming(), payload }).next(
            id,
            DdsEventView::Succeeded,
        ) == DdsPendingView::Poll(ids.upcoming()),
{
}

/// A polling call after the replies `taken`, in order.
pub open spec fn poll_run(wanted: u64, id: Seq<char>, taken: Seq<MessageView>) -> DdsPendingView
    decreases taken.len(),
{
    if taken.len() == 0 {
        DdsPendingView::Poll(wanted)
    } else {
        poll_run(wanted, id, taken.drop_last()).next(id, DdsEventView::Taken(taken.last()))
    }
}

proof fn lemma_stale_replies(wanted: u64, id: Seq<char>, taken: Seq<MessageView>)
    requires
        forall|i: int| 0 <= i < taken.len() ==> (#[trigger] taken[i]).correlation_id != wanted,
    ensures
        poll_run(wanted, id, taken) == DdsPendingView::Poll(wanted),
    decreases taken.len(),
{
    if taken.len() > 0 {
        assert(taken.last() == taken[taken.len() - 1]);
        lemma_stale_replies(wanted, id, taken.drop_last());
    }
}

/// A call takes its own reply and no other: replies with another identifier are
/// passed over, however many there are, and the first with the wanted one is
/// decoded.
pub proof fn law_call_takes_its_own_reply(
    wanted: u64,
    id: Seq<char>,
    stale: Seq<MessageView>,
    reply: MessageView,
)
    requires
        forall|i: int| 0 <= i < stale.len() ==> (#[trigger] stale[i]).correlation_id != wanted,
        reply.correlation_id == wanted,
    ensures
        poll_run(wanted, id, stale) == DdsPendingView::Poll(wanted),
        poll_run(wanted, id, stale.push(reply)) == DdsPendingView::Decode(reply.payload),
{
    lemma_stale_replies(wanted, id, stale);
    assert(stale.push(reply).drop_last() =~= stale);
}

/// A call gives up only when no reply is there and the deadline has passed;
/// until then it rests and looks again for the same reply.
pub proof fn law_deadline(wanted: u64, id: Seq<char>, waited: nat)
    ensures
        waited >= REPLY_TIMEOUT_NANOS ==> DdsPendingView::Poll(wanted).next(
            id,
            DdsEventView::Nothing(waited),
        ) == DdsPendingView::Over(Err::<ResponseView, NodeErrorView>(dds::timed_out(id))),
        waited < REPLY_TIMEOUT_NANOS ==> DdsPendingView::Poll(wanted).next(
            id,
            DdsEventView::Nothing(waited),
        ).next(id, DdsEventView::Succeeded) == DdsPendingView::Poll(wanted),
{
}

/// A call that is over stays as it ended, and it succeeds only with a response
/// that was decoded.
pub proof fn law_success_is_a_decoded_response(
    pending: DdsPendingView,
    id: Seq<char>,
    event: DdsEventView,
)
    ensures
        pending is Over ==> pending.next(id, event) == pending,
        pending !is Over ==> (pending.next(id, event) matches DdsPendingView::Over(Ok(response))
            ==> pending is Decode && event == DdsEventView::Decoded(response)),
{
}

/// Calls and servers of a node meet: both use the topics of the node's
/// identifier. Nodes with different identifiers share no topic, and no topic
/// carries both requests and replies.
pub proof fn law_topics_are_the_nodes_own(a: Seq<char>, b: Seq<char>)
    ensures
        dds::request_topic_of(a) == dds::request_topic_of(b) <==> a == b,
        dds::reply_topic_of(a) == dds::reply_topic_of(b) <==> a == b,
        dds::request_topic_of(a) != dds::reply_topic_of(b),
{
    reveal_strlit("/req");
    reveal_strlit("/rep");
    reveal_strlit("midw/node/");
    let prefix = "midw/node/"@;
    let middle = |s: Seq<char>, n: int| s.subrange(prefix.len() as int, prefix.len() + n);
    assert(middle(dds::request_topic_of(a), a.len() as int) =~= a);
    assert(middle(dds::reply_topic_of(a), a.len() as int) =~= a);
    assert(middle(dds::request_topic_of(b), b.len() as int) =~= b);
    assert(middle(dds::reply_topic_of(b), b.len() as int) =~= b);
    assert(dds::request_topic_of(a).len() == prefix.len() + a.len() + 4);
    assert(dds::request_topic_of(b).len() == prefix.len() + b.len() + 4);
    assert(dds::reply_topic_of(a).len() == prefix.len() + a.len() + 4);
    assert(dds::reply_topic_of(b).len() == prefix.len() + b.len() + 4);
    assert(dds::request_topic_of(a).last() == 'q');
    assert(dds::reply_topic_of(b).last() == 'p');
}

/// The reply to a request has the identifier of the request. A request that
/// cannot be decoded is replied to without a response and leaves the node's
/// state alone.
pub proof fn law_reply_matches_its_request(
    pending: DdsSessionPendingView,
    correlation_id: u64,
    payload: Seq<u8>,
    reason: Seq<char>,
    state: NodeStateView,
    now: nat,
)
    ensures
        pending.reply(correlation_id) matches Some(reply) ==> reply.correlation_id
            == correlation_id,
        ({
            let refused = DdsSessionPendingView::Decode(payload).next(
                DdsSessionEventView::Failed(reason),
            );
            &&& refused.effect(state, now) == state
            &&& refused.reply(correlation_id) == Some(
                MessageView { correlation_id, payload: Seq::<u8>::empty() },
            )
        }),
        pending !is Apply ==> pending.effect(state, now) == state,
{
}

/// How far a server has come with a request, from the look for it to the rest
/// after it.
pub open spec fn service_stage(pending: DdsServicePendingView) -> nat {
    match pending {
        DdsServicePendingView::Take => 0,
        DdsServicePendingView::Answer(_, DdsSessionPendingView::Decode(_)) => 1,
        DdsServicePendingView::Answer(_, DdsSessionPendingView::Apply(_)) => 2,
        DdsServicePendingView::Answer(_, DdsSessionPendingView::Encode(_)) => 3,
        DdsServicePendingView::Answer(_, DdsSessionPendingView::Reply(_)) => 4,
        DdsServicePendingView::Publish(_) => 5,
        DdsServicePendingView::Rest => 6,
    }
}

/// A server publishes one reply to each request it takes: every event leaves the
/// server as it is or takes it further on with the request, and only after its
/// rest does it look for another. A reply that is published has the identifier
/// of the request. Applying a command takes the server on too, and is all that
/// changes the node's state.
pub proof fn law_service_moves_on(
    pending: DdsServicePendingView,
    event: DdsServiceEventView,
    state: NodeStateView,
    now: nat,
)
    ensures
        ({
            let next = pending.next(event);
            &&& next == pending || service_stage(next) > service_stage(pending) || (
            pending is Rest && next is Take)
            &&& pending is Take && next !is Take ==> next is Rest || (event matches
                DdsServiceEventView::Taken(request) && next == DdsServicePendingView::Answer(
                request.correlation_id,
                DdsSessionPendingView::Decode(request.payload),
            ))
            &&& pending matches DdsServicePendingView::Answer(correlation_id, _) ==> match next {
                DdsServicePendingView::Answer(same, _) => same == correlation_id,
                DdsServicePendingView::Publish(reply) => reply.correlation_id == correlation_id,
                _ => false,
            }
        }),
        pending.applies() ==> service_stage(pending.applied(state, now)) > service_stage(pending),
        !pending.applies() ==> pending.applied(state, now) == pending && pending.effect(state, now)
            == state,
{
}

/// Nothing stops a server: a look that finds nothing or fails, and a reply that
/// is published or fails to be, are each followed by a rest and another look.
pub proof fn law_service_goes_on(reply: MessageView, reason: Seq<char>)
    ensures
        ({
            let take = DdsServicePendingView::Take;
            let publish = DdsServicePendingView::Publish(reply);
            &&& take.next(DdsServiceEventView::Nothing) is Rest
            &&& take.next(DdsServiceEventView::Failed(reason)) is Rest
            &&& publish.next(DdsServiceEventView::Succeeded) is Rest
            &&& publish.next(DdsServiceEventView::Failed(reason)) is Rest
            &&& DdsServicePendingView::Rest.next(DdsServiceEventView::Succeeded) is Take
        }),
{
}

/// A server that takes a request publishes, under the identifier of the request,
/// what the node answers to its command, and the command has its effect on the
/// node once. A request that cannot be decoded is replied to with an empty
/// payload and has no effect.
pub proof fn law_service_answers_requests(
    request: MessageView,
    command: CommandView,
    state: NodeStateView,
    now: nat,
    response_bytes: Seq<u8>,
    reason: Seq<char>,
)
    ensures
        ({
            let taken = DdsServicePendingView::Take.next(DdsServiceEventView::Taken(request));
            let decoded = taken.next(
                DdsServiceEventView::Session(DdsSessionEventView::Decoded(command)),
            );
            let applied = decoded.applied(state, now);
            let encoded = DdsServiceEventView::Session(
                DdsSessionEventView::Encoded(response_bytes),
            );
            let refused = taken.next(
                DdsServiceEventView::Session(DdsSessionEventView::Failed(reason)),
            );
            &&& taken.effect(state, now) == state
            &&& decoded.applies()
            &&& decoded.effect(state, now) == state.after(command, now)
            &&& applied == DdsServicePendingView::Answer(
                request.correlation_id,
                DdsSessionPendingView::Encode(state.answer(command, now)),
            )
            &&& applied.effect(state, now) == state
            &&& applied.next(encoded) == DdsServicePendingView::Publish(
                MessageView {
                    correlation_id: request.correlation_id,
                    payload: response_bytes,
                },
            )
            &&& refused == DdsServicePendingView::Publish(
                MessageView {
                    correlation_id: request.correlation_id,
                    payload: Seq::<u8>::empty(),
                },
            )
        }),
{
}

/// The transport is transparent: where the encoded command decodes to the
/// command and the encoded response to the response, a call over DDS gives what
/// the node answers, and the command has its effect on the node once.
pub proof fn law_dds_call_gives_the_nodes_answer(
    id: Seq<char>,
    command: CommandView,
    command_bytes: Seq<u8>,
    correlation_id: u64,
    stale: Seq<MessageView>,
    state: NodeStateView,
    now: nat,
    response_bytes: Seq<u8>,
)
    requires
        forall|i: int|
            0 <= i < stale.len() ==> (#[trigger] stale[i]).correlation_id != correlation_id,
    ensures
        ({
            let published = DdsPendingView::Encode(command).next(
                id,
                DdsEventView::Encoded(command_bytes),
            ).addressed(correlation_id);
            let request = published->Publish_0;
            let decoded = DdsSessionPendingView::Decode(request.payload).next(
                DdsSessionEventView::Decoded(command),
            );
            let answer = state.answer(command, now);
            let served = decoded.applied(state, now).next(
                DdsSessionEventView::Encoded(response_bytes),
            );
            let reply = served.reply(request.correlation_id);
            &&& published is Publish
            &&& request.payload == command_bytes
            &&& decoded.effect(state, now) == state.after(command, now)
            &&& decoded.applied(state, now) == DdsSessionPendingView::Encode(answer)
            &&& reply is Some
            &&& published.next(id, DdsEventView::Succeeded) == DdsPendingView::Poll(correlation_id)
            &&& poll_run(correlation_id, id, stale.push(reply->0)) == DdsPendingView::Decode(
                response_bytes,
            )
            &&& DdsPendingView::Decode(response_bytes).next(id, DdsEventView::Decoded(answer))
                == DdsPendingView::Over(Ok::<ResponseView, NodeErrorView>(answer))
        }),
{
    law_call_takes_its_own_reply(
        correlation_id,
        id,
        stale,
        MessageView { correlation_id, payload: response_bytes },
    );
}

/// A handle opens a call to its own node whose command is the one the handle is
/// given, unchanged, and that is to be encoded first.
pub proof fn law_dds_handle_sends_its_command(
    handle: DdsNodeHandle,
    command: CommandView,
    exchange: DdsExchange,
)
    requires
        handle.opens(command, exchange),
    ensures
        exchange.node_id@ == handle.node_id(),
        exchange.pending@ == DdsPendingView::Encode(command),
{
}

/// A call on a handle gives what the node answers to the command of the call:
/// the command that is encoded is the one the handle was given, the server
/// applies what it decodes and replies under the identifier of the request, and
/// what the call ends with is the answer, whatever other replies come first.
pub proof fn law_dds_handle_call_gives_the_nodes_answer(
    handle: DdsNodeHandle,
    exchange: DdsExchange,
    command: CommandView,
    command_bytes: Seq<u8>,
    correlation_id: u64,
    stale: Seq<MessageView>,
    state: NodeStateView,
    now: nat,
    response_bytes: Seq<u8>,
)
    requires
        handle.opens(command, exchange),
        forall|i: int|
            0 <= i < stale.len() ==> (#[trigger] stale[i]).correlation_id != correlation_id,
    ensures
        ({
            let id = handle.node_id();
            let sent = exchange.pending@->Encode_0;
            let publishing = exchange.pending@.next(
                id,
                DdsEventView::Encoded(command_bytes),
            ).addressed(correlation_id);
            let request = publishing->Publish_0;
            let serving = DdsServicePendingView::Take.next(DdsServiceEventView::Taken(request));
            let applying = serving.next(
                DdsServiceEventView::Session(DdsSessionEventView::Decoded(sent)),
            );
            let answering = applying.applied(state, now);
            let answer = (answering->Answer_1)->Encode_0;
            let replying = answering.next(
                DdsServiceEventView::Session(DdsSessionEventView::Encoded(response_bytes)),
            );
            let polled = poll_run(correlation_id, id, stale.push(replying->Publish_0));
            &&& exchange.node_id@ == id
            &&& exchange.pending@ is Encode
            &&& sent == command
            &&& publishing is Publish
            &&& request == MessageView { correlation_id, payload: command_bytes }
            &&& serving == DdsServicePendingView::Answer(
                correlation_id,
                DdsSessionPendingView::Decode(command_bytes),
            )
            &&& applying.effect(state, now) == state.after(command, now)
            &&& answer == state.answer(command, now)
            &&& replying == DdsServicePendingView::Publish(
                MessageView { correlation_id, payload: response_bytes },
            )
            &&& publishing.next(id, DdsEventView::Succeeded) == DdsPendingView::Poll(correlation_id)
            &&& polled == DdsPendingView::Decode(response_bytes)
            &&& polled.next(id, DdsEventView::Decoded(answer)) == DdsPendingView::Over(
                Ok::<ResponseView, NodeErrorView>(state.answer(command, now)),
            )
        }),
{
    law_call_takes_its_own_reply(
        correlation_id,
        handle.node_id(),
        stale,
        MessageView { correlation_id, payload: response_bytes },
    );
}

/// Identifiers are drawn one after the other, and after the largest comes 0.
pub proof fn law_correlation_ids_count_up(id: u64)
    ensures
        dds::following(id) == (id + 1) % 0x1_0000_0000_0000_0000,
{
}

/// A node's topics are named after it.
pub proof fn law_topics_are_named_after_the_node(id: Seq<char>)
    ensures
        dds::service(id) == "midw/node/"@ + id,
        dds::request_topic_of(id) == "midw/node/"@ + id + "/req"@,
        dds::reply_topic_of(id) == "midw/node/"@ + id + "/rep"@,
{
}

/// A call goes through its steps in turn, and each step hands on what it was
/// given: the bytes of the command are published under the identifier that was
/// drawn, the reply with that identifier is decoded, and the response that is
/// decoded is the outcome. A call waits for ten seconds, looking again after
/// each rest. An event that does not belong to the pending step changes nothing.
pub proof fn law_dds_call_goes_step_by_step(
    id: Seq<char>,
    command: CommandView,
    payload: Seq<u8>,
    correlation_id: u64,
    response: ResponseView,
    waited: nat,
    pending: DdsPendingView,
    event: DdsEventView,
)
    ensures
        DdsPendingView::Encode(command).next(id, DdsEventView::Encoded(payload))
            == DdsPendingView::Address(payload),
        DdsPendingView::Address(payload).addressed(correlation_id) == DdsPendingView::Publish(
            MessageView { correlation_id, payload },
        ),
        pending !is Address ==> pending.addressed(correlation_id) == pending,
        DdsPendingView::Publish(MessageView { correlation_id, payload }).next(
            id,
            DdsEventView::Succeeded,
        ) == DdsPendingView::Poll(correlation_id),
        DdsPendingView::Poll(correlation_id).next(
            id,
            DdsEventView::Taken(MessageView { correlation_id, payload }),
        ) == DdsPendingView::Decode(payload),
        waited < 10_000_000_000 ==> DdsPendingView::Poll(correlation_id).next(
            id,
            DdsEventView::Nothing(waited),
        ) == DdsPendingView::Rest(correlation_id),
        waited >= 10_000_000_000 ==> DdsPendingView::Poll(correlation_id).next(
            id,
            DdsEventView::Nothing(waited),
        ) == DdsPendingView::Over(
            Err::<ResponseView, NodeErrorView>(
                NodeErrorView::Communication(
                    "DDS timeout waiting for reply from node '"@ + id + "'"@,
                ),
            ),
        ),
        DdsPendingView::Rest(correlation_id).next(id, DdsEventView::Succeeded)
            == DdsPendingView::Poll(correlation_id),
        DdsPendingView::Decode(payload).next(id, DdsEventView::Decoded(response))
            == DdsPendingView::Over(Ok::<ResponseView, NodeErrorView>(response)),
        event is Succeeded && !(pending is Publish || pending is Rest) ==> pending.next(id, event)
            == pending,
        event is Encoded && pending !is Encode ==> pending.next(id, event) == pending,
        (event is Taken || event is Nothing) && pending !is Poll ==> pending.next(id, event)
            == pending,
        event is Decoded && pending !is Decode ==> pending.next(id, event) == pending,
        event is Failed && (pending is Address || pending is Rest || pending is Over)
            ==> pending.next(id, event) == pending,
{
}

/// A failing step ends the call with an error of its kind that gives the reason:
/// what cannot be encoded or decoded is an error of serialization, what cannot
/// be published or taken is one of communication.
pub proof fn law_dds_failures_say_why(pending: DdsPendingView, id: Seq<char>, reason: Seq<char>)
    ensures
        ({
            let next = pending.next(id, DdsEventView::Failed(reason));
            &&& pending is Encode || pending is Decode ==> next == DdsPendingView::Over(
                Err::<ResponseView, NodeErrorView>(NodeErrorView::Serialization(reason)),
            )
            &&& pending is Publish || pending is Poll ==> next == DdsPendingView::Over(
                Err::<ResponseView, NodeErrorView>(NodeErrorView::Communication(reason)),
            )
        }),
{
}

/// What a call says of its pending step, of an event and of a message is the
/// step, the event and the message itself, with all that they carry.
pub proof fn law_dds_call_is_what_it_says(
    pending: DdsPending,
    event: DdsEvent,
    request: NodeRequest,
    reply: NodeReply,
)
    ensures
        request@ == (MessageView {
            correlation_id: request.correlation_id,
            payload: request.payload@,
        }),
        reply@ == (MessageView { correlation_id: reply.correlation_id, payload: reply.payload@ }),
        match pending {
            DdsPending::Encode(command) => pending@ == DdsPendingView::Encode(command@),
            DdsPending::Address(payload) => pending@ == DdsPendingView::Address(payload@),
            DdsPending::Publish(request) => pending@ == DdsPendingView::Publish(request@),
            DdsPending::Poll(wanted) => pending@ == DdsPendingView::Poll(wanted),
            DdsPending::Rest(wanted) => pending@ == DdsPendingView::Rest(wanted),
            DdsPending::Decode(payload) => pending@ == DdsPendingView::Decode(payload@),
            DdsPending::Over(Ok(response)) => pending@ == DdsPendingView::Over(
                Ok::<ResponseView, NodeErrorView>(response@),
            ),
            DdsPending::Over(Err(error)) => pending@ == DdsPendingView::Over(
                Err::<ResponseView, NodeErrorView>(error@),
            ),
        },
        match event {
            DdsEvent::Succeeded => event@ is Succeeded,
            DdsEvent::Encoded(payload) => event@ == DdsEventView::Encoded(payload@),
            DdsEvent::Taken(reply) => event@ == DdsEventView::Taken(reply@),
            DdsEvent::Nothing(waited) => event@ == DdsEventView::Nothing(waited as nat),
            DdsEvent::Decoded(response) => event@ == DdsEventView::Decoded(response@),
            DdsEvent::Failed(reason) => event@ == DdsEventView::Failed(reason@),
        },
{
}

/// The service of a request goes through its steps in turn, and each step hands
/// on what it was given: the command that is decoded is applied, what the node
/// answers is encoded, and the reply carries its bytes. What fails is reported
/// with the reason, under the code of its kind, and replied to with an empty
/// payload. An event that does not belong to the pending step changes nothing.
pub proof fn law_dds_session_goes_step_by_step(
    payload: Seq<u8>,
    command: CommandView,
    response: ResponseView,
    reason: Seq<char>,
    correlation_id: u64,
    state: NodeStateView,
    now: nat,
    session: DdsSessionPendingView,
    event: DdsSessionEventView,
)
    ensures
        DdsSessionPendingView::Decode(payload).next(DdsSessionEventView::Decoded(command))
            == DdsSessionPendingView::Apply(command),
        DdsSessionPendingView::Apply(command).applied(state, now) == DdsSessionPendingView::Encode(
            state.answer(command, now),
        ),
        DdsSessionPendingView::Apply(command).effect(state, now) == state.after(command, now),
        session !is Apply ==> session.applied(state, now) == session,
        DdsSessionPendingView::Encode(response).next(DdsSessionEventView::Encoded(payload))
            == DdsSessionPendingView::Reply(Ok::<Seq<u8>, ServiceFaultView>(payload)),
        DdsSessionPendingView::Reply(Ok::<Seq<u8>, ServiceFaultView>(payload)).reply(correlation_id)
            == Some(MessageView { correlation_id, payload }),
        DdsSessionPendingView::Decode(payload).next(DdsSessionEventView::Failed(reason)) matches
            DdsSessionPendingView::Reply(Err(fault)) && fault.code
            == RemoteExceptionCode::InvalidArgument && fault.message == "parse error: "@ + reason,
        DdsSessionPendingView::Encode(response).next(DdsSessionEventView::Failed(reason)) matches
            DdsSessionPendingView::Reply(Err(fault)) && fault.code
            == RemoteExceptionCode::InternalError && fault.message == "serialize error: "@ + reason,
        session matches DdsSessionPendingView::Reply(Err(_)) ==> session.reply(correlation_id)
            == Some(MessageView { correlation_id, payload: Seq::<u8>::empty() }),
        session.reply(correlation_id) is Some <==> session is Reply,
        event is Decoded && session !is Decode ==> session.next(event) == session,
        event is Encoded && session !is Encode ==> session.next(event) == session,
        session is Apply || session is Reply ==> session.next(event) == session,
{
}

/// What the service of a request, and a server, say of their pending step and of
/// an event is the step and the event itself, with all that they carry.
pub proof fn law_dds_service_is_what_it_says(
    session: DdsSessionPending,
    session_event: DdsSessionEvent,
    service: DdsServicePending,
    service_event: DdsServiceEvent,
)
    ensures
        match session {
            DdsSessionPending::Decode(payload) => session@ == DdsSessionPendingView::Decode(
                payload@,
            ),
            DdsSessionPending::Apply(command) => session@ == DdsSessionPendingView::Apply(command@),
            DdsSessionPending::Encode(response) => session@ == DdsSessionPendingView::Encode(
                response@,
            ),
            DdsSessionPending::Reply(Ok(payload)) => session@ == DdsSessionPendingView::Reply(
                Ok::<Seq<u8>, ServiceFaultView>(payload@),
            ),
            DdsSessionPending::Reply(Err(fault)) => session@ matches DdsSessionPendingView::Reply(
                Err(said),
            ) && said.code == fault.code && said.message == fault.message@,
        },
        match session_event {
            DdsSessionEvent::Decoded(command) => session_event@ == DdsSessionEventView::Decoded(
                command@,
            ),
            DdsSessionEvent::Encoded(payload) => session_event@ == DdsSessionEventView::Encoded(
                payload@,
            ),
            DdsSessionEvent::Failed(reason) => session_event@ == DdsSessionEventView::Failed(
                reason@,
            ),
        },
        match service {
            DdsServicePending::Take => service@ is Take,
            DdsServicePending::Answer(session) => service@ == DdsServicePendingView::Answer(
                session.correlation_id,
                session.pending@,
            ),
            DdsServicePending::Publish(reply) => service@ == DdsServicePendingView::Publish(reply@),
            DdsServicePending::Rest => service@ is Rest,
        },
        match service_event {
            DdsServiceEvent::Succeeded => service_event@ is Succeeded,
            DdsServiceEvent::Taken(request) => service_event@ == DdsServiceEventView::Taken(
                request@,
            ),
            DdsServiceEvent::Nothing => service_event@ is Nothing,
            DdsServiceEvent::Session(event) => service_event@ == DdsServiceEventView::Session(
                event@,
            ),
            DdsServiceEvent::Failed(reason) => service_event@ == DdsServiceEventView::Failed(
                reason@,
            ),
        },
{
}

/// A server serves a request by its session and nothing else: what happens in
/// the session takes the session on, its reply is published as soon as it is
/// there, and what happens elsewhere does not touch a session without a reply.
/// An event that does not belong to the pending step changes nothing.
pub proof fn law_service_goes_by_its_session(
    correlation_id: u64,
    session: DdsSessionPendingView,
    happened: DdsSessionEventView,
    pending: DdsServicePendingView,
    event: DdsServiceEventView,
)
    ensures
        ({
            let serving = DdsServicePendingView::Answer(correlation_id, session);
            let next = serving.next(DdsServiceEventView::Session(happened));
            &&& session.next(happened) !is Reply ==> next == DdsServicePendingView::Answer(
                correlation_id,
                session.next(happened),
            )
            &&& session.next(happened) is Reply ==> session.next(happened).reply(correlation_id)
                is Some && next == DdsServicePendingView::Publish(
                session.next(happened).reply(correlation_id)->0,
            )
            &&& session !is Reply && event !is Session ==> serving.next(event) == serving
        }),
        pending is Take && (event is Succeeded || event is Session) ==> pending.next(event)
            == pending,
        pending is Publish && !(event is Succeeded || event is Failed) ==> pending.next(event)
            == pending,
        pending is Rest && event !is Succeeded ==> pending.next(event) == pending,
{
}

/// A handle is made as asked, and what it opens is its own: its participant and
/// its topics are named after its node, its set-up joins over its transport, and
/// its calls go to its node and carry the command of the call.
pub proof fn law_dds_handle_is_made_as_asked(
    id: String,
    transport: TransportMode,
    handle: DdsNodeHandle,
    named: &str,
    mode: TransportMode,
    name: String,
    set_up: DdsSetUp,
    command: Command,
    exchange: DdsExchange,
)
    requires
        call_ensures(DdsNodeHandle::new, (id, transport), handle),
    ensures
        call_ensures(DdsNodeHandle::id, (&handle,), named) ==> named@ == id@,
        call_ensures(DdsNodeHandle::transport, (&handle,), mode) ==> mode == transport,
        call_ensures(DdsNodeHandle::participant_name, (&handle,), name) ==> name@ == "midw-ctrl-"@
            + id@,
        call_ensures(DdsNodeHandle::request_topic, (&handle,), name) ==> name@ == "midw/node/"@
            + id@ + "/req"@,
        call_ensures(DdsNodeHandle::reply_topic, (&handle,), name) ==> name@ == "midw/node/"@ + id@
            + "/rep"@,
        call_ensures(DdsNodeHandle::set_up, (&handle,), set_up) ==> {
            &&& set_up.role == DdsRole::Caller
            &&& set_up.node_id@ == id@
            &&& set_up.pending@ == DdsSetUpPendingView::Join("midw-ctrl-"@ + id@, transport)
        },
        call_ensures(DdsNodeHandle::dispatch, (&handle, command), exchange) ==> {
            &&& exchange.node_id@ == id@
            &&& exchange.pending@ == DdsPendingView::Encode(command@)
        },
{
}

/// A server is made as asked: its participant, its service and its topics are
/// named after its node, its set-up joins over its transport, and it serves a
/// node that starts from nothing, looking for a request first.
pub proof fn law_dds_server_is_made_as_asked(
    id: String,
    transport: TransportMode,
    server: DdsNodeServer,
    mode: TransportMode,
    name: String,
    set_up: DdsSetUp,
    service: DdsService,
)
    requires
        call_ensures(DdsNodeServer::new, (id, transport), server),
    ensures
        call_ensures(DdsNodeServer::transport, (&server,), mode) ==> mode == transport,
        call_ensures(DdsNodeServer::participant_name, (&server,), name) ==> name@ == "midw-node-"@
            + id@,
        call_ensures(DdsNodeServer::set_up, (&server,), set_up) ==> {
            &&& set_up.role == DdsRole::Server
            &&& set_up.node_id@ == id@
            &&& set_up.pending@ == DdsSetUpPendingView::Join("midw-node-"@ + id@, transport)
        },
        call_ensures(DdsNodeServer::serve, (server,), service) ==> {
            &&& service.node_id@ == id@
            &&& service.service_name@ == "midw/node/"@ + id@
            &&& service.request_topic@ == "midw/node/"@ + id@ + "/req"@
            &&& service.reply_topic@ == "midw/node/"@ + id@ + "/rep"@
            &&& service.state@.id == id@
            &&& !service.state@.running
            &&& service.state@.message_count == 0
            &&& service.state@.config == Map::<Seq<char>, Seq<char>>::empty()
            &&& service.pending@ is Take
        },
{
}

/// Requests and replies are delivered reliably, are kept until they are taken,
/// and do not outlive the call. Names are given to services and topics alike
/// wherever they are asked for.
pub proof fn law_delivery_and_names(delivery: Delivery, id: &str, name: String)
    ensures
        call_ensures(dds::call_delivery, (), delivery) ==> delivery.reliable && delivery.keep_all
            && delivery.volatile,
        call_ensures(dds::service_name, (id,), name) ==> name@ == "midw/node/"@ + id@,
        call_ensures(dds::request_topic, (id,), name) ==> name@ == "midw/node/"@ + id@ + "/req"@,
        call_ensures(dds::reply_topic, (id,), name) ==> name@ == "midw/node/"@ + id@ + "/rep"@,
{
}

/// The first identifier is 1, and each draw gives the next one.
pub proof fn law_draws_count_up(fresh: CorrelationSeq, ids: &mut CorrelationSeq, drawn: u64)
    ensures
        call_ensures(CorrelationSeq::new, (), fresh) ==> fresh.upcoming() == 1,
        call_ensures(CorrelationSeq::draw, (ids,), drawn) ==> {
            &&& drawn == old(ids).upcoming()
            &&& final(ids).upcoming() == (drawn + 1) % 0x1_0000_0000_0000_0000
        },
{
}

/// Every step of a call, of a session and of a server is the one that its pending
/// step and the event call for; each stays with its node and its request, and a
/// step leaves the state of a served node alone.
pub proof fn law_dds_steps(
    exchange: DdsExchange,
    event: DdsEvent,
    stepped: DdsExchange,
    ids: &mut CorrelationSeq,
    request: NodeRequest,
    session: DdsSession,
    session_event: DdsSessionEvent,
    next_session: DdsSession,
    reply: Option<NodeReply>,
    service: DdsService,
    service_event: DdsServiceEvent,
    next_service: DdsService,
)
    ensures
        call_ensures(DdsExchange::step, (exchange, event), stepped) ==> {
            &&& stepped.node_id@ == exchange.node_id@
            &&& stepped.pending@ == exchange.pending@.next(exchange.node_id@, event@)
        },
        call_ensures(DdsExchange::address, (exchange, ids), stepped) ==> {
            &&& stepped.node_id@ == exchange.node_id@
            &&& exchange.pending matches DdsPending::Address(payload) ==> stepped.pending@
                == DdsPendingView::Publish(
                MessageView { correlation_id: old(ids).upcoming(), payload: payload@ },
            ) && final(ids).upcoming() == (old(ids).upcoming() + 1) % 0x1_0000_0000_0000_0000
            &&& exchange.pending !is Address ==> stepped.pending@ == exchange.pending@
            &&& exchange.pending !is Address ==> final(ids).upcoming() == old(ids).upcoming()
        },
        call_ensures(DdsSession::new, (request,), next_session) ==> {
            &&& next_session.correlation_id == request.correlation_id
            &&& next_session.pending@ == DdsSessionPendingView::Decode(request.payload@)
        },
        call_ensures(DdsSession::step, (session, session_event), next_session) ==> {
            &&& next_session.correlation_id == session.correlation_id
            &&& next_session.pending@ == session.pending@.next(session_event@)
        },
        call_ensures(DdsSession::into_reply, (session,), reply) ==> match session.pending {
            DdsSessionPending::Reply(Ok(payload)) => reply matches Some(given)
                && given.correlation_id == session.correlation_id && given.payload@ == payload@,
            DdsSessionPending::Reply(Err(_)) => reply matches Some(given) && given.correlation_id
                == session.correlation_id && given.payload@.len() == 0,
            _ => reply is None,
        },
        call_ensures(DdsService::step, (service, service_event), next_service) ==> {
            &&& next_service.node_id@ == service.node_id@
            &&& next_service.request_topic@ == service.request_topic@
            &&& next_service.reply_topic@ == service.reply_topic@
            &&& next_service.state == service.state
            &&& next_service.pending@ == service.pending@.next(service_event@)
        },
{
}

/// Applying the command of a request is handling it: the service of the request
/// goes on with the node's answer to that command, and the node's state is the
/// one after it. Without a command the node is left alone.
pub proof fn law_dds_session_applies_its_command(
    session: DdsSession,
    at: &mut NodeState,
    at_once: &mut NodeState,
    now: u128,
    after: DdsSession,
)
    ensures
        call_ensures(DdsSession::apply_at, (session, at, now), after) ==> after.correlation_id
            == session.correlation_id && match session.pending {
            DdsSessionPending::Apply(command) => after.pending@ == DdsSessionPendingView::Encode(
                old(at)@.answer(command@, now as nat),
            ) && final(at)@ == old(at)@.after(command@, now as nat),
            _ => after.pending@ == session.pending@ && final(at)@ == old(at)@,
        },
        call_ensures(DdsSession::apply, (session, at_once), after) ==> after.correlation_id
            == session.correlation_id && match session.pending {
            DdsSessionPending::Apply(command) => exists|reading: u128| #[trigger]
                old(at_once).reads(reading) && after.pending@ == DdsSessionPendingView::Encode(
                    old(at_once)@.answer(command@, reading as nat),
                ) && final(at_once)@ == old(at_once)@.after(command@, reading as nat),
            _ => after.pending@ == session.pending@ && final(at_once)@ == old(at_once)@,
        },
{
}

/// A server applies the command of the request that it serves, and nothing
/// else, to the state of its own node.
pub proof fn law_dds_service_applies_its_command(service: DdsService, now: u128, after: DdsService)
    requires
        call_ensures(DdsService::apply_at, (service, now), after),
    ensures
        after.node_id@ == service.node_id@,
        match service.pending@ {
            DdsServicePendingView::Answer(
                correlation_id,
                DdsSessionPendingView::Apply(command),
            ) => after.pending@ == DdsServicePendingView::Answer(
                correlation_id,
                DdsSessionPendingView::Encode(service.state@.answer(command, now as nat)),
            ) && after.state@ == service.state@.after(command, now as nat),
            _ => after.pending@ == service.pending@ && after.state@ == service.state@,
        },
{
}

} // verus!
