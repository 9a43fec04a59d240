//! What holds of every connection of the Unix-domain-socket transport.
use crate::ipc::{
    IpcEvent, IpcEventView, IpcExchange, IpcNodeHandle, IpcPending, IpcPendingView,
};
use crate::ipc_server::{
    IpcNodeServer, IpcService, IpcServiceEvent, IpcServicePending, IpcServicePendingView, IpcSession, IpcSessionEvent,
    IpcSessionEventView, IpcSessionView,
};
use crate::node::{NodeState, NodeStateView};
use crate::protocol::{Command, CommandView, NodeErrorView, NodeInterface, ResponseView};
use crate::text;
use vstd::prelude::*;

verus! {

/// How far a client's side has come, from connecting to the outcome.
pub open spec fn client_stage(pending: IpcPendingView) -> nat {
    match pending {
        IpcPendingView::Connect(_) => 0,
        IpcPendingView::Encode(_) => 1,
        IpcPendingView::Send(_) => 2,
        IpcPendingView::EndInput => 3,
        IpcPendingView::Receive => 4,
        IpcPendingView::Decode(_) => 5,
        IpcPendingView::Over(_) => 6,
    }
}

/// How far a server's side has come, from receiving to the close.
pub open spec fn session_stage(session: IpcSessionView) -> nat {
    match session {
        IpcSessionView::Receive => 0,
        IpcSessionView::Decode(_) => 1,
        IpcSessionView::Apply(_) => 2,
        IpcSessionView::Encode(_) => 3,
        IpcSessionView::EncodeRefusal(_) => 3,
        IpcSessionView::Send(_) => 4,
        IpcSessionView::Closed => 5,
    }
}

/// A client's side after `events`, in order.
pub open spec fn client_run(
    pending: IpcPendingView,
    id: Seq<char>,
    socket_path: Seq<char>,
    events: Seq<IpcEventView>,
) -> IpcPendingView
    decreases events.len(),
{
    if events.len() == 0 {
        pending
    } else {
        client_run(pending, id, socket_path, events.drop_last()).next(
            id,
            socket_path,
            events.last(),
        )
    }
}

/// A connection carries one request: every event either leaves the client's
/// side as it is or takes it further on, so that nothing is sent or received
/// twice and the call is over after at most six steps.
pub proof fn law_client_moves_on(
    pending: IpcPendingView,
    id: Seq<char>,
    socket_path: Seq<char>,
    event: IpcEventView,
)
    ensures
        pending.next(id, socket_path, event) == pending || client_stage(
            pending.next(id, socket_path, event),
        ) > client_stage(pending),
        client_stage(pending) <= 6,
        client_stage(pending) == 6 ==> pending.next(id, socket_path, event) == pending,
{
}

/// A connection carries one reply: every event either leaves the server's side
/// as it is or takes it further on, and so does applying a command. At most one
/// command is applied, and at most one line is sent.
pub proof fn law_session_moves_on(
    session: IpcSessionView,
    event: IpcSessionEventView,
    state: NodeStateView,
    now: nat,
)
    ensures
        session.next(event) == session || session_stage(session.next(event)) > session_stage(
            session,
        ),
        session is Apply ==> session_stage(session.applied(state, now)) > session_stage(session),
        session !is Apply ==> session.applied(state, now) == session,
        session_stage(session) <= 5,
        session_stage(session) == 5 ==> session.next(event) == session,
{
}

/// A failure ends the client's call, whatever was pending, and a call that is
/// over stays as it ended.
pub proof fn law_failure_ends_the_call(
    pending: IpcPendingView,
    id: Seq<char>,
    socket_path: Seq<char>,
    reason: Seq<char>,
    event: IpcEventView,
)
    ensures
        pending !is Over ==> pending.next(id, socket_path, IpcEventView::Failed(reason))
            == IpcPendingView::Over(Err(pending.failure(id, socket_path, reason))),
        pending is Over ==> pending.next(id, socket_path, event) == pending,
{
}

/// A call succeeds only with a response that was decoded from a line the server
/// sent.
pub proof fn law_success_is_a_decoded_response(
    pending: IpcPendingView,
    id: Seq<char>,
    socket_path: Seq<char>,
    event: IpcEventView,
    response: ResponseView,
)
    requires
        pending !is Over,
        pending.next(id, socket_path, event) == IpcPendingView::Over(Ok(response)),
    ensures
        pending is Decode,
        event == IpcEventView::Decoded(response),
{
}

/// The node's state changes by nothing but a command that was decoded from a
/// request: a line without content and a request that cannot be decoded leave
/// it alone, and only the latter is answered.
pub proof fn law_refused_requests_leave_the_node(
    line: Seq<char>,
    json: Seq<char>,
    reason: Seq<char>,
    state: NodeStateView,
    now: nat,
)
    ensures
        text::trimmed(line).len() == 0 ==> IpcSessionView::Receive.next(
            IpcSessionEventView::Text(line),
        ) == IpcSessionView::Closed,
        ({
            let refused = IpcSessionView::Decode(json).next(IpcSessionEventView::Failed(reason));
            &&& refused == IpcSessionView::EncodeRefusal(
                ResponseView::Error("parse error: "@ + reason),
            )
            &&& refused.effect(state, now) == state
        }),
        forall|session: IpcSessionView|
            session !is Apply ==> #[trigger] session.effect(state, now) == state,
        forall|session: IpcSessionView, event: IpcSessionEventView|
            session !is Apply && (#[trigger] session.next(event)) is Apply ==> session is Decode
                && event == IpcSessionEventView::Decoded(
                session.next(event)->Apply_0,
            ),
{
}

/// The server's side of a served request, line by line.
pub open spec fn served_line(
    request: Seq<char>,
    command: CommandView,
    state: NodeStateView,
    now: nat,
    reply_json: Seq<char>,
) -> IpcSessionView {
    IpcSessionView::Receive.next(IpcSessionEventView::Text(request)).next(
        IpcSessionEventView::Decoded(command),
    ).applied(state, now).next(IpcSessionEventView::Text(reply_json))
}

/// The transport is transparent: where the JSON of the command decodes to the
/// command and the JSON of the response to the response, a call over a
/// connection gives what the node answers, and the command has its effect on the
/// node once.
///
/// Each side reads the first line of what the other has sent.
pub proof fn law_ipc_call_gives_the_nodes_answer(
    id: Seq<char>,
    socket_path: Seq<char>,
    command: CommandView,
    command_json: Seq<char>,
    state: NodeStateView,
    now: nat,
    response_json: Seq<char>,
)
    requires
        text::fits_line(command_json),
        text::fits_line(response_json),
    ensures
        ({
            let sent = client_run(
                IpcPendingView::Connect(command),
                id,
                socket_path,
                seq![IpcEventView::Succeeded, IpcEventView::Text(command_json)],
            );
            let request = text::first_line(sent->Send_0);
            let received = IpcSessionView::Receive.next(IpcSessionEventView::Text(request));
            let decoded = received.next(IpcSessionEventView::Decoded(command));
            let replied = served_line(request, command, state, now, response_json);
            let reply = text::first_line(replied->Send_0);
            let answer = state.answer(command, now);
            let decoding = client_run(
                sent,
                id,
                socket_path,
                seq![
                    IpcEventView::Succeeded,
                    IpcEventView::Succeeded,
                    IpcEventView::Text(reply),
                ],
            );
            &&& sent is Send
            &&& received == IpcSessionView::Decode(command_json)
            &&& decoded.effect(state, now) == state.after(command, now)
            &&& decoded.applied(state, now) == IpcSessionView::Encode(answer)
            &&& replied is Send
            &&& decoding == IpcPendingView::Decode(response_json)
            &&& decoding.next(id, socket_path, IpcEventView::Decoded(answer))
                == IpcPendingView::Over(Ok::<ResponseView, NodeErrorView>(answer))
        }),
{
    text::law_frame_round_trip(command_json, Seq::empty());
    text::law_frame_round_trip(response_json, Seq::empty());
    assert(text::framed(command_json) + Seq::<char>::empty() =~= text::framed(command_json));
    assert(text::framed(response_json) + Seq::<char>::empty() =~= text::framed(response_json));
    let connected = IpcPendingView::Connect(command);
    let first = seq![IpcEventView::Succeeded, IpcEventView::Text(command_json)];
    lemma_client_two(connected, id, socket_path, first);
    let sent = IpcPendingView::Send(text::framed(command_json));
    let second = seq![
        IpcEventView::Succeeded,
        IpcEventView::Succeeded,
        IpcEventView::Text(text::framed(response_json)),
    ];
    assert(second.drop_last() =~= seq![IpcEventView::Succeeded, IpcEventView::Succeeded]);
    lemma_client_two(sent, id, socket_path, second.drop_last());
    assert(text::framed(response_json).len() > 0);
}

proof fn lemma_client_two(
    pending: IpcPendingView,
    id: Seq<char>,
    socket_path: Seq<char>,
    events: Seq<IpcEventView>,
)
    requires
        events.len() == 2,
    ensures
        client_run(pending, id, socket_path, events) == pending.next(
            id,
            socket_path,
            events[0],
        ).next(id, socket_path, events[1]),
{
    reveal_with_fuel(client_run, 3);
    assert(events.drop_last().len() == 1);
    assert(events.drop_last().drop_last().len() == 0);
    assert(events.drop_last().last() == events[0]);
}

/// A handle connects to its own socket in order to send the command it is given,
/// unchanged, to its own node.
pub proof fn law_ipc_handle_sends_its_command(
    handle: IpcNodeHandle,
    command: CommandView,
    exchange: IpcExchange,
)
    requires
        handle.opens(command, exchange),
    ensures
        exchange.node_id@ == handle.node_id(),
        exchange.socket_path@ == handle.socket(),
        exchange.pending@ == IpcPendingView::Connect(command),
        exchange.pending@.next(exchange.node_id@, exchange.socket_path@, IpcEventView::Succeeded)
            == IpcPendingView::Encode(command),
{
}

/// A call on a handle gives what the node answers to the command of the call:
/// the command that is encoded is the one the handle was given, the server
/// applies what it decodes, and what the call ends with is the answer.
///
/// Each side reads the first line of what the other has sent.
pub proof fn law_ipc_handle_call_gives_the_nodes_answer(
    handle: IpcNodeHandle,
    exchange: IpcExchange,
    command: CommandView,
    command_json: Seq<char>,
    state: NodeStateView,
    now: nat,
    response_json: Seq<char>,
)
    requires
        handle.opens(command, exchange),
        text::fits_line(command_json),
        text::fits_line(response_json),
    ensures
        ({
            let id = handle.node_id();
            let path = handle.socket();
            let encoding = exchange.pending@.next(id, path, IpcEventView::Succeeded);
            let sending = encoding.next(id, path, IpcEventView::Text(command_json));
            let request = text::first_line(sending->Send_0);
            let decoding = IpcSessionView::Receive.next(IpcSessionEventView::Text(request));
            let applying = decoding.next(IpcSessionEventView::Decoded(encoding->Encode_0));
            let answering = applying.applied(state, now);
            let replying = answering.next(IpcSessionEventView::Text(response_json));
            let reply = text::first_line(replying->Send_0);
            let receiving = sending.next(id, path, IpcEventView::Succeeded).next(
                id,
                path,
                IpcEventView::Succeeded,
            );
            let reading = receiving.next(id, path, IpcEventView::Text(reply));
            let over = reading.next(id, path, IpcEventView::Decoded(answering->Encode_0));
            &&& encoding == IpcPendingView::Encode(command)
            &&& sending is Send
            &&& decoding == IpcSessionView::Decode(command_json)
            &&& applying == IpcSessionView::Apply(command)
            &&& applying.effect(state, now) == state.after(command, now)
            &&& answering == IpcSessionView::Encode(state.answer(command, now))
            &&& replying is Send
            &&& receiving is Receive
            &&& reading == IpcPendingView::Decode(response_json)
            &&& over == IpcPendingView::Over(
                Ok::<ResponseView, NodeErrorView>(state.answer(command, now)),
            )
        }),
{
    text::law_frame_round_trip(command_json, Seq::empty());
    text::law_frame_round_trip(response_json, Seq::empty());
    assert(text::framed(command_json) + Seq::<char>::empty() =~= text::framed(command_json));
    assert(text::framed(response_json) + Seq::<char>::empty() =~= text::framed(response_json));
    text::law_line_ends_with_a_line_feed(response_json);
}

/// A call goes through its steps in turn, and each step hands on what it was
/// given: the command that was to be sent is encoded, its JSON is sent as a line,
/// the line that is received is decoded without the white space around it, and
/// the response that is decoded is the outcome. An event that does not belong to
/// the pending step changes nothing.
pub proof fn law_ipc_call_goes_step_by_step(
    id: Seq<char>,
    path: Seq<char>,
    command: CommandView,
    json: Seq<char>,
    line: Seq<char>,
    response: ResponseView,
    pending: IpcPendingView,
    event: IpcEventView,
)
    ensures
        IpcPendingView::Connect(command).next(id, path, IpcEventView::Succeeded)
            == IpcPendingView::Encode(command),
        IpcPendingView::Encode(command).next(id, path, IpcEventView::Text(json)) matches
            IpcPendingView::Send(sent) && sent.len() == json.len() + 1 && sent.drop_last() == json
            && sent.last() == '\n',
        IpcPendingView::Send(line).next(id, path, IpcEventView::Succeeded)
            == IpcPendingView::EndInput,
        IpcPendingView::EndInput.next(id, path, IpcEventView::Succeeded) == IpcPendingView::Receive,
        line.len() > 0 ==> (IpcPendingView::Receive.next(id, path, IpcEventView::Text(line))
            matches IpcPendingView::Decode(read) && read == text::trimmed(line)),
        line.len() == 0 ==> IpcPendingView::Receive.next(id, path, IpcEventView::Text(line))
            == IpcPendingView::Over(
            Err::<ResponseView, NodeErrorView>(
                NodeErrorView::Communication(
                    "node '"@ + id + "' closed connection without a response"@,
                ),
            ),
        ),
        IpcPendingView::Decode(json).next(id, path, IpcEventView::Decoded(response))
            == IpcPendingView::Over(Ok::<ResponseView, NodeErrorView>(response)),
        event is Succeeded && !(pending is Connect || pending is Send || pending is EndInput)
            ==> pending.next(id, path, event) == pending,
        event is Text && !(pending is Encode || pending is Receive) ==> pending.next(
            id,
            path,
            event,
        ) == pending,
        event is Decoded && !(pending is Decode) ==> pending.next(id, path, event) == pending,
{
    text::law_line_ends_with_a_line_feed(json);
}

/// A failing step ends the call with an error of its kind that gives the reason:
/// where no connection came about, the error names the node and its socket; what
/// cannot be encoded or decoded is an error of serialization; all else is one of
/// input or output.
pub proof fn law_ipc_failures_say_where_and_why(
    pending: IpcPendingView,
    id: Seq<char>,
    path: Seq<char>,
    reason: Seq<char>,
)
    requires
        pending !is Over,
    ensures
        pending.next(id, path, IpcEventView::Failed(reason)) matches IpcPendingView::Over(
            Err(error),
        ) && {
            &&& pending is Connect ==> error == NodeErrorView::Communication(
                "cannot connect to node '"@ + id + "' at "@ + path + ": "@ + reason,
            )
            &&& pending is Encode || pending is Decode ==> error == NodeErrorView::Serialization(
                reason,
            )
            &&& pending is Send || pending is EndInput || pending is Receive ==> error
                == NodeErrorView::Io(reason)
        },
{
}

/// What the client's side says of its pending step and of an event is the step
/// and the event itself, with all that they carry.
pub proof fn law_ipc_call_is_what_it_says(pending: IpcPending, event: IpcEvent)
    ensures
        match pending {
            IpcPending::Connect(command) => pending@ == IpcPendingView::Connect(command@),
            IpcPending::Encode(command) => pending@ == IpcPendingView::Encode(command@),
            IpcPending::Send(line) => pending@ == IpcPendingView::Send(line@),
            IpcPending::EndInput => pending@ is EndInput,
            IpcPending::Receive => pending@ is Receive,
            IpcPending::Decode(json) => pending@ == IpcPendingView::Decode(json@),
            IpcPending::Over(Ok(response)) => pending@ == IpcPendingView::Over(
                Ok::<ResponseView, NodeErrorView>(response@),
            ),
            IpcPending::Over(Err(error)) => pending@ == IpcPendingView::Over(
                Err::<ResponseView, NodeErrorView>(error@),
            ),
        },
        match event {
            IpcEvent::Succeeded => event@ is Succeeded,
            IpcEvent::Text(content) => event@ == IpcEventView::Text(content@),
            IpcEvent::Decoded(response) => event@ == IpcEventView::Decoded(response@),
            IpcEvent::Failed(reason) => event@ == IpcEventView::Failed(reason@),
        },
{
}

/// The server's side goes through its steps in turn, and each step hands on what
/// it was given: a line is decoded without the white space around it, the
/// command that is decoded is applied, what the node answers is encoded, its
/// JSON is sent as a line, and the connection is closed. An event that does not
/// belong to the pending step changes nothing.
pub proof fn law_ipc_session_goes_step_by_step(
    line: Seq<char>,
    json: Seq<char>,
    command: CommandView,
    response: ResponseView,
    state: NodeStateView,
    now: nat,
    session: IpcSessionView,
    event: IpcSessionEventView,
)
    ensures
        text::trimmed(line).len() > 0 ==> IpcSessionView::Receive.next(
            IpcSessionEventView::Text(line),
        ) == IpcSessionView::Decode(text::trimmed(line)),
        IpcSessionView::Decode(json).next(IpcSessionEventView::Decoded(command))
            == IpcSessionView::Apply(command),
        IpcSessionView::Apply(command).applied(state, now) == IpcSessionView::Encode(
            state.answer(command, now),
        ),
        IpcSessionView::Apply(command).effect(state, now) == state.after(command, now),
        IpcSessionView::Encode(response).next(IpcSessionEventView::Text(json)) matches
            IpcSessionView::Send(sent) && sent.len() == json.len() + 1 && sent.drop_last() == json
            && sent.last() == '\n',
        IpcSessionView::EncodeRefusal(response).next(IpcSessionEventView::Text(json)) matches
            IpcSessionView::Send(sent) && sent.len() == json.len() + 1 && sent.drop_last() == json
            && sent.last() == '\n',
        IpcSessionView::Send(line).next(IpcSessionEventView::Succeeded) is Closed,
        event is Succeeded && session !is Send ==> session.next(event) == session,
        event is Text && !(session is Receive || session is Encode || session is EncodeRefusal)
            ==> session.next(event) == session,
        event is Decoded && session !is Decode ==> session.next(event) == session,
        session is Apply || session is Closed ==> session.next(event) == session,
{
    text::law_line_ends_with_a_line_feed(json);
}

/// A failing step closes the connection, except where there is still something
/// to say: a request that cannot be decoded is answered with the reason, and
/// where even that answer cannot be encoded an empty line is sent.
pub proof fn law_ipc_session_failures(session: IpcSessionView, reason: Seq<char>)
    ensures
        ({
            let next = session.next(IpcSessionEventView::Failed(reason));
            &&& session is Receive || session is Encode || session is Send ==> next is Closed
            &&& session is Decode ==> next == IpcSessionView::EncodeRefusal(
                ResponseView::Error("parse error: "@ + reason),
            )
            &&& session is EncodeRefusal ==> (next matches IpcSessionView::Send(sent) && sent
                == seq!['\n'])
            &&& session is Apply || session is Closed ==> next == session
        }),
{
    text::law_line_ends_with_a_line_feed(Seq::empty());
    assert(text::framed(Seq::empty()) =~= seq!['\n']);
}

/// What the server's side says of its pending step and of an event is the step
/// and the event itself, with all that they carry.
pub proof fn law_ipc_session_is_what_it_says(session: IpcSession, event: IpcSessionEvent)
    ensures
        match session {
            IpcSession::Receive => session@ is Receive,
            IpcSession::Decode(json) => session@ == IpcSessionView::Decode(json@),
            IpcSession::Apply(command) => session@ == IpcSessionView::Apply(command@),
            IpcSession::Encode(response) => session@ == IpcSessionView::Encode(response@),
            IpcSession::EncodeRefusal(response) => session@ == IpcSessionView::EncodeRefusal(
                response@,
            ),
            IpcSession::Send(line) => session@ == IpcSessionView::Send(line@),
            IpcSession::Closed => session@ is Closed,
        },
        match event {
            IpcSessionEvent::Succeeded => event@ is Succeeded,
            IpcSessionEvent::Text(content) => event@ == IpcSessionEventView::Text(content@),
            IpcSessionEvent::Decoded(command) => event@ == IpcSessionEventView::Decoded(command@),
            IpcSessionEvent::Failed(reason) => event@ == IpcSessionEventView::Failed(reason@),
        },
{
}

/// A server removes what is left of an earlier socket, whether there is anything
/// or not, binds its socket, and then accepts connections until accepting fails.
/// A socket that cannot be bound ends it at once, with the reason.
pub proof fn law_ipc_server_binds_and_accepts(event: IpcServiceEvent, reason: String)
    ensures
        IpcServicePendingView::RemoveStale.next(event) is Bind,
        IpcServicePendingView::Bind.next(IpcServiceEvent::Succeeded) is Accept,
        IpcServicePendingView::Bind.next(IpcServiceEvent::Failed(reason))
            == IpcServicePendingView::NotBound(reason@),
        IpcServicePendingView::Accept.next(IpcServiceEvent::Succeeded) is Accept,
        IpcServicePendingView::Accept.next(IpcServiceEvent::Failed(reason)) is Ended,
        IpcServicePendingView::NotBound(reason@).next(event) == IpcServicePendingView::NotBound(
            reason@,
        ),
        IpcServicePendingView::Ended.next(event) is Ended,
{
}

/// What a server says of its pending step is the step itself.
pub proof fn law_ipc_server_is_what_it_says(pending: IpcServicePending)
    ensures
        match pending {
            IpcServicePending::RemoveStale => pending@ is RemoveStale,
            IpcServicePending::Bind => pending@ is Bind,
            IpcServicePending::Accept => pending@ is Accept,
            IpcServicePending::NotBound(reason) => pending@ == IpcServicePendingView::NotBound(
                reason@,
            ),
            IpcServicePending::Ended => pending@ is Ended,
        },
{
}

/// A handle and a server are made as asked, and what they open is theirs: a
/// handle's calls go to its own node and socket and carry the command of the
/// call, and a server binds its own socket and serves a node that starts from
/// nothing.
pub proof fn law_ipc_ends_are_made_as_asked(
    id: String,
    socket_path: String,
    handle: IpcNodeHandle,
    named: &str,
    command: Command,
    exchange: IpcExchange,
    server: IpcNodeServer,
    service: IpcService,
    state: NodeState,
    session: IpcSession,
)
    requires
        call_ensures(IpcNodeHandle::new, (id, socket_path), handle),
        call_ensures(IpcNodeServer::new, (id, socket_path), server),
        call_ensures(IpcNodeServer::serve, (server,), service),
    ensures
        call_ensures(IpcNodeHandle::id, (&handle,), named) ==> named@ == id@,
        call_ensures(IpcNodeHandle::dispatch, (&handle, command), exchange) ==> {
            &&& exchange.node_id@ == id@
            &&& exchange.socket_path@ == socket_path@
            &&& exchange.pending@ == IpcPendingView::Connect(command@)
        },
        service.node_id@ == id@,
        service.socket_path@ == socket_path@,
        service.pending@ is RemoveStale,
        call_ensures(IpcService::node_state, (&service,), state) ==> state@.id == id@
            && !state@.running && state@.message_count == 0 && state@.config == Map::<
            Seq<char>,
            Seq<char>,
        >::empty(),
        call_ensures(IpcSession::new, (), session) ==> session@ is Receive,
{
}

/// Every step of a call, of a session and of a server is the one that its pending
/// step and the event call for, and each stays with its node and socket.
pub proof fn law_ipc_steps(
    exchange: IpcExchange,
    event: IpcEvent,
    stepped: IpcExchange,
    session: IpcSession,
    session_event: IpcSessionEvent,
    next_session: IpcSession,
    service: IpcService,
    service_event: IpcServiceEvent,
    next_service: IpcService,
)
    ensures
        call_ensures(IpcExchange::step, (exchange, event), stepped) ==> {
            &&& stepped.node_id@ == exchange.node_id@
            &&& stepped.socket_path@ == exchange.socket_path@
            &&& stepped.pending@ == exchange.pending@.next(
                exchange.node_id@,
                exchange.socket_path@,
                event@,
            )
        },
        call_ensures(IpcSession::step, (session, session_event), next_session) ==> next_session@
            == session@.next(session_event@),
        call_ensures(IpcService::step, (service, service_event), next_service) ==> {
            &&& next_service.node_id@ == service.node_id@
            &&& next_service.socket_path@ == service.socket_path@
            &&& next_service.pending@ == service.pending@.next(service_event)
        },
{
}

/// Applying a session's command is handling it: the session goes on with the
/// node's answer to that command, and the node's state is the one after it. A
/// session without a command leaves the node alone.
pub proof fn law_ipc_session_applies_its_command(
    session: IpcSession,
    at: &mut NodeState,
    at_once: &mut NodeState,
    now: u128,
    after: IpcSession,
)
    ensures
        call_ensures(IpcSession::apply_at, (session, at, now), after) ==> match session {
            IpcSession::Apply(command) => after@ == IpcSessionView::Encode(
                old(at)@.answer(command@, now as nat),
            ) && final(at)@ == old(at)@.after(command@, now as nat),
            _ => after@ == session@ && final(at)@ == old(at)@,
        },
        call_ensures(IpcSession::apply, (session, at_once), after) ==> match session {
            IpcSession::Apply(command) => exists|reading: u128| #[trigger]
                old(at_once).reads(reading) && after@ == IpcSessionView::Encode(
                    old(at_once)@.answer(command@, reading as nat),
                ) && final(at_once)@ == old(at_once)@.after(command@, reading as nat),
            _ => after@ == session@ && final(at_once)@ == old(at_once)@,
        },
{
}

} // verus!
