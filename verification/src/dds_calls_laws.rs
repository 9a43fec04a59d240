//! What holds of calls that overlap on one DDS handle.
use crate::dds::{
    DdsEvent, DdsEventView, DdsExchange, DdsPending, DdsPendingView, MessageView,
    REPLY_TIMEOUT_NANOS,
};
use crate::dds_calls::{DdsCalls, DdsCallsView};
use crate::protocol::{NodeErrorView, ResponseView};
use vstd::prelude::*;

verus! {

/// A handle to the node `id`, with its calls under their correlation
/// identifiers.
#[verifier::ext_equal]
pub struct HandleView {
    pub id: Seq<char>,
    pub shared: DdsCallsView,
    pub calls: Map<u64, DdsPendingView>,
}

/// What happens on a handle.
pub enum HandleStep {
    /// A call with this payload is given an identifier.
    Open(Seq<u8>),
    /// The pending step of this call went so.
    Event(u64, DdsEventView),
    /// This call is not carried on.
    Abandon(u64),
}

impl HandleView {
    /// A call that awaits a reply awaits the one with its own identifier, and
    /// the handle knows that it waits.
    pub open spec fn well_formed(self) -> bool {
        forall|c: u64| #[trigger]
            self.calls.contains_key(c) ==> (self.calls[c].awaited() matches Some(wanted) ==> wanted
                == c && self.shared.waiting.contains_key(c))
    }

    /// The handle after `step`.
    pub open spec fn after(self, step: HandleStep) -> HandleView {
        match step {
            HandleStep::Open(payload) => {
                let pending = DdsPendingView::Address(payload);
                HandleView {
                    shared: self.shared.opened(pending),
                    calls: self.calls.insert(
                        self.shared.upcoming,
                        pending.addressed(self.shared.upcoming),
                    ),
                    ..self
                }
            },
            HandleStep::Event(c, event) => if self.calls.contains_key(c) {
                HandleView {
                    shared: self.shared.after(self.id, self.calls[c], event),
                    calls: self.calls.insert(
                        c,
                        self.shared.next(self.id, self.calls[c], event),
                    ),
                    ..self
                }
            } else {
                self
            },
            HandleStep::Abandon(c) => HandleView {
                shared: self.shared.without(c),
                calls: self.calls.remove(c),
                ..self
            },
        }
    }

    /// The handle after `steps`, in order.
    pub open spec fn run(self, steps: Seq<HandleStep>) -> HandleView
        decreases steps.len(),
    {
        if steps.len() == 0 {
            self
        } else {
            self.run(steps.drop_last()).after(steps.last())
        }
    }

    /// Whether the call `c` waits for its reply, and none was taken so far.
    pub open spec fn waits(self, c: u64) -> bool {
        &&& self.calls.contains_key(c)
        &&& self.calls[c].awaited() == Some(c)
        &&& self.shared.waiting.contains_key(c)
        &&& self.shared.waiting[c] is None
    }

    /// Whether the call `c` has the reply `payload`, or will have it at its next
    /// look.
    pub open spec fn secured(self, c: u64, payload: Seq<u8>) -> bool {
        &&& self.calls.contains_key(c)
        &&& {
            ||| self.calls[c] == DdsPendingView::Decode(payload)
            ||| {
                &&& self.calls[c].awaited() == Some(c)
                &&& self.shared.waiting.contains_key(c)
                &&& self.shared.waiting[c] == Some(payload)
            }
        }
    }

    /// Whether `step` leaves the call `c` going: its identifier is not given to
    /// another call, it is not abandoned, and no step of its own fails or
    /// decodes.
    pub open spec fn spares(self, c: u64, step: HandleStep) -> bool {
        match step {
            HandleStep::Open(_) => self.shared.upcoming != c,
            HandleStep::Event(d, event) => d == c ==> event is Succeeded || event is Taken
                || event is Nothing,
            HandleStep::Abandon(d) => d != c,
        }
    }

    /// Whether `steps` bring the call `c` its reply: all of them leave it going,
    /// and at `k` some call takes the first reply with the identifier `c`,
    /// before `c` has found its deadline passed.
    pub open spec fn delivers(
        self,
        steps: Seq<HandleStep>,
        c: u64,
        k: int,
        reply: MessageView,
    ) -> bool {
        &&& forall|i: int|
            0 <= i < steps.len() ==> #[trigger] self.run(steps.take(i)).spares(c, steps[i])
        &&& 0 <= k < steps.len()
        &&& reply.correlation_id == c
        &&& steps[k] matches HandleStep::Event(d, event) && event == DdsEventView::Taken(reply)
            && self.run(steps.take(k)).calls.contains_key(d)
        &&& forall|i: int| 0 <= i < k ==> !#[trigger] takes(steps[i], c) && !gives_up(steps[i], c)
    }
}

/// Whether `step` takes a reply with the identifier `c`.
pub open spec fn takes(step: HandleStep, c: u64) -> bool {
    match step {
        HandleStep::Event(_, DdsEventView::Taken(reply)) => reply.correlation_id == c,
        _ => false,
    }
}

/// Whether the call `c` finds in `step` that its deadline has passed.
pub open spec fn gives_up(step: HandleStep, c: u64) -> bool {
    match step {
        HandleStep::Event(d, DdsEventView::Nothing(waited)) => d == c && waited
            >= REPLY_TIMEOUT_NANOS,
        _ => false,
    }
}

/// The steps with which the call `c` ends, where its reply decodes to
/// `response`: it rests no longer, looks for its reply once, after `waited`
/// nanoseconds, and decodes.
pub open spec fn ending(c: u64, waited: nat, response: ResponseView) -> Seq<HandleStep> {
    seq![
        HandleStep::Event(c, DdsEventView::Succeeded),
        HandleStep::Event(c, DdsEventView::Nothing(waited)),
        HandleStep::Event(c, DdsEventView::Decoded(response)),
    ]
}

/// Every step keeps what a handle knows of its calls.
pub proof fn law_handle_stays_well_formed(handle: HandleView, step: HandleStep)
    requires
        handle.well_formed(),
    ensures
        handle.after(step).well_formed(),
{
}

/// A call that is given an identifier waits for the reply with it from then on,
/// and publishes its payload under it.
pub proof fn law_opened_call_waits(handle: HandleView, payload: Seq<u8>)
    ensures
        handle.after(HandleStep::Open(payload)).waits(handle.shared.upcoming),
        handle.after(HandleStep::Open(payload)).calls[handle.shared.upcoming]
            == DdsPendingView::Publish(
            MessageView { correlation_id: handle.shared.upcoming, payload },
        ),
{
}

/// While its reply is not kept for it, a call steps as if it were alone.
pub proof fn law_call_steps_as_if_alone(
    shared: DdsCallsView,
    id: Seq<char>,
    pending: DdsPendingView,
    event: DdsEventView,
)
    requires
        pending matches DdsPendingView::Poll(wanted) ==> !shared.keeps(wanted),
    ensures
        shared.next(id, pending, event) == pending.next(id, event),
{
}

/// A call decodes only a reply with its own identifier: one that it took, or
/// one that was kept for it; and what is kept for an identifier is a reply with
/// that identifier.
pub proof fn law_call_decodes_only_its_own_reply(
    shared: DdsCallsView,
    id: Seq<char>,
    wanted: u64,
    event: DdsEventView,
    c: u64,
)
    ensures
        shared.next(id, DdsPendingView::Poll(wanted), event) matches DdsPendingView::Decode(payload)
            ==> (shared.keeps(wanted) && shared.waiting[wanted] == Some(payload)) || event
            == DdsEventView::Taken(MessageView { correlation_id: wanted, payload }),
        shared.filed(event).keeps(c) ==> (shared.keeps(c) && shared.filed(event).waiting[c]
            == shared.waiting[c]) || event == DdsEventView::Taken(
            MessageView { correlation_id: c, payload: shared.filed(event).waiting[c]->0 },
        ),
{
}

proof fn lemma_run_well_formed(handle: HandleView, steps: Seq<HandleStep>)
    requires
        handle.well_formed(),
    ensures
        handle.run(steps).well_formed(),
    decreases steps.len(),
{
    if steps.len() > 0 {
        lemma_run_well_formed(handle, steps.drop_last());
        law_handle_stays_well_formed(handle.run(steps.drop_last()), steps.last());
    }
}

/// A reply that is kept for a call is not lost: the steps of other calls leave
/// it, and its own call decodes it at its next look, whatever it finds there and
/// however late that is.
pub proof fn law_kept_reply_is_not_lost(
    handle: HandleView,
    c: u64,
    payload: Seq<u8>,
    step: HandleStep,
    waited: nat,
    response: ResponseView,
)
    requires
        handle.well_formed(),
        handle.secured(c, payload),
    ensures
        handle.spares(c, step) ==> handle.after(step).secured(c, payload),
        handle.calls[c] is Poll ==> (step matches HandleStep::Event(d, event) ==> (d == c
            ==> handle.after(step).calls[c] == DdsPendingView::Decode(payload))),
        handle.run(ending(c, waited, response)).calls[c] == DdsPendingView::Over(
            Ok::<ResponseView, NodeErrorView>(response),
        ),
{
    let steps = ending(c, waited, response);
    reveal_with_fuel(HandleView::run, 4);
    assert(steps.drop_last().drop_last().drop_last() =~= Seq::empty());
    assert(steps.drop_last().drop_last().last() == steps[0]);
    assert(steps.drop_last().last() == steps[1]);
    assert(steps.last() == steps[2]);
    law_handle_stays_well_formed(handle, steps[0]);
    let first = handle.after(steps[0]);
    assert(first.secured(c, payload));
    let second = first.after(steps[1]);
    assert(second.calls[c] == DdsPendingView::Decode(payload));
}

proof fn lemma_still_waits(handle: HandleView, steps: Seq<HandleStep>, c: u64)
    requires
        handle.well_formed(),
        handle.waits(c),
        forall|i: int|
            0 <= i < steps.len() ==> #[trigger] handle.run(steps.take(i)).spares(c, steps[i]),
        forall|i: int|
            0 <= i < steps.len() ==> !#[trigger] takes(steps[i], c) && !gives_up(steps[i], c),
    ensures
        handle.run(steps).waits(c),
    decreases steps.len(),
{
    if steps.len() > 0 {
        let before = steps.drop_last();
        assert forall|i: int| 0 <= i < before.len() implies #[trigger] handle.run(
            before.take(i),
        ).spares(c, before[i]) by {
            assert(before.take(i) =~= steps.take(i));
            assert(handle.run(steps.take(i)).spares(c, steps[i]));
        }
        assert forall|i: int| 0 <= i < before.len() implies !#[trigger] takes(before[i], c)
            && !gives_up(before[i], c) by {
            assert(!takes(steps[i], c) && !gives_up(steps[i], c));
        }
        lemma_still_waits(handle, before, c);
        lemma_run_well_formed(handle, before);
        let last = steps.len() - 1;
        assert(steps.take(last) =~= before);
        assert(handle.run(steps.take(last)).spares(c, steps[last]));
        assert(!takes(steps[last], c));
    }
}

/// Overlapping calls do not make each other lose replies: whichever call takes
/// the reply of the call `c`, and whatever happens in the others, `c` has it or
/// will have it at its next look, and ends with what it decodes to.
pub proof fn law_overlapping_calls_get_their_own_replies(
    handle: HandleView,
    steps: Seq<HandleStep>,
    c: u64,
    k: int,
    reply: MessageView,
    waited: nat,
    response: ResponseView,
)
    requires
        handle.well_formed(),
        handle.waits(c),
        handle.delivers(steps, c, k, reply),
    ensures
        handle.run(steps).well_formed(),
        handle.run(steps).secured(c, reply.payload),
        handle.run(steps).run(ending(c, waited, response)).calls[c] == DdsPendingView::Over(
            Ok::<ResponseView, NodeErrorView>(response),
        ),
    decreases steps.len(),
{
    let before = steps.drop_last();
    let last = steps.len() - 1;
    lemma_run_well_formed(handle, steps);
    lemma_run_well_formed(handle, before);
    assert(steps.take(last) =~= before);
    assert(handle.run(steps.take(last)).spares(c, steps[last]));
    assert forall|i: int| 0 <= i < before.len() implies #[trigger] handle.run(
        before.take(i),
    ).spares(c, before[i]) by {
        assert(before.take(i) =~= steps.take(i));
        assert(handle.run(steps.take(i)).spares(c, steps[i]));
    }
    assert forall|i: int| 0 <= i < k implies !#[trigger] takes(before[i], c) && !gives_up(
        before[i],
        c,
    ) by {
        assert(!takes(steps[i], c) && !gives_up(steps[i], c));
    }
    if k == last {
        lemma_still_waits(handle, before, c);
    } else {
        assert(before.take(k) =~= steps.take(k));
        law_overlapping_calls_get_their_own_replies(
            handle,
            before,
            c,
            k,
            reply,
            waited,
            response,
        );
        law_kept_reply_is_not_lost(
            handle.run(before),
            c,
            reply.payload,
            steps.last(),
            waited,
            response,
        );
    }
    law_kept_reply_is_not_lost(
        handle.run(steps),
        c,
        reply.payload,
        steps.last(),
        waited,
        response,
    );
}

proof fn lemma_others_untouched(
    handle: HandleView,
    c: u64,
    waited: nat,
    response: ResponseView,
    other: u64,
    payload: Seq<u8>,
)
    requires
        c != other,
        handle.well_formed(),
        handle.secured(other, payload),
    ensures
        handle.run(ending(c, waited, response)).well_formed(),
        handle.run(ending(c, waited, response)).secured(other, payload),
{
    let steps = ending(c, waited, response);
    lemma_run_well_formed(handle, steps);
    reveal_with_fuel(HandleView::run, 4);
    assert(steps.drop_last().drop_last().drop_last() =~= Seq::empty());
    law_handle_stays_well_formed(handle, steps[0]);
    law_handle_stays_well_formed(handle.after(steps[0]), steps[1]);
    assert(handle.after(steps[0]).secured(other, payload));
    assert(handle.after(steps[0]).after(steps[1]).secured(other, payload));
}

proof fn lemma_ended_call_stays(
    handle: HandleView,
    c: u64,
    waited: nat,
    response: ResponseView,
    other: u64,
)
    requires
        c != other,
    ensures
        handle.run(ending(c, waited, response)).calls[other] == handle.calls[other],
{
    let steps = ending(c, waited, response);
    reveal_with_fuel(HandleView::run, 4);
    assert(steps.drop_last().drop_last().drop_last() =~= Seq::empty());
}

/// Two calls that overlap on one handle each end with the response that their
/// own reply decodes to, whichever of them, or of the other calls, takes which
/// reply.
pub proof fn law_two_overlapping_calls(
    handle: HandleView,
    steps: Seq<HandleStep>,
    a: u64,
    i: int,
    reply_a: MessageView,
    response_a: ResponseView,
    b: u64,
    j: int,
    reply_b: MessageView,
    response_b: ResponseView,
    waited: nat,
)
    requires
        a != b,
        handle.well_formed(),
        handle.waits(a),
        handle.waits(b),
        handle.delivers(steps, a, i, reply_a),
        handle.delivers(steps, b, j, reply_b),
    ensures
        ({
            let ended = handle.run(steps).run(ending(a, waited, response_a)).run(
                ending(b, waited, response_b),
            );
            &&& ended.calls[a] == DdsPendingView::Over(
                Ok::<ResponseView, NodeErrorView>(response_a),
            )
            &&& ended.calls[b] == DdsPendingView::Over(
                Ok::<ResponseView, NodeErrorView>(response_b),
            )
        }),
{
    law_overlapping_calls_get_their_own_replies(handle, steps, a, i, reply_a, waited, response_a);
    law_overlapping_calls_get_their_own_replies(handle, steps, b, j, reply_b, waited, response_b);
    let arrived = handle.run(steps);
    let first = ending(a, waited, response_a);
    lemma_others_untouched(arrived, a, waited, response_a, b, reply_b.payload);
    let middle = arrived.run(first);
    law_kept_reply_is_not_lost(
        middle,
        b,
        reply_b.payload,
        HandleStep::Open(Seq::empty()),
        waited,
        response_b,
    );
    lemma_ended_call_stays(middle, b, waited, response_b, a);
}

/// A call waits for a reply from the moment it has an identifier until it has
/// the reply or is over, and it is the reply with its identifier.
pub proof fn law_call_awaits_its_own_reply(
    pending: DdsPendingView,
    message: MessageView,
    wanted: u64,
)
    ensures
        DdsPendingView::Publish(message).awaited() == Some(message.correlation_id),
        DdsPendingView::Poll(wanted).awaited() == Some(wanted),
        DdsPendingView::Rest(wanted).awaited() == Some(wanted),
        pending is Encode || pending is Address || pending is Decode || pending is Over
            ==> pending.awaited() is None,
{
}

/// An event in one call leaves what is kept for the others, except that a reply
/// to one of them is filed; and a call that waits no more leaves nothing behind.
pub proof fn law_calls_leave_nothing_behind(
    shared: DdsCallsView,
    id: Seq<char>,
    pending: DdsPendingView,
    event: DdsEventView,
    wanted: u64,
    other: u64,
)
    requires
        pending.awaited() == Some(wanted),
        other != wanted,
    ensures
        ({
            let after = shared.after(id, pending, event);
            let next = shared.next(id, pending, event);
            &&& after.upcoming == shared.upcoming
            &&& next.awaited() is None ==> !after.waiting.contains_key(wanted)
            &&& next.awaited() is Some ==> after.waiting.contains_key(wanted)
                == shared.waiting.contains_key(wanted)
            &&& after.waiting.contains_key(other) == shared.waiting.contains_key(other)
            &&& shared.waiting.contains_key(other) ==> after.waiting[other] == match event {
                DdsEventView::Taken(reply) if reply.correlation_id == other
                    && shared.waiting[other] is None => Some(reply.payload),
                _ => shared.waiting[other],
            }
        }),
{
}

/// Opening a call draws one identifier and leaves the other calls alone; what is
/// not ready to be published draws none.
pub proof fn law_opening_draws_one_identifier(
    shared: DdsCallsView,
    pending: DdsPendingView,
    other: u64,
)
    requires
        other != shared.upcoming,
    ensures
        pending is Address ==> shared.opened(pending).upcoming == (shared.upcoming + 1)
            % 0x1_0000_0000_0000_0000,
        pending !is Address ==> shared.opened(pending) == shared,
        shared.opened(pending).waiting.contains_key(other) == shared.waiting.contains_key(other),
        shared.waiting.contains_key(other) ==> shared.opened(pending).waiting[other]
            == shared.waiting[other],
{
}

/// Forgetting a call drops what was kept for it, and nothing else.
pub proof fn law_forgetting_drops_one_call(shared: DdsCallsView, wanted: u64, other: u64)
    requires
        other != wanted,
    ensures
        shared.without(wanted).upcoming == shared.upcoming,
        !shared.without(wanted).waiting.contains_key(wanted),
        shared.without(wanted).waiting.contains_key(other) == shared.waiting.contains_key(other),
        shared.waiting.contains_key(other) ==> shared.without(wanted).waiting[other]
            == shared.waiting[other],
{
}

/// The calls of a handle start with none waiting and with the identifier 1, and
/// each operation on them is the one that the laws speak of.
pub proof fn law_operations_on_calls(
    fresh: DdsCalls,
    calls: &mut DdsCalls,
    exchange: DdsExchange,
    event: DdsEvent,
    result: DdsExchange,
    wanted: u64,
    pending: DdsPending,
    awaited: Option<u64>,
)
    ensures
        call_ensures(DdsCalls::new, (), fresh) ==> fresh@.upcoming == 1 && fresh@.waiting == Map::<
            u64,
            Option<Seq<u8>>,
        >::empty(),
        call_ensures(DdsCalls::open, (calls, exchange), result) ==> {
            &&& result.node_id@ == exchange.node_id@
            &&& exchange.pending matches DdsPending::Address(payload) ==> result.pending@
                == DdsPendingView::Publish(
                MessageView { correlation_id: old(calls)@.upcoming, payload: payload@ },
            )
            &&& exchange.pending !is Address ==> result.pending@ == exchange.pending@
            &&& final(calls)@ == old(calls)@.opened(exchange.pending@)
        },
        call_ensures(DdsCalls::step, (calls, exchange, event), result) ==> {
            &&& result.node_id@ == exchange.node_id@
            &&& result.pending@ == old(calls)@.next(exchange.node_id@, exchange.pending@, event@)
            &&& final(calls)@ == old(calls)@.after(exchange.node_id@, exchange.pending@, event@)
        },
        call_ensures(DdsCalls::forget, (calls, wanted), ()) ==> {
            final(calls)@ == old(calls)@.without(wanted)
        },
        call_ensures(DdsPending::awaited, (&pending,), awaited) ==> awaited == match pending {
            DdsPending::Publish(request) => Some(request.correlation_id),
            DdsPending::Poll(id) => Some(id),
            DdsPending::Rest(id) => Some(id),
            _ => None,
        },
{
}

} // verus!
