//! The calls that overlap on one DDS handle.
//!
//! All calls of a handle take from the same reply topic, so a call may take the
//! reply of another. Such a reply is kept for the call it belongs to, which
//! collects it at its next look.
use crate::dds;
use crate::dds::{
    CorrelationSeq, DdsEvent, DdsEventView, DdsExchange, DdsPending, DdsPendingView, NodeReply,
};
use std::collections::HashMap;
use vstd::prelude::*;

verus! {

broadcast use vstd::std_specs::hash::group_hash_axioms;

impl DdsPendingView {
    /// The identifier of the reply that the call will look for, from the moment
    /// it has one until it has the reply or gives up.
    pub open spec fn awaited(self) -> Option<u64> {
        match self {
            DdsPendingView::Publish(request) => Some(request.correlation_id),
            DdsPendingView::Poll(wanted) => Some(wanted),
            DdsPendingView::Rest(wanted) => Some(wanted),
            _ => None,
        }
    }
}

impl DdsPending {
    /// The identifier of the reply that the call will look for, if any.
    pub fn awaited(&self) -> (r: Option<u64>)
        ensures
            r == self@.awaited(),
    {
        match self {
            DdsPending::Publish(request) => Some(request.correlation_id),
            DdsPending::Poll(wanted) => Some(*wanted),
            DdsPending::Rest(wanted) => Some(*wanted),
            _ => None,
        }
    }
}

/// What a [`DdsCalls`] says.
///
/// `waiting` holds the identifiers whose replies are awaited, each with the
/// payload of its reply once that has been taken.
#[verifier::ext_equal]
pub struct DdsCallsView {
    pub upcoming: u64,
    pub waiting: Map<u64, Option<Seq<u8>>>,
}

impl DdsCallsView {
    /// Whether the reply with the identifier `wanted` has been taken and is kept
    /// for its call.
    pub open spec fn keeps(self, wanted: u64) -> bool {
        self.waiting.contains_key(wanted) && self.waiting[wanted] is Some
    }

    /// The calls once `event` has come up in one of them: the first reply to a
    /// waiting call is kept for that call. Replies that no call waits for are
    /// dropped.
    pub open spec fn filed(self, event: DdsEventView) -> DdsCallsView {
        match event {
            DdsEventView::Taken(reply) => if self.waiting.contains_key(reply.correlation_id)
                && self.waiting[reply.correlation_id] is None {
                DdsCallsView {
                    waiting: self.waiting.insert(reply.correlation_id, Some(reply.payload)),
                    ..self
                }
            } else {
                self
            },
            _ => self,
        }
    }

    /// The calls once no call waits for the identifier `wanted` any more.
    pub open spec fn without(self, wanted: u64) -> DdsCallsView {
        DdsCallsView { waiting: self.waiting.remove(wanted), ..self }
    }

    /// The calls once the call `pending` has been given an identifier to wait
    /// for.
    pub open spec fn opened(self, pending: DdsPendingView) -> DdsCallsView {
        if pending is Address {
            DdsCallsView {
                upcoming: dds::following(self.upcoming),
                waiting: self.waiting.insert(self.upcoming, None),
            }
        } else {
            self
        }
    }

    /// What comes next in the call `pending` to the node `id` after `event`. A
    /// polling call whose reply is kept has it, whatever the event.
    pub open spec fn next(
        self,
        id: Seq<char>,
        pending: DdsPendingView,
        event: DdsEventView,
    ) -> DdsPendingView {
        match pending {
            DdsPendingView::Poll(wanted) if self.filed(event).keeps(wanted) => {
                DdsPendingView::Decode(self.filed(event).waiting[wanted]->0)
            },
            _ => pending.next(id, event),
        }
    }

    /// The calls after `event` in the call `pending` to the node `id`: a taken
    /// reply is filed, and a call that has its reply or has given up waits no
    /// more.
    pub open spec fn after(
        self,
        id: Seq<char>,
        pending: DdsPendingView,
        event: DdsEventView,
    ) -> DdsCallsView {
        match pending.awaited() {
            Some(wanted) if self.next(id, pending, event).awaited() is None => {
                self.filed(event).without(wanted)
            },
            _ => self.filed(event),
        }
    }
}

/// What the calls of one handle share: their correlation identifiers, and the
/// replies that have been taken for calls that still wait.
pub struct DdsCalls {
    ids: CorrelationSeq,
    waiting: HashMap<u64, Option<Vec<u8>>>,
}

impl View for DdsCalls {
    type V = DdsCallsView;

    closed spec fn view(&self) -> DdsCallsView {
        DdsCallsView {
            upcoming: self.ids.upcoming(),
            waiting: self.waiting@.map_values(
                |reply: Option<Vec<u8>>|
                    match reply {
                        Some(payload) => Some(payload@),
                        None => None,
                    },
            ),
        }
    }
}

impl DdsCalls {
    /// No call waits, and the identifiers from 1 on are to be drawn.
    pub fn new() -> (r: Self)
        ensures
            r@ == (DdsCallsView { upcoming: 1, waiting: Map::empty() }),
    {
        let r = DdsCalls { ids: CorrelationSeq::new(), waiting: HashMap::new() };
        assert(r@.waiting =~= Map::empty());
        r
    }

    /// Gives a call with a pending payload the next correlation identifier, and
    /// has it wait for the reply with that identifier; without such a payload,
    /// nothing happens.
    pub fn open(&mut self, exchange: DdsExchange) -> (r: DdsExchange)
        ensures
            r.node_id@ == exchange.node_id@,
            r.pending@ == exchange.pending@.addressed(old(self)@.upcoming),
            final(self)@ == old(self)@.opened(exchange.pending@),
    {
        let fresh = matches!(exchange.pending, DdsPending::Address(_));
        let addressed = exchange.address(&mut self.ids);
        if let DdsPending::Publish(request) = &addressed.pending {
            if fresh {
                self.waiting.insert(request.correlation_id, None);
            }
        }
        assert(final(self)@.waiting =~= old(self)@.opened(exchange.pending@).waiting);
        addressed
    }

    /// Drops the wait for the identifier `wanted`, for a call that is not
    /// carried on.
    pub fn forget(&mut self, wanted: u64)
        ensures
            final(self)@ == old(self)@.without(wanted),
    {
        self.waiting.remove(&wanted);
        assert(final(self)@.waiting =~= old(self)@.without(wanted).waiting);
    }

    /// Keeps `reply` for its call, where that waits and has none yet; gives it
    /// back otherwise.
    fn file(&mut self, reply: NodeReply) -> (r: Option<NodeReply>)
        ensures
            final(self)@ == old(self)@.filed(DdsEventView::Taken(reply@)),
            match r {
                Some(back) => back@ == reply@ && final(self)@ == old(self)@,
                None => final(self)@.keeps(reply.correlation_id),
            },
    {
        let open = match self.waiting.get(&reply.correlation_id) {
            Some(None) => true,
            _ => false,
        };
        if open {
            self.waiting.insert(reply.correlation_id, Some(reply.payload));
            assert(final(self)@.waiting =~= old(self)@.filed(
                DdsEventView::Taken(reply@),
            ).waiting);
            None
        } else {
            Some(reply)
        }
    }

    /// Gives the reply that is kept for the identifier `wanted`, and drops the
    /// wait; without such a reply, nothing happens.
    fn collect(&mut self, wanted: u64) -> (r: Option<Vec<u8>>)
        ensures
            match r {
                Some(payload) => old(self)@.keeps(wanted) && Some(payload@)
                    == old(self)@.waiting[wanted] && final(self)@ == old(self)@.without(wanted),
                None => !old(self)@.keeps(wanted) && final(self)@ == old(self)@,
            },
    {
        let kept = match self.waiting.get(&wanted) {
            Some(Some(_)) => true,
            _ => false,
        };
        if kept {
            let reply = self.waiting.remove(&wanted);
            assert(final(self)@.waiting =~= old(self)@.without(wanted).waiting);
            match reply {
                Some(payload) => payload,
                None => None,
            }
        } else {
            None
        }
    }

    /// The call `exchange` after `event`, which may concern other calls too: a
    /// reply that was taken goes to the call that waits for it.
    pub fn step(&mut self, exchange: DdsExchange, event: DdsEvent) -> (r: DdsExchange)
        ensures
            r.node_id@ == exchange.node_id@,
            r.pending@ == old(self)@.next(exchange.node_id@, exchange.pending@, event@),
            final(self)@ == old(self)@.after(exchange.node_id@, exchange.pending@, event@),
    {
        let awaited = exchange.pending.awaited();
        let left = match event {
            DdsEvent::Taken(reply) => match self.file(reply) {
                Some(reply) => Some(DdsEvent::Taken(reply)),
                None => None,
            },
            event => Some(event),
        };
        if let DdsPending::Poll(wanted) = exchange.pending {
            if let Some(payload) = self.collect(wanted) {
                return DdsExchange {
                    node_id: exchange.node_id,
                    pending: DdsPending::Decode(payload),
                };
            }
        }
        let stepped = match left {
            Some(event) => exchange.step(event),
            None => exchange,
        };
        if let Some(wanted) = awaited {
            if stepped.pending.awaited().is_none() {
                self.forget(wanted);
            }
        }
        stepped
    }
}

} // verus!
