//! The PMMC acceptor: answers phase 1a and 2a messages from its state. Every
//! change of that state comes with an event, on which the node persists the
//! state and notifies its observers.
use vstd::prelude::*;

use crate::ballot::{Ballot, NodeId};
use crate::node::pmmc::acceptor::accepted_state::{
    accepted_from,
    lemma_accepted_from_suffix,
    AcceptedData,
    AcceptorState,
};
use crate::slot_map::{lemma_listing_map, lists_in_order, listing_map, strictly_sorted};
use crate::node::pmmc::message::PmmcMessage;
use crate::node::pvalue::PValue;

pub mod accepted_state;

verus! {

/// A change of the acceptor's durable state.
#[derive(Debug)]
pub enum AcceptorEvent {
    BallotAdopted { id: NodeId, ballot: Ballot },
    ProposalAccepted { id: NodeId, pvalue: PValue },
}

/// Every accepted pvalue carries a ballot no higher than the promised one.
pub open spec fn accepted_within_promise(promised: Ballot, accepted: Map<usize, PValue>) -> bool {
    forall|slot: usize| #[trigger]
        accepted.contains_key(slot) ==> accepted[slot]@.ballot.at_most(promised)
}

/// Each slot accepted in `before` is still accepted in `after`, at a ballot
/// no lower.
pub open spec fn acceptance_kept(before: Map<usize, PValue>, after: Map<usize, PValue>) -> bool {
    forall|slot: usize| #[trigger]
        before.contains_key(slot) ==> after.contains_key(slot)
            && before[slot]@.ballot.at_most(after[slot]@.ballot)
}

/// One answer of the acceptor to `msg`, from `before` to `after` with
/// answer `r`: P1A adopts the higher of its ballot and the promised one and
/// answers with the accepted pvalues from the start index; P2A accepts a
/// pvalue of the promised ballot for a slot without a higher one, and answers
/// with the promised ballot; anything else changes nothing and gets no
/// answer. An event comes exactly with a change.
pub open spec fn acceptor_step(
    before: Acceptor,
    after: Acceptor,
    msg: PmmcMessage,
    r: (Option<PmmcMessage>, Option<AcceptorEvent>),
) -> bool {
    &&& after.id() == before.id()
    &&& match msg {
        PmmcMessage::P1A { ballot, start_index, .. } => {
            &&& after.state().promised() == Ballot::max_of(
                before.state().promised(),
                ballot,
            )
            &&& after.state().accepted_map() == before.state().accepted_map()
            &&& after.state().accepted_listing() == before.state().accepted_listing()
            &&& (r.1 is Some <==> before.state().promised().less(ballot))
            &&& r.0 matches Some(PmmcMessage::P1B { from, to, ballot: b, pvalues })
                && from == before.id() && to == ballot.node_id
                && b == after.state().promised()
                && pvalues@ == accepted_from(before.state().accepted_listing(), start_index)
        },
        PmmcMessage::P2A { pvalue, .. } => {
            &&& after.state().promised() == before.state().promised()
            &&& after.state().accepted_map() == (if before.state().accepts(
                pvalue,
            ) {
                before.state().accepted_map().insert(pvalue@.slot, pvalue)
            } else {
                before.state().accepted_map()
            })
            &&& r.0 == Some(
                PmmcMessage::P2B {
                    from: before.id(),
                    to: pvalue@.ballot.node_id,
                    ballot: before.state().promised(),
                    pvalue,
                },
            )
            &&& (r.1 is Some <==> before.state().accepts(pvalue))
        },
        _ => r.0 is None && r.1 is None && after == before,
    }
}

/// P2A accepts exactly a pvalue of the promised ballot whose slot holds
/// nothing or a pvalue of a lower ballot: such a pvalue replaces whatever the
/// slot held and is reported; a pvalue of another ballot, or one for a slot
/// already holding an equal or higher ballot, changes nothing and is not
/// reported. The answer always carries the promised ballot.
pub proof fn lemma_p2a_accepts_higher(
    a0: Acceptor,
    a1: Acceptor,
    msg: PmmcMessage,
    r: (Option<PmmcMessage>, Option<AcceptorEvent>),
)
    requires
        msg is P2A,
        acceptor_step(a0, a1, msg, r),
    ensures
        ({
            let v = msg->P2A_pvalue;
            let m = a0.state().accepted_map();
            let fresh = v@.ballot == a0.state().promised() && (!m.contains_key(v@.slot)
                || m[v@.slot]@.ballot.less(v@.ballot));
            &&& fresh ==> a1.state().accepted_map() == m.insert(v@.slot, v)
                && a1.state().accepted_map()[v@.slot] == v && r.1 is Some
            &&& !fresh ==> a1.state().accepted_map() == m && r.1 is None
            &&& a1.state().promised() == a0.state().promised()
            &&& r.0 matches Some(PmmcMessage::P2B { ballot, pvalue, .. }) && ballot
                == a0.state().promised() && pvalue == v
        }),
{
}

/// A P2A handled a second time changes nothing: the acceptor keeps the
/// state the first handling left, answers with the same P2B, and reports no
/// event.
pub proof fn lemma_duplicate_p2a_idempotent(
    a0: Acceptor,
    a1: Acceptor,
    a2: Acceptor,
    msg: PmmcMessage,
    r1: (Option<PmmcMessage>, Option<AcceptorEvent>),
    r2: (Option<PmmcMessage>, Option<AcceptorEvent>),
)
    requires
        msg is P2A,
        acceptor_step(a0, a1, msg, r1),
        acceptor_step(a1, a2, msg, r2),
    ensures
        a2.id() == a1.id(),
        a2.state().promised() == a1.state().promised(),
        a2.state().accepted_map() == a1.state().accepted_map(),
        r2.0 == r1.0,
        r2.1 is None,
{
}

/// A P1B reports exactly the accepted pvalues of the slots from the P1A's
/// start index on, one per slot, in increasing slot order: the answer is the
/// values of a suffix of the accepted listing, and that suffix lists the
/// accepted map restricted to those slots.
pub proof fn lemma_p1b_lists_accepted(
    a: Acceptor,
    a2: Acceptor,
    msg: PmmcMessage,
    r: (Option<PmmcMessage>, Option<AcceptorEvent>),
)
    requires
        msg is P1A,
        a.state().linked(),
        acceptor_step(a, a2, msg, r),
    ensures
        ({
            let start = msg->P1A_start_index;
            let l = a.state().accepted_listing();
            let m = a.state().accepted_map();
            &&& r.0 matches Some(PmmcMessage::P1B { pvalues, .. })
            &&& exists|p: int|
                #![trigger l.skip(p)]
                0 <= p <= l.len() && pvalues@ == l.skip(p).map_values(
                    |e: (usize, PValue)| e.1,
                ) && lists_in_order(
                    l.skip(p),
                    m.restrict(Set::new(|k: usize| k >= start)),
                )
            &&& forall|k: usize|
                m.contains_key(k) && k >= start ==> #[trigger] pvalues@.contains(m[k])
        }),
{
    let start = msg->P1A_start_index;
    let l = a.state().accepted_listing();
    let m = a.state().accepted_map();
    let p = lemma_accepted_from_suffix(l, start);
    let t = l.skip(p);
    let pvalues = r.0->Some_0->P1B_pvalues;
    assert(strictly_sorted(t));
    lemma_listing_map(l);
    lemma_listing_map(t);
    let rm = m.restrict(Set::new(|k: usize| k >= start));
    assert(listing_map(t) =~= rm) by {
        assert forall|k: usize| #[trigger] listing_map(t).contains_key(k) <==> rm.contains_key(k) by {
            if listing_map(t).contains_key(k) {
                let j = choose|j: int| 0 <= j < t.len() && t[j].0 == k;
                assert(t[j] == l[p + j]);
            }
            if rm.contains_key(k) {
                let i = choose|i: int| 0 <= i < l.len() && l[i].0 == k;
                assert(i >= p);
                assert(t[i - p] == l[i]);
            }
        }
        assert forall|k: usize| #[trigger] listing_map(t).contains_key(k) implies listing_map(t)[k]
            == rm[k] by {
            let j = choose|j: int| 0 <= j < t.len() && t[j].0 == k;
            assert(t[j] == l[p + j]);
        }
    }
    assert(pvalues@ == t.map_values(|e: (usize, PValue)| e.1));
    assert forall|k: usize| m.contains_key(k) && k >= start implies #[trigger] pvalues@.contains(m[k]) by {
        let i = choose|i: int| 0 <= i < l.len() && l[i].0 == k;
        assert(i >= p);
        assert(t[i - p] == l[i]);
        assert(pvalues@[i - p] == m[k]);
    }
}

/// What a P2A has written a later P1A reads back: once the acceptor has
/// accepted a pvalue, a P1A whose start index is at most its slot is
/// answered with a P1B that carries it.
pub proof fn lemma_p1a_reads_p2a(
    a0: Acceptor,
    a1: Acceptor,
    a2: Acceptor,
    p2a: PmmcMessage,
    p1a: PmmcMessage,
    r1: (Option<PmmcMessage>, Option<AcceptorEvent>),
    r2: (Option<PmmcMessage>, Option<AcceptorEvent>),
)
    requires
        p2a is P2A,
        p1a matches PmmcMessage::P1A { start_index, .. } && start_index <= p2a->P2A_pvalue@.slot,
        acceptor_step(a0, a1, p2a, r1),
        r1.1 is Some,
        a1.state().linked(),
        acceptor_step(a1, a2, p1a, r2),
    ensures
        r2.0 matches Some(PmmcMessage::P1B { pvalues, .. }) && pvalues@.contains(p2a->P2A_pvalue),
{
    lemma_p1b_lists_accepted(a1, a2, p1a, r2);
    let v = p2a->P2A_pvalue;
    let m = a1.state().accepted_map();
    assert(m.contains_key(v@.slot) && m[v@.slot] == v);
    let pv = r2.0->Some_0->P1B_pvalues;
    assert(pv@.contains(m[v@.slot]));
}

pub struct Acceptor {
    uuid: NodeId,
    state: AcceptorState,
}

impl Acceptor {
    pub closed spec fn id(&self) -> NodeId {
        self.uuid
    }

    pub closed spec fn state(&self) -> &AcceptorState {
        &self.state
    }

    /// An acceptor with the given identity, resuming from `data`.
    pub fn new(uuid: NodeId, data: AcceptedData) -> (a: Acceptor)
        ensures
            a.id() == uuid,
            a.state().promised() == data.promised(),
            a.state().accepted_map() == data.accepted_map(),
            a.state().accepted_listing() == data.accepted_listing(),
            a.state().linked(),
    {
        Acceptor { uuid, state: AcceptorState::init(data) }
    }

    fn p1a(&mut self, ballot: Ballot, start_index: usize) -> (r: (PmmcMessage, Option<AcceptorEvent>))
        ensures
            final(self).id() == old(self).id(),
            final(self).state().promised() == Ballot::max_of(old(self).state().promised(), ballot),
            final(self).state().accepted_map() == old(self).state().accepted_map(),
            final(self).state().accepted_listing() == old(self).state().accepted_listing(),
            r.0 matches PmmcMessage::P1B { from, to, ballot: b, pvalues } && from == old(self).id()
                && to == ballot.node_id && b == final(self).state().promised() && pvalues@
                == accepted_from(old(self).state().accepted_listing(), start_index),
            old(self).state().promised().less(ballot) ==> r.1 == Some(
                AcceptorEvent::BallotAdopted { id: old(self).id(), ballot },
            ),
            !old(self).state().promised().less(ballot) ==> r.1 is None,
    {
        let (pvalues, a_ballot, updated) = self.state.p1a(ballot, start_index);
        let event = if updated {
            Some(AcceptorEvent::BallotAdopted { id: self.uuid, ballot: a_ballot })
        } else {
            None
        };
        (PmmcMessage::P1B { from: self.uuid, to: ballot.node_id, ballot: a_ballot, pvalues }, event)
    }

    fn p2a(&mut self, pvalue: PValue) -> (r: (PmmcMessage, Option<AcceptorEvent>))
        ensures
            final(self).id() == old(self).id(),
            final(self).state().promised() == old(self).state().promised(),
            final(self).state().accepted_map() == (if old(self).state().accepts(pvalue) {
                old(self).state().accepted_map().insert(pvalue@.slot, pvalue)
            } else {
                old(self).state().accepted_map()
            }),
            old(self).state().accepts(pvalue) ==> r.1 == Some(
                AcceptorEvent::ProposalAccepted { id: old(self).id(), pvalue },
            ),
            !old(self).state().accepts(pvalue) ==> r.1 is None,
            r.0 == (PmmcMessage::P2B {
                from: old(self).id(),
                to: pvalue@.ballot.node_id,
                ballot: old(self).state().promised(),
                pvalue,
            }),
    {
        let copy = pvalue.clone();
        let accepted = self.state.p2a(copy);
        let event = if accepted {
            Some(AcceptorEvent::ProposalAccepted { id: self.uuid, pvalue: pvalue.clone() })
        } else {
            None
        };
        let to = pvalue.ballot().node_id;
        (
            PmmcMessage::P2B { from: self.uuid, to, ballot: self.state.ballot_num(), pvalue },
            event,
        )
    }

    /// The durable record, for the node to persist.
    pub fn node_id(&self) -> (r: NodeId)
        ensures
            r == self.id(),
    {
        self.uuid
    }

    pub fn save(&self) -> (d: AcceptedData)
        ensures
            d.promised() == self.state().promised(),
            d.accepted_map() == self.state().accepted_map(),
            d.accepted_listing() == self.state().accepted_listing(),
            d.linked(),
    {
        self.state.dump()
    }

    /// Answers P1A with P1B and P2A with P2B; other messages are not for the
    /// acceptor and get no answer.
    pub fn handle_message(&mut self, msg: PmmcMessage) -> (r: (
        Option<PmmcMessage>,
        Option<AcceptorEvent>,
    ))
        ensures
            final(self).id() == old(self).id(),
            old(self).state().promised().at_most(final(self).state().promised()),
            acceptance_kept(old(self).state().accepted_map(), final(self).state().accepted_map()),
            accepted_within_promise(old(self).state().promised(), old(self).state().accepted_map())
                ==> accepted_within_promise(
                final(self).state().promised(),
                final(self).state().accepted_map(),
            ),
            acceptor_step(*old(self), *final(self), msg, r),
            old(self).state().linked(),
            final(self).state().linked(),
    {
        self.state.lemma_linked();
        let r = match msg {
            PmmcMessage::P1A { ballot, start_index, .. } => {
                let (reply, event) = self.p1a(ballot, start_index);
                (Some(reply), event)
            },
            PmmcMessage::P2A { pvalue, .. } => {
                let (reply, event) = self.p2a(pvalue);
                (Some(reply), event)
            },
            _ => (None, None),
        };
        self.state.lemma_linked();
        r
    }
}

} // verus!
