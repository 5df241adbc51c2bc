//! The scout runs phase 1 for one ballot: it collects P1B answers until a
//! quorum of distinct acceptors has adopted its ballot, keeping per slot the
//! pvalue of the highest ballot (pmax), or it is preempted by a higher ballot.
use vstd::prelude::*;

use crate::ballot::{Ballot, NodeId};
use crate::node::pmmc::message::PmmcMessage;
use crate::node::pvalue::PValue;
use crate::node_set::NodeSet;
use crate::slot_map::{lemma_listing_map, lists_in_order, SlotMap};

verus! {

/// `m` with `p` recorded, unless its slot already holds an equal or higher
/// ballot.
pub open spec fn pmax_one(m: Map<usize, PValue>, p: PValue) -> Map<usize, PValue> {
    if !m.contains_key(p@.slot) || m[p@.slot]@.ballot.less(p@.ballot) {
        m.insert(p@.slot, p)
    } else {
        m
    }
}

/// `m` with every pvalue of `s` recorded, in order.
pub open spec fn pmax_all(m: Map<usize, PValue>, s: Seq<PValue>) -> Map<usize, PValue>
    decreases s.len(),
{
    if s.len() == 0 {
        m
    } else {
        pmax_one(pmax_all(m, s.drop_last()), s.last())
    }
}

/// The values of a slot listing, in its order.
pub open spec fn listing_values(s: Seq<(usize, PValue)>) -> Seq<PValue> {
    s.map_values(|e: (usize, PValue)| e.1)
}

/// After pmax, every slot seen holds a pvalue of a ballot at least as high as
/// any seen for it, and every held pvalue was held before or seen.
pub proof fn lemma_pmax_keeps_highest(m: Map<usize, PValue>, s: Seq<PValue>)
    ensures
        forall|i: int|
            0 <= i < s.len() ==> pmax_all(m, s).contains_key(#[trigger] s[i]@.slot) && !pmax_all(
                m,
                s,
            )[s[i]@.slot]@.ballot.less(s[i]@.ballot),
        forall|k: usize|
            m.contains_key(k) ==> #[trigger] pmax_all(m, s).contains_key(k) && !pmax_all(
                m,
                s,
            )[k]@.ballot.less(m[k]@.ballot),
        forall|k: usize|
            #[trigger] pmax_all(m, s).contains_key(k) ==> (m.contains_key(k) && pmax_all(m, s)[k]
                == m[k]) || s.contains(pmax_all(m, s)[k]),
    decreases s.len(),
{
    if s.len() > 0 {
        let prev = s.drop_last();
        lemma_pmax_keeps_highest(m, prev);
        let pm = pmax_all(m, prev);
        let p = s.last();
        assert forall|i: int| 0 <= i < s.len() implies pmax_all(m, s).contains_key(
            #[trigger] s[i]@.slot,
        ) && !pmax_all(m, s)[s[i]@.slot]@.ballot.less(s[i]@.ballot) by {
            if i < s.len() - 1 {
                assert(prev[i] == s[i]);
            }
        }
        assert forall|k: usize| #[trigger] pmax_all(m, s).contains_key(k) implies (m.contains_key(k)
            && pmax_all(m, s)[k] == m[k]) || s.contains(pmax_all(m, s)[k]) by {
            if k == p@.slot && (!pm.contains_key(k) || pm[k]@.ballot.less(p@.ballot)) {
                assert(s[s.len() - 1] == p);
            } else if !(m.contains_key(k) && pm[k] == m[k]) {
                let j = choose|j: int| 0 <= j < prev.len() && prev[j] == pm[k];
                assert(s[j] == prev[j]);
            }
        }
    }
}

/// One answer of the scout to `msg`, from `before` to `after` with answer
/// `r`: a P1B of a higher ballot preempts it and changes nothing; one of its
/// own ballot counts the acceptor, merges its pvalues (pmax) and answers
/// ADOPTED once a quorum of distinct acceptors has adopted; anything else is
/// ignored.
pub open spec fn scout_step(before: Scout, after: Scout, msg: PmmcMessage, r: Option<PmmcMessage>) -> bool {
    match msg {
        PmmcMessage::P1B { from, ballot, pvalues, .. } => if before.ballot().less(ballot) {
            &&& r == Some(PmmcMessage::PREEMPT { from: before.id(), to: before.id(), ballot })
            &&& after == before
        } else if ballot == before.ballot() {
            &&& after.id() == before.id()
            &&& after.quorum() == before.quorum()
            &&& after.ballot() == before.ballot()
            &&& after.adopted() == before.adopted().insert(from)
            &&& after.pmax_map() == pmax_all(before.pmax_map(), pvalues@)
            &&& after.adopted().len() >= before.quorum() ==> (r matches Some(
                PmmcMessage::ADOPTED { from: f, to, ballot: b, pvalues: v },
            ) && f == before.id() && to == before.id() && b == before.ballot() && v@
                == listing_values(after.pmax_listing()))
            &&& after.adopted().len() < before.quorum() ==> r is None
        } else {
            r is None && after == before
        },
        _ => r is None && after == before,
    }
}

/// An ADOPTED carries, for each slot reported by the acceptors that adopted
/// the ballot, exactly one pvalue, the one of the highest ballot reported for
/// that slot, in increasing slot order.
pub proof fn lemma_adopted_carries_pmax(before: Scout, after: Scout, msg: PmmcMessage, r: Option<PmmcMessage>)
    requires
        scout_step(before, after, msg, r),
        after.linked(),
        r matches Some(PmmcMessage::ADOPTED { .. }),
    ensures
        ({
            let v = r->Some_0->ADOPTED_pvalues@;
            let l = after.pmax_listing();
            &&& msg is P1B
            &&& after.pmax_map() == pmax_all(before.pmax_map(), msg->P1B_pvalues@)
            &&& v.len() == l.len()
            &&& forall|i: int| 0 <= i < v.len() ==> #[trigger] v[i] == after.pmax_map()[l[i].0]
            &&& forall|i: int, j: int| 0 <= i < j < v.len() ==> #[trigger] l[i].0 < #[trigger] l[j].0
            &&& forall|k: usize| #[trigger]
                after.pmax_map().contains_key(k) ==> exists|i: int| 0 <= i < l.len() && l[i].0 == k
        }),
{
    lemma_listing_map(after.pmax_listing());
}

pub struct Scout {
    uuid: NodeId,
    quorum: usize,
    ballot: Ballot,
    adopted: NodeSet,
    pvalues: SlotMap<PValue>,
}

impl Scout {
    pub closed spec fn id(&self) -> NodeId {
        self.uuid
    }

    pub closed spec fn quorum(&self) -> usize {
        self.quorum
    }

    pub closed spec fn ballot(&self) -> Ballot {
        self.ballot
    }

    /// The acceptors that have adopted the scout's ballot.
    pub closed spec fn adopted(&self) -> Set<NodeId> {
        self.adopted@
    }

    /// Slot -> highest-ballot pvalue reported so far.
    pub closed spec fn pmax_map(&self) -> Map<usize, PValue> {
        self.pvalues@
    }

    /// The reported pvalues in slot order.
    pub closed spec fn pmax_listing(&self) -> Seq<(usize, PValue)> {
        self.pvalues.listing()
    }

    /// The listing holds the highest-ballot pvalue of each reported slot, one
    /// per slot, in slot order.
    pub open spec fn linked(&self) -> bool {
        lists_in_order(self.pmax_listing(), self.pmax_map())
    }

    pub fn new(uuid: NodeId, quorum: usize, ballot: Ballot) -> (s: Scout)
        ensures
            s.id() == uuid,
            s.quorum() == quorum,
            s.ballot() == ballot,
            s.adopted() == Set::<NodeId>::empty(),
            s.pmax_map() == Map::<usize, PValue>::empty(),
            s.pmax_listing() == Seq::<(usize, PValue)>::empty(),
            s.linked(),
    {
        let pvalues = SlotMap::new();
        pvalues.lemma_listing();
        Scout { uuid, quorum, ballot, adopted: NodeSet::new(), pvalues }
    }

    /// The highest-ballot pvalue of each reported slot, in slot order.
    pub fn pvalues(&self) -> (v: Vec<PValue>)
        ensures
            v@ == listing_values(self.pmax_listing()),
            self.linked(),
    {
        self.pvalues.lemma_listing();
        let mut out: Vec<PValue> = Vec::new();
        let mut i: usize = 0;
        while i < self.pvalues.len()
            invariant
                i <= self.pvalues.listing().len(),
                out@ == listing_values(self.pvalues.listing().take(i as int)),
            decreases self.pvalues.listing().len() - i,
        {
            let entry = self.pvalues.entry_at(i);
            out.push(entry.1.clone());
            proof {
                assert(listing_values(self.pvalues.listing().take(i + 1)) =~= listing_values(
                    self.pvalues.listing().take(i as int),
                ).push(self.pvalues.listing()[i as int].1));
            }
            i = i + 1;
        }
        assert(self.pvalues.listing().take(i as int) =~= self.pvalues.listing());
        out
    }

    fn pmax(&mut self, pvalues: Vec<PValue>)
        ensures
            final(self).pmax_map() == pmax_all(old(self).pmax_map(), pvalues@),
            final(self).id() == old(self).id(),
            final(self).quorum() == old(self).quorum(),
            final(self).ballot() == old(self).ballot(),
            final(self).adopted() == old(self).adopted(),
    {
        let mut i: usize = 0;
        while i < pvalues.len()
            invariant
                i <= pvalues@.len(),
                self.pmax_map() == pmax_all(old(self).pmax_map(), pvalues@.take(i as int)),
                self.id() == old(self).id(),
                self.quorum() == old(self).quorum(),
                self.ballot() == old(self).ballot(),
                self.adopted() == old(self).adopted(),
            decreases pvalues@.len() - i,
        {
            let p = &pvalues[i];
            let slot = p.slot();
            let replace = match self.pvalues.get(slot) {
                None => true,
                Some(existing) => existing.ballot().precedes(&p.ballot()),
            };
            if replace {
                self.pvalues.insert(slot, p.clone());
            }
            proof {
                assert(pvalues@.take(i + 1).drop_last() =~= pvalues@.take(i as int));
            }
            i = i + 1;
        }
        assert(pvalues@.take(i as int) =~= pvalues@);
    }

    fn is_adopted(&self) -> (r: Option<PmmcMessage>)
        ensures
            self.adopted().len() >= self.quorum() ==> (r matches Some(
                PmmcMessage::ADOPTED { from, to, ballot, pvalues },
            ) && from == self.id() && to == self.id() && ballot == self.ballot() && pvalues@
                == listing_values(self.pmax_listing())),
            self.adopted().len() < self.quorum() ==> r is None,
    {
        if self.adopted.len() >= self.quorum {
            let v = self.pvalues();
            Some(PmmcMessage::ADOPTED { from: self.uuid, to: self.uuid, ballot: self.ballot, pvalues: v })
        } else {
            None
        }
    }

    /// Answers a P1B: a higher ballot preempts the scout; its own ballot counts
    /// the acceptor and merges its pvalues; a lower ballot is ignored.
    pub fn handle_message(&mut self, msg: PmmcMessage) -> (r: Option<PmmcMessage>)
        ensures
            final(self).id() == old(self).id(),
            final(self).quorum() == old(self).quorum(),
            final(self).ballot() == old(self).ballot(),
            old(self).adopted().subset_of(final(self).adopted()),
            forall|k: usize| #[trigger]
                old(self).pmax_map().contains_key(k) ==> final(self).pmax_map().contains_key(k)
                    && !final(self).pmax_map()[k]@.ballot.less(old(self).pmax_map()[k]@.ballot),
            r matches Some(PmmcMessage::ADOPTED { .. }) ==> final(self).adopted().len()
                >= final(self).quorum(),
            scout_step(*old(self), *final(self), msg, r),
            old(self).linked(),
            final(self).linked(),
    {
        self.pvalues.lemma_listing();
        match msg {
            PmmcMessage::P1B { from, ballot, pvalues, .. } => {
                if self.ballot.precedes(&ballot) {
                    return Some(PmmcMessage::PREEMPT { from: self.uuid, to: self.uuid, ballot });
                }
                if ballot.same(&self.ballot) {
                    proof {
                        lemma_pmax_keeps_highest(self.pmax_map(), pvalues@);
                    }
                    self.pmax(pvalues);
                    self.adopted.insert(from);
                    self.pvalues.lemma_listing();
                    return self.is_adopted();
                }
                None
            },
            _ => None,
        }
    }
}

} // verus!
