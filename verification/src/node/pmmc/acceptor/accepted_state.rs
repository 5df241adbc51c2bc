//! The acceptor's durable record: the highest ballot it has adopted and, per
//! slot, the pvalue it has accepted.
use vstd::prelude::*;

use crate::ballot::Ballot;
use crate::node::pvalue::{lemma_pvalue_cloned, PValue};
use crate::slot_map::{lemma_listing_map, lists_in_order, listing_map, strictly_sorted, SlotMap};

verus! {

/// The accepted pvalues of a listing whose slot is at least `start`, in
/// listing order.
pub open spec fn accepted_from(s: Seq<(usize, PValue)>, start: usize) -> Seq<PValue>
    decreases s.len(),
{
    if s.len() == 0 {
        Seq::empty()
    } else {
        let rest = accepted_from(s.drop_last(), start);
        if s.last().0 >= start {
            rest.push(s.last().1)
        } else {
            rest
        }
    }
}

/// In a listing sorted by slot, the entries from slot `start` on form a
/// suffix, and `accepted_from` gives the pvalues of that suffix in order.
pub proof fn lemma_accepted_from_suffix(s: Seq<(usize, PValue)>, start: usize) -> (p: int)
    requires
        strictly_sorted(s),
    ensures
        0 <= p <= s.len(),
        forall|i: int| 0 <= i < p ==> #[trigger] s[i].0 < start,
        forall|i: int| p <= i < s.len() ==> #[trigger] s[i].0 >= start,
        accepted_from(s, start) == s.skip(p).map_values(|e: (usize, PValue)| e.1),
    decreases s.len(),
{
    if s.len() == 0 {
        assert(s.skip(0).map_values(|e: (usize, PValue)| e.1) =~= Seq::<PValue>::empty());
        0
    } else {
        let d = s.drop_last();
        let n = s.len() - 1;
        assert(strictly_sorted(d));
        let q = lemma_accepted_from_suffix(d, start);
        if s[n].0 >= start {
            assert(forall|i: int| 0 <= i < q ==> #[trigger] s[i].0 == d[i].0);
            assert(forall|i: int| q <= i < n ==> #[trigger] s[i].0 == d[i].0);
            assert(s.skip(q).map_values(|e: (usize, PValue)| e.1) =~= d.skip(q).map_values(
                |e: (usize, PValue)| e.1,
            ).push(s[n].1));
            q
        } else {
            if q < n {
                assert(d[q].0 >= start);
                assert(s[q].0 < s[n].0);
            }
            assert forall|i: int| 0 <= i < s.len() implies #[trigger] s[i].0 < start by {
                if i < n {
                    assert(s[i].0 < s[n].0);
                }
            }
            assert(d.skip(q).map_values(|e: (usize, PValue)| e.1) =~= Seq::<PValue>::empty());
            assert(s.skip(s.len() as int).map_values(|e: (usize, PValue)| e.1) =~= Seq::<PValue>::empty());
            s.len() as int
        }
    }
}

pub struct AcceptedData {
    ballot_num: Ballot,
    accepted: SlotMap<PValue>,
}

impl AcceptedData {
    pub closed spec fn promised(&self) -> Ballot {
        self.ballot_num
    }

    /// Slot -> accepted pvalue.
    pub closed spec fn accepted_map(&self) -> Map<usize, PValue> {
        self.accepted@
    }

    /// The accepted pvalues in slot order.
    pub closed spec fn accepted_listing(&self) -> Seq<(usize, PValue)> {
        self.accepted.listing()
    }

    /// The listing holds the accepted map's pvalues, one per slot, in slot
    /// order.
    pub open spec fn linked(&self) -> bool {
        lists_in_order(self.accepted_listing(), self.accepted_map())
    }

    pub fn new(ballot_num: Ballot, accepted: SlotMap<PValue>) -> (d: AcceptedData)
        ensures
            d.promised() == ballot_num,
            d.accepted_map() == accepted@,
            d.accepted_listing() == accepted.listing(),
            d.linked(),
    {
        accepted.lemma_listing();
        AcceptedData { ballot_num, accepted }
    }

    pub fn ballot_num(&self) -> (b: Ballot)
        ensures
            b == self.promised(),
    {
        self.ballot_num
    }

    pub fn accepted(&self) -> (m: &SlotMap<PValue>)
        ensures
            m@ == self.accepted_map(),
            m.listing() == self.accepted_listing(),
    {
        &self.accepted
    }

    fn copy(&self) -> (r: AcceptedData)
        ensures
            r.promised() == self.promised(),
            r.accepted_listing() == self.accepted_listing(),
            r.accepted_map() == self.accepted_map(),
            r.linked(),
    {
        let accepted = self.accepted.duplicate();
        self.accepted.lemma_listing();
        accepted.lemma_listing();
        proof {
            assert forall|i: int| 0 <= i < self.accepted.listing().len() implies accepted.listing()[i]
                == self.accepted.listing()[i] by {
                lemma_pvalue_cloned(self.accepted.listing()[i].1, accepted.listing()[i].1);
            }
            assert(accepted.listing() =~= self.accepted.listing());
        }
        AcceptedData { ballot_num: self.ballot_num, accepted }
    }
}

impl Default for AcceptedData {
    fn default() -> (d: AcceptedData)
        ensures
            d.promised() == Ballot::zero(),
            d.accepted_map() == Map::<usize, PValue>::empty(),
            d.accepted_listing() == Seq::<(usize, PValue)>::empty(),
            d.linked(),
    {
        let accepted = SlotMap::new();
        accepted.lemma_listing();
        AcceptedData { ballot_num: Ballot::default(), accepted }
    }
}

/// The acceptor's live state.
pub struct AcceptorState {
    data: AcceptedData,
}

impl AcceptorState {
    pub closed spec fn promised(&self) -> Ballot {
        self.data.promised()
    }

    pub closed spec fn accepted_map(&self) -> Map<usize, PValue> {
        self.data.accepted_map()
    }

    pub closed spec fn accepted_listing(&self) -> Seq<(usize, PValue)> {
        self.data.accepted_listing()
    }

    /// The listing holds the accepted map's pvalues, one per slot, in slot
    /// order.
    pub open spec fn linked(&self) -> bool {
        lists_in_order(self.accepted_listing(), self.accepted_map())
    }

    /// Whether phase 2a accepts `value`: it carries the promised ballot and its
    /// slot holds nothing or a pvalue of a lower ballot.
    pub open spec fn accepts(&self, value: PValue) -> bool {
        value@.ballot == self.promised() && (!self.accepted_map().contains_key(value@.slot)
            || self.accepted_map()[value@.slot]@.ballot.less(value@.ballot))
    }

    pub fn init(data: AcceptedData) -> (s: AcceptorState)
        ensures
            s.promised() == data.promised(),
            s.accepted_map() == data.accepted_map(),
            s.accepted_listing() == data.accepted_listing(),
            s.linked(),
    {
        data.accepted.lemma_listing();
        AcceptorState { data }
    }

    /// Raises the promised ballot to `ballot` if it is higher.
    pub fn update_ballot(&mut self, ballot: Ballot)
        ensures
            final(self).promised() == Ballot::max_of(old(self).promised(), ballot),
            final(self).accepted_map() == old(self).accepted_map(),
            final(self).accepted_listing() == old(self).accepted_listing(),
            final(self).linked(),
    {
        if self.data.ballot_num.precedes(&ballot) {
            self.data.ballot_num = ballot;
        }
        self.data.accepted.lemma_listing();
    }

    /// Phase 1a: adopt `ballot` if it is strictly higher than the promised
    /// one, and report the promised ballot with the accepted pvalues of slots
    /// from `start_index` on. The flag tells whether the ballot was adopted.
    pub fn p1a(&mut self, ballot: Ballot, start_index: usize) -> (r: (Vec<PValue>, Ballot, bool))
        ensures
            r.2 == old(self).promised().less(ballot),
            final(self).promised() == Ballot::max_of(old(self).promised(), ballot),
            r.1 == final(self).promised(),
            final(self).accepted_map() == old(self).accepted_map(),
            final(self).accepted_listing() == old(self).accepted_listing(),
            r.0@ == accepted_from(old(self).accepted_listing(), start_index),
            old(self).linked(),
            final(self).linked(),
    {
        self.data.accepted.lemma_listing();
        let mut updated: bool = false;
        if self.data.ballot_num.precedes(&ballot) {
            self.data.ballot_num = ballot;
            updated = true;
        }
        let accepted = &self.data.accepted;
        let mut out: Vec<PValue> = Vec::new();
        let mut i: usize = 0;
        while i < accepted.len()
            invariant
                i <= accepted.listing().len(),
                out@ == accepted_from(accepted.listing().take(i as int), start_index),
            decreases accepted.listing().len() - i,
        {
            let entry = accepted.entry_at(i);
            proof {
                assert(accepted.listing().take(i + 1).drop_last() =~= accepted.listing().take(
                    i as int,
                ));
            }
            if entry.0 >= start_index {
                out.push(entry.1.clone());
            }
            i = i + 1;
        }
        proof {
            assert(accepted.listing().take(i as int) =~= accepted.listing());
        }
        (out, self.data.ballot_num, updated)
    }

    /// Phase 2a: accept `value` only under the promised ballot, and only if
    /// the slot holds nothing or a pvalue of a lower ballot.
    pub fn p2a(&mut self, value: PValue) -> (accepted: bool)
        ensures
            accepted == old(self).accepts(value),
            final(self).promised() == old(self).promised(),
            final(self).accepted_map() == (if accepted {
                old(self).accepted_map().insert(value@.slot, value)
            } else {
                old(self).accepted_map()
            }),
            old(self).linked(),
            final(self).linked(),
    {
        self.data.accepted.lemma_listing();
        let slot = value.slot();
        let ballot = value.ballot();
        if !self.data.ballot_num.same(&ballot) {
            return false;
        }
        let replace = match self.data.accepted.get(slot) {
            None => true,
            Some(existing) => existing.ballot().precedes(&ballot),
        };
        if replace {
            self.data.accepted.insert(slot, value);
        }
        self.data.accepted.lemma_listing();
        replace
    }

    pub fn get(&self, slot: usize) -> (r: Option<PValue>)
        ensures
            match r {
                Some(p) => self.accepted_map().contains_key(slot) && p == self.accepted_map()[slot],
                None => !self.accepted_map().contains_key(slot),
            },
    {
        match self.data.accepted.get(slot) {
            Some(p) => Some(p.clone()),
            None => None,
        }
    }

    /// Records `value` at `slot` unless the slot already holds a pvalue of an
    /// equal or higher ballot.
    pub fn accept(&mut self, slot: usize, value: PValue)
        ensures
            final(self).promised() == old(self).promised(),
            final(self).accepted_map() == (if !old(self).accepted_map().contains_key(slot)
                || old(self).accepted_map()[slot]@.ballot.less(value@.ballot) {
                old(self).accepted_map().insert(slot, value)
            } else {
                old(self).accepted_map()
            }),
            final(self).linked(),
    {
        let replace = match self.data.accepted.get(slot) {
            None => true,
            Some(existing) => existing.ballot().precedes(&value.ballot()),
        };
        if replace {
            self.data.accepted.insert(slot, value);
        }
        self.data.accepted.lemma_listing();
    }

    /// The listing holds the accepted map's pvalues in slot order.
    pub fn lemma_linked(&self)
        ensures
            self.linked(),
    {
        self.data.accepted.lemma_listing();
    }

    /// The promised ballot.
    pub fn promised_ballot(&self) -> (b: Ballot)
        ensures
            b == self.promised(),
    {
        self.data.ballot_num()
    }

    pub fn ballot_num(&self) -> (b: Ballot)
        ensures
            b == self.promised(),
    {
        self.data.ballot_num
    }

    /// Forgets the pvalues of the given slots.
    pub fn compact(&mut self, slots: &[usize])
        ensures
            final(self).promised() == old(self).promised(),
            final(self).accepted_map() == old(self).accepted_map().remove_keys(slots@.to_set()),
            final(self).linked(),
    {
        let mut i: usize = 0;
        while i < slots.len()
            invariant
                i <= slots@.len(),
                self.promised() == old(self).promised(),
                self.accepted_map() == old(self).accepted_map().remove_keys(
                    slots@.take(i as int).to_set(),
                ),
            decreases slots@.len() - i,
        {
            self.data.accepted.remove(slots[i]);
            proof {
                broadcast use vstd::seq_lib::group_seq_properties;

                assert(slots@.take(i + 1) =~= slots@.take(i as int).push(slots@[i as int]));
                assert(slots@.take(i + 1).to_set() =~= slots@.take(i as int).to_set().insert(
                    slots@[i as int],
                ));
                assert(old(self).accepted_map().remove_keys(slots@.take(i + 1).to_set())
                    =~= old(self).accepted_map().remove_keys(slots@.take(i as int).to_set()).remove(
                    slots@[i as int],
                ));
            }
            i = i + 1;
        }
        proof {
            assert(slots@.take(i as int) =~= slots@);
        }
        self.data.accepted.lemma_listing();
    }

    /// A copy of the durable record.
    pub fn dump(&self) -> (d: AcceptedData)
        ensures
            d.promised() == self.promised(),
            d.accepted_map() == self.accepted_map(),
            d.accepted_listing() == self.accepted_listing(),
            d.linked(),
    {
        self.data.copy()
    }
}

} // verus!
