//! What a leader persists: whether it is active, the command it proposes for
//! each slot, and its ballot counter.
use vstd::prelude::*;

use crate::ballot::{Ballot, NodeId};
use crate::node::pvalue::PValue;
use crate::paxos_command::PaxosCommand;
use crate::slot_map::SlotMap;

verus! {

/// `m` with each pvalue of `s`, in order, setting its slot to its command.
pub open spec fn project_pvalues(m: Map<usize, PaxosCommand>, s: Seq<PValue>) -> Map<
    usize,
    PaxosCommand,
>
    decreases s.len(),
{
    if s.len() == 0 {
        m
    } else {
        project_pvalues(m, s.drop_last()).insert(s.last()@.slot, s.last().command())
    }
}

pub struct LeaderDurable {
    active: bool,
    proposals: SlotMap<PaxosCommand>,
    ballot_counter: usize,
}

impl LeaderDurable {
    pub closed spec fn active(&self) -> bool {
        self.active
    }

    /// Slot -> command proposed by this leader.
    pub closed spec fn proposal_map(&self) -> Map<usize, PaxosCommand> {
        self.proposals@
    }

    /// The proposals in slot order.
    pub closed spec fn proposal_listing(&self) -> Seq<(usize, PaxosCommand)> {
        self.proposals.listing()
    }

    pub closed spec fn counter(&self) -> usize {
        self.ballot_counter
    }

    /// The leader's current ballot.
    pub open spec fn ballot_of(&self, id: NodeId, epoch: usize) -> Ballot {
        Ballot { epoch, number: self.counter(), node_id: id }
    }

    pub fn from_parts(active: bool, ballot_counter: usize, proposals: SlotMap<PaxosCommand>) -> (d:
        LeaderDurable)
        ensures
            d.active() == active,
            d.counter() == ballot_counter,
            d.proposal_map() == proposals@,
    {
        LeaderDurable { active, proposals, ballot_counter }
    }

    pub fn is_active(&self) -> (b: bool)
        ensures
            b == self.active(),
    {
        self.active
    }

    /// Becomes active, taking over the adopted pvalues.
    pub fn set_as_active(&mut self, pvalues: Vec<PValue>)
        ensures
            final(self).active(),
            final(self).counter() == old(self).counter(),
            final(self).proposal_map() == project_pvalues(old(self).proposal_map(), pvalues@),
    {
        self.active = true;
        self.pmax(pvalues);
    }

    pub fn set_as_passive(&mut self)
        ensures
            !final(self).active(),
            final(self).counter() == old(self).counter(),
            final(self).proposal_map() == old(self).proposal_map(),
    {
        self.active = false;
    }

    pub fn ballot(&self, id: NodeId, epoch: usize) -> (b: Ballot)
        ensures
            b == self.ballot_of(id, epoch),
    {
        Ballot::with_epoch(self.ballot_counter, id, epoch)
    }

    /// Moves to the next ballot above both the current one and `ballot`'s
    /// number, and returns it.
    pub fn bump_ballot(&mut self, id: NodeId, epoch: usize, ballot: Ballot) -> (next: Ballot)
        requires
            old(self).counter() < usize::MAX,
            ballot.number < usize::MAX,
        ensures
            next == final(self).ballot_of(id, epoch),
            final(self).counter() == (if old(self).counter() < ballot.number {
                ballot.number
            } else {
                old(self).counter()
            }) + 1,
            old(self).ballot_of(id, epoch).less(next),
            ballot.epoch <= epoch ==> ballot.less(next),
            final(self).active() == old(self).active(),
            final(self).proposal_map() == old(self).proposal_map(),
    {
        let current = self.ballot(id, epoch);
        let next = current.bump(ballot);
        self.ballot_counter = next.number;
        next
    }

    /// Whether `ballot` is below the leader's current ballot.
    pub fn is_stale_ballot(&self, id: NodeId, epoch: usize, ballot: Ballot) -> (b: bool)
        ensures
            b == ballot.less(self.ballot_of(id, epoch)),
    {
        ballot.precedes(&self.ballot(id, epoch))
    }

    /// Takes each adopted pvalue's command for its slot; the scout has already
    /// kept the highest ballot per slot.
    pub fn pmax(&mut self, pvalues: Vec<PValue>)
        ensures
            final(self).proposal_map() == project_pvalues(old(self).proposal_map(), pvalues@),
            final(self).active() == old(self).active(),
            final(self).counter() == old(self).counter(),
    {
        let mut i: usize = 0;
        while i < pvalues.len()
            invariant
                i <= pvalues@.len(),
                self.proposal_map() == project_pvalues(old(self).proposal_map(), pvalues@.take(i as int)),
                self.active() == old(self).active(),
                self.counter() == old(self).counter(),
            decreases pvalues@.len() - i,
        {
            self.proposals.insert(pvalues[i].slot(), pvalues[i].cmd());
            proof {
                assert(pvalues@.take(i + 1).drop_last() =~= pvalues@.take(i as int));
            }
            i = i + 1;
        }
        assert(pvalues@.take(i as int) =~= pvalues@);
    }

    /// Records `cmd` for `slot` unless the slot already has a command.
    pub fn add(&mut self, slot: usize, cmd: PaxosCommand) -> (added: bool)
        ensures
            added == !old(self).proposal_map().contains_key(slot),
            final(self).proposal_map() == (if added {
                old(self).proposal_map().insert(slot, cmd)
            } else {
                old(self).proposal_map()
            }),
            final(self).active() == old(self).active(),
            final(self).counter() == old(self).counter(),
    {
        if self.proposals.contains_key(slot) {
            false
        } else {
            self.proposals.insert(slot, cmd);
            true
        }
    }

    /// A copy of the proposals.
    pub fn proposal(&self) -> (p: SlotMap<PaxosCommand>)
        ensures
            p@ == self.proposal_map(),
            p.listing() == self.proposal_listing(),
    {
        let p = self.proposals.duplicate();
        self.proposals.lemma_listing();
        p.lemma_listing();
        assert(p.listing() =~= self.proposals.listing());
        p
    }

    /// A copy of the durable state, for the node to persist.
    pub fn dump(&self) -> (d: LeaderDurable)
        ensures
            d.active() == self.active(),
            d.counter() == self.counter(),
            d.proposal_map() == self.proposal_map(),
    {
        LeaderDurable { active: self.active, proposals: self.proposal(), ballot_counter: self.ballot_counter }
    }

    /// The proposals in slot order.
    pub fn proposals(&self) -> (p: &SlotMap<PaxosCommand>)
        ensures
            p@ == self.proposal_map(),
    {
        &self.proposals
    }
}

impl Default for LeaderDurable {
    fn default() -> (d: LeaderDurable)
        ensures
            !d.active(),
            d.counter() == 0,
            d.proposal_map() == Map::<usize, PaxosCommand>::empty(),
    {
        LeaderDurable { active: false, ballot_counter: 0, proposals: SlotMap::new() }
    }
}

} // verus!
