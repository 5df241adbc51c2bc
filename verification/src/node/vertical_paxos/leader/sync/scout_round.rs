//! One round of phase one against a fixed set of acceptors: the leader keeps
//! sending its P1A until every target has answered for its ballot, merging the
//! reported pvalues slot by slot (the higher ballot wins), or until a higher
//! ballot supersedes the round.
use vstd::prelude::*;

use crate::ballot::{Ballot, NodeId};
use crate::node::pmmc::leader::scout::pmax_all;
use crate::node::pvalue::{duplicate_pvalue_map, PValue};
use crate::node::vertical_paxos::message::VerticalPaxosMessage;
use crate::node_set::NodeSet;
use crate::slot_map::SlotMap;

verus! {

pub struct ScoutRound {
    leader_id: NodeId,
    ballot: Ballot,
    start_index: usize,
    targets: NodeSet,
    responders: NodeSet,
    settled_values: SlotMap<PValue>,
    superseded_by: Option<Ballot>,
    complete: bool,
    stopped: bool,
}

pub struct ScoutRoundView {
    pub leader_id: NodeId,
    pub ballot: Ballot,
    pub start_index: usize,
    pub targets: Set<NodeId>,
    pub responders: Set<NodeId>,
    /// Slot -> the pvalue of the highest ballot reported for it.
    pub settled: Map<usize, PValue>,
    pub superseded: Option<Ballot>,
    pub complete: bool,
    pub stopped: bool,
}

impl View for ScoutRound {
    type V = ScoutRoundView;

    closed spec fn view(&self) -> ScoutRoundView {
        ScoutRoundView {
            leader_id: self.leader_id,
            ballot: self.ballot,
            start_index: self.start_index,
            targets: self.targets@,
            responders: self.responders@,
            settled: self.settled_values@,
            superseded: self.superseded_by,
            complete: self.complete,
            stopped: self.stopped,
        }
    }
}

/// A round that has asked nobody yet.
pub open spec fn fresh_round(
    leader_id: NodeId,
    ballot: Ballot,
    start_index: usize,
    targets: Set<NodeId>,
) -> ScoutRoundView {
    ScoutRoundView {
        leader_id,
        ballot,
        start_index,
        targets,
        responders: Set::empty(),
        settled: Map::empty(),
        superseded: None,
        complete: false,
        stopped: false,
    }
}

/// A round after taking in `msg`. Once complete or superseded the round
/// ignores everything; a P1B of a higher ballot supersedes it; a P1B of its
/// own ballot from a target records the target and merges its pvalues, and
/// completes the round once every target has answered; anything else is
/// ignored.
pub open spec fn scout_answer(r: ScoutRoundView, msg: VerticalPaxosMessage) -> ScoutRoundView {
    match msg {
        VerticalPaxosMessage::P1B { from, ballot, pvalues, .. } => {
            if r.complete || r.superseded is Some {
                r
            } else if r.ballot.less(ballot) {
                ScoutRoundView { superseded: Some(ballot), ..r }
            } else if ballot != r.ballot || !r.targets.contains(from) {
                r
            } else {
                ScoutRoundView {
                    responders: r.responders.insert(from),
                    settled: pmax_all(r.settled, pvalues@),
                    complete: r.targets.subset_of(r.responders.insert(from)),
                    ..r
                }
            }
        },
        _ => r,
    }
}

/// Only targets have answered, and a complete round has heard from every
/// target.
pub open spec fn round_sound(r: ScoutRoundView) -> bool {
    r.responders.subset_of(r.targets) && (r.complete ==> r.targets.subset_of(r.responders))
}

/// A fresh round is sound, and every message keeps a round sound; a round
/// that is complete or superseded no longer changes, and answers are never
/// forgotten.
pub proof fn lemma_round_sound(r: ScoutRoundView, msg: VerticalPaxosMessage)
    ensures
        round_sound(fresh_round(r.leader_id, r.ballot, r.start_index, r.targets)),
        round_sound(r) ==> round_sound(scout_answer(r, msg)),
        (r.complete || r.superseded is Some) ==> scout_answer(r, msg) == r,
        r.responders.subset_of(scout_answer(r, msg).responders),
        scout_answer(r, msg).ballot == r.ballot && scout_answer(r, msg).targets == r.targets,
{
}

impl ScoutRound {
    pub fn new(leader_id: NodeId, ballot: Ballot, start_index: usize, targets: &Vec<NodeId>) -> (r:
        ScoutRound)
        ensures
            r@ == fresh_round(leader_id, ballot, start_index, targets@.to_set()),
    {
        ScoutRound {
            leader_id,
            ballot,
            start_index,
            targets: NodeSet::from_vec(targets),
            responders: NodeSet::new(),
            settled_values: SlotMap::new(),
            superseded_by: None,
            complete: false,
            stopped: false,
        }
    }

    /// The request the round sends to each target.
    pub fn p1a(&self) -> (m: VerticalPaxosMessage)
        ensures
            m == (VerticalPaxosMessage::P1A {
                from: self@.leader_id,
                ballot: self@.ballot,
                start_index: self@.start_index,
            }),
    {
        VerticalPaxosMessage::P1A {
            from: self.leader_id,
            ballot: self.ballot,
            start_index: self.start_index,
        }
    }

    /// The acceptors the round asks.
    pub fn target_list(&self) -> (v: Vec<NodeId>)
        ensures
            v@.to_set() == self@.targets,
            v@.no_duplicates(),
    {
        self.targets.to_vec()
    }

    /// Whether the P1A is to be sent (again): neither complete, superseded
    /// nor shut down.
    pub fn wants_broadcast(&self) -> (b: bool)
        ensures
            b == (!self@.complete && self@.superseded is None && !self@.stopped),
    {
        !self.complete && self.superseded_by.is_none() && !self.stopped
    }

    fn merge_pvalues(&mut self, pvalues: &Vec<PValue>)
        ensures
            final(self)@ == (ScoutRoundView { settled: pmax_all(old(self)@.settled, pvalues@), ..old(self)@ }),
    {
        let mut i: usize = 0;
        while i < pvalues.len()
            invariant
                i <= pvalues@.len(),
                self@ == (ScoutRoundView { settled: pmax_all(old(self)@.settled, pvalues@.take(i as int)), ..old(self)@ }),
            decreases pvalues@.len() - i,
        {
            let p = &pvalues[i];
            let slot = p.slot();
            let replace = match self.settled_values.get(slot) {
                None => true,
                Some(existing) => existing.ballot().precedes(&p.ballot()),
            };
            if replace {
                self.settled_values.insert(slot, p.clone());
            }
            proof {
                assert(pvalues@.take(i + 1).drop_last() =~= pvalues@.take(i as int));
            }
            i = i + 1;
        }
        assert(pvalues@.take(i as int) =~= pvalues@);
    }

    /// Takes in an answer (see `scout_answer`).
    pub fn handle_message(&mut self, msg: &VerticalPaxosMessage)
        ensures
            final(self)@ == scout_answer(old(self)@, *msg),
    {
        match msg {
            VerticalPaxosMessage::P1B { from, ballot, pvalues, .. } => {
                if self.complete || self.superseded_by.is_some() {
                    return ;
                }
                if self.ballot.precedes(ballot) {
                    self.superseded_by = Some(*ballot);
                    return ;
                }
                if !ballot.same(&self.ballot) || !self.targets.contains(*from) {
                    return ;
                }
                self.responders.insert(*from);
                self.merge_pvalues(pvalues);
                let targets = self.targets.to_vec();
                self.complete = self.responders.contains_all(&targets);
            },
            _ => {},
        }
    }

    pub fn is_complete(&self) -> (b: bool)
        ensures
            b == self@.complete,
    {
        self.complete
    }

    /// The settled pvalues, in slot order.
    pub fn settled_values(&self) -> (m: SlotMap<PValue>)
        ensures
            m@ == self@.settled,
    {
        duplicate_pvalue_map(&self.settled_values)
    }

    pub fn superseded_by(&self) -> (b: Option<Ballot>)
        ensures
            b == self@.superseded,
    {
        self.superseded_by
    }

    /// Stops the round: it asks no more.
    pub fn shutdown(&mut self)
        ensures
            final(self)@ == (ScoutRoundView { stopped: true, ..old(self)@ }),
    {
        self.stopped = true;
    }
}

} // verus!
