//! What a leader keeps in memory only: the highest ballot it has seen and its
//! running scout and commander. Election and heartbeat timers belong to the
//! node that drives the leader.
use vstd::prelude::*;

use crate::ballot::{Ballot, NodeId};
use crate::node::pmmc::leader::commander::Commander;
use crate::node::pmmc::leader::leader_state::durable::LeaderDurable;
use crate::node::pmmc::leader::scout::{listing_values, Scout};
use crate::node::pmmc::message::PmmcMessage;
use crate::node::pvalue::PValue;
use crate::paxos_command::PaxosCommand;
use crate::slot_map::SlotMap;

verus! {

pub struct LeaderVolatile {
    highest_seen: Ballot,
    scout: Option<Scout>,
    commander: Option<Commander>,
}

impl LeaderVolatile {
    /// The highest ballot seen.
    pub closed spec fn highest(&self) -> Ballot {
        self.highest_seen
    }

    pub fn highest_seen(&self) -> (b: Ballot)
        ensures
            b == self.highest(),
    {
        self.highest_seen
    }

    pub closed spec fn scout(&self) -> Option<Scout> {
        self.scout
    }

    pub closed spec fn commander(&self) -> Option<Commander> {
        self.commander
    }

    pub open spec fn wf(&self) -> bool {
        self.commander() is Some ==> self.commander()->0.wf()
    }

    /// The pvalues the scout has gathered, or none without a scout.
    pub open spec fn scout_values(&self) -> Seq<PValue> {
        match self.scout() {
            Some(s) => listing_values(s.pmax_listing()),
            None => Seq::empty(),
        }
    }

    pub fn init(data: &LeaderDurable, id: NodeId, epoch: usize) -> (v: LeaderVolatile)
        ensures
            v.highest() == data.ballot_of(id, epoch),
            v.scout() is None,
            v.commander() is None,
            v.wf(),
    {
        LeaderVolatile { highest_seen: data.ballot(id, epoch), scout: None, commander: None }
    }

    pub fn drop_scount(&mut self)
        requires
            old(self).wf(),
        ensures
            final(self).wf(),
            final(self).scout() is None,
            final(self).commander() == old(self).commander(),
            final(self).highest() == old(self).highest(),
    {
        self.scout = None;
    }

    /// Stops and forgets the commander.
    pub fn drop_commander(&mut self)
        requires
            old(self).wf(),
        ensures
            final(self).wf(),
            final(self).commander() is None,
            final(self).scout() == old(self).scout(),
            final(self).highest() == old(self).highest(),
    {
        if let Some(commander) = &mut self.commander {
            commander.stop();
        }
        self.commander = None;
    }

    pub fn start_commanders(
        &mut self,
        uuid: NodeId,
        quorum: usize,
        ballot: Ballot,
        replicas: Vec<NodeId>,
        proposals: SlotMap<PaxosCommand>,
    )
        requires
            old(self).wf(),
        ensures
            final(self).wf(),
            final(self).commander() matches Some(c) && c.id() == uuid && c.ballot() == ballot
                && c.state().quorum() == quorum && c.state().replicas() == replicas@.to_set()
                && c.state().pending()
                == crate::node::pmmc::leader::commander::state::fresh_views(proposals@)
                && !c.state().stopped(),
            final(self).scout() == old(self).scout(),
            final(self).highest() == old(self).highest(),
    {
        self.commander = Some(Commander::new(uuid, quorum, ballot, replicas, proposals));
    }

    /// Starts a scout for `ballot`, which becomes the highest ballot seen.
    pub fn start_scout(&mut self, uuid: NodeId, ballot: Ballot, quorum: usize)
        requires
            old(self).wf(),
        ensures
            final(self).wf(),
            final(self).scout() matches Some(s) && s.id() == uuid && s.ballot() == ballot
                && s.quorum() == quorum && s.adopted() == Set::<NodeId>::empty()
                && s.pmax_map() == Map::<usize, PValue>::empty() && s.pmax_listing() == Seq::<
                (usize, PValue),
            >::empty(),
            final(self).highest() == ballot,
            final(self).commander() == old(self).commander(),
    {
        self.scout = Some(Scout::new(uuid, quorum, ballot));
        self.highest_seen = ballot;
    }

    pub fn set_highest_seen(&mut self, ballot: Ballot)
        ensures
            final(self).highest() == Ballot::max_of(ballot, old(self).highest()),
            final(self).scout() == old(self).scout(),
            final(self).commander() == old(self).commander(),
    {
        self.highest_seen = ballot.max(self.highest_seen);
    }

    pub fn has_scout(&self) -> (b: bool)
        ensures
            b == self.scout() is Some,
    {
        self.scout.is_some()
    }

    pub fn has_commander(&self) -> (b: bool)
        ensures
            b == self.commander() is Some,
    {
        self.commander.is_some()
    }

    pub fn scout_pvalues(&self) -> (v: Vec<PValue>)
        ensures
            v@ == self.scout_values(),
    {
        match &self.scout {
            Some(scout) => scout.pvalues(),
            None => Vec::new(),
        }
    }

    /// Hands a P1B to the scout; without a scout there is no answer.
    pub fn p1b(&mut self, msg: PmmcMessage) -> (r: Option<PmmcMessage>)
        requires
            old(self).wf(),
        ensures
            final(self).wf(),
            old(self).scout() is None ==> r is None && final(self).scout() is None,
            old(self).scout() matches Some(s1) ==> (final(self).scout() matches Some(s2)
                && crate::node::pmmc::leader::scout::scout_step(s1, s2, msg, r) && s2.linked()),
            final(self).commander() == old(self).commander(),
            final(self).highest() == old(self).highest(),
    {
        match &mut self.scout {
            Some(scout) => scout.handle_message(msg),
            None => None,
        }
    }

    /// Hands a P2B to the commander; without a commander there is no answer.
    pub fn p2b(&mut self, msg: PmmcMessage) -> (r: Option<PmmcMessage>)
        requires
            old(self).wf(),
        ensures
            final(self).wf(),
            old(self).commander() is None ==> r is None && final(self).commander() is None,
            old(self).commander() matches Some(c1) ==> (final(self).commander() matches Some(c2)
                && crate::node::pmmc::leader::commander::commander_step(c1, c2, msg, r)),
            final(self).commander() is Some == old(self).commander() is Some,
            final(self).scout() == old(self).scout(),
            final(self).highest() == old(self).highest(),
    {
        match &mut self.commander {
            Some(commander) => commander.handle_message(msg),
            None => None,
        }
    }

    pub fn add_to_commander(&mut self, slot: usize, cmd: PaxosCommand)
        requires
            old(self).wf(),
        ensures
            final(self).wf(),
            final(self).commander() is Some == old(self).commander() is Some,
            old(self).commander() matches Some(c1) ==> (final(self).commander() matches Some(c2)
                && crate::node::pmmc::leader::commander::add_pending_step(c1, c2, slot, cmd)),
            final(self).scout() == old(self).scout(),
            final(self).highest() == old(self).highest(),
    {
        if let Some(commander) = &mut self.commander {
            commander.add_pending(slot, cmd);
        }
    }

    pub fn ack(&mut self, from: NodeId, slot: usize)
        requires
            old(self).wf(),
        ensures
            final(self).wf(),
            final(self).commander() is Some == old(self).commander() is Some,
            old(self).commander() matches Some(c1) ==> (final(self).commander() matches Some(c2)
                && crate::node::pmmc::leader::commander::replica_ack_step(c1, c2, from, slot)),
            final(self).scout() == old(self).scout(),
            final(self).highest() == old(self).highest(),
    {
        if let Some(commander) = &mut self.commander {
            commander.record_replica_ack(from, slot);
        }
    }

    /// The running commander, for the node's retransmission timer.
    pub fn commander_handle(&self) -> (c: Option<&Commander>)
        ensures
            c is Some == self.commander() is Some,
            c is Some ==> *c->0 == self.commander()->0,
    {
        self.commander.as_ref()
    }
}

impl Default for LeaderVolatile {
    fn default() -> (v: LeaderVolatile)
        ensures
            v.highest() == Ballot::zero(),
            v.scout() is None,
            v.commander() is None,
    {
        LeaderVolatile { highest_seen: Ballot::default(), scout: None, commander: None }
    }
}

} // verus!
