//! A leader's state: its durable part, its volatile part, and the identity
//! and epoch that make up its ballots.
use vstd::prelude::*;

use crate::ballot::{Ballot, NodeId};
use crate::node::pmmc::leader::leader_state::durable::LeaderDurable;
use crate::node::pmmc::leader::leader_state::volatile::LeaderVolatile;
use crate::node::pmmc::leader::scout::listing_values;
use crate::node::pmmc::message::PmmcMessage;
use crate::paxos_command::PaxosCommand;

pub mod durable;
pub mod volatile;

verus! {

/// What the election timer must do after a leader state change.
#[derive(Debug, Clone, Copy, PartialEq, Eq, Structural)]
pub enum ElectionTimer {
    /// Leave the deadline as it is.
    Keep,
    /// Draw a new deadline.
    Reset,
    /// Widen the timeout, then draw a new deadline.
    BackoffAndReset,
}

pub struct LeaderState {
    durable: LeaderDurable,
    volatile: LeaderVolatile,
    id: NodeId,
    epoch: usize,
}

impl LeaderState {
    pub closed spec fn durable(&self) -> &LeaderDurable {
        &self.durable
    }

    pub closed spec fn volatile(&self) -> &LeaderVolatile {
        &self.volatile
    }

    pub closed spec fn id(&self) -> NodeId {
        self.id
    }

    pub closed spec fn epoch(&self) -> usize {
        self.epoch
    }

    pub open spec fn wf(&self) -> bool {
        self.volatile().wf()
    }

    /// The leader's current ballot.
    pub open spec fn current_ballot(&self) -> Ballot {
        self.durable().ballot_of(self.id(), self.epoch())
    }

    pub open spec fn same_identity(&self, other: &LeaderState) -> bool {
        self.id() == other.id() && self.epoch() == other.epoch()
    }

    pub fn init(data: LeaderDurable, id: NodeId, epoch: usize) -> (s: LeaderState)
        ensures
            s.wf(),
            s.id() == id,
            s.epoch() == epoch,
            s.durable() == data,
            s.volatile().highest() == Ballot::zero(),
            s.volatile().scout() is None,
            s.volatile().commander() is None,
    {
        LeaderState { durable: data, volatile: LeaderVolatile::default(), id, epoch }
    }

    pub fn from_parts(durable: LeaderDurable, volatile: LeaderVolatile, id: NodeId, epoch: usize) -> (s:
        LeaderState)
        ensures
            s.id() == id,
            s.epoch() == epoch,
            s.durable() == durable,
            s.volatile() == volatile,
    {
        LeaderState { durable, volatile, id, epoch }
    }

    /// Starts phase 1 under a fresh ballot above every ballot seen.
    pub fn start_scout(&mut self, quorum: usize) -> (r: (Ballot, ElectionTimer))
        requires
            old(self).wf(),
            old(self).durable().counter() < usize::MAX,
            old(self).volatile().highest().number < usize::MAX,
        ensures
            final(self).wf(),
            final(self).same_identity(old(self)),
            r.0 == final(self).current_ballot(),
            old(self).current_ballot().less(r.0),
            old(self).volatile().highest().epoch <= old(self).epoch() ==> old(self).volatile().highest().less(r.0),
            final(self).durable().active() == old(self).durable().active(),
            final(self).durable().proposal_map() == old(self).durable().proposal_map(),
            final(self).durable().counter() == (if old(self).durable().counter() < old(self).volatile().highest().number {
                old(self).volatile().highest().number
            } else {
                old(self).durable().counter()
            }) + 1,
            final(self).volatile().highest() == r.0,
            final(self).volatile().scout() matches Some(s) && s.ballot() == r.0 && s.id()
                == old(self).id() && s.quorum() == quorum && s.adopted() == Set::<NodeId>::empty(),
            final(self).volatile().commander() == old(self).volatile().commander(),
            r.1 == ElectionTimer::Reset,
    {
        let highest_seen = self.volatile.highest_seen();
        let ballot = self.durable.bump_ballot(self.id, self.epoch, highest_seen);
        self.volatile.start_scout(self.id, ballot, quorum);
        (ballot, ElectionTimer::Reset)
    }

    pub fn ballot(&self) -> (b: Ballot)
        ensures
            b == self.current_ballot(),
    {
        self.durable.ballot(self.id, self.epoch)
    }

    pub fn is_active(&self) -> (b: bool)
        ensures
            b == self.durable().active(),
    {
        self.durable.is_active()
    }

    /// Becomes active for `ballot` if it is the current ballot, nothing
    /// higher has been seen and the leader is not active yet: takes over the
    /// scout's pvalues and starts a commander on every proposal.
    pub fn set_as_active(&mut self, quorum: usize, ballot: Ballot, replicas: Vec<NodeId>) -> (r:
        bool)
        requires
            old(self).wf(),
        ensures
            final(self).wf(),
            final(self).same_identity(old(self)),
            r == (ballot == old(self).current_ballot() && !ballot.less(old(self).volatile().highest())
                && !old(self).durable().active()),
            !r ==> *final(self) == *old(self),
            r ==> {
                &&& final(self).durable().active()
                &&& final(self).durable().counter() == old(self).durable().counter()
                &&& final(self).durable().proposal_map()
                    == crate::node::pmmc::leader::leader_state::durable::project_pvalues(
                    old(self).durable().proposal_map(),
                    old(self).volatile().scout_values(),
                )
                &&& final(self).volatile().commander() matches Some(c) && c.ballot() == ballot
                    && c.id() == old(self).id() && c.state().quorum() == quorum
                    && c.state().replicas() == replicas@.to_set() && c.state().pending()
                    == crate::node::pmmc::leader::commander::state::fresh_views(
                    final(self).durable().proposal_map(),
                )
                &&& final(self).volatile().scout() == old(self).volatile().scout()
                &&& final(self).volatile().highest() == old(self).volatile().highest()
            },
    {
        if !ballot.same(&self.durable.ballot(self.id, self.epoch)) {
            return false;
        }
        if ballot.precedes(&self.volatile.highest_seen()) {
            return false;
        }
        if self.durable.is_active() {
            return false;
        }
        let pvalues = self.volatile.scout_pvalues();
        self.durable.set_as_active(pvalues);
        let proposals = self.durable.proposal();
        self.volatile.start_commanders(self.id, quorum, ballot, replicas, proposals);
        true
    }

    /// Adopts `cmd` for `slot` unless the slot already has a command, and
    /// hands it to the running commander.
    pub fn add(&mut self, slot: usize, cmd: PaxosCommand)
        requires
            old(self).wf(),
        ensures
            final(self).wf(),
            final(self).same_identity(old(self)),
            final(self).durable().active() == old(self).durable().active(),
            final(self).durable().counter() == old(self).durable().counter(),
            final(self).durable().proposal_map() == (if old(self).durable().proposal_map().contains_key(slot) {
                old(self).durable().proposal_map()
            } else {
                old(self).durable().proposal_map().insert(slot, cmd)
            }),
            final(self).volatile().highest() == old(self).volatile().highest(),
            final(self).volatile().scout() == old(self).volatile().scout(),
            final(self).volatile().commander() is Some == old(self).volatile().commander() is Some,
            old(self).durable().proposal_map().contains_key(slot) ==> final(self).volatile().commander()
                == old(self).volatile().commander(),
            !old(self).durable().proposal_map().contains_key(slot) ==> (old(self).volatile().commander() matches Some(c1)
                ==> (final(self).volatile().commander() matches Some(c2)
                && crate::node::pmmc::leader::commander::add_pending_step(c1, c2, slot, cmd))),
    {
        if self.durable.add(slot, cmd.clone()) {
            self.volatile.add_to_commander(slot, cmd);
        }
    }

    /// Steps down for a heartbeat of a ballot that is not below the leader's
    /// own: becomes passive, drops scout and commander and resets the election
    /// timer. A stale heartbeat changes nothing.
    pub fn heartbeat_handler(&mut self, ballot: Ballot) -> (t: ElectionTimer)
        requires
            old(self).wf(),
        ensures
            final(self).wf(),
            final(self).same_identity(old(self)),
            ballot.less(old(self).current_ballot()) ==> *final(self) == *old(self) && t
                == ElectionTimer::Keep,
            !ballot.less(old(self).current_ballot()) ==> {
                &&& !final(self).durable().active()
                &&& final(self).durable().counter() == old(self).durable().counter()
                &&& final(self).durable().proposal_map() == old(self).durable().proposal_map()
                &&& final(self).volatile().highest() == Ballot::max_of(
                    ballot,
                    old(self).volatile().highest(),
                )
                &&& final(self).volatile().scout() is None
                &&& final(self).volatile().commander() is None
                &&& t == ElectionTimer::Reset
            },
    {
        if self.durable.is_stale_ballot(self.id, self.epoch, ballot) {
            return ElectionTimer::Keep;
        }
        self.durable.set_as_passive();
        self.volatile.set_highest_seen(ballot);
        self.volatile.drop_scount();
        self.volatile.drop_commander();
        ElectionTimer::Reset
    }

    /// Like a heartbeat, a preemption by a ballot not below the leader's own
    /// makes it step down; it also backs the election timeout off.
    pub fn preempt(&mut self, ballot: Ballot) -> (t: ElectionTimer)
        requires
            old(self).wf(),
        ensures
            final(self).wf(),
            final(self).same_identity(old(self)),
            ballot.less(old(self).current_ballot()) ==> *final(self) == *old(self) && t
                == ElectionTimer::Keep,
            !ballot.less(old(self).current_ballot()) ==> {
                &&& !final(self).durable().active()
                &&& final(self).durable().counter() == old(self).durable().counter()
                &&& final(self).durable().proposal_map() == old(self).durable().proposal_map()
                &&& final(self).volatile().highest() == Ballot::max_of(
                    ballot,
                    old(self).volatile().highest(),
                )
                &&& final(self).volatile().scout() is None
                &&& final(self).volatile().commander() is None
                &&& t == ElectionTimer::BackoffAndReset
            },
    {
        if self.durable.is_stale_ballot(self.id, self.epoch, ballot) {
            return ElectionTimer::Keep;
        }
        self.durable.set_as_passive();
        self.volatile.set_highest_seen(ballot);
        self.volatile.drop_scount();
        self.volatile.drop_commander();
        ElectionTimer::BackoffAndReset
    }

    pub fn dump(&self) -> (d: LeaderDurable)
        ensures
            d.active() == self.durable().active(),
            d.counter() == self.durable().counter(),
            d.proposal_map() == self.durable().proposal_map(),
    {
        self.durable.dump()
    }

    pub fn handle_p1b(&mut self, msg: PmmcMessage) -> (r: Option<PmmcMessage>)
        requires
            old(self).wf(),
        ensures
            final(self).wf(),
            final(self).same_identity(old(self)),
            final(self).durable() == old(self).durable(),
            old(self).volatile().scout() is None ==> r is None && final(self).volatile().scout() is None,
            old(self).volatile().scout() matches Some(s1) ==> (final(self).volatile().scout() matches Some(s2)
                && crate::node::pmmc::leader::scout::scout_step(s1, s2, msg, r) && s2.linked()),
            final(self).volatile().commander() == old(self).volatile().commander(),
            final(self).volatile().highest() == old(self).volatile().highest(),
    {
        self.volatile.p1b(msg)
    }

    pub fn handle_p2b(&mut self, msg: PmmcMessage) -> (r: Option<PmmcMessage>)
        requires
            old(self).wf(),
        ensures
            final(self).wf(),
            final(self).same_identity(old(self)),
            final(self).durable() == old(self).durable(),
            old(self).volatile().commander() is None ==> r is None && final(self).volatile().commander() is None,
            old(self).volatile().commander() matches Some(c1) ==> (final(self).volatile().commander() matches Some(c2)
                && crate::node::pmmc::leader::commander::commander_step(c1, c2, msg, r)),
            final(self).volatile().scout() == old(self).volatile().scout(),
            final(self).volatile().highest() == old(self).volatile().highest(),
    {
        self.volatile.p2b(msg)
    }

    pub fn handle_ack(&mut self, from: NodeId, slot: usize)
        requires
            old(self).wf(),
        ensures
            final(self).wf(),
            final(self).same_identity(old(self)),
            final(self).durable() == old(self).durable(),
            old(self).volatile().commander() is None ==> final(self).volatile().commander() is None,
            old(self).volatile().commander() matches Some(c1) ==> (final(self).volatile().commander() matches Some(c2)
                && crate::node::pmmc::leader::commander::replica_ack_step(c1, c2, from, slot)),
            final(self).volatile().scout() == old(self).volatile().scout(),
            final(self).volatile().highest() == old(self).volatile().highest(),
    {
        self.volatile.ack(from, slot);
    }

    pub fn volatile_state(&self) -> (v: &LeaderVolatile)
        ensures
            *v == *self.volatile(),
    {
        &self.volatile
    }
}

} // verus!
