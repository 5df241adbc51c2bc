//! The PMMC leader: elects itself with a scout, drives proposals with a
//! commander, and steps down for higher ballots. It answers each message with
//! a possible reply, what its election timer must do, and a possible event
//! for the node's observers.
use vstd::prelude::*;

use crate::ballot::{Ballot, NodeId};
use crate::node::pmmc::leader::commander::{
    add_pending_step,
    commander_step,
    replica_ack_step,
    Commander,
};
use crate::node::pmmc::leader::commander::state::fresh_views;
use crate::node::pmmc::leader::leader_state::durable::project_pvalues;
use crate::node::pmmc::leader::scout::scout_step;
use crate::node::pmmc::leader::leader_state::durable::LeaderDurable;
use crate::node::pmmc::leader::leader_state::{ElectionTimer, LeaderState};
use crate::node::pmmc::message::PmmcMessage;
use crate::paxos_command::PaxosCommand;

pub mod commander;
pub mod leader_state;
pub mod scout;

verus! {

#[derive(Debug, Clone, Copy, PartialEq, Eq, Structural)]
pub enum LeaderEvent {
    LeaderElected { id: NodeId },
    LeaderSteppedDown { id: NodeId },
}

#[derive(Debug)]
pub struct LeaderOutput {
    pub reply: Option<PmmcMessage>,
    pub timer: ElectionTimer,
    pub event: Option<LeaderEvent>,
}

/// The leader after an ADOPTED of `ballot` activated it: its proposals take
/// over the pvalues its scout gathered, and a commander for `ballot` drives
/// each of them.
pub open spec fn activated(before: Leader, after: Leader, ballot: Ballot) -> bool {
    &&& after.active()
    &&& after.state().durable().counter() == before.state().durable().counter()
    &&& after.state().durable().proposal_map() == project_pvalues(
        before.state().durable().proposal_map(),
        before.state().volatile().scout_values(),
    )
    &&& after.state().volatile().commander() matches Some(c) && c.ballot() == ballot && c.id()
        == before.id() && c.state().quorum() == before.quorum() && c.state().replicas()
        == before.replicas().to_set() && c.state().pending() == fresh_views(
        after.state().durable().proposal_map(),
    )
    &&& after.state().volatile().scout() == before.state().volatile().scout()
    &&& after.state().volatile().highest() == before.state().volatile().highest()
}

/// The leader after stepping down for `ballot`: passive, with the ballot
/// recorded as seen, and neither scout nor commander.
pub open spec fn stepped_down(before: Leader, after: Leader, ballot: Ballot) -> bool {
    &&& !after.active()
    &&& after.state().durable().counter() == before.state().durable().counter()
    &&& after.state().durable().proposal_map() == before.state().durable().proposal_map()
    &&& after.state().volatile().highest() == Ballot::max_of(ballot, before.state().volatile().highest())
    &&& after.state().volatile().scout() is None
    &&& after.state().volatile().commander() is None
}

/// The leader after it was asked to drive `cmd` at `slot`: a free slot gets
/// the command, and the commander drives it.
pub open spec fn proposal_added(before: Leader, after: Leader, slot: usize, cmd: PaxosCommand) -> bool {
    let free = !before.state().durable().proposal_map().contains_key(slot);
    &&& after.active() == before.active()
    &&& after.state().durable().counter() == before.state().durable().counter()
    &&& after.state().durable().proposal_map() == (if free {
        before.state().durable().proposal_map().insert(slot, cmd)
    } else {
        before.state().durable().proposal_map()
    })
    &&& after.state().volatile().highest() == before.state().volatile().highest()
    &&& after.state().volatile().scout() == before.state().volatile().scout()
    &&& !free ==> after.state().volatile().commander() == before.state().volatile().commander()
    &&& free ==> match before.state().volatile().commander() {
        Some(c1) => after.state().volatile().commander() matches Some(c2) && add_pending_step(
            c1,
            c2,
            slot,
            cmd,
        ),
        None => after.state().volatile().commander() is None,
    }
}

/// The leader after it started an election: its counter moves one past the
/// higher of its own counter and the highest ballot number seen, that ballot
/// is recorded as seen, and a fresh scout gathers promises for it.
pub open spec fn election_started(before: Leader, after: Leader) -> bool {
    let seen = before.state().volatile().highest().number;
    let counter = before.state().durable().counter();
    &&& after.active() == before.active()
    &&& after.state().durable().counter() == (if counter < seen {
        seen
    } else {
        counter
    }) + 1
    &&& after.state().durable().proposal_map() == before.state().durable().proposal_map()
    &&& after.state().volatile().highest() == after.state().current_ballot()
    &&& after.state().volatile().scout() matches Some(s) && s.ballot()
        == after.state().current_ballot() && s.id() == before.id() && s.quorum() == before.quorum()
        && s.adopted() == Set::<NodeId>::empty()
    &&& after.state().volatile().commander() == before.state().volatile().commander()
}

/// The leader after its scout, commander or the replicas' acknowledgements
/// took in a message: its durable state and the ballot it has seen stay as
/// they are.
pub open spec fn volatile_only(before: Leader, after: Leader) -> bool {
    &&& after.state().durable() == before.state().durable()
    &&& after.state().volatile().highest() == before.state().volatile().highest()
}

/// One answer of the leader to `msg`, from `before` to `after` with output
/// `out`: ADOPTED of its current ballot activates a passive leader that has
/// seen nothing higher; HEARTBEAT from another node and PREEMPT of a ballot
/// not below its own make it step down; PROPOSE reaches an active leader;
/// ACK reaches its commander, P1B its scout and P2B its commander, whose
/// answers are the reply; anything else changes nothing.
pub open spec fn leader_step(before: Leader, after: Leader, msg: PmmcMessage, out: LeaderOutput) -> bool {
    &&& after.id() == before.id()
    &&& after.quorum() == before.quorum()
    &&& after.replicas() == before.replicas()
    &&& after.state().same_identity(before.state())
    &&& match msg {
        PmmcMessage::ADOPTED { ballot, .. } => {
            &&& out.reply is None
            &&& out.timer == ElectionTimer::Keep
            &&& out.event == (if before.adopts(ballot) {
                Some(LeaderEvent::LeaderElected { id: before.id() })
            } else {
                None
            })
            &&& !before.adopts(ballot) ==> after == before
            &&& before.adopts(ballot) ==> activated(before, after, ballot)
        },
        PmmcMessage::HEARTBEAT { from, ballot } => {
            &&& out.reply is None
            &&& (from == before.id() || ballot.less(before.state().current_ballot())) ==> after
                == before && out.timer == ElectionTimer::Keep && out.event is None
            &&& (from != before.id() && !ballot.less(before.state().current_ballot()))
                ==> stepped_down(before, after, ballot) && out.timer == ElectionTimer::Reset
                && out.event == (if before.active() {
                Some(LeaderEvent::LeaderSteppedDown { id: before.id() })
            } else {
                None
            })
        },
        PmmcMessage::PREEMPT { ballot, .. } => {
            &&& out.reply is None
            &&& ballot.less(before.state().current_ballot()) ==> after == before && out.timer
                == ElectionTimer::Keep && out.event is None
            &&& !ballot.less(before.state().current_ballot()) ==> stepped_down(before, after, ballot)
                && out.timer == ElectionTimer::BackoffAndReset && out.event == (if before.active() {
                Some(LeaderEvent::LeaderSteppedDown { id: before.id() })
            } else {
                None
            })
        },
        PmmcMessage::PROPOSE { slot, cmd, .. } => {
            &&& out.reply is None
            &&& out.timer == ElectionTimer::Keep
            &&& out.event is None
            &&& !before.active() ==> after == before
            &&& before.active() ==> proposal_added(before, after, slot, cmd)
        },
        PmmcMessage::ACK { from, slot, .. } => {
            &&& out.reply is None
            &&& out.timer == ElectionTimer::Keep
            &&& out.event is None
            &&& volatile_only(before, after)
            &&& after.state().volatile().scout() == before.state().volatile().scout()
            &&& match before.state().volatile().commander() {
                Some(c1) => after.state().volatile().commander() matches Some(c2)
                    && replica_ack_step(c1, c2, from, slot),
                None => after.state().volatile().commander() is None,
            }
        },
        PmmcMessage::P1B { .. } => {
            &&& out.timer == ElectionTimer::Keep
            &&& out.event is None
            &&& volatile_only(before, after)
            &&& after.state().volatile().commander() == before.state().volatile().commander()
            &&& match before.state().volatile().scout() {
                Some(s1) => after.state().volatile().scout() matches Some(s2) && scout_step(
                    s1,
                    s2,
                    msg,
                    out.reply,
                ) && s2.linked(),
                None => out.reply is None && after.state().volatile().scout() is None,
            }
        },
        PmmcMessage::P2B { .. } => {
            &&& out.timer == ElectionTimer::Keep
            &&& out.event is None
            &&& volatile_only(before, after)
            &&& after.state().volatile().scout() == before.state().volatile().scout()
            &&& match before.state().volatile().commander() {
                Some(c1) => after.state().volatile().commander() matches Some(c2) && commander_step(
                    c1,
                    c2,
                    msg,
                    out.reply,
                ),
                None => out.reply is None && after.state().volatile().commander() is None,
            }
        },
        _ => out.reply is None && out.timer == ElectionTimer::Keep && out.event is None && after
            == before,
    }
}

/// Phase answers never change whether the leader is active: a P1B that
/// completes a quorum yields an ADOPTED, and a P2B of a higher ballot yields a
/// PREEMPT, but the leader becomes active or passive only when that ADOPTED or
/// PREEMPT is itself handled; a replica's ACK does not change it either.
pub proof fn lemma_phase_answers_keep_activity(l0: Leader, l1: Leader, msg: PmmcMessage, out: LeaderOutput)
    requires
        msg is P1B || msg is P2B || msg is ACK,
        leader_step(l0, l1, msg, out),
    ensures
        l1.active() == l0.active(),
        l1.state().durable() == l0.state().durable(),
        l1.state().volatile().highest() == l0.state().volatile().highest(),
{
}

/// A PREEMPT, or another node's HEARTBEAT, carrying a ballot above the
/// leader's own leaves it passive, and an ADOPTED arriving afterwards,
/// whatever its ballot, neither activates it nor reports an election.
pub proof fn lemma_no_reactivation_after_preempt(
    l0: Leader,
    l1: Leader,
    l2: Leader,
    preempt: PmmcMessage,
    adopted: PmmcMessage,
    out1: LeaderOutput,
    out2: LeaderOutput,
)
    requires
        (preempt matches PmmcMessage::PREEMPT { ballot, .. } && l0.state().current_ballot().less(
            ballot,
        )) || (preempt matches PmmcMessage::HEARTBEAT { from, ballot } && from != l0.id()
            && l0.state().current_ballot().less(ballot)),
        adopted is ADOPTED,
        leader_step(l0, l1, preempt, out1),
        leader_step(l1, l2, adopted, out2),
    ensures
        !l1.active(),
        !l2.active(),
        out2.event is None,
{
}

/// A passive leader that has seen no ballot above its own becomes the leader
/// on an ADOPTED of exactly its own ballot, and on no other ADOPTED.
pub proof fn lemma_adopted_activates_own_ballot(l0: Leader, l1: Leader, adopted: PmmcMessage, out: LeaderOutput)
    requires
        !l0.active(),
        !l0.state().current_ballot().less(l0.state().volatile().highest()),
        adopted is ADOPTED,
        leader_step(l0, l1, adopted, out),
    ensures
        l1.active() <==> adopted->ADOPTED_ballot == l0.state().current_ballot(),
{
}

/// A leader rebuilt from what another saved resumes as it was: as active
/// or passive, with the same ballot counter and the same proposals.
pub proof fn lemma_saved_leader_resumes(l: Leader, saved: LeaderDurable, resumed: Leader)
    requires
        saved.active() == l.state().durable().active(),
        saved.counter() == l.state().durable().counter(),
        saved.proposal_map() == l.state().durable().proposal_map(),
        resumed.state().durable() == saved,
    ensures
        resumed.active() == l.active(),
        resumed.state().durable().counter() == l.state().durable().counter(),
        resumed.state().durable().proposal_map() == l.state().durable().proposal_map(),
{
}

pub struct Leader {
    uuid: NodeId,
    quorum: usize,
    replicas: Vec<NodeId>,
    state: LeaderState,
}

impl Leader {
    pub closed spec fn id(&self) -> NodeId {
        self.uuid
    }

    pub closed spec fn quorum(&self) -> usize {
        self.quorum
    }

    pub closed spec fn replicas(&self) -> Seq<NodeId> {
        self.replicas@
    }

    pub closed spec fn state(&self) -> &LeaderState {
        &self.state
    }

    pub open spec fn wf(&self) -> bool {
        self.state().wf() && self.state().id() == self.id()
    }

    pub open spec fn active(&self) -> bool {
        self.state().durable().active()
    }

    /// Whether an ADOPTED for `ballot` activates the leader.
    pub open spec fn adopts(&self, ballot: Ballot) -> bool {
        ballot == self.state().current_ballot() && !ballot.less(self.state().volatile().highest())
            && !self.active()
    }

    /// A leader of the given epoch and quorum for the given replicas, resuming
    /// from its durable state.
    pub fn new(uuid: NodeId, durable: LeaderDurable, epoch: usize, quorum: usize, replicas: Vec<NodeId>) -> (l:
        Leader)
        ensures
            l.wf(),
            l.id() == uuid,
            l.quorum() == quorum,
            l.replicas() == replicas@,
            l.state().durable() == durable,
            l.state().epoch() == epoch,
            l.state().volatile().highest() == Ballot::zero(),
            l.state().volatile().scout() is None,
            l.state().volatile().commander() is None,
    {
        Leader { uuid, quorum, replicas, state: LeaderState::init(durable, uuid, epoch) }
    }

    /// Starts an election: a fresh ballot and the P1A to broadcast for it.
    pub fn start_election(&mut self) -> (r: (PmmcMessage, ElectionTimer))
        requires
            old(self).wf(),
            old(self).state().durable().counter() < usize::MAX,
            old(self).state().volatile().highest().number < usize::MAX,
        ensures
            final(self).wf(),
            final(self).id() == old(self).id(),
            old(self).state().current_ballot().less(final(self).state().current_ballot()),
            r.0 == (PmmcMessage::P1A {
                from: old(self).id(),
                ballot: final(self).state().current_ballot(),
                start_index: 0,
            }),
            r.1 == ElectionTimer::Reset,
            final(self).quorum() == old(self).quorum(),
            final(self).replicas() == old(self).replicas(),
            final(self).state().same_identity(old(self).state()),
            election_started(*old(self), *final(self)),
    {
        let (ballot, timer) = self.state.start_scout(self.quorum);
        (PmmcMessage::P1A { from: self.uuid, ballot, start_index: 0 }, timer)
    }

    fn become_active(&mut self, ballot: Ballot) -> (e: Option<LeaderEvent>)
        requires
            old(self).wf(),
        ensures
            final(self).wf(),
            final(self).id() == old(self).id(),
            final(self).active() == (old(self).active() || old(self).adopts(ballot)),
            final(self).quorum() == old(self).quorum(),
            final(self).replicas() == old(self).replicas(),
            final(self).state().same_identity(old(self).state()),
            !old(self).adopts(ballot) ==> *final(self) == *old(self),
            old(self).adopts(ballot) ==> activated(*old(self), *final(self), ballot),
            e == (if old(self).adopts(ballot) {
                Some(LeaderEvent::LeaderElected { id: old(self).id() })
            } else {
                None
            }),
    {
        let replicas = self.replicas.clone();
        let activated = self.state.set_as_active(self.quorum, ballot, replicas);
        if activated {
            Some(LeaderEvent::LeaderElected { id: self.uuid })
        } else {
            None
        }
    }

    /// The heartbeat an active leader broadcasts; a passive leader sends none.
    pub fn send_heartbeat(&self) -> (m: Option<PmmcMessage>)
        ensures
            self.active() ==> m == Some(
                PmmcMessage::HEARTBEAT { from: self.id(), ballot: self.state().current_ballot() },
            ),
            !self.active() ==> m is None,
    {
        if !self.state.is_active() {
            return None;
        }
        Some(PmmcMessage::HEARTBEAT { from: self.uuid, ballot: self.state.ballot() })
    }

    /// An active leader adopts a proposal for a free slot.
    pub fn propose_handler(&mut self, slot: usize, cmd: PaxosCommand)
        requires
            old(self).wf(),
        ensures
            final(self).wf(),
            final(self).id() == old(self).id(),
            final(self).active() == old(self).active(),
            final(self).quorum() == old(self).quorum(),
            final(self).replicas() == old(self).replicas(),
            final(self).state().same_identity(old(self).state()),
            !old(self).active() ==> *final(self) == *old(self),
            old(self).active() ==> proposal_added(*old(self), *final(self), slot, cmd),
    {
        if !self.state.is_active() {
            return ;
        }
        self.state.add(slot, cmd);
    }

    fn step_down_event(&self, was_leader: bool) -> (e: Option<LeaderEvent>)
        ensures
            e == (if was_leader && !self.active() {
                Some(LeaderEvent::LeaderSteppedDown { id: self.id() })
            } else {
                None
            }),
    {
        if was_leader && !self.state.is_active() {
            Some(LeaderEvent::LeaderSteppedDown { id: self.uuid })
        } else {
            None
        }
    }

    fn heartbeat_handler(&mut self, from: NodeId, ballot: Ballot) -> (r: (
        ElectionTimer,
        Option<LeaderEvent>,
    ))
        requires
            old(self).wf(),
        ensures
            final(self).wf(),
            final(self).id() == old(self).id(),
            from == old(self).id() || ballot.less(old(self).state().current_ballot()) ==> *final(self)
                == *old(self) && r == (ElectionTimer::Keep, None::<LeaderEvent>),
            from != old(self).id() && !ballot.less(old(self).state().current_ballot()) ==> {
                &&& stepped_down(*old(self), *final(self), ballot)
                &&& r.0 == ElectionTimer::Reset
                &&& r.1 == (if old(self).active() {
                    Some(LeaderEvent::LeaderSteppedDown { id: old(self).id() })
                } else {
                    None
                })
            },
            final(self).quorum() == old(self).quorum(),
            final(self).replicas() == old(self).replicas(),
            final(self).state().same_identity(old(self).state()),
    {
        if from == self.uuid {
            return (ElectionTimer::Keep, None);
        }
        let was_leader = self.state.is_active();
        let timer = self.state.heartbeat_handler(ballot);
        (timer, self.step_down_event(was_leader))
    }

    fn preempt(&mut self, ballot: Ballot) -> (r: (ElectionTimer, Option<LeaderEvent>))
        requires
            old(self).wf(),
        ensures
            final(self).wf(),
            final(self).id() == old(self).id(),
            ballot.less(old(self).state().current_ballot()) ==> *final(self) == *old(self) && r == (
                ElectionTimer::Keep,
                None::<LeaderEvent>,
            ),
            !ballot.less(old(self).state().current_ballot()) ==> {
                &&& stepped_down(*old(self), *final(self), ballot)
                &&& r.0 == ElectionTimer::BackoffAndReset
                &&& r.1 == (if old(self).active() {
                    Some(LeaderEvent::LeaderSteppedDown { id: old(self).id() })
                } else {
                    None
                })
            },
            final(self).quorum() == old(self).quorum(),
            final(self).replicas() == old(self).replicas(),
            final(self).state().same_identity(old(self).state()),
    {
        let was_leader = self.state.is_active();
        let timer = self.state.preempt(ballot);
        (timer, self.step_down_event(was_leader))
    }

    /// The durable state, for the node to persist.
    pub fn save(&self) -> (d: LeaderDurable)
        ensures
            d.active() == self.state().durable().active(),
            d.counter() == self.state().durable().counter(),
            d.proposal_map() == self.state().durable().proposal_map(),
    {
        self.state.dump()
    }

    pub fn node_id(&self) -> (r: NodeId)
        ensures
            r == self.id(),
    {
        self.uuid
    }

    pub fn is_leader(&self) -> (b: bool)
        ensures
            b == self.active(),
    {
        self.state.is_active()
    }

    /// The leader's current ballot.
    pub fn ballot(&self) -> (b: Ballot)
        ensures
            b == self.state().current_ballot(),
    {
        self.state.ballot()
    }

    /// The running commander, for the node's retransmission timer.
    pub fn commander(&self) -> (c: Option<&Commander>)
        ensures
            c is Some == self.state().volatile().commander() is Some,
            c matches Some(x) ==> *x == self.state().volatile().commander()->0,
    {
        self.state.volatile_state().commander_handle()
    }

    pub fn state_handle(&self) -> (s: &LeaderState)
        ensures
            *s == *self.state(),
    {
        &self.state
    }

    /// ADOPTED may activate the leader; HEARTBEAT and PREEMPT of a ballot not
    /// below its own make it step down; PROPOSE adds a proposal; ACK reaches
    /// the commander; P1B goes to the scout and P2B to the commander, whose
    /// answers are the reply. Other messages are ignored.
    pub fn handle_message(&mut self, msg: PmmcMessage) -> (out: LeaderOutput)
        requires
            old(self).wf(),
        ensures
            final(self).wf(),
            final(self).id() == old(self).id(),
            !old(self).active() && final(self).active() ==> (msg matches PmmcMessage::ADOPTED {
                ballot,
                ..
            } && ballot == old(self).state().current_ballot()),
            (msg matches PmmcMessage::PREEMPT { ballot, .. } && old(self).state().current_ballot().less(
                ballot,
            )) ==> !final(self).active() && forall|b: Ballot| !#[trigger] final(self).adopts(b),
            leader_step(*old(self), *final(self), msg, out),
    {
        match msg {
            PmmcMessage::ADOPTED { ballot, .. } => {
                let event = self.become_active(ballot);
                LeaderOutput { reply: None, timer: ElectionTimer::Keep, event }
            },
            PmmcMessage::HEARTBEAT { from, ballot } => {
                let (timer, event) = self.heartbeat_handler(from, ballot);
                LeaderOutput { reply: None, timer, event }
            },
            PmmcMessage::PROPOSE { slot, cmd, .. } => {
                self.propose_handler(slot, cmd);
                LeaderOutput { reply: None, timer: ElectionTimer::Keep, event: None }
            },
            PmmcMessage::ACK { from, slot, .. } => {
                self.state.handle_ack(from, slot);
                LeaderOutput { reply: None, timer: ElectionTimer::Keep, event: None }
            },
            PmmcMessage::P1B { from, to, ballot, pvalues } => {
                let reply = self.state.handle_p1b(PmmcMessage::P1B { from, to, ballot, pvalues });
                LeaderOutput { reply, timer: ElectionTimer::Keep, event: None }
            },
            PmmcMessage::P2B { from, to, ballot, pvalue } => {
                let reply = self.state.handle_p2b(PmmcMessage::P2B { from, to, ballot, pvalue });
                LeaderOutput { reply, timer: ElectionTimer::Keep, event: None }
            },
            PmmcMessage::PREEMPT { ballot, .. } => {
                let (timer, event) = self.preempt(ballot);
                LeaderOutput { reply: None, timer, event }
            },
            _ => LeaderOutput { reply: None, timer: ElectionTimer::Keep, event: None },
        }
    }
}

} // verus!
