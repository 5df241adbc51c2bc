//! The Vertical Paxos commander drives phase 2 for the leader's ballot: a slot
//! is decided once every member of the write quorum has accepted it, and is
//! forgotten once it is decided and every replica has acknowledged it.
use vstd::prelude::*;

use crate::ballot::{Ballot, NodeId};
use crate::node::pmmc::leader::commander::pending_kept;
use crate::node::pmmc::leader::commander::state::{
    fresh_pending,
    fresh_views,
    pending_views,
    PendingSlot,
    PendingView,
};
use crate::node::pvalue::PValue;
use crate::node::vertical_paxos::message::VerticalPaxosMessage;
use crate::node_set::NodeSet;
use crate::paxos_command::PaxosCommand;
use crate::slot_map::SlotMap;

verus! {

/// What the commander asks to be sent after a message.
pub enum CommanderStep {
    /// Nothing to send.
    Ignore,
    /// Answer to the leader itself.
    Reply(VerticalPaxosMessage),
    /// Send to each of the listed replicas.
    ToReplicas { msg: VerticalPaxosMessage, targets: Vec<NodeId> },
    /// Send to each member of the listed write quorum.
    ToWriteQuorum { msg: VerticalPaxosMessage, targets: Vec<NodeId> },
}

pub struct Commander {
    id: NodeId,
    ballot: Ballot,
    write_quorum: NodeSet,
    replicas: NodeSet,
    pending: SlotMap<PendingSlot>,
}

pub struct CommanderView {
    pub id: NodeId,
    pub ballot: Ballot,
    pub write_quorum: Set<NodeId>,
    pub replicas: Set<NodeId>,
    pub pending: Map<usize, PendingView>,
}

impl View for Commander {
    type V = CommanderView;

    closed spec fn view(&self) -> CommanderView {
        CommanderView {
            id: self.id,
            ballot: self.ballot,
            write_quorum: self.write_quorum@,
            replicas: self.replicas@,
            pending: pending_views(self.pending@),
        }
    }
}

/// A commander for `ballot` that starts from the stored proposals.
pub open spec fn commander_initial(
    id: NodeId,
    ballot: Ballot,
    write_quorum: Set<NodeId>,
    replicas: Set<NodeId>,
    proposals: Map<usize, PaxosCommand>,
) -> CommanderView {
    CommanderView { id, ballot, write_quorum, replicas, pending: fresh_views(proposals) }
}

/// The slot a P2B of the commander's ballot from a write-quorum member leads
/// to: the acceptor is counted, and the slot is decided now when it was not
/// before and the whole write quorum has accepted.
pub open spec fn counted(c: CommanderView, from: NodeId, slot: usize) -> (PendingView, bool) {
    let p = c.pending[slot];
    let acks = p.acceptor_acks.insert(from);
    let decide = !p.decided && c.write_quorum.subset_of(acks);
    (PendingView { acceptor_acks: acks, decided: p.decided || decide, ..p }, decide)
}

/// Whether a P2B counts at all: it carries the commander's ballot, comes from a
/// member of the write quorum and is for a pending slot.
pub open spec fn p2b_counts(c: CommanderView, from: NodeId, ballot: Ballot, slot: usize) -> bool {
    ballot == c.ballot && c.write_quorum.contains(from) && c.pending.contains_key(slot)
}

/// The commander after replica `from` acknowledged the decision of `slot`.
pub open spec fn after_replica_ack(c: CommanderView, from: NodeId, slot: usize) -> CommanderView {
    if !c.pending.contains_key(slot) {
        c
    } else {
        let p = c.pending[slot];
        let acks = p.replica_acks.insert(from);
        if p.decided && c.replicas.subset_of(acks) {
            CommanderView { pending: c.pending.remove(slot), ..c }
        } else {
            CommanderView { pending: c.pending.insert(slot, PendingView { replica_acks: acks, ..p }), ..c }
        }
    }
}

/// The commander after taking in `msg`.
pub open spec fn after_message(c: CommanderView, msg: VerticalPaxosMessage) -> CommanderView {
    match msg {
        VerticalPaxosMessage::P2B { from, ballot, pvalue, .. } => {
            if !c.ballot.less(ballot) && p2b_counts(c, from, ballot, pvalue@.slot) {
                CommanderView {
                    pending: c.pending.insert(pvalue@.slot, counted(c, from, pvalue@.slot).0),
                    ..c
                }
            } else {
                c
            }
        },
        _ => c,
    }
}

/// What the commander asks to be sent after taking in `msg`: a preemption
/// for a higher ballot, the decision to the replicas when `msg` decides a
/// slot, nothing otherwise.
pub open spec fn message_step(c: CommanderView, msg: VerticalPaxosMessage, step: CommanderStep) -> bool {
    match msg {
        VerticalPaxosMessage::P2B { from, ballot, pvalue, .. } => {
            if c.ballot.less(ballot) {
                step == CommanderStep::Reply(
                    VerticalPaxosMessage::PREEMPT { from: c.id, to: c.id, ballot },
                )
            } else if p2b_counts(c, from, ballot, pvalue@.slot) && counted(
                c,
                from,
                pvalue@.slot,
            ).1 {
                step matches CommanderStep::ToReplicas { msg: m, targets } && m
                    == VerticalPaxosMessage::ACCEPTED {
                    from: c.id,
                    pvalue: PValue::of(pvalue@.slot, c.ballot, counted(c, from, pvalue@.slot).0.cmd),
                } && targets@.to_set() == c.replicas
            } else {
                step is Ignore
            }
        },
        _ => step is Ignore,
    }
}

/// A decision goes out only for a slot that was undecided and that the whole
/// write quorum has now accepted; the slot is then decided, so no later
/// message sends it again. No message forgets a slot, changes its command or
/// forgets an acceptor that accepted it.
pub proof fn lemma_decides_once(c: CommanderView, msg: VerticalPaxosMessage, step: CommanderStep)
    requires
        message_step(c, msg, step),
    ensures
        step matches CommanderStep::ToReplicas { msg: m, .. } ==> (m matches VerticalPaxosMessage::ACCEPTED {
            pvalue: v,
            ..
        } && c.pending.contains_key(v@.slot) && !c.pending[v@.slot].decided && after_message(
            c,
            msg,
        ).pending[v@.slot].decided && c.write_quorum.subset_of(
            after_message(c, msg).pending[v@.slot].acceptor_acks,
        )),
        after_message(c, msg).pending.dom() == c.pending.dom(),
        pending_kept(c.pending, after_message(c, msg).pending),
{
    if let VerticalPaxosMessage::P2B { from, ballot, pvalue, .. } = msg {
        let slot = pvalue@.slot;
        if c.pending.contains_key(slot) {
            PValue::lemma_of_view(slot, c.ballot, counted(c, from, slot).0.cmd);
        }
    }
}

impl Commander {
    pub fn new(
        id: NodeId,
        ballot: Ballot,
        write_quorum: &Vec<NodeId>,
        replicas: &Vec<NodeId>,
        proposals: &SlotMap<PaxosCommand>,
    ) -> (c: Commander)
        ensures
            c@ == commander_initial(
                id,
                ballot,
                write_quorum@.to_set(),
                replicas@.to_set(),
                proposals@,
            ),
    {
        Commander {
            id,
            ballot,
            write_quorum: NodeSet::from_vec(write_quorum),
            replicas: NodeSet::from_vec(replicas),
            pending: fresh_pending(proposals),
        }
    }

    /// Starts driving `cmd` at `slot` and asks for its P2A to go to the write
    /// quorum, unless the slot is already pending.
    pub fn add_pending(&mut self, slot: usize, cmd: PaxosCommand) -> (step: CommanderStep)
        ensures
            final(self)@.id == old(self)@.id,
            final(self)@.ballot == old(self)@.ballot,
            final(self)@.write_quorum == old(self)@.write_quorum,
            final(self)@.replicas == old(self)@.replicas,
            old(self)@.pending.contains_key(slot) ==> final(self)@.pending == old(self)@.pending
                && step is Ignore,
            !old(self)@.pending.contains_key(slot) ==> {
                &&& final(self)@.pending == old(self)@.pending.insert(
                    slot,
                    PendingView {
                        cmd,
                        acceptor_acks: Set::empty(),
                        decided: false,
                        replica_acks: Set::empty(),
                    },
                )
                &&& step matches CommanderStep::ToWriteQuorum { msg, targets }
                &&& msg == VerticalPaxosMessage::P2A {
                    from: old(self)@.id,
                    pvalue: PValue::of(slot, old(self)@.ballot, cmd),
                }
                &&& targets@.to_set() == old(self)@.write_quorum
            },
    {
        proof {
            assert(self.pending@.dom() == self@.pending.dom());
        }
        if self.pending.contains_key(slot) {
            return CommanderStep::Ignore;
        }
        let pvalue = PValue::new(slot, self.ballot, cmd.clone());
        self.pending.insert(slot, PendingSlot::fresh(cmd));
        proof {
            assert(self@.pending =~= old(self)@.pending.insert(
                slot,
                PendingView {
                    cmd,
                    acceptor_acks: Set::empty(),
                    decided: false,
                    replica_acks: Set::empty(),
                },
            ));
        }
        CommanderStep::ToWriteQuorum {
            msg: VerticalPaxosMessage::P2A { from: self.id, pvalue },
            targets: self.write_quorum.to_vec(),
        }
    }

    /// Records that replica `from` applied the decision of `slot`; a decided
    /// slot that every replica has acknowledged is forgotten. Unknown slots are
    /// left alone.
    pub fn record_replica_ack(&mut self, from: NodeId, slot: usize)
        ensures
            final(self)@ == after_replica_ack(old(self)@, from, slot),
    {
        match self.pending.remove(slot) {
            None => {
                proof {
                    assert(self.pending@ =~= old(self).pending@);
                }
            },
            Some(mut entry) => {
                entry.replica_acks.insert(from);
                let replicas = self.replicas.to_vec();
                if entry.decided && entry.replica_acks.contains_all(&replicas) {
                    proof {
                        assert(self@.pending =~= old(self)@.pending.remove(slot));
                    }
                } else {
                    self.pending.insert(slot, entry);
                    proof {
                        assert(self@.pending =~= old(self)@.pending.insert(
                            slot,
                            PendingView {
                                replica_acks: old(self)@.pending[slot].replica_acks.insert(from),
                                ..old(self)@.pending[slot]
                            },
                        ));
                    }
                }
            },
        }
    }

    /// Takes in a P2B: a higher ballot asks the leader to preempt itself; a
    /// P2B that counts (see `p2b_counts`) records the acceptor and, when it
    /// decides the slot, asks for the decision to go to the replicas; anything
    /// else is ignored.
    pub fn handle_message(&mut self, msg: VerticalPaxosMessage) -> (step: CommanderStep)
        ensures
            final(self)@ == after_message(old(self)@, msg),
            message_step(old(self)@, msg, step),
    {
        match msg {
            VerticalPaxosMessage::P2B { from, ballot, pvalue, .. } => {
                if self.ballot.precedes(&ballot) {
                    return CommanderStep::Reply(
                        VerticalPaxosMessage::PREEMPT { from: self.id, to: self.id, ballot },
                    );
                }
                if !ballot.same(&self.ballot) || !self.write_quorum.contains(from) {
                    return CommanderStep::Ignore;
                }
                self.handle_p2b(from, pvalue)
            },
            _ => CommanderStep::Ignore,
        }
    }

    fn handle_p2b(&mut self, from: NodeId, pvalue: PValue) -> (step: CommanderStep)
        requires
            old(self)@.write_quorum.contains(from),
        ensures
            final(self)@.id == old(self)@.id,
            final(self)@.ballot == old(self)@.ballot,
            final(self)@.write_quorum == old(self)@.write_quorum,
            final(self)@.replicas == old(self)@.replicas,
            !old(self)@.pending.contains_key(pvalue@.slot) ==> step is Ignore && final(self)@.pending
                == old(self)@.pending,
            old(self)@.pending.contains_key(pvalue@.slot) ==> {
                let (p, decide) = counted(old(self)@, from, pvalue@.slot);
                &&& final(self)@.pending == old(self)@.pending.insert(pvalue@.slot, p)
                &&& decide ==> (step matches CommanderStep::ToReplicas { msg: m, targets }
                    && m == VerticalPaxosMessage::ACCEPTED {
                    from: old(self)@.id,
                    pvalue: PValue::of(pvalue@.slot, old(self)@.ballot, p.cmd),
                } && targets@.to_set() == old(self)@.replicas)
                &&& !decide ==> step is Ignore
            },
    {
        let slot = pvalue.slot();
        proof {
            assert(self.pending@.dom() == self@.pending.dom());
        }
        match self.pending.remove(slot) {
            None => {
                proof {
                    assert(self.pending@ =~= old(self).pending@);
                }
                CommanderStep::Ignore
            },
            Some(mut entry) => {
                entry.acceptor_acks.insert(from);
                let quorum = self.write_quorum.to_vec();
                let decide = !entry.decided && entry.acceptor_acks.contains_all(&quorum);
                if decide {
                    entry.decided = true;
                }
                let cmd = entry.cmd.clone();
                self.pending.insert(slot, entry);
                proof {
                    assert(self@.pending =~= old(self)@.pending.insert(
                        slot,
                        counted(old(self)@, from, slot).0,
                    ));
                }
                if decide {
                    CommanderStep::ToReplicas {
                        msg: VerticalPaxosMessage::ACCEPTED {
                            from: self.id,
                            pvalue: PValue::new(slot, self.ballot, cmd),
                        },
                        targets: self.replicas.to_vec(),
                    }
                } else {
                    CommanderStep::Ignore
                }
            },
        }
    }
}

} // verus!
