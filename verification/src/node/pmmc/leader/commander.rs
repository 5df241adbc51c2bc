//! The commander runs phase 2 for the leader's ballot: it answers P2B
//! messages and, on every tick of its timer, says what to resend.
use vstd::prelude::*;

use crate::ballot::{Ballot, NodeId};
use crate::node::pmmc::leader::commander::state::{
    CommanderAction, CommanderState, PendingView, fresh_views,
};
use crate::node::pmmc::message::PmmcMessage;
use crate::node::pvalue::PValue;
use crate::paxos_command::PaxosCommand;
use crate::slot_map::SlotMap;

pub mod state;

verus! {

/// Every slot driven before is driven after with the same command, keeps the
/// acceptors that accepted it, and stays decided once decided.
pub open spec fn pending_kept(before: Map<usize, PendingView>, after: Map<usize, PendingView>) -> bool {
    forall|slot: usize| #[trigger]
        before.contains_key(slot) ==> after.contains_key(slot) && after[slot].cmd == before[slot].cmd
            && before[slot].acceptor_acks.subset_of(after[slot].acceptor_acks) && (
        before[slot].decided ==> after[slot].decided)
}

/// The commander after it was asked to drive `cmd` at `slot`: a slot not yet
/// pending starts out acknowledged by nobody; a pending one keeps its command.
pub open spec fn add_pending_step(before: Commander, after: Commander, slot: usize, cmd: PaxosCommand) -> bool {
    &&& after.id() == before.id()
    &&& after.ballot() == before.ballot()
    &&& after.state().unchanged_but_pending(before.state())
    &&& before.state().pending().contains_key(slot) ==> after.state().pending()
        == before.state().pending()
    &&& !before.state().pending().contains_key(slot) ==> after.state().pending()
        == before.state().pending().insert(
        slot,
        PendingView { cmd, acceptor_acks: Set::empty(), decided: false, replica_acks: Set::empty() },
    )
}

/// The commander after replica `from` acknowledged the decision of `slot`:
/// the acknowledgement of a decided slot is recorded, and the slot is dropped
/// once every replica has acknowledged it; anything else changes nothing.
pub open spec fn replica_ack_step(before: Commander, after: Commander, from: NodeId, slot: usize) -> bool {
    &&& after.id() == before.id()
    &&& after.ballot() == before.ballot()
    &&& after.state().unchanged_but_pending(before.state())
    &&& !before.state().pending().contains_key(slot) || !before.state().pending()[slot].decided
        ==> after.state().pending() == before.state().pending()
    &&& before.state().pending().contains_key(slot) && before.state().pending()[slot].decided
        ==> ({
        let p = before.state().pending()[slot];
        let acks = p.replica_acks.insert(from);
        if before.state().replicas().subset_of(acks) {
            after.state().pending() == before.state().pending().remove(slot)
        } else {
            after.state().pending() == before.state().pending().insert(
                slot,
                PendingView { replica_acks: acks, ..p },
            )
        }
    })
}

/// One answer of the commander to `msg`, from `before` to `after` with
/// answer `r`: a P2B of a higher ballot preempts it and changes nothing; one
/// of its own ballot for a pending slot counts the acceptor and answers
/// ACCEPTED when that decides the slot; anything else is ignored.
pub open spec fn commander_step(before: Commander, after: Commander, msg: PmmcMessage, r: Option<PmmcMessage>) -> bool {
    match msg {
        PmmcMessage::P2B { from, ballot, pvalue, .. } => if before.ballot().less(ballot) {
            r == Some(PmmcMessage::PREEMPT { from: before.id(), to: before.id(), ballot }) && after
                == before
        } else if ballot == before.ballot() {
            &&& after.id() == before.id()
            &&& after.ballot() == before.ballot()
            &&& after.state().unchanged_but_pending(before.state())
            &&& !before.state().pending().contains_key(pvalue@.slot) ==> r is None
                && after.state().pending() == before.state().pending()
            &&& before.state().pending().contains_key(pvalue@.slot) ==> ({
                let p = before.state().pending()[pvalue@.slot];
                let acks = p.acceptor_acks.insert(from);
                let decide = !p.decided && acks.len() >= before.state().quorum();
                &&& after.state().pending() == before.state().pending().insert(
                    pvalue@.slot,
                    PendingView {
                        cmd: p.cmd,
                        acceptor_acks: acks,
                        decided: p.decided || decide,
                        replica_acks: p.replica_acks,
                    },
                )
                &&& decide ==> r == Some(
                    PmmcMessage::ACCEPTED {
                        from: before.id(),
                        pvalue: PValue::of(pvalue@.slot, before.ballot(), p.cmd),
                    },
                )
                &&& !decide ==> r is None
            })
        } else {
            r is None && after == before
        },
        _ => r is None && after == before,
    }
}

/// A stopped commander stays stopped whatever it takes in afterwards (a
/// P2B, a replica's acknowledgement, a new proposal), so each of its later
/// ticks sends nothing.
pub proof fn lemma_stopped_stays_stopped(
    c1: Commander,
    c2: Commander,
    msg: PmmcMessage,
    r: Option<PmmcMessage>,
    from: NodeId,
    slot: usize,
    cmd: PaxosCommand,
)
    requires
        c1.state().stopped(),
        commander_step(c1, c2, msg, r) || replica_ack_step(c1, c2, from, slot) || add_pending_step(
            c1,
            c2,
            slot,
            cmd,
        ),
    ensures
        c2.state().stopped(),
{
}

pub struct Commander {
    uuid: NodeId,
    ballot: Ballot,
    state: CommanderState,
}

impl Commander {
    pub closed spec fn id(&self) -> NodeId {
        self.uuid
    }

    pub closed spec fn ballot(&self) -> Ballot {
        self.ballot
    }

    pub closed spec fn state(&self) -> &CommanderState {
        &self.state
    }

    pub open spec fn wf(&self) -> bool {
        self.state().ballot() == self.ballot() && self.state().id() == self.id()
    }

    pub fn new(
        uuid: NodeId,
        quorum: usize,
        ballot: Ballot,
        replicas: Vec<NodeId>,
        proposals: SlotMap<PaxosCommand>,
    ) -> (c: Commander)
        ensures
            c.wf(),
            c.id() == uuid,
            c.ballot() == ballot,
            c.state().quorum() == quorum,
            c.state().replicas() == replicas@.to_set(),
            c.state().pending() == fresh_views(proposals@),
            !c.state().stopped(),
    {
        let state = CommanderState::new(uuid, ballot, quorum, replicas, proposals);
        Commander { uuid, ballot, state }
    }

    pub fn add_pending(&mut self, slot: usize, cmd: PaxosCommand)
        requires
            old(self).wf(),
        ensures
            final(self).wf(),
            final(self).id() == old(self).id(),
            final(self).ballot() == old(self).ballot(),
            add_pending_step(*old(self), *final(self), slot, cmd),
    {
        self.state.add_pending(slot, cmd)
    }

    pub fn record_replica_ack(&mut self, from: NodeId, slot: usize)
        requires
            old(self).wf(),
        ensures
            final(self).wf(),
            final(self).id() == old(self).id(),
            final(self).ballot() == old(self).ballot(),
            replica_ack_step(*old(self), *final(self), from, slot),
    {
        self.state.record_replica_ack(from, slot);
    }

    pub fn stop(&mut self)
        requires
            old(self).wf(),
        ensures
            final(self).wf(),
            final(self).id() == old(self).id(),
            final(self).ballot() == old(self).ballot(),
            final(self).state().stopped(),
            final(self).state().pending() == old(self).state().pending(),
    {
        self.state.stop();
    }

    pub fn is_stopped(&self) -> (b: bool)
        ensures
            b == self.state().stopped(),
    {
        self.state.is_stopped()
    }

    /// What one tick of the commander's timer sends.
    pub fn tick_actions(&self) -> (v: Vec<CommanderAction>)
        ensures
            crate::node::pmmc::leader::commander::state::action_views(v@)
                == crate::node::pmmc::leader::commander::state::tick_plan(
                self.state().pending_listing(),
                self.state().replicas(),
            ),
            self.state().linked(),
    {
        self.state.tick_actions()
    }

    /// What the commander's timer does on a tick: a stopped commander ends
    /// its loop and sends nothing; a running one sends what `tick_actions`
    /// gives.
    pub fn tick(&self) -> (r: Option<Vec<CommanderAction>>)
        ensures
            self.state().stopped() ==> r is None,
            !self.state().stopped() ==> (r matches Some(v)
                && crate::node::pmmc::leader::commander::state::action_views(v@)
                == crate::node::pmmc::leader::commander::state::tick_plan(
                self.state().pending_listing(),
                self.state().replicas(),
            )),
            self.state().linked(),
    {
        self.state.lemma_linked();
        if self.state.is_stopped() {
            None
        } else {
            Some(self.state.tick_actions())
        }
    }

    pub fn action_message(&self, action: &CommanderAction) -> (m: PmmcMessage)
        requires
            self.wf(),
        ensures
            match action {
                CommanderAction::Resend { slot, cmd, .. } => m == (PmmcMessage::ACCEPTED {
                    from: self.id(),
                    pvalue: PValue::of(*slot, self.ballot(), *cmd),
                }),
                CommanderAction::Propose { slot, cmd } => m == (PmmcMessage::P2A {
                    from: self.id(),
                    pvalue: PValue::of(*slot, self.ballot(), *cmd),
                }),
            },
    {
        self.state.action_message(action)
    }

    /// A P2B of a higher ballot preempts the commander; one of its own ballot
    /// is counted; a lower one is ignored. Other messages get no answer.
    pub fn handle_message(&mut self, msg: PmmcMessage) -> (r: Option<PmmcMessage>)
        requires
            old(self).wf(),
        ensures
            final(self).wf(),
            final(self).id() == old(self).id(),
            final(self).ballot() == old(self).ballot(),
            final(self).state().unchanged_but_pending(old(self).state()),
            final(self).state().pending().dom() == old(self).state().pending().dom(),
            pending_kept(old(self).state().pending(), final(self).state().pending()),
            r matches Some(PmmcMessage::ACCEPTED { pvalue: v, .. }) ==> {
                &&& old(self).state().pending().contains_key(v@.slot)
                &&& !old(self).state().pending()[v@.slot].decided
                &&& final(self).state().pending()[v@.slot].decided
                &&& final(self).state().pending()[v@.slot].acceptor_acks.len()
                    >= final(self).state().quorum()
            },
            commander_step(*old(self), *final(self), msg, r),
    {
        match msg {
            PmmcMessage::P2B { from, ballot, pvalue, .. } => {
                if self.ballot.precedes(&ballot) {
                    return Some(PmmcMessage::PREEMPT { from: self.uuid, to: self.uuid, ballot });
                }
                if self.ballot.same(&ballot) {
                    let ghost slot = pvalue@.slot;
                    let r = self.state.process(from, pvalue);
                    proof {
                        if old(self).state().pending().contains_key(slot) {
                            PValue::lemma_of_view(
                                slot,
                                old(self).ballot(),
                                old(self).state().pending()[slot].cmd,
                            );
                        }
                    }
                    return r;
                }
                None
            },
            _ => None,
        }
    }
}

} // verus!
