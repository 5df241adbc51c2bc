//! The commander's bookkeeping for phase 2: per slot, the command being
//! driven, the acceptors that accepted it, whether it is decided and the
//! replicas that acknowledged the decision.
use vstd::prelude::*;

use crate::ballot::{Ballot, NodeId};
use crate::node::pmmc::message::PmmcMessage;
use crate::node::pvalue::PValue;
use crate::node_set::NodeSet;
use crate::paxos_command::PaxosCommand;
use crate::slot_map::{lemma_listing_map, listing_map, strictly_sorted, SlotMap};

verus! {

pub struct PendingSlot {
    pub cmd: PaxosCommand,
    pub acceptor_acks: NodeSet,
    pub decided: bool,
    pub replica_acks: NodeSet,
}

pub struct PendingView {
    pub cmd: PaxosCommand,
    pub acceptor_acks: Set<NodeId>,
    pub decided: bool,
    pub replica_acks: Set<NodeId>,
}

impl View for PendingSlot {
    type V = PendingView;

    open spec fn view(&self) -> PendingView {
        PendingView {
            cmd: self.cmd,
            acceptor_acks: self.acceptor_acks@,
            decided: self.decided,
            replica_acks: self.replica_acks@,
        }
    }
}

impl PendingSlot {
    /// A slot that nobody has acknowledged yet.
    pub fn fresh(cmd: PaxosCommand) -> (p: PendingSlot)
        ensures
            p@ == (PendingView {
                cmd,
                acceptor_acks: Set::empty(),
                decided: false,
                replica_acks: Set::empty(),
            }),
    {
        PendingSlot { cmd, acceptor_acks: NodeSet::new(), decided: false, replica_acks: NodeSet::new() }
    }
}

pub open spec fn pending_views(m: Map<usize, PendingSlot>) -> Map<usize, PendingView> {
    m.map_values(|p: PendingSlot| p@)
}

pub open spec fn fresh_views(m: Map<usize, PaxosCommand>) -> Map<usize, PendingView> {
    m.map_values(
        |c: PaxosCommand|
            PendingView {
                cmd: c,
                acceptor_acks: Set::empty(),
                decided: false,
                replica_acks: Set::empty(),
            },
    )
}

/// One step of a commander tick.
/// A pending slot, acknowledged by nobody, for each stored proposal.
pub fn fresh_pending(store: &SlotMap<PaxosCommand>) -> (r: SlotMap<PendingSlot>)
    ensures
        pending_views(r@) == fresh_views(store@),
{
    let mut proposals: SlotMap<PendingSlot> = SlotMap::new();
    let mut i: usize = 0;
    store.lemma_listing();
    while i < store.len()
        invariant
            i <= store.listing().len(),
            pending_views(proposals@) == fresh_views(
                crate::slot_map::listing_map(store.listing().take(i as int)),
            ),
            crate::slot_map::strictly_sorted(store.listing()),
        decreases store.listing().len() - i,
    {
        let entry = store.entry_at(i);
        let ghost prev = proposals@;
        let fresh = PendingSlot::fresh(entry.1.clone());
        let ghost fv = fresh@;
        proposals.insert(entry.0, fresh);
        proof {
            crate::slot_map::lemma_listing_map_take(store.listing(), i as int);
            let m0 = crate::slot_map::listing_map(store.listing().take(i as int));
            assert(fresh_views(m0.insert(entry.0, entry.1)) =~= fresh_views(m0).insert(
                entry.0,
                fv,
            ));
            assert(pending_views(proposals@) =~= pending_views(prev).insert(entry.0, fv));
        }
        i = i + 1;
    }
    proof {
        assert(store.listing().take(i as int) =~= store.listing());
    }
    proposals
}

pub enum PlanStep {
    /// Send the decision again to the replicas that have not acknowledged it.
    Resend { slot: usize, cmd: PaxosCommand, to: Set<NodeId> },
    /// Broadcast phase 2a again.
    Propose { slot: usize, cmd: PaxosCommand },
}

/// A tick of the commander: for each pending slot in slot order, a decided
/// slot is resent to its unacknowledging replicas (if any are left) and an
/// undecided one is proposed again.
pub open spec fn tick_plan(listing: Seq<(usize, PendingSlot)>, replicas: Set<NodeId>) -> Seq<
    PlanStep,
>
    decreases listing.len(),
{
    if listing.len() == 0 {
        Seq::empty()
    } else {
        let rest = tick_plan(listing.drop_last(), replicas);
        let (slot, p) = listing.last();
        if p.decided {
            let unsent = replicas.difference(p.replica_acks@);
            if unsent != Set::<NodeId>::empty() {
                rest.push(PlanStep::Resend { slot, cmd: p.cmd, to: unsent })
            } else {
                rest
            }
        } else {
            rest.push(PlanStep::Propose { slot, cmd: p.cmd })
        }
    }
}

/// What a tick does for one pending slot: an undecided slot is proposed
/// again, a decided one is resent to the replicas that have not acknowledged
/// it, if there are any; otherwise nothing.
pub open spec fn slot_step(slot: usize, p: PendingSlot, replicas: Set<NodeId>) -> Option<PlanStep> {
    if p.decided {
        let unsent = replicas.difference(p.replica_acks@);
        if unsent != Set::<NodeId>::empty() {
            Some(PlanStep::Resend { slot, cmd: p.cmd, to: unsent })
        } else {
            None
        }
    } else {
        Some(PlanStep::Propose { slot, cmd: p.cmd })
    }
}

/// A tick's plan holds exactly the step of each pending slot that has one:
/// every step comes from a pending slot, and every pending slot with a step
/// has it in the plan, in the slots' order.
pub proof fn lemma_tick_plan_per_slot(listing: Seq<(usize, PendingSlot)>, replicas: Set<NodeId>)
    ensures
        forall|k: int|
            #![trigger tick_plan(listing, replicas)[k]]
            0 <= k < tick_plan(listing, replicas).len() ==> exists|i: int|
                0 <= i < listing.len() && #[trigger] slot_step(listing[i].0, listing[i].1, replicas)
                    == Some(tick_plan(listing, replicas)[k]),
        forall|i: int|
            0 <= i < listing.len() && (#[trigger] slot_step(listing[i].0, listing[i].1, replicas))
                is Some ==> exists|k: int|
                0 <= k < tick_plan(listing, replicas).len() && tick_plan(listing, replicas)[k]
                    == slot_step(listing[i].0, listing[i].1, replicas)->0,
    decreases listing.len(),
{
    if listing.len() > 0 {
        let rest = listing.drop_last();
        lemma_tick_plan_per_slot(rest, replicas);
        let plan = tick_plan(listing, replicas);
        let prev = tick_plan(rest, replicas);
        let last = listing.len() - 1;
        assert forall|k: int| #![trigger plan[k]] 0 <= k < plan.len() implies exists|i: int|
            0 <= i < listing.len() && #[trigger] slot_step(listing[i].0, listing[i].1, replicas)
                == Some(plan[k]) by {
            if k < prev.len() {
                assert(plan[k] == prev[k]);
                let i = choose|i: int|
                    0 <= i < rest.len() && #[trigger] slot_step(rest[i].0, rest[i].1, replicas)
                        == Some(prev[k]);
                assert(listing[i] == rest[i]);
            } else {
                assert(slot_step(listing[last].0, listing[last].1, replicas) == Some(plan[k]));
            }
        }
        assert forall|i: int|
            0 <= i < listing.len() && (#[trigger] slot_step(listing[i].0, listing[i].1, replicas))
                is Some implies exists|k: int|
            0 <= k < plan.len() && plan[k] == slot_step(listing[i].0, listing[i].1, replicas)->0 by {
            if i < last {
                assert(listing[i] == rest[i]);
                assert(slot_step(rest[i].0, rest[i].1, replicas) is Some);
                let k = choose|k: int|
                    0 <= k < prev.len() && prev[k] == slot_step(rest[i].0, rest[i].1, replicas)->0;
                assert(plan[k] == prev[k]);
            } else {
                assert(plan[plan.len() - 1] == slot_step(listing[i].0, listing[i].1, replicas)->0);
            }
        }
    }
}

/// A pending slot that is not decided yet is proposed again at the next
/// tick, with its command; a decided one that some replica has not
/// acknowledged is resent to exactly those replicas.
pub proof fn lemma_tick_covers_pending(
    listing: Seq<(usize, PendingSlot)>,
    pending: Map<usize, PendingView>,
    replicas: Set<NodeId>,
    slot: usize,
)
    requires
        strictly_sorted(listing),
        pending_views(listing_map(listing)) == pending,
        pending.contains_key(slot),
    ensures
        !pending[slot].decided ==> tick_plan(listing, replicas).contains(
            PlanStep::Propose { slot, cmd: pending[slot].cmd },
        ),
        pending[slot].decided && replicas.difference(pending[slot].replica_acks) != Set::<
            NodeId,
        >::empty() ==> tick_plan(listing, replicas).contains(
            PlanStep::Resend {
                slot,
                cmd: pending[slot].cmd,
                to: replicas.difference(pending[slot].replica_acks),
            },
        ),
{
    lemma_listing_map(listing);
    lemma_tick_plan_per_slot(listing, replicas);
    assert(listing_map(listing).contains_key(slot));
    let i = choose|i: int| 0 <= i < listing.len() && listing[i].0 == slot;
    assert(listing_map(listing)[slot] == listing[i].1);
    assert(pending[slot] == listing[i].1@);
    let st = slot_step(listing[i].0, listing[i].1, replicas);
    if st is Some {
        let k = choose|k: int|
            0 <= k < tick_plan(listing, replicas).len() && tick_plan(listing, replicas)[k] == st->0;
        assert(tick_plan(listing, replicas)[k] == st->0);
    }
}

#[derive(Debug)]
pub enum CommanderAction {
    Resend { slot: usize, cmd: PaxosCommand, to: Vec<NodeId> },
    Propose { slot: usize, cmd: PaxosCommand },
}

impl View for CommanderAction {
    type V = PlanStep;

    open spec fn view(&self) -> PlanStep {
        match self {
            CommanderAction::Resend { slot, cmd, to } => PlanStep::Resend {
                slot: *slot,
                cmd: *cmd,
                to: to@.to_set(),
            },
            CommanderAction::Propose { slot, cmd } => PlanStep::Propose { slot: *slot, cmd: *cmd },
        }
    }
}

pub open spec fn action_views(s: Seq<CommanderAction>) -> Seq<PlanStep> {
    s.map_values(|a: CommanderAction| a@)
}

pub struct CommanderState {
    ballot: Ballot,
    quorum: usize,
    id: NodeId,
    replicas: NodeSet,
    proposals: SlotMap<PendingSlot>,
    stopped: bool,
}

impl CommanderState {
    pub closed spec fn ballot(&self) -> Ballot {
        self.ballot
    }

    pub closed spec fn quorum(&self) -> usize {
        self.quorum
    }

    pub closed spec fn id(&self) -> NodeId {
        self.id
    }

    pub closed spec fn replicas(&self) -> Set<NodeId> {
        self.replicas@
    }

    /// Slot -> pending proposal.
    pub closed spec fn pending(&self) -> Map<usize, PendingView> {
        pending_views(self.proposals@)
    }

    pub closed spec fn pending_listing(&self) -> Seq<(usize, PendingSlot)> {
        self.proposals.listing()
    }

    /// The listing holds the pending slots, one entry per slot, in slot order.
    pub open spec fn linked(&self) -> bool {
        &&& strictly_sorted(self.pending_listing())
        &&& pending_views(listing_map(self.pending_listing())) == self.pending()
    }

    /// The listing holds the pending slots in slot order.
    pub fn lemma_linked(&self)
        ensures
            self.linked(),
    {
        self.proposals.lemma_listing();
    }

    pub closed spec fn stopped(&self) -> bool {
        self.stopped
    }

    pub open spec fn unchanged_but_pending(&self, other: &CommanderState) -> bool {
        &&& self.ballot() == other.ballot()
        &&& self.quorum() == other.quorum()
        &&& self.id() == other.id()
        &&& self.replicas() == other.replicas()
        &&& self.stopped() == other.stopped()
    }

    /// A commander for `ballot` driving every proposal of `store`.
    pub fn new(
        id: NodeId,
        ballot: Ballot,
        quorum: usize,
        replicas: Vec<NodeId>,
        store: SlotMap<PaxosCommand>,
    ) -> (s: CommanderState)
        ensures
            s.id() == id,
            s.ballot() == ballot,
            s.quorum() == quorum,
            s.replicas() == replicas@.to_set(),
            s.pending() == fresh_views(store@),
            !s.stopped(),
    {
        let proposals = fresh_pending(&store);
        CommanderState {
            ballot,
            id,
            quorum,
            replicas: NodeSet::from_vec(&replicas),
            proposals,
            stopped: false,
        }
    }

    pub fn stop(&mut self)
        ensures
            final(self).stopped(),
            final(self).pending() == old(self).pending(),
            final(self).ballot() == old(self).ballot(),
            final(self).quorum() == old(self).quorum(),
            final(self).id() == old(self).id(),
            final(self).replicas() == old(self).replicas(),
    {
        self.stopped = true;
    }

    pub fn is_stopped(&self) -> (b: bool)
        ensures
            b == self.stopped(),
    {
        self.stopped
    }

    /// Counts `acceptor`'s acceptance of the slot of `pvalue`. The first time a
    /// quorum of distinct acceptors is reached the slot is decided and the
    /// decision (under the commander's ballot) is returned; unknown slots and
    /// every other case give nothing.
    pub fn process(&mut self, acceptor: NodeId, pvalue: PValue) -> (r: Option<PmmcMessage>)
        ensures
            final(self).unchanged_but_pending(old(self)),
            !old(self).pending().contains_key(pvalue@.slot) ==> r is None && final(self).pending()
                == old(self).pending(),
            old(self).pending().contains_key(pvalue@.slot) ==> ({
                let p = old(self).pending()[pvalue@.slot];
                let acks = p.acceptor_acks.insert(acceptor);
                let decide = !p.decided && acks.len() >= old(self).quorum();
                &&& final(self).pending() == old(self).pending().insert(
                    pvalue@.slot,
                    PendingView {
                        cmd: p.cmd,
                        acceptor_acks: acks,
                        decided: p.decided || decide,
                        replica_acks: p.replica_acks,
                    },
                )
                &&& decide ==> r == Some(
                    PmmcMessage::ACCEPTED {
                        from: old(self).id(),
                        pvalue: PValue::of(pvalue@.slot, old(self).ballot(), p.cmd),
                    },
                )
                &&& !decide ==> r is None
            }),
    {
        let slot = pvalue.slot();
        proof {
            assert(self.proposals@.dom() == self.pending().dom());
        }
        match self.proposals.remove(slot) {
            None => {
                proof {
                    assert(self.proposals@ =~= old(self).proposals@);
                }
                None
            },
            Some(mut pending) => {
                pending.acceptor_acks.insert(acceptor);
                let ack_count = pending.acceptor_acks.len();
                let decide = !pending.decided && ack_count >= self.quorum;
                if decide {
                    pending.decided = true;
                }
                let cmd = pending.cmd.clone();
                self.proposals.insert(slot, pending);
                proof {
                    assert(self.pending() =~= old(self).pending().insert(
                        slot,
                        PendingView {
                            cmd: old(self).pending()[slot].cmd,
                            acceptor_acks: old(self).pending()[slot].acceptor_acks.insert(acceptor),
                            decided: old(self).pending()[slot].decided || decide,
                            replica_acks: old(self).pending()[slot].replica_acks,
                        },
                    ));
                }
                if decide {
                    Some(
                        PmmcMessage::ACCEPTED {
                            from: self.id,
                            pvalue: PValue::new(slot, self.ballot, cmd),
                        },
                    )
                } else {
                    None
                }
            },
        }
    }

    /// Records that replica `from` applied the decision of `slot`; once every
    /// replica has, the slot is forgotten. Undecided and unknown slots are
    /// left alone.
    pub fn record_replica_ack(&mut self, from: NodeId, slot: usize)
        ensures
            final(self).unchanged_but_pending(old(self)),
            !old(self).pending().contains_key(slot) || !old(self).pending()[slot].decided
                ==> final(self).pending() == old(self).pending(),
            old(self).pending().contains_key(slot) && old(self).pending()[slot].decided ==> ({
                let p = old(self).pending()[slot];
                let acks = p.replica_acks.insert(from);
                if old(self).replicas().subset_of(acks) {
                    final(self).pending() == old(self).pending().remove(slot)
                } else {
                    final(self).pending() == old(self).pending().insert(
                        slot,
                        PendingView { replica_acks: acks, ..p },
                    )
                }
            }),
    {
        match self.proposals.remove(slot) {
            None => {
                proof {
                    assert(self.proposals@ =~= old(self).proposals@);
                }
            },
            Some(mut pending) => {
                if !pending.decided {
                    self.proposals.insert(slot, pending);
                    proof {
                        assert(self.proposals@ =~= old(self).proposals@);
                    }
                    return ;
                }
                pending.replica_acks.insert(from);
                let replicas = self.replicas.to_vec();
                if pending.replica_acks.contains_all(&replicas) {
                    proof {
                        assert(self.pending() =~= old(self).pending().remove(slot));
                    }
                } else {
                    self.proposals.insert(slot, pending);
                    proof {
                        assert(self.pending() =~= old(self).pending().insert(
                            slot,
                            PendingView {
                                replica_acks: old(self).pending()[slot].replica_acks.insert(from),
                                ..old(self).pending()[slot]
                            },
                        ));
                    }
                }
            },
        }
    }

    /// The command pending at `slot`, if any.
    pub fn pending_cmd(&self, slot: usize) -> (r: Option<PaxosCommand>)
        ensures
            match r {
                Some(c) => self.pending().contains_key(slot) && c == self.pending()[slot].cmd,
                None => !self.pending().contains_key(slot),
            },
    {
        proof {
            assert(self.proposals@.dom() == self.pending().dom());
        }
        match self.proposals.get(slot) {
            Some(p) => Some(p.cmd.clone()),
            None => None,
        }
    }

    /// Starts driving `cmd` at `slot`, unless the slot is already pending.
    pub fn add_pending(&mut self, slot: usize, cmd: PaxosCommand)
        ensures
            final(self).unchanged_but_pending(old(self)),
            old(self).pending().contains_key(slot) ==> final(self).pending() == old(self).pending(),
            !old(self).pending().contains_key(slot) ==> final(self).pending() == old(self).pending().insert(
                slot,
                PendingView {
                    cmd,
                    acceptor_acks: Set::empty(),
                    decided: false,
                    replica_acks: Set::empty(),
                },
            ),
    {
        proof {
            assert(self.proposals@.dom() == self.pending().dom());
        }
        if self.proposals.contains_key(slot) {
            return ;
        }
        self.proposals.insert(slot, PendingSlot::fresh(cmd));
        proof {
            assert(self.pending() =~= old(self).pending().insert(
                slot,
                PendingView {
                    cmd,
                    acceptor_acks: Set::empty(),
                    decided: false,
                    replica_acks: Set::empty(),
                },
            ));
        }
    }

    /// What one tick of the commander sends.
    pub fn tick_actions(&self) -> (v: Vec<CommanderAction>)
        ensures
            action_views(v@) == tick_plan(self.pending_listing(), self.replicas()),
            self.linked(),
    {
        self.proposals.lemma_listing();
        let mut out: Vec<CommanderAction> = Vec::new();
        let mut i: usize = 0;
        while i < self.proposals.len()
            invariant
                i <= self.proposals.listing().len(),
                action_views(out@) == tick_plan(
                    self.proposals.listing().take(i as int),
                    self.replicas@,
                ),
            decreases self.proposals.listing().len() - i,
        {
            let entry = self.proposals.entry_at(i);
            let ghost before = out@;
            proof {
                assert(self.proposals.listing().take(i + 1).drop_last() =~= self.proposals.listing().take(
                    i as int,
                ));
                assert(self.proposals.listing().take(i + 1).last() == self.proposals.listing()[i as int]);
            }
            if entry.1.decided {
                let unsent = self.replicas.missing_from(&entry.1.replica_acks);
                if unsent.len() > 0 {
                    out.push(CommanderAction::Resend { slot: entry.0, cmd: entry.1.cmd.clone(), to: unsent });
                    proof {
                        assert(action_views(out@) =~= action_views(before).push(out@.last()@));
                    }
                }
            } else {
                out.push(CommanderAction::Propose { slot: entry.0, cmd: entry.1.cmd.clone() });
                proof {
                    assert(action_views(out@) =~= action_views(before).push(out@.last()@));
                }
            }
            i = i + 1;
        }
        proof {
            assert(self.proposals.listing().take(i as int) =~= self.proposals.listing());
        }
        out
    }

    /// The message a tick action sends: the decision to the listed replicas,
    /// or phase 2a to every acceptor.
    pub fn action_message(&self, action: &CommanderAction) -> (m: PmmcMessage)
        ensures
            match action {
                CommanderAction::Resend { slot, cmd, .. } => m == (PmmcMessage::ACCEPTED {
                    from: self.id(),
                    pvalue: PValue::of(*slot, self.ballot(), *cmd),
                }),
                CommanderAction::Propose { slot, cmd } => m == (PmmcMessage::P2A {
                    from: self.id(),
                    pvalue: PValue::of(*slot, self.ballot(), *cmd),
                }),
            },
    {
        match action {
            CommanderAction::Resend { slot, cmd, .. } => PmmcMessage::ACCEPTED {
                from: self.id,
                pvalue: PValue::new(*slot, self.ballot, cmd.clone()),
            },
            CommanderAction::Propose { slot, cmd } => PmmcMessage::P2A {
                from: self.id,
                pvalue: PValue::new(*slot, self.ballot, cmd.clone()),
            },
        }
    }
}

} // verus!
