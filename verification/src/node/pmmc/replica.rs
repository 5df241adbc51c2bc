//! The PMMC replica: proposes client commands, learns decisions, and
//! executes them in slot order on the key-value store, answering clients.
use vstd::prelude::*;

use crate::ballot::NodeId;
use crate::configuration::ConfigurationStrategy;
use crate::message::ClientMessage;
use crate::node::pmmc::message::PmmcMessage;
use crate::node::pmmc::replica::replica_state::durable::{
    ProposalPolicy,
    ReconfigurationStrategyInEffect,
    ReplicaDurable,
};
use crate::node::pmmc::replica::replica_state::{
    learned_step,
    state_learned,
    ReplicaAdmissionOutcome,
    ReplicaState,
};
use crate::node::pvalue::PValue;
use crate::paxos_command::{ClientId, PaxosCommand};
use crate::rsm::checkpoint::{CheckpointManifest, CheckpointState, ManifestView, RsmCheckpoint};
use crate::rsm::kv_store::{apply_outcome, op_fits, KVStore, ReplyOutcome};
use crate::node::pmmc::replica::replica_state::durable::dedup_watermark_of;

pub mod replica_state;

verus! {

/// What admitting a client command leaves in the replica's state: a command
/// that finds room is recorded as the proposal of the next slot, which then
/// moves on by one, and marked pending in the cache; a command that finds the
/// in-flight limit reached is queued and marked pending; a cached request or
/// a stopped replica changes nothing.
pub open spec fn admission_recorded(before: ReplicaState, after: ReplicaState, cmd: PaxosCommand) -> bool {
    let d = before.durable();
    let cached = match cmd@.client_identity() {
        Some(key) => d.cache_map().contains_key(key),
        None => false,
    };
    if cached || d.policy() == ProposalPolicy::RejectStopped {
        after == before
    } else if d.alpha() < d.proposal_listing().len() {
        &&& after.queue() == before.queue().push(cmd)
        &&& after.durable().cache_map() == ReplicaDurable::cache_with_pending(d.cache_map(), cmd)
        &&& after.durable().proposal_map() == d.proposal_map()
        &&& after.durable().next_slot() == d.next_slot()
    } else {
        let admitted = d.admitted_form(cmd);
        &&& after.queue() == before.queue()
        &&& after.durable().proposal_map() == d.proposal_map().insert(d.next_slot(), admitted)
        &&& after.durable().cache_map() == ReplicaDurable::cache_with_pending(d.cache_map(), admitted)
        &&& after.durable().next_slot() == d.next_slot() + 1
    }
}

/// A request submitted again with the same client identity is not proposed
/// again: after the first submission the identity is cached (pending or
/// answered) or the replica refuses proposals, so the second submission
/// leaves the replica as the first left it, consuming no slot. (Under the
/// padding rule a post-stop command is replaced by a NOOP, which carries no
/// identity, so that case is left out.)
pub proof fn lemma_repeated_request_not_reproposed(
    s0: ReplicaState,
    s1: ReplicaState,
    s2: ReplicaState,
    cmd: PaxosCommand,
    again: PaxosCommand,
)
    requires
        cmd@.client_identity() is Some,
        again@.client_identity() == cmd@.client_identity(),
        s0.durable().in_effect() != ReconfigurationStrategyInEffect::Padding,
        admission_recorded(s0, s1, cmd),
        admission_recorded(s1, s2, again),
        s1.durable().same_config(s0.durable()),
        s1.durable().stop_slot_spec() == s0.durable().stop_slot_spec(),
    ensures
        s2 == s1,
{
    let key = cmd@.client_identity()->0;
    if s1.durable().cache_map().contains_key(key) {
    } else {
        assert(s1 == s0);
    }
}

/// A replica that has learned the decision of `slot` proposes its next
/// admitted client command above that slot: learning leaves the proposal
/// slot above every learned slot, and admission records the command at the
/// proposal slot and moves it on by one.
pub proof fn lemma_admits_above_learned(
    s0: ReplicaState,
    s1: ReplicaState,
    s2: ReplicaState,
    pvalue: PValue,
    cmd: PaxosCommand,
)
    requires
        learned_step(s0.durable(), s1.durable(), pvalue),
        admission_recorded(s1, s2, cmd),
        cmd@.client_identity() matches Some(key) ==> !s1.durable().cache_map().contains_key(key),
        s1.durable().policy() != ProposalPolicy::RejectStopped,
        !(s1.durable().alpha() < s1.durable().proposal_listing().len()),
    ensures
        pvalue@.slot < s1.durable().next_slot(),
        s2.durable().proposal_map().contains_key(s1.durable().next_slot()),
        s2.durable().proposal_map()[s1.durable().next_slot()] == s1.durable().admitted_form(cmd),
        s2.durable().next_slot() == s1.durable().next_slot() + 1,
{
}

/// What a replica sends after admitting a client command.
#[derive(Debug)]
pub struct ClientStep {
    /// The PROPOSE to broadcast.
    pub propose: Option<PmmcMessage>,
    /// An answer for a client: its identity and the message.
    pub reply: Option<(ClientId, ClientMessage)>,
}

/// The outcome of trying to execute the next decision.
#[derive(Debug)]
pub enum ApplyStep {
    /// No decision is known for the next slot.
    Idle,
    /// The store refused the next decision; nothing changed and the replica
    /// stays at this slot.
    Stuck { slot: usize },
    /// The decision of `slot` was executed.
    Applied { slot: usize, cmd: PaxosCommand, response: ReplyOutcome, reply: (ClientId, ClientMessage) },
}

/// The replica after it learned the decision `pvalue`, with answer `r`: the
/// leader of the decision's ballot gets an ACK; a brick wall in effect or an
/// already executed slot changes nothing; otherwise the decision is recorded
/// (see `learned_step`), and a proposal sent on the way is one the replica
/// now holds.
pub open spec fn replica_learn(
    before: Replica,
    after: Replica,
    pvalue: PValue,
    r: (Option<PmmcMessage>, Option<PmmcMessage>),
) -> bool {
    let d = before.state().durable();
    let walled = d.in_effect()
        == crate::node::pmmc::replica::replica_state::durable::ReconfigurationStrategyInEffect::BrickWall;
    &&& after.id() == before.id()
    &&& r.0 == Some(
        PmmcMessage::ACK {
            from: before.id(),
            to: pvalue@.ballot.node_id,
            slot: pvalue@.slot,
        },
    )
    &&& (walled || pvalue@.slot < d.exec_slot()) ==> after == before && r.1 is None
    &&& (!walled && d.exec_slot() <= pvalue@.slot) ==> {
        &&& after.state().durable().decision_map() == d.decision_map().insert(
            pvalue@.slot,
            pvalue.command(),
        )
        &&& learned_step(d, after.state().durable(), pvalue)
    }
    &&& r.1 matches Some(m) ==> (m matches PmmcMessage::PROPOSE { from, slot, cmd }
        && from == before.id()
        && after.state().durable().proposal_map().contains_key(slot)
        && after.state().durable().proposal_map()[slot] == cmd)
    &&& after.store() == before.store()
    &&& exists|o: Option<ReplicaAdmissionOutcome>|
        #![trigger state_learned(*before.state(), *after.state(), pvalue, o)]
        state_learned(*before.state(), *after.state(), pvalue, o) && r.1 == proposal_of(before.id(), o)
}

/// The PROPOSE a replica sends for an admission outcome, if any.
pub open spec fn proposal_of(id: NodeId, o: Option<ReplicaAdmissionOutcome>) -> Option<PmmcMessage> {
    match o {
        Some(ReplicaAdmissionOutcome::Admitted { slot, cmd }) => Some(
            PmmcMessage::PROPOSE { from: id, slot, cmd },
        ),
        _ => None,
    }
}

pub struct Replica {
    uuid: NodeId,
    store: KVStore,
    state: ReplicaState,
}

impl Replica {
    pub closed spec fn id(&self) -> NodeId {
        self.uuid
    }

    pub closed spec fn state(&self) -> &ReplicaState {
        &self.state
    }

    pub closed spec fn store(&self) -> &KVStore {
        &self.store
    }

    pub fn new(
        uuid: NodeId,
        data: ReplicaDurable,
        alpha_max_inflight: usize,
        starting_slot: usize,
        strategy: ConfigurationStrategy,
        store: KVStore,
    ) -> (r: Replica)
        requires
            data.next_slot() == 0,
            data.exec_slot() == 0,
            data.proposal_map() == Map::<usize, PaxosCommand>::empty(),
            data.decision_map() == Map::<usize, PaxosCommand>::empty(),
        ensures
            r.id() == uuid,
            r.store()@ == store@,
            r.state().durable().next_slot() == starting_slot,
            r.state().durable().exec_slot() == starting_slot,
            r.state().durable().alpha() == alpha_max_inflight,
            r.state().durable().strategy_spec() == strategy,
            r.state().durable().stop_slot_spec() == data.stop_slot_spec(),
            r.state().durable().proposal_map() == data.proposal_map(),
            r.state().durable().decision_map() == data.decision_map(),
            r.state().durable().cache_map() == data.cache_map(),
            r.state().queue() == Seq::<PaxosCommand>::empty(),
    {
        Replica { uuid, store, state: ReplicaState::init(data, alpha_max_inflight, starting_slot, strategy) }
    }

    pub fn node_id(&self) -> (r: NodeId)
        ensures
            r == self.id(),
    {
        self.uuid
    }

    pub fn is_stopped(&self) -> (b: bool)
        ensures
            b == (self.state().durable().in_effect()
                != crate::node::pmmc::replica::replica_state::durable::ReconfigurationStrategyInEffect::Inactive),
    {
        self.state.is_stopped()
    }

    pub fn state_handle(&self) -> (s: &ReplicaState)
        ensures
            *s == *self.state(),
    {
        &self.state
    }

    pub fn store_handle(&self) -> (s: &KVStore)
        ensures
            *s == *self.store(),
    {
        &self.store
    }

    pub fn max_inflight_exceeded(&self) -> (b: bool)
        ensures
            b == (self.state().durable().alpha() < self.state().durable().proposal_listing().len()),
    {
        self.state.max_inflight_exceeded()
    }

    /// Whether the slot counters leave room to learn `pvalue`.
    pub fn can_learn(&self, pvalue: &PValue) -> (b: bool)
        ensures
            b == (pvalue@.slot < usize::MAX - 2 && self.state().durable().next_slot() < usize::MAX
                - 2),
    {
        pvalue.slot() < usize::MAX - 2 && self.state.proposal_slot() < usize::MAX - 2
    }

    /// Admits a client command: an admitted command is proposed to the
    /// leaders, a known request with a recorded response is answered at once.
    pub fn propose_from_client(&mut self, cmd: PaxosCommand) -> (step: ClientStep)
        requires
            old(self).state().durable().next_slot() < usize::MAX,
        ensures
            final(self).id() == old(self).id(),
            final(self).store() == old(self).store(),
            final(self).state().durable().exec_slot() == old(self).state().durable().exec_slot(),
            final(self).state().durable().decision_map() == old(self).state().durable().decision_map(),
            ({
                let cached = match cmd@.client_identity() {
                    Some(key) => old(self).state().durable().cache_map().contains_key(key),
                    None => false,
                };
                let response = if cached {
                    old(self).state().durable().cache_map()[cmd@.client_identity()->0]
                } else {
                    None
                };
                &&& cached ==> step.propose is None && *final(self) == *old(self)
                &&& (cached && response is Some) ==> step.reply == Some(
                    (
                        cmd@.client_id(),
                        ClientMessage::RESPONSE {
                            request_id: cmd@.request_id(),
                            response: response->0,
                        },
                    ),
                )
                &&& !(cached && response is Some) ==> step.reply is None
                &&& (!cached && old(self).state().durable().policy()
                    != crate::node::pmmc::replica::replica_state::durable::ProposalPolicy::RejectStopped
                    && !(old(self).state().durable().alpha() < old(self).state().durable().proposal_listing().len())) ==> step.propose == Some(
                    PmmcMessage::PROPOSE {
                        from: old(self).id(),
                        slot: old(self).state().durable().next_slot(),
                        cmd: old(self).state().durable().admitted_form(cmd),
                    },
                )
                &&& (cached || old(self).state().durable().policy()
                    == crate::node::pmmc::replica::replica_state::durable::ProposalPolicy::RejectStopped
                    || old(self).state().durable().alpha() < old(self).state().durable().proposal_listing().len()) ==> step.propose is None
                &&& (!cached && old(self).state().durable().policy()
                    == crate::node::pmmc::replica::replica_state::durable::ProposalPolicy::RejectStopped)
                    ==> *final(self) == *old(self)
            }),
            final(self).state().durable().same_config(old(self).state().durable()),
            final(self).state().durable().stop_slot_spec() == old(self).state().durable().stop_slot_spec(),
            admission_recorded(*old(self).state(), *final(self).state(), cmd),
    {
        match self.state.proposal_handler(cmd) {
            ReplicaAdmissionOutcome::Admitted { slot, cmd } => ClientStep {
                propose: Some(PmmcMessage::PROPOSE { from: self.uuid, slot, cmd }),
                reply: None,
            },
            ReplicaAdmissionOutcome::Queued => ClientStep { propose: None, reply: None },
            ReplicaAdmissionOutcome::Stopped => ClientStep { propose: None, reply: None },
            ReplicaAdmissionOutcome::CachedResponse { client_id, request_id, response } => {
                match response {
                    Some(outcome) => ClientStep {
                        propose: None,
                        reply: Some(
                            (client_id, ClientMessage::RESPONSE { request_id, response: outcome }),
                        ),
                    },
                    None => ClientStep { propose: None, reply: None },
                }
            },
        }
    }

    /// Learns a decision and acknowledges it to the leader of its ballot; a
    /// queued proposal admitted on the way is returned for broadcast.
    pub fn accepted(&mut self, pvalue: PValue) -> (r: (PmmcMessage, Option<PmmcMessage>))
        requires
            pvalue@.slot < usize::MAX - 2,
            old(self).state().durable().next_slot() < usize::MAX - 2,
        ensures
            final(self).id() == old(self).id(),
            final(self).store() == old(self).store(),
            r.0 == (PmmcMessage::ACK {
                from: old(self).id(),
                to: pvalue@.ballot.node_id,
                slot: pvalue@.slot,
            }),
            final(self).state().durable().exec_slot() == old(self).state().durable().exec_slot(),
            (old(self).state().durable().in_effect()
                != crate::node::pmmc::replica::replica_state::durable::ReconfigurationStrategyInEffect::BrickWall
                && old(self).state().durable().exec_slot() <= pvalue@.slot) ==> final(self).state().durable().decision_map() == old(self).state().durable().decision_map().insert(
                pvalue@.slot,
                pvalue.command(),
            ),
            old(self).state().durable().in_effect()
                == crate::node::pmmc::replica::replica_state::durable::ReconfigurationStrategyInEffect::BrickWall
                ==> *final(self) == *old(self) && r.1 is None,
            pvalue@.slot < old(self).state().durable().exec_slot() ==> *final(self) == *old(self)
                && r.1 is None,
            (old(self).state().durable().in_effect()
                != crate::node::pmmc::replica::replica_state::durable::ReconfigurationStrategyInEffect::BrickWall
                && old(self).state().durable().exec_slot() <= pvalue@.slot) ==> learned_step(
                old(self).state().durable(),
                final(self).state().durable(),
                pvalue,
            ),
            r.1 matches Some(m) ==> (m matches PmmcMessage::PROPOSE { from, slot, cmd } && from
                == old(self).id() && final(self).state().durable().proposal_map().contains_key(slot)
                && final(self).state().durable().proposal_map()[slot] == cmd),
            exists|o: Option<ReplicaAdmissionOutcome>|
                #![trigger state_learned(*old(self).state(), *final(self).state(), pvalue, o)]
                state_learned(*old(self).state(), *final(self).state(), pvalue, o) && r.1
                    == proposal_of(old(self).id(), o),
    {
        let slot = pvalue.slot();
        let to = pvalue.ballot().node_id;
        let outcome = self.state.add_decision(pvalue);
        let ghost o = outcome;
        let propose = match outcome {
            Some(ReplicaAdmissionOutcome::Admitted { slot, cmd }) => Some(
                PmmcMessage::PROPOSE { from: self.uuid, slot, cmd },
            ),
            _ => None,
        };
        proof {
            assert(propose == proposal_of(old(self).id(), o));
        }
        (PmmcMessage::ACK { from: self.uuid, to, slot }, propose)
    }

    /// ACCEPTED is learned and acknowledged; the replica answers nothing else.
    /// The second component is a proposal to broadcast.
    pub fn handle_message(&mut self, msg: PmmcMessage) -> (r: (Option<PmmcMessage>, Option<PmmcMessage>))
        requires
            msg matches PmmcMessage::ACCEPTED { pvalue, .. } ==> pvalue@.slot < usize::MAX - 2
                && old(self).state().durable().next_slot() < usize::MAX - 2,
        ensures
            final(self).id() == old(self).id(),
            match msg {
                PmmcMessage::ACCEPTED { pvalue, .. } => replica_learn(*old(self), *final(self), pvalue, r),
                _ => r.0 is None && r.1 is None && *final(self) == *old(self),
            },
    {
        match msg {
            PmmcMessage::ACCEPTED { pvalue, .. } => {
                let (ack, propose) = self.accepted(pvalue);
                (Some(ack), propose)
            },
            _ => (None, None),
        }
    }

    /// Executes the decision of the next slot, if it is known, and builds the
    /// response for its client. A refused operation leaves everything as it
    /// is, at the same slot.
    pub fn apply_next(&mut self) -> (step: ApplyStep)
        requires
            old(self).state().durable().exec_slot() < usize::MAX,
            old(self).state().durable().decision_map().contains_key(old(self).state().durable().exec_slot())
                ==> op_fits(
                old(self).store()@,
                old(self).state().durable().decision_map()[old(self).state().durable().exec_slot()]@.operation(),
            ),
        ensures
            final(self).id() == old(self).id(),
            !old(self).state().durable().decision_map().contains_key(old(self).state().durable().exec_slot())
                ==> step is Idle && *final(self) == *old(self),
            old(self).state().durable().decision_map().contains_key(old(self).state().durable().exec_slot())
                ==> ({
                let slot = old(self).state().durable().exec_slot();
                let cmd = old(self).state().durable().decision_map()[slot];
                let (store, outcome) = apply_outcome(old(self).store()@, cmd@.operation());
                match outcome {
                    Err(_) => {
                        &&& step == (ApplyStep::Stuck { slot })
                        &&& *final(self).state() == *old(self).state()
                        &&& final(self).store()@ == old(self).store()@
                    },
                    Ok(response) => {
                        &&& step == (ApplyStep::Applied {
                            slot,
                            cmd,
                            response,
                            reply: (
                                cmd@.client_id(),
                                ClientMessage::RESPONSE { request_id: cmd@.request_id(), response },
                            ),
                        })
                        &&& final(self).store()@ == store
                        &&& final(self).state().durable().exec_slot() == slot + 1
                        &&& final(self).state().durable().cache_map() == (match cmd@.client_identity() {
                            Some(key) => old(self).state().durable().cache_map().insert(key, Some(response)),
                            None => old(self).state().durable().cache_map(),
                        })
                        &&& final(self).state().durable().next_slot() == old(self).state().durable().next_slot()
                        &&& final(self).state().durable().proposal_map()
                            == old(self).state().durable().proposal_map()
                        &&& final(self).state().durable().decision_map()
                            == old(self).state().durable().decision_map()
                        &&& final(self).state().durable().same_config(old(self).state().durable())
                        &&& final(self).state().durable().stop_slot_spec()
                            == old(self).state().durable().stop_slot_spec()
                        &&& final(self).state().queue() == old(self).state().queue()
                    },
                }
            }),
    {
        let cmd = match self.state.next_decision() {
            Some(cmd) => cmd,
            None => return ApplyStep::Idle,
        };
        let slot = self.state.execution_slot();
        match self.store.apply(&cmd) {
            Ok(response) => {
                self.state.update_cache(&cmd, response);
                self.state.increment_execution_slot();
                let reply = (
                    cmd.client_id(),
                    ClientMessage::RESPONSE { request_id: cmd.request_id(), response },
                );
                ApplyStep::Applied { slot, cmd, response, reply }
            },
            Err(_) => ApplyStep::Stuck { slot },
        }
    }

    /// A checkpoint of the store and of the dedup watermarks, taken after the
    /// last executed slot. The snapshot id and the creation time come from
    /// the caller, who draws and reads them.
    pub fn emit_checkpoint(
        &self,
        snapshot_id: u128,
        config_id: u64,
        epoch: u64,
        created_at_ms: u64,
    ) -> (c: RsmCheckpoint)
        ensures
            c.manifest_view() == (ManifestView {
                snapshot_id,
                source_node: self.id(),
                config_id,
                epoch,
                last_applied_slot: if self.state().durable().exec_slot() == 0 {
                    None
                } else {
                    Some((self.state().durable().exec_slot() - 1) as usize)
                },
                created_at_ms,
                checksum: c.manifest_view().checksum,
            }),
            c.manifest_view().checksum.len() == 64,
            crate::rsm::checkpoint::state_checksum(c.state_value(), c.manifest_view().checksum),
            c.state_value().store()@ == self.store()@,
            dedup_watermark_of(self.state().durable().cache_map(), c.state_value().watermark()@),
    {
        let next_execution_slot = self.state.execution_slot();
        let last_applied_slot = if next_execution_slot == 0 {
            None
        } else {
            Some(next_execution_slot - 1)
        };
        let rsm_state = self.store.emit_checkpoint_state();
        let client_dedup_watermark = self.state.client_dedup_watermark();
        let manifest = CheckpointManifest::new(
            snapshot_id,
            self.uuid,
            config_id,
            epoch,
            last_applied_slot,
            created_at_ms,
        );
        let state = CheckpointState::new(rsm_state, client_dedup_watermark);
        RsmCheckpoint::new(manifest, state)
    }
}

} // verus!
