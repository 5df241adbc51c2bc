//! A replica's state: its durable part and the client proposals queued while
//! too many proposals are in flight.
use vstd::prelude::*;

use crate::assoc_map::AssocMap;
use crate::configuration::ConfigurationStrategy;
use crate::node::pmmc::replica::replica_state::durable::dedup_watermark_of;
use crate::node::pmmc::replica::replica_state::durable::{
    durable_learned,
    durable_proposed,
    ProposalPolicy, ReconfigurationStrategyInEffect, ReplicaDurable,
};
use crate::node::pvalue::PValue;
use crate::paxos_command::{ClientId, PaxosCommand, RequestId};
use crate::rsm::kv_store::ReplyOutcome;
use crate::slot_map::SlotMap;

pub mod durable;

verus! {

#[derive(Debug)]
pub enum ReplicaAdmissionOutcome {
    /// The command is proposed at `slot`.
    Admitted { slot: usize, cmd: PaxosCommand },
    /// Too many proposals are in flight; the command waits.
    Queued,
    /// The replica group has stopped.
    Stopped,
    /// The request is known: its response, if it has been executed.
    CachedResponse { client_id: ClientId, request_id: RequestId, response: Option<ReplyOutcome> },
}

/// What learning the decision `pvalue` does to the replica's proposals: the
/// proposal watermark moves past the decided slot and never back, the slot
/// holds no own proposal anymore, an own proposal of another command for it
/// is proposed again at a later slot, and the own proposals below the old
/// watermark at other slots stay as they were.
pub open spec fn learned_step(before: &ReplicaDurable, after: &ReplicaDurable, pvalue: PValue) -> bool {
    let slot = pvalue@.slot;
    &&& slot < after.next_slot()
    &&& before.next_slot() <= after.next_slot()
    &&& !after.proposal_map().contains_key(slot)
    &&& (before.proposal_map().contains_key(slot) && before.proposal_map()[slot]@ != pvalue@.cmd)
        ==> (exists|s: usize|
        #![trigger after.proposal_map()[s]]
        slot < s < after.next_slot() && after.proposal_map().contains_key(s)
            && after.proposal_map()[s] == before.admitted_form(before.proposal_map()[slot]))
    &&& forall|s: usize| s != slot ==> #[trigger] own_proposal_kept(before, after, s)
}

/// An own proposal at `slot` below the old watermark is still there.
pub open spec fn own_proposal_kept(before: &ReplicaDurable, after: &ReplicaDurable, slot: usize) -> bool {
    slot < before.next_slot() && before.proposal_map().contains_key(slot) ==> after.proposal_map().contains_key(
        slot,
    ) && after.proposal_map()[slot] == before.proposal_map()[slot]
}

/// The durable step of learning `pvalue` (see `ReplicaDurable::add_decision`)
/// is a learned step.
proof fn lemma_learned(before: &ReplicaDurable, after: &ReplicaDurable, pvalue: PValue)
    requires
        before.exec_slot() <= pvalue@.slot,
        pvalue@.slot < usize::MAX - 1,
        ({
            let bumped = if before.next_slot() < pvalue@.slot + 1 {
                (pvalue@.slot + 1) as usize
            } else {
                before.next_slot()
            };
            let mine = before.proposal_map().contains_key(pvalue@.slot);
            let conflict = mine && before.proposal_map()[pvalue@.slot]@ != pvalue@.cmd;
            &&& conflict ==> {
                let again = before.admitted_form(before.proposal_map()[pvalue@.slot]);
                &&& after.proposal_map() == before.proposal_map().remove(pvalue@.slot).insert(
                    bumped,
                    again,
                )
                &&& after.next_slot() == bumped + 1
            }
            &&& !conflict ==> after.proposal_map() == before.proposal_map().remove(pvalue@.slot)
                && after.next_slot() == bumped
        }),
    ensures
        learned_step(before, after, pvalue),
{
    let slot = pvalue@.slot;
    let bumped = if before.next_slot() < slot + 1 {
        (slot + 1) as usize
    } else {
        before.next_slot()
    };
    if before.proposal_map().contains_key(slot) && before.proposal_map()[slot]@ != pvalue@.cmd {
        assert(after.proposal_map().contains_key(bumped));
        assert(after.proposal_map()[bumped] == before.admitted_form(before.proposal_map()[slot]));
        assert(slot < bumped < after.next_slot());
    }
}

/// A learned step followed by a fresh proposal at the new watermark is a
/// learned step.
proof fn lemma_learned_then_proposed(
    before: &ReplicaDurable,
    mid: &ReplicaDurable,
    after: &ReplicaDurable,
    pvalue: PValue,
)
    requires
        learned_step(before, mid, pvalue),
        after.next_slot() == mid.next_slot() + 1,
        exists|c: PaxosCommand| after.proposal_map() == mid.proposal_map().insert(mid.next_slot(), c),
    ensures
        learned_step(before, after, pvalue),
{
    let c = choose|c: PaxosCommand| after.proposal_map() == mid.proposal_map().insert(mid.next_slot(), c);
    let slot = pvalue@.slot;
    if before.proposal_map().contains_key(slot) && before.proposal_map()[slot]@ != pvalue@.cmd {
        let s = choose|s: usize|
            #![trigger mid.proposal_map()[s]]
            slot < s < mid.next_slot() && mid.proposal_map().contains_key(s)
                && mid.proposal_map()[s] == before.admitted_form(before.proposal_map()[slot]);
        assert(after.proposal_map()[s] == mid.proposal_map()[s]);
    }
    assert forall|s: usize| s != slot implies #[trigger] own_proposal_kept(before, after, s) by {
        assert(own_proposal_kept(before, mid, s));
    }
}

/// The replica's state after it learned the decision `pvalue`, with outcome
/// `r`: a brick wall in effect refuses it; a decision for an executed slot
/// changes nothing; otherwise the durable state learns it (see
/// `durable_learned`) and the oldest queued proposal, if any, is proposed at
/// the next slot.
pub open spec fn state_learned(
    before: ReplicaState,
    after: ReplicaState,
    pvalue: PValue,
    r: Option<ReplicaAdmissionOutcome>,
) -> bool {
    if before.durable().in_effect() == ReconfigurationStrategyInEffect::BrickWall {
        r == Some(ReplicaAdmissionOutcome::Stopped) && after == before
    } else if pvalue@.slot < before.durable().exec_slot() {
        r is None && after == before
    } else {
        exists|mid: ReplicaDurable|
            #![trigger durable_learned(*before.durable(), mid, pvalue, true)]
            durable_learned(*before.durable(), mid, pvalue, true) && if before.queue().len() == 0 {
                r is None && *after.durable() == mid && after.queue() == before.queue()
            } else {
                &&& after.queue() == before.queue().drop_first()
                &&& r matches Some(ReplicaAdmissionOutcome::Admitted { slot, cmd })
                &&& slot == mid.next_slot()
                &&& durable_proposed(mid, *after.durable(), before.queue()[0], cmd)
            }
    }
}

pub struct ReplicaState {
    durable: ReplicaDurable,
    queued: Vec<PaxosCommand>,
}

impl ReplicaState {
    pub closed spec fn durable(&self) -> &ReplicaDurable {
        &self.durable
    }

    /// The queued client proposals, oldest first.
    pub closed spec fn queue(&self) -> Seq<PaxosCommand> {
        self.queued@
    }

    /// A replica resuming from `data` with the configuration's in-flight
    /// limit, starting slot and stop strategy.
    pub fn init(
        data: ReplicaDurable,
        alpha_max_inflight: usize,
        starting_slot: usize,
        strategy: ConfigurationStrategy,
    ) -> (s: ReplicaState)
        requires
            data.next_slot() == 0,
            data.exec_slot() == 0,
            data.proposal_map() == Map::<usize, PaxosCommand>::empty(),
            data.decision_map() == Map::<usize, PaxosCommand>::empty(),
        ensures
            s.durable().alpha() == alpha_max_inflight,
            s.durable().next_slot() == starting_slot,
            s.durable().exec_slot() == starting_slot,
            s.durable().strategy_spec() == strategy,
            s.durable().stop_slot_spec() == data.stop_slot_spec(),
            s.durable().proposal_map() == data.proposal_map(),
            s.durable().decision_map() == data.decision_map(),
            s.durable().cache_map() == data.cache_map(),
            s.queue() == Seq::<PaxosCommand>::empty(),
    {
        let mut data = data;
        data.set_alpha(alpha_max_inflight);
        data.set_starting_slots(starting_slot);
        data.set_strategy(strategy);
        ReplicaState { durable: data, queued: Vec::new() }
    }

    pub fn proposal(&self) -> (p: SlotMap<PaxosCommand>)
        ensures
            p@ == self.durable().proposal_map(),
    {
        self.durable.proposals()
    }

    pub fn proposal_slot(&self) -> (s: usize)
        ensures
            s == self.durable().next_slot(),
    {
        self.durable.proposal_slot()
    }

    pub fn execution_slot(&self) -> (s: usize)
        ensures
            s == self.durable().exec_slot(),
    {
        self.durable.execution_slot()
    }

    pub fn max_inflight_exceeded(&self) -> (b: bool)
        ensures
            b == (self.durable().alpha() < self.durable().proposal_listing().len()),
    {
        self.durable.max_inflight_exceeded()
    }

    /// Whether a decided STOP has put a stop strategy into effect.
    pub fn is_stopped(&self) -> (b: bool)
        ensures
            b == (self.durable().in_effect() != ReconfigurationStrategyInEffect::Inactive),
    {
        match self.durable.reconfiguration_strategy_in_effect() {
            ReconfigurationStrategyInEffect::Inactive => false,
            ReconfigurationStrategyInEffect::StopSign { .. } => true,
            ReconfigurationStrategyInEffect::Padding => true,
            ReconfigurationStrategyInEffect::BrickWall => true,
        }
    }

    /// Admits a client proposal: a known request is answered from the cache;
    /// a stopped group refuses it; with too many proposals in flight it is
    /// queued (and marked pending); otherwise it is proposed at the next slot.
    pub fn proposal_handler(&mut self, cmd: PaxosCommand) -> (r: ReplicaAdmissionOutcome)
        requires
            old(self).durable().next_slot() < usize::MAX,
        ensures
            final(self).durable().exec_slot() == old(self).durable().exec_slot(),
            final(self).durable().decision_map() == old(self).durable().decision_map(),
            final(self).durable().same_config(old(self).durable()),
            final(self).durable().stop_slot_spec() == old(self).durable().stop_slot_spec(),
            ({
                let cached = match cmd@.client_identity() {
                    Some(key) => old(self).durable().cache_map().contains_key(key),
                    None => false,
                };
                if cached {
                    &&& r == ReplicaAdmissionOutcome::CachedResponse {
                        client_id: cmd@.client_id(),
                        request_id: cmd@.request_id(),
                        response: old(self).durable().cache_map()[cmd@.client_identity()->0],
                    }
                    &&& *final(self) == *old(self)
                } else if old(self).durable().policy() == ProposalPolicy::RejectStopped {
                    &&& r == ReplicaAdmissionOutcome::Stopped
                    &&& *final(self) == *old(self)
                } else if old(self).durable().alpha() < old(self).durable().proposal_listing().len() {
                    &&& r == ReplicaAdmissionOutcome::Queued
                    &&& final(self).queue() == old(self).queue().push(cmd)
                    &&& final(self).durable().cache_map() == ReplicaDurable::cache_with_pending(
                        old(self).durable().cache_map(),
                        cmd,
                    )
                    &&& final(self).durable().proposal_map() == old(self).durable().proposal_map()
                    &&& final(self).durable().next_slot() == old(self).durable().next_slot()
                } else {
                    let admitted = old(self).durable().admitted_form(cmd);
                    &&& r == ReplicaAdmissionOutcome::Admitted {
                        slot: old(self).durable().next_slot(),
                        cmd: admitted,
                    }
                    &&& final(self).queue() == old(self).queue()
                    &&& final(self).durable().proposal_map() == old(self).durable().proposal_map().insert(
                        old(self).durable().next_slot(),
                        admitted,
                    )
                    &&& final(self).durable().cache_map() == ReplicaDurable::cache_with_pending(
                        old(self).durable().cache_map(),
                        admitted,
                    )
                    &&& final(self).durable().next_slot() == old(self).durable().next_slot() + 1
                }
            }),
    {
        let client_id = cmd.client_id();
        let request_id = cmd.request_id();
        let (cached, response) = self.durable.is_cached(&cmd);
        if !cached {
            match self.durable.proposal_policy() {
                ProposalPolicy::RejectStopped => {
                    return ReplicaAdmissionOutcome::Stopped;
                },
                _ => {},
            }
            let slot = self.durable.proposal_slot();
            if self.durable.max_inflight_exceeded() {
                self.durable.add_to_cache(&cmd);
                self.queued.push(cmd);
                return ReplicaAdmissionOutcome::Queued;
            }
            let cmd = self.durable.add_proposal(cmd);
            return ReplicaAdmissionOutcome::Admitted { slot, cmd };
        }
        ReplicaAdmissionOutcome::CachedResponse { client_id, request_id, response }
    }

    /// Learns a decision. A brick wall in effect refuses it; otherwise, when
    /// the decision is learned and a proposal is queued, the oldest queued
    /// proposal is admitted at the next slot.
    pub fn add_decision(&mut self, pvalue: PValue) -> (r: Option<ReplicaAdmissionOutcome>)
        requires
            pvalue@.slot < usize::MAX - 2,
            old(self).durable().next_slot() < usize::MAX - 2,
        ensures
            final(self).durable().exec_slot() == old(self).durable().exec_slot(),
            final(self).durable().same_config(old(self).durable()),
            old(self).durable().in_effect() == ReconfigurationStrategyInEffect::BrickWall ==> r
                == Some(ReplicaAdmissionOutcome::Stopped) && *final(self) == *old(self),
            old(self).durable().in_effect() != ReconfigurationStrategyInEffect::BrickWall ==> {
                let learned = old(self).durable().exec_slot() <= pvalue@.slot;
                &&& learned ==> final(self).durable().decision_map() == old(self).durable().decision_map().insert(pvalue@.slot, pvalue.command())
                &&& !learned ==> *final(self) == *old(self) && r is None
                &&& learned ==> learned_step(old(self).durable(), final(self).durable(), pvalue)
                &&& (learned && old(self).queue().len() > 0) ==> (r matches Some(
                    ReplicaAdmissionOutcome::Admitted { slot, cmd },
                ) && final(self).queue() == old(self).queue().drop_first() && final(self).durable().proposal_map().contains_key(slot) && final(self).durable().proposal_map()[slot]
                    == cmd)
                &&& (learned && old(self).queue().len() == 0) ==> r is None && final(self).queue()
                    == old(self).queue()
            },
            state_learned(*old(self), *final(self), pvalue, r),
    {
        match self.durable.reconfiguration_strategy_in_effect() {
            ReconfigurationStrategyInEffect::BrickWall => {
                return Some(ReplicaAdmissionOutcome::Stopped);
            },
            _ => {},
        }
        let ghost pv = pvalue;
        if self.durable.add_decision(pvalue) {
            let ghost mid = self.durable;
            proof {
                lemma_learned(old(self).durable(), &self.durable, pv);
                assert(durable_learned(*old(self).durable(), mid, pv, true));
            }
            if self.queued.len() > 0 {
                let cmd = self.queued.remove(0);
                let slot = self.durable.proposal_slot();
                let cmd = self.durable.add_proposal(cmd);
                proof {
                    lemma_learned_then_proposed(old(self).durable(), &mid, &self.durable, pv);
                }
                return Some(ReplicaAdmissionOutcome::Admitted { slot, cmd });
            }
        }
        None
    }

    pub fn increment_execution_slot(&mut self)
        requires
            old(self).durable().exec_slot() < usize::MAX,
        ensures
            final(self).durable().exec_slot() == old(self).durable().exec_slot() + 1,
            final(self).durable().next_slot() == old(self).durable().next_slot(),
            final(self).durable().proposal_map() == old(self).durable().proposal_map(),
            final(self).durable().decision_map() == old(self).durable().decision_map(),
            final(self).durable().cache_map() == old(self).durable().cache_map(),
            final(self).durable().same_config(old(self).durable()),
            final(self).durable().stop_slot_spec() == old(self).durable().stop_slot_spec(),
            final(self).queue() == old(self).queue(),
    {
        self.durable.increment_decisions();
    }

    pub fn next_decision(&self) -> (r: Option<PaxosCommand>)
        ensures
            self.durable().decision_map().contains_key(self.durable().exec_slot()) ==> r == Some(
                self.durable().decision_map()[self.durable().exec_slot()],
            ),
            !self.durable().decision_map().contains_key(self.durable().exec_slot()) ==> r is None,
    {
        self.durable.next_decision()
    }

    pub fn is_cached(&self, cmd: &PaxosCommand) -> (r: (bool, Option<ReplyOutcome>))
        ensures
            match cmd@.client_identity() {
                Some(key) => r == (if self.durable().cache_map().contains_key(key) {
                    (true, self.durable().cache_map()[key])
                } else {
                    (false, None)
                }),
                None => r == (false, None::<ReplyOutcome>),
            },
    {
        self.durable.is_cached(cmd)
    }

    pub fn update_cache(&mut self, cmd: &PaxosCommand, response: ReplyOutcome)
        ensures
            final(self).durable().cache_map() == (match cmd@.client_identity() {
                Some(key) => old(self).durable().cache_map().insert(key, Some(response)),
                None => old(self).durable().cache_map(),
            }),
            final(self).durable().next_slot() == old(self).durable().next_slot(),
            final(self).durable().exec_slot() == old(self).durable().exec_slot(),
            final(self).durable().proposal_map() == old(self).durable().proposal_map(),
            final(self).durable().decision_map() == old(self).durable().decision_map(),
            final(self).durable().same_config(old(self).durable()),
            final(self).durable().stop_slot_spec() == old(self).durable().stop_slot_spec(),
            final(self).queue() == old(self).queue(),
    {
        self.durable.update_cache(cmd, response);
    }

    pub fn client_dedup_watermark(&self) -> (w: AssocMap<ClientId, RequestId>)
        ensures
            dedup_watermark_of(self.durable().cache_map(), w@),
    {
        self.durable.client_dedup_watermark()
    }

    pub fn dump(&self) -> (d: ReplicaDurable)
        ensures
            d.next_slot() == self.durable().next_slot(),
            d.exec_slot() == self.durable().exec_slot(),
            d.alpha() == self.durable().alpha(),
            d.proposal_map() == self.durable().proposal_map(),
            d.decision_map() == self.durable().decision_map(),
            d.strategy_spec() == self.durable().strategy_spec(),
            d.stop_slot_spec() == self.durable().stop_slot_spec(),
            d.cache_map() == self.durable().cache_map(),
    {
        self.durable.dump()
    }
}

} // verus!
