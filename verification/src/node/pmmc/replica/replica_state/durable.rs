//! What a replica persists: its proposal and execution watermarks, its
//! proposals and decisions per slot, its client cache, and how it stops for
//! reconfiguration.
use vstd::prelude::*;

use crate::assoc_map::AssocMap;
use crate::ballot::NodeId;
use crate::configuration::ConfigurationStrategy;
use crate::node::pvalue::PValue;
use crate::paxos_command::{ClientId, CommandView, PaxosCommand, RequestId};
use crate::rsm::kv_store::ReplyOutcome;
use crate::slot_map::SlotMap;

verus! {

/// The stop rule in force once a STOP has been decided.
#[derive(Debug, Clone, Copy, PartialEq, Eq, Structural)]
pub enum ReconfigurationStrategyInEffect {
    /// No STOP has been decided.
    Inactive,
    StopSign { slot: usize, delayed: usize },
    Padding,
    BrickWall,
}

/// What happens to a new client proposal.
#[derive(Debug, Clone, Copy, PartialEq, Eq, Structural)]
pub enum ProposalPolicy {
    Admit,
    PadWithNoop,
    RejectStopped,
}

pub type ClientCache = AssocMap<(ClientId, RequestId), Option<ReplyOutcome>>;

/// `w` holds, per client with a recorded response, the highest request id
/// whose response is recorded; pending requests do not count.
pub open spec fn dedup_watermark_of(
    cache: Map<(ClientId, RequestId), Option<ReplyOutcome>>,
    w: Map<ClientId, RequestId>,
) -> bool {
    &&& forall|c: ClientId|
        #[trigger] w.contains_key(c) <==> exists|r: RequestId|
            #[trigger] cache.contains_key((c, r)) && cache[(c, r)] is Some
    &&& forall|c: ClientId|
        #[trigger] w.contains_key(c) ==> cache.contains_key((c, w[c])) && cache[(c, w[c])] is Some
    &&& forall|c: ClientId, r: RequestId|
        #[trigger] cache.contains_key((c, r)) && cache[(c, r)] is Some ==> w.contains_key(c) && r
            <= w[c]
}

/// The durable state after proposing `cmd` at the next slot, `r` being what
/// was proposed.
pub open spec fn durable_proposed(before: ReplicaDurable, after: ReplicaDurable, cmd: PaxosCommand, r: PaxosCommand) -> bool {
    &&& r == before.admitted_form(cmd)
    &&& after.proposal_map() == before.proposal_map().insert(before.next_slot(), r)
    &&& after.cache_map() == ReplicaDurable::cache_with_pending(before.cache_map(), r)
    &&& after.next_slot() == before.next_slot() + 1
    &&& after.exec_slot() == before.exec_slot()
    &&& after.alpha() == before.alpha()
    &&& after.decision_map() == before.decision_map()
    &&& after.strategy_spec() == before.strategy_spec()
    &&& after.stop_slot_spec() == before.stop_slot_spec()
}

/// The durable state after learning the decision `pvalue`, `learned` telling
/// whether it was taken (see `ReplicaDurable::add_decision`).
pub open spec fn durable_learned(before: ReplicaDurable, after: ReplicaDurable, pvalue: PValue, learned: bool) -> bool {
    &&& learned == (before.exec_slot() <= pvalue@.slot)
    &&& !learned ==> after == before
    &&& learned ==> {
        let bumped = if before.next_slot() < pvalue@.slot + 1 {
            (pvalue@.slot + 1) as usize
        } else {
            before.next_slot()
        };
        let mine = before.proposal_map().contains_key(pvalue@.slot);
        let conflict = mine && before.proposal_map()[pvalue@.slot]@ != pvalue@.cmd;
        &&& after.decision_map() == before.decision_map().insert(
            pvalue@.slot,
            pvalue.command(),
        )
        &&& conflict ==> {
            let again = before.admitted_form(before.proposal_map()[pvalue@.slot]);
            &&& after.proposal_map() == before.proposal_map().remove(
                pvalue@.slot,
            ).insert(bumped, again)
            &&& after.next_slot() == bumped + 1
            &&& after.cache_map() == ReplicaDurable::cache_with_pending(
                before.cache_map(),
                again,
            )
        }
        &&& !conflict ==> after.proposal_map() == before.proposal_map().remove(
            pvalue@.slot,
        ) && after.next_slot() == bumped && after.cache_map() == before.cache_map()
        &&& after.stop_slot_spec() == (if pvalue@.cmd.operation() == CommandView::STOP {
            Some(pvalue@.slot)
        } else {
            before.stop_slot_spec()
        })
    }
    &&& after.exec_slot() == before.exec_slot()
    &&& after.alpha() == before.alpha()
    &&& after.strategy_spec() == before.strategy_spec()
}

pub struct ReplicaDurable {
    next_slot: usize,
    next_execute_slot: usize,
    cache: ClientCache,
    alpha_max_inflight: usize,
    proposals: SlotMap<PaxosCommand>,
    decisions: SlotMap<PaxosCommand>,
    strategy: ConfigurationStrategy,
    stop_slot: Option<usize>,
}

/// The effect of the configured strategy once `stop_slot` is known.
pub open spec fn strategy_in_effect(strategy: ConfigurationStrategy, stop_slot: Option<usize>) -> ReconfigurationStrategyInEffect {
    match stop_slot {
        None => ReconfigurationStrategyInEffect::Inactive,
        Some(slot) => match strategy {
            ConfigurationStrategy::Padding => ReconfigurationStrategyInEffect::Padding,
            ConfigurationStrategy::BrickWall => ReconfigurationStrategyInEffect::BrickWall,
            _ => ReconfigurationStrategyInEffect::StopSign { slot, delayed: 0 },
        },
    }
}

impl ReplicaDurable {
    pub closed spec fn next_slot(&self) -> usize {
        self.next_slot
    }

    pub closed spec fn exec_slot(&self) -> usize {
        self.next_execute_slot
    }

    pub closed spec fn alpha(&self) -> usize {
        self.alpha_max_inflight
    }

    pub closed spec fn proposal_map(&self) -> Map<usize, PaxosCommand> {
        self.proposals@
    }

    pub closed spec fn proposal_listing(&self) -> Seq<(usize, PaxosCommand)> {
        self.proposals.listing()
    }

    pub closed spec fn decision_map(&self) -> Map<usize, PaxosCommand> {
        self.decisions@
    }

    pub closed spec fn cache_map(&self) -> Map<(ClientId, RequestId), Option<ReplyOutcome>> {
        self.cache@
    }

    pub closed spec fn strategy_spec(&self) -> ConfigurationStrategy {
        self.strategy
    }

    pub closed spec fn stop_slot_spec(&self) -> Option<usize> {
        self.stop_slot
    }

    pub open spec fn in_effect(&self) -> ReconfigurationStrategyInEffect {
        strategy_in_effect(self.strategy_spec(), self.stop_slot_spec())
    }

    /// The policy for new proposals: everything is admitted until a STOP is
    /// decided; then a delayed stop sign admits, and padding pads with NOOPs,
    /// the proposals of the `alpha` slots after the stop slot; every other
    /// strategy, and every later slot, is refused.
    pub open spec fn policy(&self) -> ProposalPolicy {
        match self.stop_slot_spec() {
            None => ProposalPolicy::Admit,
            Some(stop) => {
                let in_grace = self.next_slot() <= stop + self.alpha();
                match self.strategy_spec() {
                    ConfigurationStrategy::DelayedStopSign => if in_grace {
                        ProposalPolicy::Admit
                    } else {
                        ProposalPolicy::RejectStopped
                    },
                    ConfigurationStrategy::Padding => if in_grace {
                        ProposalPolicy::PadWithNoop
                    } else {
                        ProposalPolicy::RejectStopped
                    },
                    _ => ProposalPolicy::RejectStopped,
                }
            },
        }
    }

    /// Whether everything the stop waits for has been executed: the stop slot
    /// itself, and for a delayed stop sign or padding the `alpha` slots after it.
    pub open spec fn drained(&self) -> bool {
        match self.stop_slot_spec() {
            None => false,
            Some(stop) => match self.strategy_spec() {
                ConfigurationStrategy::DelayedStopSign | ConfigurationStrategy::Padding => self.exec_slot()
                    > stop + self.alpha(),
                _ => self.exec_slot() > stop,
            },
        }
    }

    /// The command a proposal becomes: a NOOP while padding is in effect.
    pub open spec fn admitted_form(&self, cmd: PaxosCommand) -> PaxosCommand {
        if self.in_effect() == ReconfigurationStrategyInEffect::Padding {
            PaxosCommand::NOOP
        } else {
            cmd
        }
    }

    /// The cache after recording `cmd`'s client request as pending.
    pub open spec fn cache_with_pending(cache: Map<(ClientId, RequestId), Option<ReplyOutcome>>, cmd: PaxosCommand) -> Map<(ClientId, RequestId), Option<ReplyOutcome>> {
        match cmd@.client_identity() {
            Some(key) => cache.insert(key, None),
            None => cache,
        }
    }

    pub open spec fn same_config(&self, other: &ReplicaDurable) -> bool {
        self.alpha() == other.alpha() && self.strategy_spec() == other.strategy_spec()
    }

    pub fn set_alpha(&mut self, alpha_max_inflight: usize)
        ensures
            final(self).alpha() == alpha_max_inflight,
            final(self).next_slot() == old(self).next_slot(),
            final(self).exec_slot() == old(self).exec_slot(),
            final(self).proposal_map() == old(self).proposal_map(),
            final(self).decision_map() == old(self).decision_map(),
            final(self).cache_map() == old(self).cache_map(),
            final(self).strategy_spec() == old(self).strategy_spec(),
            final(self).stop_slot_spec() == old(self).stop_slot_spec(),
    {
        self.alpha_max_inflight = alpha_max_inflight;
    }

    /// Starts proposing and executing at `slot`; only a replica that has done
    /// nothing yet may be moved.
    pub fn set_starting_slots(&mut self, slot: usize)
        requires
            old(self).next_slot() == 0,
            old(self).exec_slot() == 0,
            old(self).proposal_map() == Map::<usize, PaxosCommand>::empty(),
            old(self).decision_map() == Map::<usize, PaxosCommand>::empty(),
        ensures
            final(self).next_slot() == slot,
            final(self).exec_slot() == slot,
            final(self).alpha() == old(self).alpha(),
            final(self).proposal_map() == old(self).proposal_map(),
            final(self).decision_map() == old(self).decision_map(),
            final(self).cache_map() == old(self).cache_map(),
            final(self).strategy_spec() == old(self).strategy_spec(),
            final(self).stop_slot_spec() == old(self).stop_slot_spec(),
    {
        self.next_slot = slot;
        self.next_execute_slot = slot;
    }

    pub fn set_strategy(&mut self, strategy: ConfigurationStrategy)
        ensures
            final(self).strategy_spec() == strategy,
            final(self).alpha() == old(self).alpha(),
            final(self).next_slot() == old(self).next_slot(),
            final(self).exec_slot() == old(self).exec_slot(),
            final(self).proposal_map() == old(self).proposal_map(),
            final(self).decision_map() == old(self).decision_map(),
            final(self).cache_map() == old(self).cache_map(),
            final(self).stop_slot_spec() == old(self).stop_slot_spec(),
    {
        self.strategy = strategy;
    }

    pub fn strategy(&self) -> (s: ConfigurationStrategy)
        ensures
            s == self.strategy_spec(),
    {
        self.strategy
    }

    pub fn stop_slot(&self) -> (s: Option<usize>)
        ensures
            s == self.stop_slot_spec(),
    {
        self.stop_slot
    }

    pub fn reconfiguration_strategy_in_effect(&self) -> (r: ReconfigurationStrategyInEffect)
        ensures
            r == self.in_effect(),
    {
        match self.stop_slot {
            Some(slot) => match self.strategy {
                ConfigurationStrategy::JointConsensus => ReconfigurationStrategyInEffect::StopSign {
                    slot,
                    delayed: 0,
                },
                ConfigurationStrategy::StopSign => ReconfigurationStrategyInEffect::StopSign {
                    slot,
                    delayed: 0,
                },
                ConfigurationStrategy::DelayedStopSign => ReconfigurationStrategyInEffect::StopSign {
                    slot,
                    delayed: 0,
                },
                ConfigurationStrategy::Padding => ReconfigurationStrategyInEffect::Padding,
                ConfigurationStrategy::BrickWall => ReconfigurationStrategyInEffect::BrickWall,
            },
            None => ReconfigurationStrategyInEffect::Inactive,
        }
    }

    fn within_grace(&self, stop: usize) -> (b: bool)
        ensures
            b == (self.next_slot() <= stop + self.alpha()),
    {
        self.next_slot <= stop || self.next_slot - stop <= self.alpha_max_inflight
    }

    pub fn proposal_policy(&self) -> (p: ProposalPolicy)
        ensures
            p == self.policy(),
    {
        match self.stop_slot {
            None => ProposalPolicy::Admit,
            Some(stop) => match self.strategy {
                ConfigurationStrategy::DelayedStopSign => if self.within_grace(stop) {
                    ProposalPolicy::Admit
                } else {
                    ProposalPolicy::RejectStopped
                },
                ConfigurationStrategy::Padding => if self.within_grace(stop) {
                    ProposalPolicy::PadWithNoop
                } else {
                    ProposalPolicy::RejectStopped
                },
                _ => ProposalPolicy::RejectStopped,
            },
        }
    }

    pub fn is_stop_drained(&self) -> (b: bool)
        ensures
            b == self.drained(),
    {
        match self.stop_slot {
            None => false,
            Some(stop) => match self.strategy {
                ConfigurationStrategy::DelayedStopSign | ConfigurationStrategy::Padding => {
                    self.next_execute_slot > stop && self.next_execute_slot - stop > self.alpha_max_inflight
                },
                _ => self.next_execute_slot > stop,
            },
        }
    }

    /// A copy of the proposals.
    pub fn proposals(&self) -> (p: SlotMap<PaxosCommand>)
        ensures
            p@ == self.proposal_map(),
            p.listing() == self.proposal_listing(),
    {
        let p = self.proposals.duplicate();
        self.proposals.lemma_listing();
        p.lemma_listing();
        assert(p.listing() =~= self.proposals.listing());
        p
    }

    pub fn proposal_slot(&self) -> (s: usize)
        ensures
            s == self.next_slot(),
    {
        self.next_slot
    }

    pub fn increment_proposals(&mut self) -> (s: usize)
        requires
            old(self).next_slot() < usize::MAX,
        ensures
            s == final(self).next_slot(),
            final(self).next_slot() == old(self).next_slot() + 1,
            final(self).exec_slot() == old(self).exec_slot(),
            final(self).alpha() == old(self).alpha(),
            final(self).proposal_map() == old(self).proposal_map(),
            final(self).decision_map() == old(self).decision_map(),
            final(self).cache_map() == old(self).cache_map(),
            final(self).strategy_spec() == old(self).strategy_spec(),
            final(self).stop_slot_spec() == old(self).stop_slot_spec(),
    {
        self.next_slot = self.next_slot + 1;
        self.next_slot
    }

    /// Whether more proposals are in flight than `alpha` allows.
    pub fn max_inflight_exceeded(&self) -> (b: bool)
        ensures
            b == (self.alpha() < self.proposal_listing().len()),
    {
        self.alpha_max_inflight < self.proposals.len()
    }

    pub fn inflight(&self) -> (n: usize)
        ensures
            n == self.proposal_listing().len(),
    {
        self.proposals.len()
    }

    pub fn execution_slot(&self) -> (s: usize)
        ensures
            s == self.exec_slot(),
    {
        self.next_execute_slot
    }

    pub fn increment_decisions(&mut self) -> (s: usize)
        requires
            old(self).exec_slot() < usize::MAX,
        ensures
            s == final(self).exec_slot(),
            final(self).exec_slot() == old(self).exec_slot() + 1,
            final(self).next_slot() == old(self).next_slot(),
            final(self).alpha() == old(self).alpha(),
            final(self).proposal_map() == old(self).proposal_map(),
            final(self).decision_map() == old(self).decision_map(),
            final(self).cache_map() == old(self).cache_map(),
            final(self).strategy_spec() == old(self).strategy_spec(),
            final(self).stop_slot_spec() == old(self).stop_slot_spec(),
    {
        self.next_execute_slot = self.next_execute_slot + 1;
        self.next_execute_slot
    }

    /// Proposes `cmd` (a NOOP while padding) at the next proposal slot,
    /// records a client request as pending, and returns what was proposed.
    pub fn add_proposal(&mut self, cmd: PaxosCommand) -> (r: PaxosCommand)
        requires
            old(self).next_slot() < usize::MAX,
        ensures
            durable_proposed(*old(self), *final(self), cmd, r),
    {
        let cmd = match self.reconfiguration_strategy_in_effect() {
            ReconfigurationStrategyInEffect::Padding => PaxosCommand::NOOP,
            _ => cmd,
        };
        self.proposals.insert(self.next_slot, cmd.clone());
        if let Some(client_key) = cmd.client_identity() {
            self.cache.insert(client_key, None);
        }
        self.increment_proposals();
        cmd
    }

    /// Learns the decision `pvalue`. Decisions for already executed slots are
    /// refused. Otherwise the proposal watermark moves past the slot, a
    /// different own proposal for the slot is proposed again at a fresh slot,
    /// the decision is recorded, and a decided STOP fixes the stop slot.
    pub fn add_decision(&mut self, pvalue: PValue) -> (learned: bool)
        requires
            pvalue@.slot < usize::MAX - 1,
            old(self).next_slot() < usize::MAX - 1,
        ensures
            durable_learned(*old(self), *final(self), pvalue, learned),
    {
        let slot = pvalue.slot();
        if self.next_execute_slot > slot {
            return false;
        }
        if self.next_slot < slot + 1 {
            self.next_slot = slot + 1;
        }
        let cmd = pvalue.cmd();
        if let Some(proposal) = self.proposals.remove(slot) {
            if proposal != cmd {
                self.add_proposal(proposal);
            }
        }
        let stop = cmd.is_stop();
        self.decisions.insert(slot, cmd);
        if stop {
            self.stop_slot = Some(slot);
        }
        true
    }

    /// The decision for the next slot to execute, if it is known.
    pub fn next_decision(&self) -> (r: Option<PaxosCommand>)
        ensures
            self.decision_map().contains_key(self.exec_slot()) ==> r == Some(
                self.decision_map()[self.exec_slot()],
            ),
            !self.decision_map().contains_key(self.exec_slot()) ==> r is None,
    {
        match self.decisions.get(self.next_execute_slot) {
            Some(cmd) => Some(cmd.clone()),
            None => None,
        }
    }

    /// Whether `cmd`'s client request is known, and its recorded response.
    pub fn is_cached(&self, cmd: &PaxosCommand) -> (r: (bool, Option<ReplyOutcome>))
        ensures
            match cmd@.client_identity() {
                Some(key) => r == (if self.cache_map().contains_key(key) {
                    (true, self.cache_map()[key])
                } else {
                    (false, None)
                }),
                None => r == (false, None::<ReplyOutcome>),
            },
    {
        match cmd.client_identity() {
            None => (false, None),
            Some(client_key) => match self.cache.get(&client_key) {
                Some(response) => (true, *response),
                None => (false, None),
            },
        }
    }

    /// The first slot, in slot order, of an own proposal of `cmd`'s client
    /// request.
    pub fn pending_slot_for(&self, cmd: &PaxosCommand) -> (r: Option<usize>)
        ensures
            cmd@.client_identity() is None ==> r is None,
            cmd@.client_identity() is Some ==> match r {
                Some(slot) => exists|i: int|
                    0 <= i < self.proposal_listing().len() && self.proposal_listing()[i].0 == slot
                        && self.proposal_listing()[i].1@.client_identity() == cmd@.client_identity()
                        && forall|j: int|
                        0 <= j < i ==> self.proposal_listing()[j].1@.client_identity()
                            != cmd@.client_identity(),
                None => forall|i: int|
                    0 <= i < self.proposal_listing().len() ==> self.proposal_listing()[i].1@.client_identity()
                        != cmd@.client_identity(),
            },
    {
        let target = match cmd.client_identity() {
            Some(t) => t,
            None => return None,
        };
        let mut i: usize = 0;
        while i < self.proposals.len()
            invariant
                i <= self.proposals.listing().len(),
                cmd@.client_identity() == Some(target),
                forall|j: int|
                    0 <= j < i ==> self.proposals.listing()[j].1@.client_identity() != Some(target),
            decreases self.proposals.listing().len() - i,
        {
            let entry = self.proposals.entry_at(i);
            match entry.1.client_identity() {
                Some(identity) => {
                    if identity.0 == target.0 && identity.1 == target.1 {
                        return Some(entry.0);
                    }
                },
                None => {},
            }
            i = i + 1;
        }
        None
    }

    /// Records `cmd`'s client request as pending.
    pub fn add_to_cache(&mut self, cmd: &PaxosCommand)
        ensures
            final(self).cache_map() == ReplicaDurable::cache_with_pending(old(self).cache_map(), *cmd),
            final(self).next_slot() == old(self).next_slot(),
            final(self).exec_slot() == old(self).exec_slot(),
            final(self).alpha() == old(self).alpha(),
            final(self).proposal_map() == old(self).proposal_map(),
            final(self).decision_map() == old(self).decision_map(),
            final(self).strategy_spec() == old(self).strategy_spec(),
            final(self).stop_slot_spec() == old(self).stop_slot_spec(),
    {
        if let Some(identity) = cmd.client_identity() {
            self.cache.insert(identity, None);
        }
    }

    /// Records the response to `cmd`'s client request.
    pub fn update_cache(&mut self, cmd: &PaxosCommand, response: ReplyOutcome)
        ensures
            final(self).cache_map() == (match cmd@.client_identity() {
                Some(key) => old(self).cache_map().insert(key, Some(response)),
                None => old(self).cache_map(),
            }),
            final(self).next_slot() == old(self).next_slot(),
            final(self).exec_slot() == old(self).exec_slot(),
            final(self).alpha() == old(self).alpha(),
            final(self).proposal_map() == old(self).proposal_map(),
            final(self).decision_map() == old(self).decision_map(),
            final(self).strategy_spec() == old(self).strategy_spec(),
            final(self).stop_slot_spec() == old(self).stop_slot_spec(),
    {
        if let Some(identity) = cmd.client_identity() {
            self.cache.insert(identity, Some(response));
        }
    }

    /// Per client, the highest request id whose response is recorded; pending
    /// requests do not count.
    pub fn client_dedup_watermark(&self) -> (w: AssocMap<ClientId, RequestId>)
        ensures
            dedup_watermark_of(self.cache_map(), w@),
    {
        let mut dedup: AssocMap<ClientId, RequestId> = AssocMap::new();
        let mut i: usize = 0;
        self.cache.lemma_listing();
        let ghost listing = self.cache.listing();
        while i < self.cache.len()
            invariant
                i <= listing.len(),
                listing == self.cache.listing(),
                forall|j: int|
                    0 <= j < i && (#[trigger] listing[j]).1 is Some ==> dedup@.contains_key(listing[j].0.0)
                        && listing[j].0.1 <= dedup@[listing[j].0.0],
                forall|c: ClientId|
                    #[trigger] dedup@.contains_key(c) ==> exists|j: int|
                        0 <= j < i && listing[j].0 == (c, dedup@[c]) && listing[j].1 is Some,
            decreases listing.len() - i,
        {
            let entry = self.cache.entry_at(i);
            let client_id = entry.0.0;
            let request_id = entry.0.1;
            if entry.1.is_some() {
                let current = match dedup.get(&client_id) {
                    Some(current) => *current,
                    None => request_id,
                };
                let top = if current < request_id {
                    request_id
                } else {
                    current
                };
                let ghost before = dedup@;
                dedup.insert(client_id, top);
                proof {
                    assert forall|c: ClientId| #[trigger] dedup@.contains_key(c) implies exists|j: int|
                        0 <= j < i + 1 && listing[j].0 == (c, dedup@[c]) && listing[j].1 is Some by {
                        if c != client_id {
                            assert(before.contains_key(c));
                        } else if top == request_id {
                            assert(listing[i as int].0 == (c, dedup@[c]));
                        } else {
                            assert(before.contains_key(c));
                        }
                    }
                }
            }
            i = i + 1;
        }
        proof {
            assert forall|c: ClientId| #[trigger] dedup@.contains_key(c) implies self.cache_map().contains_key((c, dedup@[c]))
                && self.cache_map()[(c, dedup@[c])] is Some by {
                let j = choose|j: int| 0 <= j < listing.len() && listing[j].0 == (c, dedup@[c]) && listing[j].1 is Some;
                assert(self.cache_map().contains_key(listing[j].0@));
            }
            assert forall|c: ClientId, r: RequestId| #[trigger] self.cache_map().contains_key((c, r)) && self.cache_map()[(c, r)] is Some
                implies dedup@.contains_key(c) && r <= dedup@[c] by {
                let j = choose|j: int| 0 <= j < listing.len() && listing[j].0@ == (c, r);
                assert(listing[j].0@ == listing[j].0);
                assert(self.cache_map()[listing[j].0@] == listing[j].1);
            }
            assert forall|c: ClientId| #[trigger] dedup@.contains_key(c) <==> exists|r: RequestId|
                #[trigger] self.cache_map().contains_key((c, r)) && self.cache_map()[(c, r)] is Some by {
                if dedup@.contains_key(c) {
                    assert(self.cache_map().contains_key((c, dedup@[c])));
                }
            }
        }
        dedup
    }

    /// A copy of the durable state, for the node to persist.
    pub fn dump(&self) -> (d: ReplicaDurable)
        ensures
            d.next_slot() == self.next_slot(),
            d.exec_slot() == self.exec_slot(),
            d.alpha() == self.alpha(),
            d.proposal_map() == self.proposal_map(),
            d.decision_map() == self.decision_map(),
            d.strategy_spec() == self.strategy_spec(),
            d.stop_slot_spec() == self.stop_slot_spec(),
            d.cache_map() == self.cache_map(),
    {
        let decisions = self.decisions.duplicate();
        self.decisions.lemma_listing();
        decisions.lemma_listing();
        assert(decisions.listing() =~= self.decisions.listing());
        let mut cache: ClientCache = AssocMap::new();
        let mut i: usize = 0;
        self.cache.lemma_listing();
        while i < self.cache.len()
            invariant
                i <= self.cache.listing().len(),
                crate::assoc_map::distinct_keys(self.cache.listing()),
                cache@ == crate::assoc_map::entries_map(self.cache.listing().take(i as int)),
            decreases self.cache.listing().len() - i,
        {
            let entry = self.cache.entry_at(i);
            let ghost before = cache@;
            cache.insert((entry.0.0, entry.0.1), entry.1);
            proof {
                let t0 = self.cache.listing().take(i as int);
                let t1 = self.cache.listing().take(i + 1);
                assert(crate::assoc_map::distinct_keys(t1));
                assert(crate::assoc_map::distinct_keys(t0));
                crate::assoc_map::lemma_entries_map(t0);
                crate::assoc_map::lemma_entries_map(t1);
                assert(t1[i as int] == *entry);
                assert(crate::assoc_map::entries_map(t1) =~= before.insert(entry.0@, entry.1)) by {
                    assert forall|k: (ClientId, RequestId)| #[trigger] crate::assoc_map::entries_map(t1).contains_key(k)
                        <==> before.insert(entry.0@, entry.1).contains_key(k) by {
                        if crate::assoc_map::entries_map(t1).contains_key(k) {
                            let j = choose|j: int| 0 <= j < t1.len() && t1[j].0@ == k;
                            if j < i {
                                assert(t0[j] == t1[j]);
                            }
                        }
                        if before.contains_key(k) {
                            let j = choose|j: int| 0 <= j < t0.len() && t0[j].0@ == k;
                            assert(t1[j] == t0[j]);
                        }
                    }
                    assert forall|k: (ClientId, RequestId)| #[trigger] crate::assoc_map::entries_map(t1).contains_key(k)
                        implies crate::assoc_map::entries_map(t1)[k] == before.insert(entry.0@, entry.1)[k] by {
                        let j = choose|j: int| 0 <= j < t1.len() && t1[j].0@ == k;
                        if j < i {
                            assert(t0[j] == t1[j]);
                            assert(t1[j].0@ != t1[i as int].0@);
                        }
                    }
                }
            }
            i = i + 1;
        }
        assert(self.cache.listing().take(i as int) =~= self.cache.listing());
        ReplicaDurable {
            next_slot: self.next_slot,
            next_execute_slot: self.next_execute_slot,
            cache,
            alpha_max_inflight: self.alpha_max_inflight,
            proposals: self.proposals(),
            decisions,
            strategy: self.strategy,
            stop_slot: self.stop_slot,
        }
    }
}

impl Default for ReplicaDurable {
    fn default() -> (d: ReplicaDurable)
        ensures
            d.next_slot() == 0,
            d.exec_slot() == 0,
            d.alpha() == 0,
            d.proposal_map() == Map::<usize, PaxosCommand>::empty(),
            d.decision_map() == Map::<usize, PaxosCommand>::empty(),
            d.cache_map() == Map::<(ClientId, RequestId), Option<ReplyOutcome>>::empty(),
            d.strategy_spec() == ConfigurationStrategy::JointConsensus,
            d.stop_slot_spec() is None,
    {
        ReplicaDurable {
            next_slot: 0,
            next_execute_slot: 0,
            strategy: ConfigurationStrategy::JointConsensus,
            cache: AssocMap::new(),
            decisions: SlotMap::new(),
            proposals: SlotMap::new(),
            alpha_max_inflight: 0,
            stop_slot: None,
        }
    }
}

} // verus!
