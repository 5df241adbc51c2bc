//! The Vertical Paxos replica: it admits client requests under the active
//! configuration (or redirects them to the configuration that replaced it),
//! learns decisions, re-proposes a request whose slot went to another
//! command, and executes decisions in slot order on the key-value store.
use vstd::prelude::*;

use crate::assoc_map::AssocMap;
use crate::ballot::NodeId;
use crate::cluster::vertical::configuration::{ConfigurationView, VerticalClusterConfiguration};
use crate::node::vertical_paxos::message::VerticalPaxosMessage;
use crate::node::vertical_paxos::node_state::config_view;
use crate::node::pvalue::PValue;
use crate::paxos_command::{ClientId, PaxosCommand, RequestId};
use crate::rsm::entry::KVEntry;
use crate::rsm::kv_store::{apply_outcome, KVStore, ReplyOutcome};
use crate::slot_map::SlotMap;

verus! {

#[derive(Debug, Clone, PartialEq, Eq)]
pub enum VerticalClientReply {
    Accepted { configuration_id: NodeId, slot: usize },
    Pending { configuration_id: Option<NodeId> },
    Redirect {
        from_replica: NodeId,
        active_configuration_id: NodeId,
        leader: NodeId,
        replicas: Vec<NodeId>,
    },
}

/// What a replica reports when it sends a client to the active
/// configuration it was decommissioned to.
#[derive(Debug, Clone, PartialEq, Eq)]
pub struct ReplicaRedirected {
    pub from_replica: NodeId,
    pub active_configuration_id: NodeId,
    pub leader: NodeId,
    pub replicas: Vec<NodeId>,
}

impl VerticalClientReply {
    /// The redirect report of a reply: a redirect reports its target, any
    /// other reply nothing.
    pub fn redirect_event(&self) -> (e: Option<ReplicaRedirected>)
        ensures
            match *self {
                VerticalClientReply::Redirect { from_replica, active_configuration_id, leader, replicas } =>
                    e matches Some(ev) && ev.from_replica == from_replica
                    && ev.active_configuration_id == active_configuration_id && ev.leader == leader
                    && ev.replicas@ == replicas@,
                _ => e is None,
            },
    {
        match self {
            VerticalClientReply::Redirect { from_replica, active_configuration_id, leader, replicas } => {
                let mut copy: Vec<NodeId> = Vec::new();
                let mut i: usize = 0;
                while i < replicas.len()
                    invariant
                        i <= replicas.len(),
                        copy@ == replicas@.take(i as int),
                    decreases replicas.len() - i,
                {
                    copy.push(replicas[i]);
                    i = i + 1;
                    proof {
                        assert(copy@ =~= replicas@.take(i as int));
                    }
                }
                proof {
                    assert(replicas@.take(replicas@.len() as int) =~= replicas@);
                }
                Some(
                    ReplicaRedirected {
                        from_replica: *from_replica,
                        active_configuration_id: *active_configuration_id,
                        leader: *leader,
                        replicas: copy,
                    },
                )
            },
            _ => None,
        }
    }
}

/// The replica after a client submitted `cmd`, with answers `r`.
pub open spec fn client_request_step(
    before: ReplicaView,
    after: ReplicaView,
    cmd: PaxosCommand,
    r: (VerticalClientReply, Option<(NodeId, VerticalPaxosMessage)>),
) -> bool {
    &&& match before.active {
        None => {
            &&& after == before
            &&& r.1 is None
            &&& match before.redirected {
                Some(a) => r.0 matches VerticalClientReply::Redirect {
                    from_replica,
                    active_configuration_id,
                    leader,
                    replicas,
                } && from_replica == before.id && active_configuration_id == a.id
                    && leader == a.leader && replicas@ == a.replicas,
                None => r.0 == VerticalClientReply::Pending {
                    configuration_id: match before.installed {
                        Some(c) => Some(c.id),
                        None => None,
                    },
                },
            }
        },
        Some(a) => if cmd@.client_identity() matches Some(k) && before.cache.contains_key(
            k,
        ) {
            &&& after == before
            &&& r.1 is None
            &&& r.0 == VerticalClientReply::Accepted {
                configuration_id: a.id,
                slot: if before.next_slot == 0 {
                    0
                } else {
                    (before.next_slot - 1) as usize
                },
            }
        } else {
            &&& after == (ReplicaView {
                next_slot: (before.next_slot + 1) as usize,
                proposals: before.proposals.insert(before.next_slot, cmd),
                ..before
            })
            &&& r.0 == VerticalClientReply::Accepted {
                configuration_id: a.id,
                slot: before.next_slot,
            }
            &&& r.1 == Some(
                (
                    a.leader,
                    VerticalPaxosMessage::PROPOSE {
                        from: before.id,
                        slot: before.next_slot,
                        cmd,
                    },
                ),
            )
        },
    }
}

/// The replica after it learned the decision `pvalue`, with answers `r`: an
/// ACK for the leader of the decision's ballot; a decision already known
/// changes nothing; a new one is recorded (see `learned`), a displaced own
/// proposal is proposed again to the active configuration's leader, and the
/// ready decisions are executed in slot order.
pub open spec fn decision_step(
    before: ReplicaView,
    after: ReplicaView,
    pvalue: PValue,
    r: (VerticalPaxosMessage, Option<(NodeId, VerticalPaxosMessage)>, Vec<(usize, PaxosCommand)>),
) -> bool {
    &&& r.0 == (VerticalPaxosMessage::ACK {
        from: before.id,
        to: pvalue@.ballot.node_id,
        slot: pvalue@.slot,
    })
    &&& before.decisions.contains_key(pvalue@.slot) ==> after == before
        && r.1 is None && r.2@.len() == 0
    &&& !before.decisions.contains_key(pvalue@.slot) ==> {
        let mid = learned(before, pvalue@.slot, pvalue.command());
        let moved = before.proposals.contains_key(pvalue@.slot)
            && before.proposals[pvalue@.slot]@ != pvalue.command()@;
        &&& r.1 == if moved && before.active is Some {
            Some(
                (
                    before.active->0.leader,
                    VerticalPaxosMessage::PROPOSE {
                        from: before.id,
                        slot: before.next_slot,
                        cmd: before.proposals[pvalue@.slot],
                    },
                ),
            )
        } else {
            None
        }
        &&& after.next_execution_slot == mid.next_execution_slot + r.2@.len()
        &&& forall|j: int|
            0 <= j < r.2@.len() ==> {
                &&& #[trigger] r.2@[j].0 == mid.next_execution_slot + j
                &&& mid.decisions.contains_key(r.2@[j].0)
                &&& r.2@[j].1 == mid.decisions[r.2@[j].0]
            }
        &&& after.decisions == mid.decisions.remove_keys(
            slot_range(mid.next_execution_slot, after.next_execution_slot),
        )
        &&& (after.store, after.cache) == apply_steps(
            (mid.store, mid.cache),
            applied_commands(r.2@),
        )
        &&& !after.decisions.contains_key(after.next_execution_slot)
            || !crate::rsm::kv_store::op_fits(
            after.store,
            after.decisions[after.next_execution_slot]@.operation(),
        )
        &&& after == (ReplicaView {
            store: after.store,
            cache: after.cache,
            decisions: after.decisions,
            next_execution_slot: after.next_execution_slot,
            ..mid
        })
    }
}

/// A decision step executes slots only from the next execution slot upward,
/// each once and in order, and moves the next execution slot past them; so
/// over two steps no slot is executed twice, and the second step executes
/// only slots above those of the first.
pub proof fn lemma_executed_once(
    v0: ReplicaView,
    v1: ReplicaView,
    v2: ReplicaView,
    p1: PValue,
    p2: PValue,
    r1: (VerticalPaxosMessage, Option<(NodeId, VerticalPaxosMessage)>, Vec<(usize, PaxosCommand)>),
    r2: (VerticalPaxosMessage, Option<(NodeId, VerticalPaxosMessage)>, Vec<(usize, PaxosCommand)>),
)
    requires
        decision_step(v0, v1, p1, r1),
        decision_step(v1, v2, p2, r2),
    ensures
        v0.next_execution_slot <= v1.next_execution_slot <= v2.next_execution_slot,
        forall|i: int|
            0 <= i < r1.2@.len() ==> v0.next_execution_slot <= #[trigger] r1.2@[i].0
                < v1.next_execution_slot,
        forall|i: int, j: int| 0 <= i < j < r1.2@.len() ==> #[trigger] r1.2@[i].0 < #[trigger] r1.2@[j].0,
        forall|i: int, j: int|
            0 <= i < r1.2@.len() && 0 <= j < r2.2@.len() ==> #[trigger] r1.2@[i].0
                < #[trigger] r2.2@[j].0,
{
    assert forall|i: int, j: int|
        0 <= i < r1.2@.len() && 0 <= j < r2.2@.len() implies #[trigger] r1.2@[i].0
        < #[trigger] r2.2@[j].0 by {
        assert(r1.2@[i].0 < v1.next_execution_slot);
        assert(v1.next_execution_slot <= r2.2@[j].0);
    }
}

pub struct Replica {
    id: NodeId,
    store: KVStore,
    installed_configuration: Option<VerticalClusterConfiguration>,
    active_configuration: Option<VerticalClusterConfiguration>,
    redirected_configuration: Option<VerticalClusterConfiguration>,
    next_slot: usize,
    next_execution_slot: usize,
    proposals: SlotMap<PaxosCommand>,
    decisions: SlotMap<PaxosCommand>,
    applied_cache: AssocMap<(ClientId, RequestId), ReplyOutcome>,
}

pub struct ReplicaView {
    pub id: NodeId,
    pub store: Map<Seq<char>, KVEntry>,
    pub installed: Option<ConfigurationView>,
    pub active: Option<ConfigurationView>,
    pub redirected: Option<ConfigurationView>,
    pub next_slot: usize,
    pub next_execution_slot: usize,
    pub proposals: Map<usize, PaxosCommand>,
    pub decisions: Map<usize, PaxosCommand>,
    pub cache: Map<(ClientId, RequestId), ReplyOutcome>,
}

impl View for Replica {
    type V = ReplicaView;

    closed spec fn view(&self) -> ReplicaView {
        ReplicaView {
            id: self.id,
            store: self.store@,
            installed: config_view(self.installed_configuration),
            active: config_view(self.active_configuration),
            redirected: config_view(self.redirected_configuration),
            next_slot: self.next_slot,
            next_execution_slot: self.next_execution_slot,
            proposals: self.proposals@,
            decisions: self.decisions@,
            cache: self.applied_cache@,
        }
    }
}

/// The store and the response cache after executing `cmd`: a response to a
/// client's request is cached under its identity; a refused operation caches
/// nothing.
pub open spec fn apply_step(
    st: (Map<Seq<char>, KVEntry>, Map<(ClientId, RequestId), ReplyOutcome>),
    cmd: PaxosCommand,
) -> (Map<Seq<char>, KVEntry>, Map<(ClientId, RequestId), ReplyOutcome>) {
    let (m, r) = apply_outcome(st.0, cmd@.operation());
    match (cmd@.client_identity(), r) {
        (Some(k), Ok(response)) => (m, st.1.insert(k, response)),
        _ => (m, st.1),
    }
}

/// The store and cache after executing `cmds` in order.
pub open spec fn apply_steps(
    st: (Map<Seq<char>, KVEntry>, Map<(ClientId, RequestId), ReplyOutcome>),
    cmds: Seq<PaxosCommand>,
) -> (Map<Seq<char>, KVEntry>, Map<(ClientId, RequestId), ReplyOutcome>)
    decreases cmds.len(),
{
    if cmds.len() == 0 {
        st
    } else {
        apply_step(apply_steps(st, cmds.drop_last()), cmds.last())
    }
}

/// Executing one run of commands and then another is executing them in one
/// run.
pub proof fn lemma_apply_steps_concat(
    st: (Map<Seq<char>, KVEntry>, Map<(ClientId, RequestId), ReplyOutcome>),
    a: Seq<PaxosCommand>,
    b: Seq<PaxosCommand>,
)
    ensures
        apply_steps(st, a + b) == apply_steps(apply_steps(st, a), b),
    decreases b.len(),
{
    if b.len() == 0 {
        assert(a + b =~= a);
    } else {
        lemma_apply_steps_concat(st, a, b.drop_last());
        assert((a + b).drop_last() =~= a + b.drop_last());
        assert((a + b).last() == b.last());
    }
}

/// Executing commands never drops a cached response: every client request
/// cached before is still cached after.
pub proof fn lemma_cache_kept(
    st: (Map<Seq<char>, KVEntry>, Map<(ClientId, RequestId), ReplyOutcome>),
    cmds: Seq<PaxosCommand>,
)
    ensures
        forall|k: (ClientId, RequestId)| #[trigger]
            st.1.contains_key(k) ==> apply_steps(st, cmds).1.contains_key(k),
    decreases cmds.len(),
{
    if cmds.len() > 0 {
        lemma_cache_kept(st, cmds.drop_last());
    }
}

/// A client request whose operation succeeds when it is executed has its
/// response cached under its identity right then, and stays cached through
/// every later execution.
pub proof fn lemma_executed_request_cached(
    st: (Map<Seq<char>, KVEntry>, Map<(ClientId, RequestId), ReplyOutcome>),
    cmds: Seq<PaxosCommand>,
    j: int,
)
    requires
        0 <= j < cmds.len(),
        cmds[j]@.client_identity() is Some,
        apply_outcome(apply_steps(st, cmds.take(j)).0, cmds[j]@.operation()).1 is Ok,
    ensures
        ({
            let k = cmds[j]@.client_identity()->0;
            let before = apply_steps(st, cmds.take(j));
            let response = apply_outcome(before.0, cmds[j]@.operation()).1->Ok_0;
            &&& apply_steps(st, cmds.take(j + 1)).1 == before.1.insert(k, response)
            &&& apply_steps(st, cmds).1.contains_key(k)
        }),
{
    let k = cmds[j]@.client_identity()->0;
    let pre = cmds.take(j + 1);
    assert(pre.drop_last() =~= cmds.take(j));
    assert(pre.last() == cmds[j]);
    assert(apply_steps(st, pre).1.contains_key(k));
    assert(pre + cmds.skip(j + 1) =~= cmds);
    lemma_apply_steps_concat(st, pre, cmds.skip(j + 1));
    lemma_cache_kept(apply_steps(st, pre), cmds.skip(j + 1));
}

/// A client request executed with success while handling a decision is not
/// proposed again: submitting the same request afterwards is answered from
/// the cache, with no PROPOSE and no new slot.
pub proof fn lemma_executed_request_not_reproposed(
    v0: ReplicaView,
    v1: ReplicaView,
    v2: ReplicaView,
    pvalue: PValue,
    r: (VerticalPaxosMessage, Option<(NodeId, VerticalPaxosMessage)>, Vec<(usize, PaxosCommand)>),
    j: int,
    cmd: PaxosCommand,
    r2: (VerticalClientReply, Option<(NodeId, VerticalPaxosMessage)>),
)
    requires
        decision_step(v0, v1, pvalue, r),
        !v0.decisions.contains_key(pvalue@.slot),
        0 <= j < r.2@.len(),
        applied_commands(r.2@)[j]@.client_identity() is Some,
        apply_outcome(
            apply_steps((v0.store, v0.cache), applied_commands(r.2@).take(j)).0,
            applied_commands(r.2@)[j]@.operation(),
        ).1 is Ok,
        v1.active is Some,
        cmd@.client_identity() == applied_commands(r.2@)[j]@.client_identity(),
        client_request_step(v1, v2, cmd, r2),
    ensures
        r2.1 is None,
        v2 == v1,
{
    let mid = learned(v0, pvalue@.slot, pvalue.command());
    assert(mid.store == v0.store && mid.cache == v0.cache);
    lemma_executed_request_cached((v0.store, v0.cache), applied_commands(r.2@), j);
}

/// The commands of a list of executed decisions.
pub open spec fn applied_commands(s: Seq<(usize, PaxosCommand)>) -> Seq<PaxosCommand> {
    s.map_values(|e: (usize, PaxosCommand)| e.1)
}

/// The slots from `lo` up to, not including, `hi`.
pub open spec fn slot_range(lo: usize, hi: usize) -> Set<usize> {
    Set::new(|k: usize| lo <= k < hi)
}

/// The replica after learning that `slot` was decided for `cmd` (before any
/// execution): an already known decision changes nothing; otherwise the
/// decision is recorded, and the replica's own proposal for that slot, if it
/// was a different command, moves to the next proposal slot.
pub open spec fn learned(v: ReplicaView, slot: usize, cmd: PaxosCommand) -> ReplicaView {
    if v.decisions.contains_key(slot) {
        v
    } else if v.proposals.contains_key(slot) && v.proposals[slot]@ != cmd@ {
        ReplicaView {
            decisions: v.decisions.insert(slot, cmd),
            next_slot: (v.next_slot + 1) as usize,
            proposals: v.proposals.remove(slot).insert(v.next_slot, v.proposals[slot]),
            ..v
        }
    } else {
        ReplicaView { decisions: v.decisions.insert(slot, cmd), proposals: v.proposals.remove(slot), ..v }
    }
}

/// The view of a max of two slots.
pub open spec fn max_slot(a: usize, b: usize) -> usize {
    if a < b {
        b
    } else {
        a
    }
}

impl Replica {
    pub closed spec fn wf(&self) -> bool {
        forall|k: usize| #[trigger] self.decisions@.contains_key(k) ==> k < usize::MAX
    }

    pub fn new(id: NodeId, store: KVStore) -> (r: Replica)
        ensures
            r.wf(),
            r@ == (ReplicaView {
                id,
                store: store@,
                installed: None,
                active: None,
                redirected: None,
                next_slot: 0,
                next_execution_slot: 0,
                proposals: Map::empty(),
                decisions: Map::empty(),
                cache: Map::empty(),
            }),
    {
        Replica {
            id,
            store,
            installed_configuration: None,
            active_configuration: None,
            redirected_configuration: None,
            next_slot: 0,
            next_execution_slot: 0,
            proposals: SlotMap::new(),
            decisions: SlotMap::new(),
            applied_cache: AssocMap::new(),
        }
    }

    /// The slot the replica proposes at next.
    pub fn next_proposal_slot(&self) -> (r: usize)
        ensures
            r == self@.next_slot,
    {
        self.next_slot
    }

    pub fn store(&self) -> (s: &KVStore)
        ensures
            s@ == self@.store,
    {
        &self.store
    }

    /// Installs `configuration`: neither the next proposal slot nor the next
    /// execution slot stays below its start index.
    pub fn install_configuration(&mut self, configuration: VerticalClusterConfiguration)
        requires
            old(self).wf(),
        ensures
            final(self).wf(),
            final(self)@ == (ReplicaView {
                installed: Some(configuration@),
                next_slot: max_slot(old(self)@.next_slot, configuration@.start_index),
                next_execution_slot: max_slot(
                    old(self)@.next_execution_slot,
                    configuration@.start_index,
                ),
                ..old(self)@
            }),
    {
        let start = configuration.start_index();
        if self.next_slot < start {
            self.next_slot = start;
        }
        if self.next_execution_slot < start {
            self.next_execution_slot = start;
        }
        self.installed_configuration = Some(configuration);
    }

    /// `configuration` becomes the active one; requests are no longer
    /// redirected.
    pub fn activate_configuration(&mut self, configuration: VerticalClusterConfiguration)
        requires
            old(self).wf(),
        ensures
            final(self).wf(),
            final(self)@ == (ReplicaView {
                active: Some(configuration@),
                redirected: None,
                next_slot: max_slot(old(self)@.next_slot, configuration@.start_index),
                next_execution_slot: max_slot(
                    old(self)@.next_execution_slot,
                    configuration@.start_index,
                ),
                ..old(self)@
            }),
    {
        let start = configuration.start_index();
        if self.next_slot < start {
            self.next_slot = start;
        }
        if self.next_execution_slot < start {
            self.next_execution_slot = start;
        }
        self.active_configuration = Some(configuration);
        self.redirected_configuration = None;
    }

    /// Requests are redirected to `active_configuration` from now on.
    pub fn decommission_to(&mut self, active_configuration: VerticalClusterConfiguration)
        requires
            old(self).wf(),
        ensures
            final(self).wf(),
            final(self)@ == (ReplicaView {
                active: None,
                redirected: Some(active_configuration@),
                ..old(self)@
            }),
    {
        self.active_configuration = None;
        self.redirected_configuration = Some(active_configuration);
    }

    pub fn clear_routing_state(&mut self)
        requires
            old(self).wf(),
        ensures
            final(self).wf(),
            final(self)@ == (ReplicaView { active: None, redirected: None, ..old(self)@ }),
    {
        self.active_configuration = None;
        self.redirected_configuration = None;
    }

    /// Admits a client request. Without an active configuration the request is
    /// redirected to the configuration that replaced this one, or left
    /// pending. A request already executed is answered at the last proposal
    /// slot. Otherwise it takes the next proposal slot and is proposed to the
    /// active leader: the second result is that leader and the PROPOSE.
    pub fn submit_client_request(&mut self, cmd: PaxosCommand) -> (r: (
        VerticalClientReply,
        Option<(NodeId, VerticalPaxosMessage)>,
    ))
        requires
            old(self).wf(),
            old(self)@.next_slot < usize::MAX,
        ensures
            final(self).wf(),
            client_request_step(old(self)@, final(self)@, cmd, r),
    {
        let active = match &self.active_configuration {
            Some(a) => a,
            None => {
                if let Some(redirect) = &self.redirected_configuration {
                    let replicas = redirect.replicas().clone();
                    assert(replicas@ =~= redirect@.replicas);
                    return (
                        VerticalClientReply::Redirect {
                            from_replica: self.id,
                            active_configuration_id: redirect.id(),
                            leader: redirect.leader(),
                            replicas,
                        },
                        None,
                    );
                }
                let configuration_id = match &self.installed_configuration {
                    Some(c) => Some(c.id()),
                    None => None,
                };
                return (VerticalClientReply::Pending { configuration_id }, None);
            },
        };
        let active_id = active.id();
        let leader = active.leader();
        if let Some(key) = cmd.client_identity() {
            if self.applied_cache.contains_key(&key) {
                let slot = if self.next_slot == 0 {
                    0
                } else {
                    self.next_slot - 1
                };
                return (VerticalClientReply::Accepted { configuration_id: active_id, slot }, None);
            }
        }
        let slot = self.next_slot;
        self.next_slot = self.next_slot + 1;
        self.proposals.insert(slot, cmd.clone());
        (
            VerticalClientReply::Accepted { configuration_id: active_id, slot },
            Some((leader, VerticalPaxosMessage::PROPOSE { from: self.id, slot, cmd })),
        )
    }

    /// Executes, in slot order from the next execution slot, every decision
    /// that is known, and hands back the executed slots with their commands.
    /// It stops at the first slot without a decision, or whose operation would
    /// leave the machine's integers.
    pub fn apply_ready_decisions(&mut self) -> (applied: Vec<(usize, PaxosCommand)>)
        requires
            old(self).wf(),
        ensures
            final(self).wf(),
            final(self)@.next_execution_slot == old(self)@.next_execution_slot + applied@.len(),
            forall|j: int|
                0 <= j < applied@.len() ==> {
                    &&& #[trigger] applied@[j].0 == old(self)@.next_execution_slot + j
                    &&& old(self)@.decisions.contains_key(applied@[j].0)
                    &&& applied@[j].1 == old(self)@.decisions[applied@[j].0]
                },
            final(self)@.decisions == old(self)@.decisions.remove_keys(
                slot_range(old(self)@.next_execution_slot, final(self)@.next_execution_slot),
            ),
            (final(self)@.store, final(self)@.cache) == apply_steps(
                (old(self)@.store, old(self)@.cache),
                applied_commands(applied@),
            ),
            !final(self)@.decisions.contains_key(final(self)@.next_execution_slot)
                || !crate::rsm::kv_store::op_fits(
                final(self)@.store,
                final(self)@.decisions[final(self)@.next_execution_slot]@.operation(),
            ),
            final(self)@ == (ReplicaView {
                store: final(self)@.store,
                cache: final(self)@.cache,
                decisions: final(self)@.decisions,
                next_execution_slot: final(self)@.next_execution_slot,
                ..old(self)@
            }),
    {
        let mut applied: Vec<(usize, PaxosCommand)> = Vec::new();
        let ghost start = self.next_execution_slot;
        proof {
            assert(old(self)@.decisions.remove_keys(slot_range(start, start)) =~= old(self)@.decisions);
            assert(applied_commands(applied@) =~= Seq::<PaxosCommand>::empty());
        }
        loop
            invariant
                self.wf(),
                start == old(self)@.next_execution_slot,
                start <= self.next_execution_slot,
                self.next_execution_slot == start + applied@.len(),
                forall|j: int|
                    0 <= j < applied@.len() ==> {
                        &&& #[trigger] applied@[j].0 == start + j
                        &&& old(self)@.decisions.contains_key(applied@[j].0)
                        &&& applied@[j].1 == old(self)@.decisions[applied@[j].0]
                    },
                self@.decisions == old(self)@.decisions.remove_keys(
                    slot_range(start, self.next_execution_slot),
                ),
                (self@.store, self@.cache) == apply_steps(
                    (old(self)@.store, old(self)@.cache),
                    applied_commands(applied@),
                ),
                self@ == (ReplicaView {
                    store: self@.store,
                    cache: self@.cache,
                    decisions: self@.decisions,
                    next_execution_slot: self@.next_execution_slot,
                    ..old(self)@
                }),
            ensures
                self.wf(),
                self.next_execution_slot == start + applied@.len(),
                forall|j: int|
                    0 <= j < applied@.len() ==> {
                        &&& #[trigger] applied@[j].0 == start + j
                        &&& old(self)@.decisions.contains_key(applied@[j].0)
                        &&& applied@[j].1 == old(self)@.decisions[applied@[j].0]
                    },
                self@.decisions == old(self)@.decisions.remove_keys(
                    slot_range(start, self.next_execution_slot),
                ),
                (self@.store, self@.cache) == apply_steps(
                    (old(self)@.store, old(self)@.cache),
                    applied_commands(applied@),
                ),
                !self@.decisions.contains_key(self@.next_execution_slot)
                    || !crate::rsm::kv_store::op_fits(
                    self@.store,
                    self@.decisions[self@.next_execution_slot]@.operation(),
                ),
                self@ == (ReplicaView {
                    store: self@.store,
                    cache: self@.cache,
                    decisions: self@.decisions,
                    next_execution_slot: self@.next_execution_slot,
                    ..old(self)@
                }),
            decreases usize::MAX - self.next_execution_slot,
        {
            let slot = self.next_execution_slot;
            let cmd = match self.decisions.get(slot) {
                Some(c) => c.clone(),
                None => {
                    break ;
                },
            };
            if !self.store.fits(&cmd) {
                break ;
            }
            let ghost before = self@;
            let ghost before_applied = applied@;
            self.decisions.remove(slot);
            self.next_execution_slot = slot + 1;
            match self.store.apply(&cmd) {
                Ok(response) => {
                    if let Some(key) = cmd.client_identity() {
                        self.applied_cache.insert(key, response);
                    }
                },
                Err(_) => {},
            }
            applied.push((slot, cmd));
            proof {
                assert(!slot_range(start, slot).contains(slot));
                assert(self@.decisions =~= old(self)@.decisions.remove_keys(
                    slot_range(start, self.next_execution_slot),
                ));
                assert(applied_commands(applied@).drop_last() =~= applied_commands(before_applied));
                assert(applied_commands(applied@).last() == cmd);
                assert forall|k: usize| #[trigger] self.decisions@.contains_key(k) implies k < usize::MAX by {
                    assert(before.decisions.contains_key(k));
                }
            }
        }
        applied
    }

    /// Learns that `pvalue`'s slot was decided for its command, executes what
    /// has become executable, and acknowledges to the pvalue's leader. The
    /// second result is the leader of the active configuration and the
    /// PROPOSE that moves a displaced proposal of this replica to a new slot
    /// (none without an active configuration); the third, the executed slots.
    pub fn handle_decision(&mut self, pvalue: PValue) -> (r: (
        VerticalPaxosMessage,
        Option<(NodeId, VerticalPaxosMessage)>,
        Vec<(usize, PaxosCommand)>,
    ))
        requires
            old(self).wf(),
            pvalue@.slot < usize::MAX,
            old(self)@.next_slot < usize::MAX,
        ensures
            final(self).wf(),
            decision_step(old(self)@, final(self)@, pvalue, r),
    {
        let slot = pvalue.slot();
        let ack = VerticalPaxosMessage::ACK { from: self.id, to: pvalue.ballot().node_id, slot };
        if self.decisions.contains_key(slot) {
            return (ack, None, Vec::new());
        }
        let cmd = pvalue.cmd().clone();
        self.decisions.insert(slot, cmd.clone());
        let mut repropose: Option<(usize, PaxosCommand)> = None;
        match self.proposals.remove(slot) {
            Some(pending) => {
                if pending != cmd {
                    let new_slot = self.next_slot;
                    self.next_slot = self.next_slot + 1;
                    self.proposals.insert(new_slot, pending.clone());
                    repropose = Some((new_slot, pending));
                }
            },
            None => {},
        }
        proof {
            assert(self@ =~= learned(old(self)@, slot, pvalue.command()));
        }
        let propose = match repropose {
            Some((new_slot, pending)) => match &self.active_configuration {
                Some(active) => Some(
                    (
                        active.leader(),
                        VerticalPaxosMessage::PROPOSE { from: self.id, slot: new_slot, cmd: pending },
                    ),
                ),
                None => None,
            },
            None => None,
        };
        let applied = self.apply_ready_decisions();
        (ack, propose, applied)
    }
}

} // verus!
