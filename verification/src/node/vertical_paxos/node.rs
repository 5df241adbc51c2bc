//! A Vertical Paxos node: acceptor, leader and replica behind one inbox. Its
//! state sketch records the roles of the installed configuration and the
//! leader and replica lifecycles; the leader's synchronization progress moves
//! the sketch and is reported to the configuration master.
use vstd::prelude::*;

use crate::ballot::{Ballot, NodeId};
use crate::cluster::vertical::activation::ActivationSnapshot;
use crate::cluster::vertical::configuration::VerticalClusterConfiguration;
use crate::node::pmmc::acceptor::{acceptor_step, AcceptorEvent};
use crate::node::routing::{LocalRoutingDecision, ProtocolInboxRouter, ProtocolRouter, RoutingDecision};
use crate::node::vertical_paxos::acceptor::Acceptor;
use crate::node::vertical_paxos::leader::commander::{message_step, CommanderStep};
use crate::node::vertical_paxos::leader::state::{
    after_ack,
    after_commander_message,
    after_p1b,
    after_proposal,
    proposal_step,
    LeaderState,
    LeaderStateView,
};
use crate::node::vertical_paxos::leader::sync::recovery::recovery_initial;
use crate::node::vertical_paxos::leader::sync::write_quorum::write_quorum_initial;
use crate::node::vertical_paxos::leader::sync::{
    sync_answer,
    sync_ready,
    sync_started,
    LeaderSyncView,
    LeaderSynchronizer,
};
use crate::node::vertical_paxos::leader::LeaderProgress;
use crate::node::vertical_paxos::leader::sync::scout_round::{ScoutRound, ScoutRoundView};
use crate::node::vertical_paxos::message::VerticalPaxosMessage;
use crate::node::vertical_paxos::node_state::{
    sketch_activation_started,
    sketch_decommissioned,
    sketch_installed,
    sketch_replica_set_activated,
    sketch_superseded,
    InstalledRoles,
    LeaderLifecycle,
    LeaderLifecycleView,
    ReplicaLifecycle,
    VerticalPaxosNodeStateSketch,
};
use crate::node::vertical_paxos::replica::{
    client_request_step,
    decision_step,
    max_slot,
    Replica,
    ReplicaView,
    VerticalClientReply,
};
use crate::node::vertical_paxos::router::{
    vertical_component,
    vertical_route,
    VerticalInboxContext,
    VerticalPaxosComponent,
    VerticalPaxosRouter,
};
use crate::paxos_command::PaxosCommand;
use crate::rsm::kv_store::KVStore;

verus! {

/// What a node tells the configuration master of its leader.
#[derive(Debug, Clone, Copy, PartialEq, Eq, Structural)]
pub enum VerticalMasterEvent {
    SyncStarted { leader_id: NodeId, configuration_id: NodeId, ballot: Ballot },
    SyncReady { leader_id: NodeId, configuration_id: NodeId, ballot: Ballot },
    SyncSuperseded {
        leader_id: NodeId,
        configuration_id: NodeId,
        ballot: Ballot,
        superseded_by: Ballot,
    },
}

pub struct VerticalNodeSnapshot {
    pub installed_roles: InstalledRoles,
    pub acceptor_online: bool,
    pub leader: LeaderLifecycle,
    pub replica: ReplicaLifecycle,
}

/// What a node sends and reports after a message.
pub struct VerticalNodeOutput {
    /// Messages for one node each.
    pub sends: Vec<(NodeId, VerticalPaxosMessage)>,
    /// Messages for each node of a list.
    pub broadcasts: Vec<(Vec<NodeId>, VerticalPaxosMessage)>,
    pub master_events: Vec<VerticalMasterEvent>,
    pub acceptor_event: Option<AcceptorEvent>,
    /// The slots the replica executed, with their commands.
    pub applied: Vec<(usize, PaxosCommand)>,
}

/// A copy of a leader lifecycle.
pub fn copy_lifecycle(l: &LeaderLifecycle) -> (r: LeaderLifecycle)
    ensures
        r@ == l@,
{
    match l {
        LeaderLifecycle::Inactive => LeaderLifecycle::Inactive,
        LeaderLifecycle::Assigned { configuration_id } => LeaderLifecycle::Assigned {
            configuration_id: *configuration_id,
        },
        LeaderLifecycle::Synchronizing { snapshot } => LeaderLifecycle::Synchronizing {
            snapshot: snapshot.clone(),
        },
        LeaderLifecycle::Ready { snapshot } => LeaderLifecycle::Ready { snapshot: snapshot.clone() },
        LeaderLifecycle::Superseded { configuration_id, superseded_by } =>
            LeaderLifecycle::Superseded {
            configuration_id: *configuration_id,
            superseded_by: *superseded_by,
        },
    }
}

/// What leaves when `msg` is answered: one message for its addressee.
pub open spec fn routed_reply(msg: VerticalPaxosMessage) -> Seq<(NodeId, VerticalPaxosMessage)> {
    match vertical_route(msg) {
        RoutingDecision::SendTo(to) => seq![(to, msg)],
        _ => seq![],
    }
}

/// What leaves for a commander step: its reply for the addressee, or its
/// message for the listed nodes.
pub open spec fn step_sent(
    step: CommanderStep,
    sends: Seq<(NodeId, VerticalPaxosMessage)>,
    broadcasts: Seq<(Vec<NodeId>, VerticalPaxosMessage)>,
) -> bool {
    match step {
        CommanderStep::Ignore => sends.len() == 0 && broadcasts.len() == 0,
        CommanderStep::Reply(m) => sends == routed_reply(m) && broadcasts.len() == 0,
        CommanderStep::ToReplicas { msg, targets } => sends.len() == 0 && broadcasts == seq![
            (targets, msg),
        ],
        CommanderStep::ToWriteQuorum { msg, targets } => sends.len() == 0 && broadcasts == seq![
            (targets, msg),
        ],
    }
}

/// The running synchronization after it took in `msg`, if one is running.
pub open spec fn sync_progress(v: LeaderStateView, msg: VerticalPaxosMessage) -> Option<LeaderSyncView> {
    match v.sync {
        Some(s) => if s.in_progress {
            Some(sync_answer(s, msg))
        } else {
            None
        },
        None => None,
    }
}

/// The sketch as it was but for its leader lifecycle.
pub open spec fn sketch_but_leader(
    before: VerticalPaxosNodeStateSketch,
    after: VerticalPaxosNodeStateSketch,
) -> bool {
    &&& after.node_id() == before.node_id()
    &&& after.installed() == before.installed()
    &&& after.active() == before.active()
    &&& after.roles() == before.roles()
    &&& after.acceptor_state() == before.acceptor_state()
    &&& after.replica_state() == before.replica_state()
    &&& after.replica_lifecycle() == before.replica_lifecycle()
}

/// The sketch as it was but for whether its acceptor and replica are online.
pub open spec fn sketch_but_online(
    before: VerticalPaxosNodeStateSketch,
    after: VerticalPaxosNodeStateSketch,
) -> bool {
    &&& after.node_id() == before.node_id()
    &&& after.installed() == before.installed()
    &&& after.active() == before.active()
    &&& after.roles() == before.roles()
    &&& after.leader_state() == before.leader_state()
    &&& after.replica_lifecycle() == before.replica_lifecycle()
}

/// What the node records and tells the master when its synchronization has
/// taken in a message: a supersession or readiness moves the leader lifecycle
/// and is reported; anything else changes nothing.
pub open spec fn progress_recorded(
    id: NodeId,
    before: VerticalPaxosNodeStateSketch,
    after: VerticalPaxosNodeStateSketch,
    progress: Option<LeaderSyncView>,
    events: Seq<VerticalMasterEvent>,
) -> bool {
    match progress {
        Some(a) => match a.superseded {
            Some(b) => {
                &&& events == seq![
                    VerticalMasterEvent::SyncSuperseded {
                        leader_id: id,
                        configuration_id: a.snapshot.configuration.id,
                        ballot: a.snapshot.configuration.ballot,
                        superseded_by: b,
                    },
                ]
                &&& after.leader_state() == (LeaderLifecycleView::Superseded {
                    configuration_id: match before.installed() {
                        Some(c) => c.id,
                        None => 0,
                    },
                    superseded_by: b,
                })
                &&& sketch_but_leader(before, after)
            },
            None => if sync_ready(a) {
                &&& events == seq![
                    VerticalMasterEvent::SyncReady {
                        leader_id: id,
                        configuration_id: a.snapshot.configuration.id,
                        ballot: a.snapshot.configuration.ballot,
                    },
                ]
                &&& after.leader_state() == (LeaderLifecycleView::Ready { snapshot: a.snapshot })
                &&& sketch_but_leader(before, after)
            } else {
                events.len() == 0 && after == before
            },
        },
        None => events.len() == 0 && after == before,
    }
}

/// What a node does with `msg`: the component it is for takes it in and the
/// answers leave; the other components and everything else stay as they are.
/// A message for no component changes nothing.
pub open spec fn vertical_node_step(
    before: VerticalNode,
    after: VerticalNode,
    msg: VerticalPaxosMessage,
    out: VerticalNodeOutput,
) -> bool {
    &&& after.node_id() == before.node_id()
    &&& after.is_running() == before.is_running()
    &&& match vertical_component(msg, before.acceptor_reachable()) {
        None => {
            &&& after == before
            &&& out.sends@.len() == 0
            &&& out.broadcasts@.len() == 0
            &&& out.master_events@.len() == 0
            &&& out.acceptor_event is None
            &&& out.applied@.len() == 0
        },
        Some(VerticalPaxosComponent::Acceptor) => {
            &&& after.leader_part() == before.leader_part()
            &&& after.replica_part() == before.replica_part()
            &&& after.sketch() == before.sketch()
            &&& out.broadcasts@.len() == 0
            &&& out.master_events@.len() == 0
            &&& out.applied@.len() == 0
            &&& exists|reply: Option<VerticalPaxosMessage>|
                acceptor_step(
                    before.acceptor_part(),
                    after.acceptor_part(),
                    msg,
                    (reply, out.acceptor_event),
                ) && out.sends@ == match reply {
                    Some(m) => routed_reply(m),
                    None => seq![],
                }
        },
        Some(VerticalPaxosComponent::Leader) => {
            &&& after.acceptor_part() == before.acceptor_part()
            &&& after.replica_part() == before.replica_part()
            &&& out.acceptor_event is None
            &&& out.applied@.len() == 0
            &&& match msg {
                VerticalPaxosMessage::P1B { .. } => {
                    &&& after.leader_part()@ == after_p1b(before.leader_part()@, msg)
                    &&& out.sends@.len() == 0
                    &&& out.broadcasts@.len() == 0
                    &&& progress_recorded(
                        before.node_id(),
                        *before.sketch(),
                        *after.sketch(),
                        sync_progress(before.leader_part()@, msg),
                        out.master_events@,
                    )
                },
                VerticalPaxosMessage::PROPOSE { slot, cmd, .. } => {
                    &&& after.leader_part()@ == after_proposal(before.leader_part()@, slot, cmd)
                    &&& after.sketch() == before.sketch()
                    &&& out.master_events@.len() == 0
                    &&& exists|step: CommanderStep|
                        #![trigger step_sent(step, out.sends@, out.broadcasts@)]
                        proposal_step(before.leader_part()@, slot, cmd, step) && step_sent(
                            step,
                            out.sends@,
                            out.broadcasts@,
                        )
                },
                VerticalPaxosMessage::ACK { from, slot, .. } => {
                    &&& after.leader_part()@ == after_ack(before.leader_part()@, from, slot)
                    &&& after.sketch() == before.sketch()
                    &&& out.sends@.len() == 0
                    &&& out.broadcasts@.len() == 0
                    &&& out.master_events@.len() == 0
                },
                _ => {
                    &&& after.leader_part()@ == after_commander_message(before.leader_part()@, msg)
                    &&& after.sketch() == before.sketch()
                    &&& out.master_events@.len() == 0
                    &&& exists|step: CommanderStep|
                        #![trigger step_sent(step, out.sends@, out.broadcasts@)]
                        (match before.leader_part()@.commander {
                            Some(c) => message_step(c, msg, step),
                            None => step is Ignore,
                        }) && step_sent(step, out.sends@, out.broadcasts@)
                },
            }
        },
        Some(VerticalPaxosComponent::Replica) => {
            &&& after.acceptor_part() == before.acceptor_part()
            &&& after.leader_part() == before.leader_part()
            &&& after.sketch() == before.sketch()
            &&& out.broadcasts@.len() == 0
            &&& out.master_events@.len() == 0
            &&& out.acceptor_event is None
            &&& msg matches VerticalPaxosMessage::ACCEPTED { pvalue, .. } ==> exists|
                r: (
                    VerticalPaxosMessage,
                    Option<(NodeId, VerticalPaxosMessage)>,
                    Vec<(usize, PaxosCommand)>,
                ),
            |
                decision_step(before.replica_part()@, after.replica_part()@, pvalue, r)
                    && out.applied == r.2 && out.sends@ == (match r.1 {
                    Some(p) => seq![p],
                    None => seq![],
                }) + routed_reply(r.0)
        },
    }
}

/// The P1A a synchronization round sends again on its retry timer: one to
/// its targets while it is neither complete, superseded nor shut down.
pub open spec fn round_retry(r: Option<ScoutRoundView>) -> Seq<(Set<NodeId>, VerticalPaxosMessage)> {
    match r {
        Some(x) => if !x.complete && x.superseded is None && !x.stopped {
            seq![
                (
                    x.targets,
                    VerticalPaxosMessage::P1A {
                        from: x.leader_id,
                        ballot: x.ballot,
                        start_index: x.start_index,
                    },
                ),
            ]
        } else {
            Seq::empty()
        },
        None => Seq::empty(),
    }
}

/// What the leader sends again on a retry tick: the P1A of the recovery
/// round, then that of the write-quorum round, each while it still waits.
pub open spec fn retry_sends(v: LeaderStateView) -> Seq<(Set<NodeId>, VerticalPaxosMessage)> {
    match v.sync {
        Some(s) => round_retry(s.recovery.round) + round_retry(s.write_quorum.round),
        None => Seq::empty(),
    }
}

/// `v` holds the broadcasts of `s`, each to the members of its target set.
pub open spec fn broadcasts_match(
    v: Seq<(Vec<NodeId>, VerticalPaxosMessage)>,
    s: Seq<(Set<NodeId>, VerticalPaxosMessage)>,
) -> bool {
    &&& v.len() == s.len()
    &&& forall|i: int| 0 <= i < v.len() ==> (#[trigger] v[i]).0@.to_set() == s[i].0 && v[i].1 == s[i].1
}

fn push_round_retry(round: Option<&ScoutRound>, out: &mut Vec<(Vec<NodeId>, VerticalPaxosMessage)>)
    ensures
        final(out)@.len() == old(out)@.len() + round_retry(round_view(round)).len(),
        final(out)@.take(old(out)@.len() as int) == old(out)@,
        broadcasts_match(final(out)@.skip(old(out)@.len() as int), round_retry(round_view(round))),
{
    let ghost before = out@;
    if let Some(r) = round {
        if r.wants_broadcast() {
            out.push((r.target_list(), r.p1a()));
            proof {
                assert(out@.take(before.len() as int) =~= before);
                assert(out@.skip(before.len() as int) =~= seq![out@[before.len() as int]]);
            }
            return;
        }
    }
    proof {
        assert(out@.take(before.len() as int) =~= before);
        assert(out@.skip(before.len() as int) =~= Seq::<(Vec<NodeId>, VerticalPaxosMessage)>::empty());
    }
}

/// The view of an optional round.
pub open spec fn round_view(r: Option<&ScoutRound>) -> Option<ScoutRoundView> {
    match r {
        Some(x) => Some(x@),
        None => None,
    }
}

pub struct VerticalNode {
    id: NodeId,
    acceptor: Acceptor,
    leader: LeaderState,
    replica: Replica,
    router: VerticalPaxosRouter,
    state: VerticalPaxosNodeStateSketch,
    running: bool,
}

impl VerticalNode {
    pub closed spec fn node_id(&self) -> NodeId {
        self.id
    }

    pub closed spec fn sketch(&self) -> &VerticalPaxosNodeStateSketch {
        &self.state
    }

    pub closed spec fn acceptor_part(&self) -> Acceptor {
        self.acceptor
    }

    pub closed spec fn leader_part(&self) -> LeaderState {
        self.leader
    }

    pub closed spec fn replica_part(&self) -> Replica {
        self.replica
    }

    pub closed spec fn is_running(&self) -> bool {
        self.running
    }

    pub closed spec fn wf(&self) -> bool {
        &&& self.leader.wf()
        &&& self.replica.wf()
        &&& self.state.node_id() == self.id
        &&& self.replica@.id == self.id
    }

    /// Room for the replica to take one more proposal slot and to learn a
    /// decision of `slot`.
    pub closed spec fn replica_room(&self, slot: usize) -> bool {
        self.replica@.next_slot < usize::MAX && slot < usize::MAX
    }

    /// Whether phase-one and phase-two requests reach the acceptor: the node is
    /// in the acceptor set and its acceptor is online.
    pub open spec fn acceptor_reachable(&self) -> bool {
        self.sketch().roles().flags().1 && self.sketch().acceptor_state().is_online()
    }

    pub fn new(id: NodeId, acceptor: Acceptor, store: KVStore) -> (n: VerticalNode)
        ensures
            n.wf(),
            n.node_id() == id,
            !n.is_running(),
            n.sketch().leader_state() == LeaderLifecycleView::Inactive,
            n.sketch().replica_lifecycle() == ReplicaLifecycle::Inactive,
            !n.sketch().acceptor_state().is_online(),
            !n.sketch().replica_state().is_online(),
            n.sketch().node_id() == id,
            n.sketch().installed() is None,
            n.sketch().active() is None,
            n.sketch().roles().flags() == (false, false, false),
            n.acceptor_part() == acceptor,
            n.leader_part()@ == (LeaderStateView { proposals: Map::empty(), sync: None, commander: None }),
            n.replica_part()@ == (ReplicaView {
                id,
                store: store@,
                installed: None,
                active: None,
                redirected: None,
                next_slot: 0,
                next_execution_slot: 0,
                proposals: Map::empty(),
                decisions: Map::empty(),
                cache: Map::empty(),
            }),
    {
        VerticalNode {
            id,
            acceptor,
            leader: LeaderState::new(),
            replica: Replica::new(id, store),
            router: VerticalPaxosRouter,
            state: VerticalPaxosNodeStateSketch::new(id),
            running: false,
        }
    }

    /// Installs `configuration`: the leader is reset, the replica and the
    /// sketch take the configuration.
    pub fn install_configuration(&mut self, configuration: VerticalClusterConfiguration)
        requires
            old(self).wf(),
        ensures
            final(self).wf(),
            final(self).node_id() == old(self).node_id(),
            final(self).is_running() == old(self).is_running(),
            final(self).acceptor_part() == old(self).acceptor_part(),
            final(self).leader_part()@ == (LeaderStateView {
                sync: None,
                commander: None,
                ..old(self).leader_part()@
            }),
            final(self).replica_part()@ == (ReplicaView {
                installed: Some(configuration@),
                next_slot: max_slot(old(self).replica_part()@.next_slot, configuration@.start_index),
                next_execution_slot: max_slot(
                    old(self).replica_part()@.next_execution_slot,
                    configuration@.start_index,
                ),
                ..old(self).replica_part()@
            }),
            sketch_installed(*old(self).sketch(), *final(self).sketch(), configuration@),
    {
        self.leader.shutdown();
        self.replica.install_configuration(configuration.clone());
        self.state.install_configuration(configuration);
    }

    /// Starts the leader's activation on `snapshot`; the master is told that
    /// synchronization started.
    pub fn start_activation(&mut self, snapshot: ActivationSnapshot) -> (events: Vec<VerticalMasterEvent>)
        requires
            old(self).wf(),
        ensures
            final(self).wf(),
            final(self).node_id() == old(self).node_id(),
            final(self).is_running() == old(self).is_running(),
            final(self).acceptor_part() == old(self).acceptor_part(),
            final(self).replica_part() == old(self).replica_part(),
            final(self).leader_part()@ == (LeaderStateView {
                sync: Some(
                    sync_started(
                        LeaderSyncView {
                            snapshot: snapshot@,
                            recovery: recovery_initial(old(self).node_id(), snapshot@),
                            write_quorum: write_quorum_initial(old(self).node_id(), snapshot@),
                            in_progress: false,
                            superseded: None,
                        },
                    ),
                ),
                commander: None,
                ..old(self).leader_part()@
            }),
            sketch_activation_started(*old(self).sketch(), *final(self).sketch(), snapshot@),
            events@ == seq![
                VerticalMasterEvent::SyncStarted {
                    leader_id: old(self).node_id(),
                    configuration_id: snapshot@.configuration.id,
                    ballot: snapshot@.configuration.ballot,
                },
            ],
    {
        self.state.start_activation(snapshot.clone());
        let synchronizer = LeaderSynchronizer::new(self.id, snapshot);
        self.leader.install_activation(synchronizer);
        let mut events: Vec<VerticalMasterEvent> = Vec::new();
        if let Some(started) = self.leader.start_synchronization() {
            events.push(
                VerticalMasterEvent::SyncStarted {
                    leader_id: self.id,
                    configuration_id: started.configuration().id(),
                    ballot: started.configuration().ballot(),
                },
            );
        }
        events
    }

    /// A higher ballot took over: the leader is reset and marked superseded.
    pub fn preempt_leader(&mut self, preempted_by: Ballot)
        requires
            old(self).wf(),
        ensures
            final(self).wf(),
            final(self).node_id() == old(self).node_id(),
            final(self).is_running() == old(self).is_running(),
            final(self).acceptor_part() == old(self).acceptor_part(),
            final(self).replica_part() == old(self).replica_part(),
            final(self).leader_part()@ == (LeaderStateView {
                sync: None,
                commander: None,
                ..old(self).leader_part()@
            }),
            sketch_superseded(*old(self).sketch(), *final(self).sketch(), preempted_by),
    {
        self.leader.shutdown();
        self.state.supersede(preempted_by);
    }

    pub fn activate_replica_set(&mut self, configuration: VerticalClusterConfiguration)
        requires
            old(self).wf(),
        ensures
            final(self).wf(),
            final(self).node_id() == old(self).node_id(),
            final(self).is_running() == old(self).is_running(),
            final(self).acceptor_part() == old(self).acceptor_part(),
            final(self).leader_part() == old(self).leader_part(),
            final(self).replica_part()@ == (ReplicaView {
                active: Some(configuration@),
                redirected: None,
                next_slot: max_slot(old(self).replica_part()@.next_slot, configuration@.start_index),
                next_execution_slot: max_slot(
                    old(self).replica_part()@.next_execution_slot,
                    configuration@.start_index,
                ),
                ..old(self).replica_part()@
            }),
            sketch_replica_set_activated(*old(self).sketch(), *final(self).sketch(), configuration@),
    {
        self.replica.activate_configuration(configuration.clone());
        self.state.activate_replica_set(configuration);
    }

    pub fn decommission_replica_set(&mut self, active_configuration: VerticalClusterConfiguration)
        requires
            old(self).wf(),
        ensures
            final(self).wf(),
            final(self).node_id() == old(self).node_id(),
            final(self).is_running() == old(self).is_running(),
            final(self).acceptor_part() == old(self).acceptor_part(),
            final(self).leader_part() == old(self).leader_part(),
            final(self).replica_part()@ == (ReplicaView {
                active: None,
                redirected: Some(active_configuration@),
                ..old(self).replica_part()@
            }),
            sketch_decommissioned(*old(self).sketch(), *final(self).sketch(), active_configuration@),
    {
        self.replica.decommission_to(active_configuration.clone());
        self.state.decommission_to(active_configuration);
    }

    /// A client request goes to the replica; a PROPOSE it makes goes to the
    /// active leader.
    pub fn submit_client_request(&mut self, cmd: PaxosCommand) -> (r: (
        VerticalClientReply,
        Option<(NodeId, VerticalPaxosMessage)>,
    ))
        requires
            old(self).wf(),
            old(self).replica_room(0),
        ensures
            final(self).wf(),
            final(self).node_id() == old(self).node_id(),
            final(self).is_running() == old(self).is_running(),
            final(self).acceptor_part() == old(self).acceptor_part(),
            final(self).leader_part() == old(self).leader_part(),
            final(self).sketch() == old(self).sketch(),
            client_request_step(old(self).replica_part()@, final(self).replica_part()@, cmd, r),
    {
        self.replica.submit_client_request(cmd)
    }

    /// Whether the replica has room to propose once more and to learn a
    /// decision of `slot`.
    /// What the leader sends again on a retry tick of its synchronization
    /// (see `retry_sends`).
    pub fn retry_broadcasts(&self) -> (v: Vec<(Vec<NodeId>, VerticalPaxosMessage)>)
        ensures
            broadcasts_match(v@, retry_sends(self.leader_part()@)),
    {
        let mut out: Vec<(Vec<NodeId>, VerticalPaxosMessage)> = Vec::new();
        match self.leader.synchronizer() {
            Some(sync) => {
                let r1 = sync.recovery().active_round();
                let r2 = sync.write_quorum().active_round();
                push_round_retry(r1, &mut out);
                let ghost first = out@;
                push_round_retry(r2, &mut out);
                proof {
                    let a = round_retry(round_view(r1));
                    let b = round_retry(round_view(r2));
                    assert(round_view(r1) == sync@.recovery.round);
                    assert(round_view(r2) == sync@.write_quorum.round);
                    assert(first =~= first.skip(0));
                    assert forall|i: int| 0 <= i < out@.len() implies (#[trigger] out@[i]).0@.to_set()
                        == (a + b)[i].0 && out@[i].1 == (a + b)[i].1 by {
                        if i < first.len() {
                            assert(out@[i] == first[i]);
                            assert(first.skip(0)[i] == first[i]);
                        } else {
                            assert(out@[i] == out@.skip(first.len() as int)[i - first.len()]);
                        }
                    }
                }
            },
            None => {},
        }
        out
    }

    pub fn replica_has_room(&self, slot: usize) -> (b: bool)
        ensures
            b == self.replica_room(slot),
    {
        self.replica.next_proposal_slot() < usize::MAX && slot < usize::MAX
    }

    pub fn snapshot(&self) -> (s: VerticalNodeSnapshot)
        ensures
            s.installed_roles == self.sketch().roles(),
            s.acceptor_online == self.sketch().acceptor_state().is_online(),
            s.leader@ == self.sketch().leader_state(),
            s.replica == self.sketch().replica_lifecycle(),
    {
        VerticalNodeSnapshot {
            installed_roles: *self.state.installed_roles(),
            acceptor_online: self.state.acceptor_runtime().online(),
            leader: copy_lifecycle(self.state.leader()),
            replica: *self.state.replica(),
        }
    }

    /// The node starts taking messages; acceptor and replica come online.
    pub fn start(&mut self)
        requires
            old(self).wf(),
        ensures
            final(self).wf(),
            final(self).is_running(),
            final(self).node_id() == old(self).node_id(),
            final(self).acceptor_part() == old(self).acceptor_part(),
            final(self).leader_part() == old(self).leader_part(),
            final(self).replica_part() == old(self).replica_part(),
            final(self).sketch().acceptor_state().is_online(),
            final(self).sketch().replica_state().is_online(),
            sketch_but_online(*old(self).sketch(), *final(self).sketch()),
    {
        self.running = true;
        self.state.set_acceptor_online(true);
        self.state.set_replica_online(true);
    }

    /// The node stops taking messages; acceptor and replica go offline.
    pub fn shutdown(&mut self)
        requires
            old(self).wf(),
        ensures
            final(self).wf(),
            !final(self).is_running(),
            final(self).node_id() == old(self).node_id(),
            final(self).acceptor_part() == old(self).acceptor_part(),
            final(self).leader_part() == old(self).leader_part(),
            final(self).replica_part() == old(self).replica_part(),
            !final(self).sketch().acceptor_state().is_online(),
            !final(self).sketch().replica_state().is_online(),
            sketch_but_online(*old(self).sketch(), *final(self).sketch()),
    {
        self.running = false;
        self.state.set_acceptor_online(false);
        self.state.set_replica_online(false);
    }

    fn should_route_to_acceptor(&self) -> (b: bool)
        ensures
            b == self.acceptor_reachable(),
    {
        self.state.installed_roles().member_of_acceptor_set() && self.state.acceptor_runtime().online()
    }

    /// Replies leave only for their addressee.
    fn send_reply(&self, msg: VerticalPaxosMessage, sends: &mut Vec<(NodeId, VerticalPaxosMessage)>)
        ensures
            final(sends)@ == match crate::node::vertical_paxos::router::vertical_route(msg) {
                RoutingDecision::SendTo(to) => old(sends)@.push((to, msg)),
                _ => old(sends)@,
            },
    {
        match self.router.route(&msg, &()) {
            RoutingDecision::SendTo(to) => sends.push((to, msg)),
            RoutingDecision::Broadcast | RoutingDecision::SendToMany(_) | RoutingDecision::Drop => {},
        }
    }

    fn take_step(
        &self,
        step: CommanderStep,
        sends: &mut Vec<(NodeId, VerticalPaxosMessage)>,
        broadcasts: &mut Vec<(Vec<NodeId>, VerticalPaxosMessage)>,
    )
        requires
            old(sends)@.len() == 0,
            old(broadcasts)@.len() == 0,
        ensures
            step_sent(step, final(sends)@, final(broadcasts)@),
    {
        match step {
            CommanderStep::Ignore => {},
            CommanderStep::Reply(msg) => {
                self.send_reply(msg, sends);
                assert(sends@ =~= routed_reply(msg));
            },
            CommanderStep::ToReplicas { msg, targets } => {
                broadcasts.push((targets, msg));
                assert(broadcasts@ =~= seq![(targets, msg)]);
            },
            CommanderStep::ToWriteQuorum { msg, targets } => {
                broadcasts.push((targets, msg));
                assert(broadcasts@ =~= seq![(targets, msg)]);
            },
        }
    }

    fn handle_progress(
        &mut self,
        progress: LeaderProgress,
        events: &mut Vec<VerticalMasterEvent>,
        Ghost(report): Ghost<Option<LeaderSyncView>>,
    )
        requires
            old(self).wf(),
            old(events)@.len() == 0,
            match report {
                Some(a) => crate::node::vertical_paxos::leader::progress_reports(progress, a),
                None => progress is NoChange,
            },
        ensures
            final(self).wf(),
            final(self).node_id() == old(self).node_id(),
            final(self).is_running() == old(self).is_running(),
            final(self).acceptor_part() == old(self).acceptor_part(),
            final(self).leader_part() == old(self).leader_part(),
            final(self).replica_part() == old(self).replica_part(),
            progress_recorded(
                old(self).node_id(),
                *old(self).sketch(),
                *final(self).sketch(),
                report,
                final(events)@,
            ),
    {
        match progress {
            LeaderProgress::NoChange => {
                proof {
                    if let Some(a) = report {
                        assert(a.superseded is None);
                        assert(!sync_ready(a));
                    }

                }
            },
            LeaderProgress::Ready { snapshot } => {
                let configuration_id = snapshot.configuration().id();
                let ballot = snapshot.configuration().ballot();
                self.state.mark_leader_ready(snapshot);
                events.push(
                    VerticalMasterEvent::SyncReady { leader_id: self.id, configuration_id, ballot },
                );
                assert(events@ =~= seq![
                    VerticalMasterEvent::SyncReady { leader_id: self.id, configuration_id, ballot },
                ]);
            },
            LeaderProgress::Superseded { snapshot, superseded_by } => {
                self.state.supersede(superseded_by);
                events.push(
                    VerticalMasterEvent::SyncSuperseded {
                        leader_id: self.id,
                        configuration_id: snapshot.configuration().id(),
                        ballot: snapshot.configuration().ballot(),
                        superseded_by,
                    },
                );
                assert(events@ =~= seq![events@[0]]);
            },
        }
    }

    /// Hands `msg` to the component it is for: phase requests to the acceptor
    /// when it is reachable, replies and proposals to the leader, decisions to
    /// the replica. Replies go to their addressee.
    pub fn handle_message(&mut self, msg: VerticalPaxosMessage) -> (out: VerticalNodeOutput)
        requires
            old(self).wf(),
            msg matches VerticalPaxosMessage::ACCEPTED { pvalue, .. } ==> old(self).replica_room(
                pvalue@.slot,
            ),
        ensures
            final(self).wf(),
            vertical_node_step(*old(self), *final(self), msg, out),
    {
        let mut sends: Vec<(NodeId, VerticalPaxosMessage)> = Vec::new();
        let mut broadcasts: Vec<(Vec<NodeId>, VerticalPaxosMessage)> = Vec::new();
        let mut master_events: Vec<VerticalMasterEvent> = Vec::new();
        let mut acceptor_event: Option<AcceptorEvent> = None;
        let mut applied: Vec<(usize, PaxosCommand)> = Vec::new();
        let ghost mut taken: CommanderStep = CommanderStep::Ignore;
        let ghost original = msg;
        let context = VerticalInboxContext { acceptor_online: self.should_route_to_acceptor() };
        match self.router.classify(&msg, &context) {
            LocalRoutingDecision::DeliverTo(VerticalPaxosComponent::Acceptor) => {
                let (reply, event) = self.acceptor.handle_message(msg);
                let ghost answered = reply;
                acceptor_event = event;
                if let Some(reply) = reply {
                    self.send_reply(reply, &mut sends);
                }
                proof {
                    if let Some(m) = answered {
                        assert(sends@ =~= routed_reply(m));
                    }
                    assert(acceptor_step(
                        old(self).acceptor_part(),
                        self.acceptor_part(),
                        msg,
                        (answered, acceptor_event),
                    ));
                }
            },
            LocalRoutingDecision::DeliverTo(VerticalPaxosComponent::Leader) => {
                match msg {
                    VerticalPaxosMessage::P1B { .. } => {
                        let ghost report = sync_progress(self.leader@, msg);
                        let progress = self.leader.handle_p1b(&msg);
                        self.handle_progress(progress, &mut master_events, Ghost(report));
                    },
                    VerticalPaxosMessage::PROPOSE { from: _, slot, cmd } => {
                        let step = self.leader.record_proposal(slot, cmd);
                        proof {
                            taken = step;
                        }
                        self.take_step(step, &mut sends, &mut broadcasts);

                    },
                    VerticalPaxosMessage::ACK { from, slot, .. } => {
                        self.leader.handle_ack(from, slot);
                    },
                    _ => {
                        let step = self.leader.handle_message(msg);
                        proof {
                            taken = step;
                        }
                        self.take_step(step, &mut sends, &mut broadcasts);

                    },
                }
            },
            LocalRoutingDecision::DeliverTo(VerticalPaxosComponent::Replica) => {
                if let VerticalPaxosMessage::ACCEPTED { pvalue, .. } = msg {
                    let (ack, propose, executed) = self.replica.handle_decision(pvalue);
                    let ghost answers = (ack, propose, executed);
                    applied = executed;
                    if let Some((leader, propose)) = propose {
                        sends.push((leader, propose));
                    }
                    self.send_reply(ack, &mut sends);
                    proof {
                        assert(sends@ =~= (match answers.1 {
                            Some(p) => seq![p],
                            None => seq![],
                        }) + routed_reply(answers.0));
                        assert(decision_step(old(self).replica_part()@, self.replica_part()@, pvalue, answers));
                    }
                }
            },
            LocalRoutingDecision::Drop => {},
        }
        let out = VerticalNodeOutput { sends, broadcasts, master_events, acceptor_event, applied };
        proof {
            if vertical_component(original, old(self).acceptor_reachable()) == Some(
                VerticalPaxosComponent::Leader,
            ) {
                if let VerticalPaxosMessage::PROPOSE { slot, cmd, .. } = original {
                    assert(proposal_step(old(self).leader_part()@, slot, cmd, taken));
                    assert(step_sent(taken, out.sends@, out.broadcasts@));
                } else if !(original is P1B) && !(original is ACK) {
                    assert((match old(self).leader_part()@.commander {
                        Some(c) => message_step(c, original, taken),
                        None => taken is Ignore,
                    }) && step_sent(taken, out.sends@, out.broadcasts@));
                }
            }
        }
        out
    }
}

} // verus!
