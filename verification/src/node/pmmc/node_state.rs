//! A PMMC node: the components its roles give it, and the dispatch of each
//! incoming message to the component it is for, with the answers routed to
//! their recipients. Trace events of sent messages are built here too.
use vstd::prelude::*;

use crate::ballot::{Ballot, NodeId};
use crate::configuration::Roles;
use crate::node::peer_topology::PeerTopology;
use crate::node::pmmc::acceptor::{acceptor_step, Acceptor, AcceptorEvent};
use crate::node::pmmc::leader::leader_state::ElectionTimer;
use crate::node::pmmc::leader::{election_started, leader_step, Leader, LeaderEvent, LeaderOutput};
use crate::node::pmmc::message::PmmcMessage;
use crate::node::pmmc::replica::{replica_learn, Replica};
use crate::node::pmmc::router::{pmmc_component, PmmcComponent, PmmcRouter};
use crate::node::pvalue::PValue;
use crate::node::routing::{LocalRoutingDecision, ProtocolInboxRouter, ProtocolRouter, RoutingDecision};

verus! {

/// A trace of a PMMC message on its way to `to`.
#[derive(Debug)]
pub enum PmmcTraceEvent {
    PmmcP1A { from: NodeId, ballot: Ballot, created_at: u64 },
    PmmcP1B { from: NodeId, to: NodeId, ballot: Ballot, created_at: u64 },
    PmmcP2A { from: NodeId, pvalue: PValue, created_at: u64 },
    PmmcP2B { from: NodeId, to: NodeId, ballot: Ballot, pvalue: PValue, created_at: u64 },
    PmmcAdopted { from: NodeId, to: NodeId, ballot: Ballot, created_at: u64 },
    PmmcPreempted { from: NodeId, to: NodeId, ballot: Ballot, created_at: u64 },
    PmmcHeartbeat { from: NodeId, ballot: Ballot, created_at: u64 },
    PmmcAck { from: NodeId, to: NodeId, slot: usize, created_at: u64 },
}

/// The trace of sending `msg` to `to` at `created_at`; decisions and
/// proposals are not traced.
pub open spec fn trace_of(msg: PmmcMessage, to: NodeId, created_at: u64) -> Option<PmmcTraceEvent> {
    match msg {
        PmmcMessage::P1A { from, ballot, .. } => Some(PmmcTraceEvent::PmmcP1A { from, ballot, created_at }),
        PmmcMessage::P1B { from, ballot, .. } => Some(
            PmmcTraceEvent::PmmcP1B { from, to, ballot, created_at },
        ),
        PmmcMessage::P2A { from, pvalue } => Some(PmmcTraceEvent::PmmcP2A { from, pvalue, created_at }),
        PmmcMessage::P2B { from, ballot, pvalue, .. } => Some(
            PmmcTraceEvent::PmmcP2B { from, to, ballot, pvalue, created_at },
        ),
        PmmcMessage::ADOPTED { from, ballot, .. } => Some(
            PmmcTraceEvent::PmmcAdopted { from, to, ballot, created_at },
        ),
        PmmcMessage::PREEMPT { from, ballot, .. } => Some(
            PmmcTraceEvent::PmmcPreempted { from, to, ballot, created_at },
        ),
        PmmcMessage::HEARTBEAT { from, ballot } => Some(
            PmmcTraceEvent::PmmcHeartbeat { from, ballot, created_at },
        ),
        PmmcMessage::ACK { from, slot, .. } => Some(PmmcTraceEvent::PmmcAck { from, to, slot, created_at }),
        PmmcMessage::ACCEPTED { .. } | PmmcMessage::PROPOSE { .. } => None,
    }
}

/// The trace event of sending `msg` to `to` (see `trace_of`).
pub fn pmmc_message_event(msg: &PmmcMessage, to: NodeId, created_at: u64) -> (e: Option<PmmcTraceEvent>)
    ensures
        e == trace_of(*msg, to, created_at),
{
    match msg {
        PmmcMessage::P1A { from, ballot, .. } => Some(
            PmmcTraceEvent::PmmcP1A { from: *from, ballot: *ballot, created_at },
        ),
        PmmcMessage::P1B { from, ballot, .. } => Some(
            PmmcTraceEvent::PmmcP1B { from: *from, to, ballot: *ballot, created_at },
        ),
        PmmcMessage::P2A { from, pvalue } => Some(
            PmmcTraceEvent::PmmcP2A { from: *from, pvalue: pvalue.clone(), created_at },
        ),
        PmmcMessage::P2B { from, ballot, pvalue, .. } => Some(
            PmmcTraceEvent::PmmcP2B {
                from: *from,
                to,
                ballot: *ballot,
                pvalue: pvalue.clone(),
                created_at,
            },
        ),
        PmmcMessage::ADOPTED { from, ballot, .. } => Some(
            PmmcTraceEvent::PmmcAdopted { from: *from, to, ballot: *ballot, created_at },
        ),
        PmmcMessage::PREEMPT { from, ballot, .. } => Some(
            PmmcTraceEvent::PmmcPreempted { from: *from, to, ballot: *ballot, created_at },
        ),
        PmmcMessage::HEARTBEAT { from, ballot } => Some(
            PmmcTraceEvent::PmmcHeartbeat { from: *from, ballot: *ballot, created_at },
        ),
        PmmcMessage::ACK { from, slot, .. } => Some(
            PmmcTraceEvent::PmmcAck { from: *from, to, slot: *slot, created_at },
        ),
        PmmcMessage::ACCEPTED { .. } | PmmcMessage::PROPOSE { .. } => None,
    }
}

/// The names of the roles a node plays, in the order it announces them:
/// `Leader`, `Acceptor`, `Replica`, each where the node plays the role.
pub open spec fn role_names(roles: Roles) -> Seq<Seq<char>> {
    (if roles.proposer {
        seq!["Leader"@]
    } else {
        Seq::empty()
    }) + (if roles.acceptor {
        seq!["Acceptor"@]
    } else {
        Seq::empty()
    }) + (if roles.learner {
        seq!["Replica"@]
    } else {
        Seq::empty()
    })
}

/// The names of the roles a node plays, as it announces them.
pub fn capability_names(roles: &Roles) -> (v: Vec<String>)
    ensures
        v@.len() == role_names(*roles).len(),
        forall|i: int| 0 <= i < v@.len() ==> #[trigger] v@[i]@ == role_names(*roles)[i],
{
    let mut v: Vec<String> = Vec::new();
    if roles.proposer {
        v.push("Leader".to_owned());
    }
    if roles.acceptor {
        v.push("Acceptor".to_owned());
    }
    if roles.learner {
        v.push("Replica".to_owned());
    }
    v
}

/// The capabilities a node announces when it is built: its identity, the
/// names of its roles and its learning strategy.
#[derive(Debug)]
pub struct NodeCapabilities {
    pub id: NodeId,
    pub roles: Vec<String>,
    pub learning_strategy: String,
}

/// Every component is the node's own: it carries the node's id.
pub open spec fn parts_named(
    uuid: NodeId,
    leader: Option<Leader>,
    acceptor: Option<Acceptor>,
    replica: Option<Replica>,
) -> bool {
    &&& leader matches Some(l) ==> l.id() == uuid
    &&& acceptor matches Some(a) ==> a.id() == uuid
    &&& replica matches Some(r) ==> r.id() == uuid
}

/// The components fit the roles: a leader exactly for a proposer, an
/// acceptor exactly for an acceptor, a replica exactly for a learner.
pub open spec fn parts_fit_roles(
    roles: Roles,
    leader: Option<Leader>,
    acceptor: Option<Acceptor>,
    replica: Option<Replica>,
) -> bool {
    &&& (leader is Some) == roles.proposer
    &&& (acceptor is Some) == roles.acceptor
    &&& (replica is Some) == roles.learner
}

/// The recipients of `msg` on the network (see the PMMC router).
pub open spec fn pmmc_targets(t: PeerTopology, msg: PmmcMessage) -> Seq<NodeId> {
    match msg {
        PmmcMessage::HEARTBEAT { .. } | PmmcMessage::PROPOSE { .. } => t.proposers@,
        PmmcMessage::P1A { .. } | PmmcMessage::P2A { .. } => t.acceptors@,
        PmmcMessage::ACCEPTED { .. } => t.learners@,
        PmmcMessage::ACK { to, .. } => seq![to],
        PmmcMessage::ADOPTED { to, .. } => seq![to],
        PmmcMessage::P1B { to, .. } => seq![to],
        PmmcMessage::P2B { to, .. } => seq![to],
        PmmcMessage::PREEMPT { to, .. } => seq![to],
    }
}

/// What a node sends and reports after a message.
pub struct NodeOutput {
    /// Each message with its recipients.
    pub messages: Vec<(PmmcMessage, Vec<NodeId>)>,
    pub acceptor_event: Option<AcceptorEvent>,
    pub leader_event: Option<LeaderEvent>,
    pub timer: ElectionTimer,
}

/// The first message sent, if any.
pub open spec fn first_sent(s: Seq<(PmmcMessage, Vec<NodeId>)>) -> Option<PmmcMessage> {
    if s.len() == 0 {
        None
    } else {
        Some(s[0].0)
    }
}

/// The second message sent, if any.
pub open spec fn second_sent(s: Seq<(PmmcMessage, Vec<NodeId>)>) -> Option<PmmcMessage> {
    if s.len() < 2 {
        None
    } else {
        Some(s[1].0)
    }
}

/// What a node does with `pmsg`: the component it is for takes it in (see
/// `leader_step`, `acceptor_step`, `replica_learn`) and its answers are the
/// messages sent; the other components stay as they are; a node without that
/// component changes nothing and sends nothing.
pub open spec fn node_step(before: PmmcNodeState, after: PmmcNodeState, pmsg: PmmcMessage, out: NodeOutput) -> bool {
    match pmmc_component(pmsg) {
        PmmcComponent::Leader => {
            &&& after.acceptor_part() == before.acceptor_part()
            &&& after.replica_part() == before.replica_part()
            &&& out.acceptor_event is None
            &&& out.messages@.len() <= 1
            &&& match before.leader_part() {
                Some(l1) => after.leader_part() matches Some(l2) && leader_step(
                    l1,
                    l2,
                    pmsg,
                    LeaderOutput {
                        reply: first_sent(out.messages@),
                        timer: out.timer,
                        event: out.leader_event,
                    },
                ),
                None => after.leader_part() is None && out.messages@.len() == 0
                    && out.leader_event is None && out.timer == ElectionTimer::Keep,
            }
        },
        PmmcComponent::Acceptor => {
            &&& after.leader_part() == before.leader_part()
            &&& after.replica_part() == before.replica_part()
            &&& out.leader_event is None
            &&& out.timer == ElectionTimer::Keep
            &&& out.messages@.len() <= 1
            &&& match before.acceptor_part() {
                Some(a1) => after.acceptor_part() matches Some(a2) && acceptor_step(
                    a1,
                    a2,
                    pmsg,
                    (first_sent(out.messages@), out.acceptor_event),
                ),
                None => after.acceptor_part() is None && out.messages@.len() == 0
                    && out.acceptor_event is None,
            }
        },
        PmmcComponent::Replica => {
            &&& after.leader_part() == before.leader_part()
            &&& after.acceptor_part() == before.acceptor_part()
            &&& out.leader_event is None
            &&& out.acceptor_event is None
            &&& out.timer == ElectionTimer::Keep
            &&& out.messages@.len() <= 2
            &&& match before.replica_part() {
                Some(r1) => after.replica_part() matches Some(r2) && (pmsg matches PmmcMessage::ACCEPTED {
                    pvalue,
                    ..
                } ==> replica_learn(
                    r1,
                    r2,
                    pvalue,
                    (first_sent(out.messages@), second_sent(out.messages@)),
                )),
                None => after.replica_part() is None && out.messages@.len() == 0,
            }
        },
    }
}

/// Each message is sent to its recipients.
pub open spec fn routed(t: PeerTopology, messages: Seq<(PmmcMessage, Vec<NodeId>)>) -> bool {
    forall|i: int| 0 <= i < messages.len() ==> #[trigger] messages[i].1@ == pmmc_targets(t, messages[i].0)
}

pub struct PmmcNodeState {
    uuid: NodeId,
    acceptor: Option<Acceptor>,
    leader: Option<Leader>,
    replica: Option<Replica>,
    router: PmmcRouter,
}

impl PmmcNodeState {
    pub closed spec fn id(&self) -> NodeId {
        self.uuid
    }

    pub closed spec fn topology(&self) -> PeerTopology {
        self.router.topology()
    }

    pub closed spec fn leader_part(&self) -> Option<Leader> {
        self.leader
    }

    pub closed spec fn acceptor_part(&self) -> Option<Acceptor> {
        self.acceptor
    }

    pub closed spec fn replica_part(&self) -> Option<Replica> {
        self.replica
    }

    pub open spec fn has_leader(&self) -> bool {
        self.leader_part() is Some
    }

    pub open spec fn has_acceptor(&self) -> bool {
        self.acceptor_part() is Some
    }

    pub open spec fn has_replica(&self) -> bool {
        self.replica_part() is Some
    }

    pub open spec fn leader_active(&self) -> bool {
        self.leader_part() matches Some(l) && l.active()
    }

    /// Room for the replica to learn decisions of `slot`.
    pub closed spec fn can_learn_slot(&self, slot: usize) -> bool {
        self.replica matches Some(r) ==> slot < usize::MAX - 2 && r.state().durable().next_slot()
            < usize::MAX - 2
    }

    /// The replica has stopped for reconfiguration.
    pub closed spec fn replica_stopped(&self) -> bool {
        self.replica matches Some(r) && r.state().durable().in_effect()
            != crate::node::pmmc::replica::replica_state::durable::ReconfigurationStrategyInEffect::Inactive
    }

    /// Room for the leader to try a higher ballot.
    pub closed spec fn ballot_room(&self) -> bool {
        self.leader matches Some(l) ==> l.state().durable().counter() < usize::MAX
            && l.state().volatile().highest().number < usize::MAX
    }

    pub closed spec fn wf(&self) -> bool {
        self.leader matches Some(l) ==> l.wf()
    }

    /// The node of `uuid` with the given components.
    pub fn init(
        uuid: NodeId,
        topology: PeerTopology,
        leader: Option<Leader>,
        acceptor: Option<Acceptor>,
        replica: Option<Replica>,
    ) -> (n: PmmcNodeState)
        requires
            leader matches Some(l) ==> l.wf(),
            parts_named(uuid, leader, acceptor, replica),
        ensures
            n.wf(),
            n.id() == uuid,
            n.topology() == topology,
            n.has_leader() == leader is Some,
            n.has_acceptor() == acceptor is Some,
            n.has_replica() == replica is Some,
            n.leader_part() == leader,
            n.acceptor_part() == acceptor,
            n.replica_part() == replica,
    {
        PmmcNodeState { uuid, acceptor, leader, replica, router: PmmcRouter::new(topology) }
    }

    /// The node of `uuid` for `roles`, built from the components made for
    /// them, with the capabilities it announces; `None` when the components
    /// do not fit the roles.
    pub fn assemble(
        uuid: NodeId,
        topology: PeerTopology,
        roles: &Roles,
        leader: Option<Leader>,
        acceptor: Option<Acceptor>,
        replica: Option<Replica>,
    ) -> (r: Option<(PmmcNodeState, NodeCapabilities)>)
        requires
            leader matches Some(l) ==> l.wf(),
        ensures
            r is Some <==> parts_fit_roles(*roles, leader, acceptor, replica) && parts_named(
                uuid,
                leader,
                acceptor,
                replica,
            ),
            r matches Some((n, caps)) ==> {
                &&& n.wf()
                &&& n.id() == uuid
                &&& n.topology() == topology
                &&& n.leader_part() == leader
                &&& n.acceptor_part() == acceptor
                &&& n.replica_part() == replica
                &&& caps.id == uuid
                &&& caps.roles@.len() == role_names(*roles).len()
                &&& forall|i: int|
                    0 <= i < caps.roles@.len() ==> #[trigger] caps.roles@[i]@ == role_names(
                        *roles,
                    )[i]
                &&& caps.learning_strategy@ == "NONE"@
            },
    {
        if leader.is_some() != roles.proposer || acceptor.is_some() != roles.acceptor
            || replica.is_some() != roles.learner {
            return None;
        }
        let named = match &leader {
            Some(l) => l.node_id() == uuid,
            None => true,
        } && match &acceptor {
            Some(a) => a.node_id() == uuid,
            None => true,
        } && match &replica {
            Some(r) => r.node_id() == uuid,
            None => true,
        };
        if !named {
            return None;
        }
        let names = capability_names(roles);
        let caps = NodeCapabilities { id: uuid, roles: names, learning_strategy: "NONE".to_owned() };
        Some((PmmcNodeState::init(uuid, topology, leader, acceptor, replica), caps))
    }

    pub fn is_leader(&self) -> (b: bool)
        ensures
            b == self.leader_active(),
    {
        match &self.leader {
            Some(l) => l.is_leader(),
            None => false,
        }
    }

    /// A node without a replica never reports stopped.
    pub fn is_stopped(&self) -> (b: bool)
        ensures
            b == self.replica_stopped(),
            !self.has_replica() ==> !b,
    {
        match &self.replica {
            None => false,
            Some(r) => r.is_stopped(),
        }
    }

    fn targets(&self, msg: &PmmcMessage) -> (v: Vec<NodeId>)
        ensures
            v@ == pmmc_targets(self.topology(), *msg),
    {
        match self.router.route(msg, &()) {
            RoutingDecision::SendTo(to) => {
                let mut v: Vec<NodeId> = Vec::new();
                v.push(to);
                assert(v@ =~= seq![to]);
                v
            },
            RoutingDecision::SendToMany(v) => v,
            RoutingDecision::Broadcast | RoutingDecision::Drop => Vec::new(),
        }
    }

    /// Hands `pmsg` to the component it is for (see the PMMC router); a node
    /// without that component drops it. The component's answers are sent to
    /// their recipients.
    pub fn handle_message(&mut self, pmsg: PmmcMessage) -> (out: NodeOutput)
        requires
            old(self).wf(),
            pmsg matches PmmcMessage::ACCEPTED { pvalue, .. } ==> old(self).can_learn_slot(pvalue@.slot),
        ensures
            final(self).wf(),
            final(self).id() == old(self).id(),
            final(self).topology() == old(self).topology(),
            final(self).has_leader() == old(self).has_leader(),
            final(self).has_acceptor() == old(self).has_acceptor(),
            final(self).has_replica() == old(self).has_replica(),
            routed(old(self).topology(), out.messages@),
            node_step(*old(self), *final(self), pmsg, out),
            pmmc_component(pmsg) != PmmcComponent::Leader ==> out.leader_event is None
                && out.timer == ElectionTimer::Keep,
            pmmc_component(pmsg) != PmmcComponent::Acceptor ==> out.acceptor_event is None,
            pmmc_component(pmsg) == PmmcComponent::Leader && !old(self).has_leader()
                ==> out.messages@.len() == 0 && out.leader_event is None,
            pmmc_component(pmsg) == PmmcComponent::Acceptor && !old(self).has_acceptor()
                ==> out.messages@.len() == 0 && out.acceptor_event is None,
            pmmc_component(pmsg) == PmmcComponent::Replica && !old(self).has_replica()
                ==> out.messages@.len() == 0,
    {
        let mut messages: Vec<(PmmcMessage, Vec<NodeId>)> = Vec::new();
        let mut acceptor_event: Option<AcceptorEvent> = None;
        let mut leader_event: Option<LeaderEvent> = None;
        let mut timer = ElectionTimer::Keep;
        let ghost topology = self.topology();
        match self.router.classify(&pmsg, &()) {
            LocalRoutingDecision::DeliverTo(PmmcComponent::Leader) => {
                if let Some(mut leader) = self.leader.take() {
                    let out = leader.handle_message(pmsg);
                    self.leader = Some(leader);
                    if let Some(reply) = out.reply {
                        let targets = self.targets(&reply);
                        messages.push((reply, targets));
                    }
                    leader_event = out.event;
                    timer = out.timer;
                }
            },
            LocalRoutingDecision::DeliverTo(PmmcComponent::Acceptor) => {
                if let Some(mut acceptor) = self.acceptor.take() {
                    let (reply, event) = acceptor.handle_message(pmsg);
                    self.acceptor = Some(acceptor);
                    if let Some(reply) = reply {
                        let targets = self.targets(&reply);
                        messages.push((reply, targets));
                    }
                    acceptor_event = event;
                }
            },
            LocalRoutingDecision::DeliverTo(PmmcComponent::Replica) => {
                if let Some(mut replica) = self.replica.take() {
                    let (ack, propose) = replica.handle_message(pmsg);
                    self.replica = Some(replica);
                    if let Some(ack) = ack {
                        let targets = self.targets(&ack);
                        messages.push((ack, targets));
                    }
                    if let Some(propose) = propose {
                        let targets = self.targets(&propose);
                        messages.push((propose, targets));
                    }
                }
            },
            LocalRoutingDecision::Drop => {},
        }
        NodeOutput { messages, acceptor_event, leader_event, timer }
    }

    /// Starts an election, unless the node is already the leader or has no
    /// leader component: the P1A goes to the acceptors.
    pub fn start_election(&mut self) -> (out: Option<(PmmcMessage, Vec<NodeId>, ElectionTimer)>)
        requires
            old(self).wf(),
            old(self).ballot_room(),
        ensures
            final(self).wf(),
            final(self).id() == old(self).id(),
            final(self).topology() == old(self).topology(),
            final(self).has_leader() == old(self).has_leader(),
            final(self).acceptor_part() == old(self).acceptor_part(),
            final(self).replica_part() == old(self).replica_part(),
            (!old(self).has_leader() || old(self).leader_active()) ==> (out is None
                && final(self).leader_part() == old(self).leader_part()),
            (old(self).has_leader() && !old(self).leader_active()) ==> ({
                let l1 = old(self).leader_part()->0;
                let l2 = final(self).leader_part()->0;
                &&& final(self).leader_part() is Some
                &&& l2.id() == l1.id()
                &&& l2.quorum() == l1.quorum()
                &&& l2.replicas() == l1.replicas()
                &&& l2.state().same_identity(l1.state())
                &&& election_started(l1, l2)
                &&& out matches Some((m, targets, timer)) && m == (PmmcMessage::P1A {
                    from: l1.id(),
                    ballot: l2.state().current_ballot(),
                    start_index: 0,
                }) && targets@ == old(self).topology().acceptors@ && timer == ElectionTimer::Reset
            }),
    {
        if let Some(mut leader) = self.leader.take() {
            if leader.is_leader() {
                self.leader = Some(leader);
                return None;
            }
            let (p1a, timer) = leader.start_election();
            self.leader = Some(leader);
            let targets = self.targets(&p1a);
            return Some((p1a, targets, timer));
        }
        None
    }

    /// The heartbeat of an active leader, for the proposers.
    pub fn send_heartbeat(&self) -> (out: Option<(PmmcMessage, Vec<NodeId>)>)
        ensures
            !self.leader_active() ==> out is None,
            self.leader_active() ==> (out matches Some((m, targets)) && m == (PmmcMessage::HEARTBEAT {
                from: self.leader_part()->0.id(),
                ballot: self.leader_part()->0.state().current_ballot(),
            }) && targets@ == self.topology().proposers@),
    {
        match &self.leader {
            Some(l) => match l.send_heartbeat() {
                Some(m) => {
                    let targets = self.targets(&m);
                    Some((m, targets))
                },
                None => None,
            },
            None => None,
        }
    }

    pub fn leader(&self) -> (l: Option<&Leader>)
        ensures
            l is Some == self.has_leader(),
            l matches Some(x) ==> *x == self.leader_part()->0,
    {
        match &self.leader {
            Some(l) => Some(l),
            None => None,
        }
    }

    pub fn acceptor(&self) -> (a: Option<&Acceptor>)
        ensures
            a is Some == self.has_acceptor(),
            a matches Some(x) ==> *x == self.acceptor_part()->0,
    {
        match &self.acceptor {
            Some(a) => Some(a),
            None => None,
        }
    }

    pub fn replica_handle(&self) -> (r: Option<&Replica>)
        ensures
            r is Some == self.has_replica(),
            r matches Some(x) ==> *x == self.replica_part()->0,
    {
        match &self.replica {
            Some(r) => Some(r),
            None => None,
        }
    }

    pub fn replica_mut(&mut self) -> (r: Option<&mut Replica>)
        ensures
            r is Some == old(self).has_replica(),
            r matches Some(x) ==> (*x == old(self).replica_part()->0 && final(self).replica_part()
                == Some(*final(x))),
            final(self).id() == old(self).id(),
            final(self).topology() == old(self).topology(),
            final(self).leader_part() == old(self).leader_part(),
            final(self).acceptor_part() == old(self).acceptor_part(),
    {
        match &mut self.replica {
            Some(r) => Some(r),
            None => None,
        }
    }
}

} // verus!
