//! Routing of PMMC messages: phase messages to the acceptors, decisions to the
//! learners, heartbeats and proposals to the proposers, replies to their
//! addressee; and, inside a node, each message to the component it is for.
use vstd::prelude::*;

use crate::node::peer_topology::PeerTopology;
use crate::node::pmmc::message::PmmcMessage;
use crate::node::routing::{LocalRoutingDecision, ProtocolInboxRouter, ProtocolRouter, RoutingDecision};

verus! {

#[derive(Debug, Clone, Copy, PartialEq, Eq, Structural)]
pub enum PmmcComponent {
    Leader,
    Acceptor,
    Replica,
}

pub struct PmmcRouter {
    topology: PeerTopology,
}

/// The local component of a PMMC message.
pub open spec fn pmmc_component(msg: PmmcMessage) -> PmmcComponent {
    match msg {
        PmmcMessage::P1A { .. } | PmmcMessage::P2A { .. } => PmmcComponent::Acceptor,
        PmmcMessage::ACCEPTED { .. } => PmmcComponent::Replica,
        _ => PmmcComponent::Leader,
    }
}

impl PmmcRouter {
    pub closed spec fn topology(&self) -> PeerTopology {
        self.topology
    }

    pub fn new(topology: PeerTopology) -> (r: PmmcRouter)
        ensures
            r.topology() == topology,
    {
        PmmcRouter { topology }
    }

    fn copy_of(v: &Vec<crate::ballot::NodeId>) -> (r: Vec<crate::ballot::NodeId>)
        ensures
            r@ == v@,
    {
        let r = v.clone();
        assert(r@ =~= v@);
        r
    }
}

impl ProtocolRouter<PmmcMessage> for PmmcRouter {
    type Context = ();

    fn route(&self, msg: &PmmcMessage, _context: &()) -> (d: RoutingDecision)
        ensures
            match *msg {
                PmmcMessage::HEARTBEAT { .. } | PmmcMessage::PROPOSE { .. } => d matches RoutingDecision::SendToMany(v)
                    && v@ == self.topology().proposers@,
                PmmcMessage::P1A { .. } | PmmcMessage::P2A { .. } => d matches RoutingDecision::SendToMany(v)
                    && v@ == self.topology().acceptors@,
                PmmcMessage::ACCEPTED { .. } => d matches RoutingDecision::SendToMany(v)
                    && v@ == self.topology().learners@,
                PmmcMessage::ACK { to, .. } => d == RoutingDecision::SendTo(to),
                PmmcMessage::ADOPTED { to, .. } => d == RoutingDecision::SendTo(to),
                PmmcMessage::P1B { to, .. } => d == RoutingDecision::SendTo(to),
                PmmcMessage::P2B { to, .. } => d == RoutingDecision::SendTo(to),
                PmmcMessage::PREEMPT { to, .. } => d == RoutingDecision::SendTo(to),
            },
    {
        match msg {
            PmmcMessage::HEARTBEAT { .. } | PmmcMessage::PROPOSE { .. } => {
                RoutingDecision::SendToMany(PmmcRouter::copy_of(&self.topology.proposers))
            },
            PmmcMessage::P1A { .. } | PmmcMessage::P2A { .. } => {
                RoutingDecision::SendToMany(PmmcRouter::copy_of(&self.topology.acceptors))
            },
            PmmcMessage::ACCEPTED { .. } => {
                RoutingDecision::SendToMany(PmmcRouter::copy_of(&self.topology.learners))
            },
            PmmcMessage::ACK { to, .. }
            | PmmcMessage::ADOPTED { to, .. }
            | PmmcMessage::P1B { to, .. }
            | PmmcMessage::P2B { to, .. }
            | PmmcMessage::PREEMPT { to, .. } => RoutingDecision::SendTo(*to),
        }
    }
}

impl ProtocolInboxRouter<PmmcMessage> for PmmcRouter {
    type Context = ();

    type Target = PmmcComponent;

    fn classify(&self, msg: &PmmcMessage, _context: &()) -> (d: LocalRoutingDecision<PmmcComponent>)
        ensures
            d == LocalRoutingDecision::DeliverTo(pmmc_component(*msg)),
    {
        match msg {
            PmmcMessage::ACK { .. }
            | PmmcMessage::ADOPTED { .. }
            | PmmcMessage::HEARTBEAT { .. }
            | PmmcMessage::P1B { .. }
            | PmmcMessage::P2B { .. }
            | PmmcMessage::PROPOSE { .. }
            | PmmcMessage::PREEMPT { .. } => LocalRoutingDecision::DeliverTo(PmmcComponent::Leader),
            PmmcMessage::P1A { .. } | PmmcMessage::P2A { .. } => {
                LocalRoutingDecision::DeliverTo(PmmcComponent::Acceptor)
            },
            PmmcMessage::ACCEPTED { .. } => LocalRoutingDecision::DeliverTo(PmmcComponent::Replica),
        }
    }
}

} // verus!
