//! Routing of Vertical Paxos messages: only replies leave the node, each to its
//! addressee; inside the node, phase-one and phase-two requests go to the
//! acceptor while it is online, replies and proposals to the leader, decisions
//! to the replica.
use vstd::prelude::*;

use crate::node::routing::{LocalRoutingDecision, ProtocolInboxRouter, ProtocolRouter, RoutingDecision};
use crate::node::vertical_paxos::message::VerticalPaxosMessage;

verus! {

#[derive(Debug, Clone, Copy, PartialEq, Eq, Structural)]
pub enum VerticalPaxosComponent {
    Acceptor,
    Leader,
    Replica,
}

#[derive(Debug, Clone, Copy, PartialEq, Eq, Structural)]
pub struct VerticalInboxContext {
    pub acceptor_online: bool,
}

pub struct VerticalPaxosRouter;

/// Where a Vertical Paxos message leaves the node: replies go to their
/// addressee, everything else is dropped.
pub open spec fn vertical_route(msg: VerticalPaxosMessage) -> RoutingDecision {
    match msg {
        VerticalPaxosMessage::ACK { to, .. } => RoutingDecision::SendTo(to),
        VerticalPaxosMessage::ADOPTED { to, .. } => RoutingDecision::SendTo(to),
        VerticalPaxosMessage::PREEMPT { to, .. } => RoutingDecision::SendTo(to),
        VerticalPaxosMessage::P1B { to, .. } => RoutingDecision::SendTo(to),
        VerticalPaxosMessage::P2B { to, .. } => RoutingDecision::SendTo(to),
        _ => RoutingDecision::Drop,
    }
}

/// The local component a Vertical Paxos message is handed to, if any.
pub open spec fn vertical_component(
    msg: VerticalPaxosMessage,
    acceptor_online: bool,
) -> Option<VerticalPaxosComponent> {
    match msg {
        VerticalPaxosMessage::P1A { .. } | VerticalPaxosMessage::P2A { .. } => {
            if acceptor_online {
                Some(VerticalPaxosComponent::Acceptor)
            } else {
                None
            }
        },
        VerticalPaxosMessage::P1B { .. }
        | VerticalPaxosMessage::P2B { .. }
        | VerticalPaxosMessage::PROPOSE { .. }
        | VerticalPaxosMessage::ACK { .. }
        | VerticalPaxosMessage::PREEMPT { .. } => Some(VerticalPaxosComponent::Leader),
        VerticalPaxosMessage::ACCEPTED { .. } => Some(VerticalPaxosComponent::Replica),
        _ => None,
    }
}

impl ProtocolRouter<VerticalPaxosMessage> for VerticalPaxosRouter {
    type Context = ();

    fn route(&self, msg: &VerticalPaxosMessage, _context: &()) -> (d: RoutingDecision)
        ensures
            d == vertical_route(*msg),
    {
        match msg {
            VerticalPaxosMessage::ACK { to, .. }
            | VerticalPaxosMessage::ADOPTED { to, .. }
            | VerticalPaxosMessage::PREEMPT { to, .. }
            | VerticalPaxosMessage::P1B { to, .. }
            | VerticalPaxosMessage::P2B { to, .. } => RoutingDecision::SendTo(*to),
            _ => RoutingDecision::Drop,
        }
    }
}

impl ProtocolInboxRouter<VerticalPaxosMessage> for VerticalPaxosRouter {
    type Context = VerticalInboxContext;

    type Target = VerticalPaxosComponent;

    fn classify(&self, msg: &VerticalPaxosMessage, context: &VerticalInboxContext) -> (d:
        LocalRoutingDecision<VerticalPaxosComponent>)
        ensures
            match vertical_component(*msg, context.acceptor_online) {
                Some(c) => d == LocalRoutingDecision::DeliverTo(c),
                None => d == LocalRoutingDecision::<VerticalPaxosComponent>::Drop,
            },
    {
        match msg {
            VerticalPaxosMessage::P1A { .. } | VerticalPaxosMessage::P2A { .. } => {
                if context.acceptor_online {
                    LocalRoutingDecision::DeliverTo(VerticalPaxosComponent::Acceptor)
                } else {
                    LocalRoutingDecision::Drop
                }
            },
            VerticalPaxosMessage::P1B { .. }
            | VerticalPaxosMessage::P2B { .. }
            | VerticalPaxosMessage::PROPOSE { .. }
            | VerticalPaxosMessage::ACK { .. }
            | VerticalPaxosMessage::PREEMPT { .. } => {
                LocalRoutingDecision::DeliverTo(VerticalPaxosComponent::Leader)
            },
            VerticalPaxosMessage::ACCEPTED { .. } => {
                LocalRoutingDecision::DeliverTo(VerticalPaxosComponent::Replica)
            },
            _ => LocalRoutingDecision::Drop,
        }
    }
}

} // verus!
