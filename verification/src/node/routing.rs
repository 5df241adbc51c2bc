//! Where a protocol message goes: to peers on the network, or to a component
//! of the local node.
use vstd::prelude::*;

use crate::ballot::NodeId;

verus! {

#[derive(Debug, Clone, PartialEq, Eq)]
pub enum RoutingDecision {
    Broadcast,
    SendTo(NodeId),
    SendToMany(Vec<NodeId>),
    Drop,
}

#[derive(Debug, Clone, PartialEq, Eq)]
pub enum LocalRoutingDecision<TTarget> {
    DeliverTo(TTarget),
    Drop,
}

/// Routes outgoing messages to peers.
pub trait ProtocolRouter<TMsg> {
    type Context;

    fn route(&self, msg: &TMsg, context: &Self::Context) -> RoutingDecision;
}

/// Hands incoming messages to a local component.
pub trait ProtocolInboxRouter<TMsg> {
    type Context;

    type Target;

    fn classify(&self, msg: &TMsg, context: &Self::Context) -> LocalRoutingDecision<Self::Target>;
}

} // verus!
