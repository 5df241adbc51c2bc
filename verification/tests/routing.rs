use paxos_core::ballot::Ballot;
use paxos_core::node::peer_topology::PeerTopology;
use paxos_core::node::pmmc::message::PmmcMessage;
use paxos_core::node::pmmc::router::{PmmcComponent, PmmcRouter};
use paxos_core::node::pvalue::PValue;
use paxos_core::node::routing::{LocalRoutingDecision, ProtocolInboxRouter, ProtocolRouter, RoutingDecision};
use paxos_core::node::vertical_paxos::message::VerticalPaxosMessage;
use paxos_core::node::vertical_paxos::router::{
    VerticalInboxContext, VerticalPaxosComponent, VerticalPaxosRouter,
};
use paxos_core::paxos_command::PaxosCommand;
use uuid::Uuid;

fn node_id() -> u128 {
    Uuid::new_v4().as_u128()
}

fn topo() -> PeerTopology {
    PeerTopology::new(vec![0xA1, 0xA2], vec![0xB1, 0xB2], vec![0xC1, 0xC2])
}

#[test]
fn routes_accepted_to_learners() {
    let router = PmmcRouter::new(topo());
    let msg = PmmcMessage::ACCEPTED {
        from: node_id(),
        pvalue: PValue::new(0, Ballot::new(1, node_id()), PaxosCommand::NOOP),
    };
    let decision = router.route(&msg, &());
    assert!(matches!(decision, RoutingDecision::SendToMany(nodes) if nodes == vec![0xB1, 0xB2]));
}

#[test]
fn routes_phase_messages_to_acceptors_and_leader_msgs_to_proposers() {
    let router = PmmcRouter::new(topo());
    let p1a = PmmcMessage::P1A { from: node_id(), ballot: Ballot::new(1, node_id()), start_index: 0 };
    let propose = PmmcMessage::PROPOSE { from: node_id(), slot: 0, cmd: PaxosCommand::NOOP };

    let p1a_decision = router.route(&p1a, &());
    let propose_decision = router.route(&propose, &());

    assert!(matches!(p1a_decision, RoutingDecision::SendToMany(nodes) if nodes == vec![0xA1, 0xA2]));
    assert!(
        matches!(propose_decision, RoutingDecision::SendToMany(nodes) if nodes == vec![0xC1, 0xC2])
    );
}

#[test]
fn routes_reply_messages_to_explicit_target() {
    let router = PmmcRouter::new(topo());
    let to = node_id();
    let msg = PmmcMessage::ACK { from: node_id(), to, slot: 7 };
    let decision = router.route(&msg, &());
    assert!(matches!(decision, RoutingDecision::SendTo(t) if t == to));
}

#[test]
fn classifies_accepted_to_the_replica() {
    let router = PmmcRouter::new(topo());
    let msg = PmmcMessage::ACCEPTED {
        from: node_id(),
        pvalue: PValue::new(0, Ballot::new(1, node_id()), PaxosCommand::NOOP),
    };
    assert_eq!(router.classify(&msg, &()), LocalRoutingDecision::DeliverTo(PmmcComponent::Replica));
}

#[test]
fn routes_reply_messages_to_their_explicit_target() {
    let router = VerticalPaxosRouter;
    let to = node_id();
    let msg = VerticalPaxosMessage::P1B {
        from: node_id(),
        to,
        ballot: Ballot::new(1, node_id()),
        pvalues: vec![],
    };
    let decision = router.route(&msg, &());
    assert!(matches!(decision, RoutingDecision::SendTo(target) if target == to));
}

#[test]
fn drops_non_reply_messages() {
    let router = VerticalPaxosRouter;
    let msg = VerticalPaxosMessage::P1A { from: node_id(), ballot: Ballot::new(1, node_id()), start_index: 0 };
    assert_eq!(router.route(&msg, &()), RoutingDecision::Drop);
}

#[test]
fn classifies_accept_phase_messages_to_acceptor_when_online() {
    let router = VerticalPaxosRouter;
    let msg = VerticalPaxosMessage::P2A {
        from: node_id(),
        pvalue: PValue::new(0, Ballot::new(1, node_id()), PaxosCommand::NOOP),
    };
    assert_eq!(
        router.classify(&msg, &VerticalInboxContext { acceptor_online: true }),
        LocalRoutingDecision::DeliverTo(VerticalPaxosComponent::Acceptor)
    );
}

#[test]
fn vertical_inbox_drops_phase_requests_while_acceptor_offline() {
    let router = VerticalPaxosRouter;
    let msg = VerticalPaxosMessage::P1A { from: node_id(), ballot: Ballot::new(1, node_id()), start_index: 0 };
    assert_eq!(
        router.classify(&msg, &VerticalInboxContext { acceptor_online: false }),
        LocalRoutingDecision::Drop
    );
}
