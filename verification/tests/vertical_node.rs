use paxos_core::assoc_map::AssocMap;
use paxos_core::ballot::Ballot;
use paxos_core::cluster::vertical::configuration::{
    VerticalClusterConfiguration, VerticalPaxosVariant,
};
use paxos_core::cluster::vertical::quorum::Quorum;
use paxos_core::node::vertical_paxos::acceptor::record::AcceptorRecord;
use paxos_core::node::vertical_paxos::acceptor::Acceptor;
use paxos_core::node::vertical_paxos::message::VerticalPaxosMessage;
use paxos_core::node::vertical_paxos::node::VerticalNode;
use paxos_core::node::vertical_paxos::node_state::{LeaderLifecycle, ReplicaLifecycle};
use paxos_core::rsm::kv_store::KVStore;
use uuid::Uuid;

fn new_id() -> u128 {
    Uuid::new_v4().as_u128()
}

fn config_for(node_id: u128) -> VerticalClusterConfiguration {
    let acceptors = vec![node_id, new_id()];
    let quorum = Quorum::new(acceptors.clone()).expect("quorum should build");
    VerticalClusterConfiguration::new(
        new_id(),
        node_id,
        VerticalPaxosVariant::V1,
        Ballot::new(1, node_id),
        0,
        acceptors,
        vec![node_id],
        quorum.clone(),
        quorum,
        None,
    )
    .expect("configuration should build")
}

fn build_node(node_id: u128) -> VerticalNode {
    VerticalNode::new(
        node_id,
        Acceptor::new(node_id, AcceptorRecord::default()),
        KVStore::new(AssocMap::new()),
    )
}

#[test]
fn install_configuration_updates_membership_snapshot() {
    let node_id = new_id();
    let mut node = build_node(node_id);

    node.install_configuration(config_for(node_id));
    let snapshot = node.snapshot();

    assert!(snapshot.installed_roles.designated_leader());
    assert!(snapshot.installed_roles.member_of_acceptor_set());
    assert!(snapshot.installed_roles.member_of_replica_set());
    assert!(!snapshot.acceptor_online);
    assert!(matches!(snapshot.leader, LeaderLifecycle::Assigned { .. }));
    assert!(matches!(snapshot.replica, ReplicaLifecycle::Assigned { .. }));
}

#[test]
fn started_acceptor_replies_to_p1a_when_node_is_in_acceptor_set() {
    let node_id = new_id();
    let leader_id = new_id();
    let mut node = build_node(node_id);
    node.install_configuration(config_for(node_id));
    node.start();

    let output = node.handle_message(VerticalPaxosMessage::P1A {
        from: leader_id,
        ballot: Ballot::new(3, leader_id),
        start_index: 0,
    });

    assert_eq!(output.sends.len(), 1);
    let (target, reply) = &output.sends[0];
    assert_eq!(*target, leader_id);
    assert!(matches!(
        reply,
        VerticalPaxosMessage::P1B { from, to, ballot, .. }
            if *from == node_id && *to == leader_id && *ballot == Ballot::new(3, leader_id)
    ));
}

#[test]
fn p1a_is_not_answered_before_the_acceptor_comes_online() {
    let node_id = new_id();
    let leader_id = new_id();
    let mut node = build_node(node_id);
    node.install_configuration(config_for(node_id));

    let output = node.handle_message(VerticalPaxosMessage::P1A {
        from: leader_id,
        ballot: Ballot::new(3, leader_id),
        start_index: 0,
    });

    assert!(output.sends.is_empty());
    assert!(output.acceptor_event.is_none());
}
