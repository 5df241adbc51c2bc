use paxos_core::assoc_map::AssocMap;
use paxos_core::ballot::Ballot;
use paxos_core::configuration::{ConfigurationStrategy, Roles};
use paxos_core::node::peer_topology::PeerTopology;
use paxos_core::node::pmmc::acceptor::accepted_state::AcceptedData;
use paxos_core::node::pmmc::acceptor::Acceptor;
use paxos_core::node::pmmc::leader::leader_state::durable::LeaderDurable;
use paxos_core::node::pmmc::leader::leader_state::ElectionTimer;
use paxos_core::node::pmmc::leader::Leader;
use paxos_core::node::pmmc::message::PmmcMessage;
use paxos_core::node::pmmc::node_state::PmmcNodeState;
use paxos_core::node::pmmc::replica::replica_state::durable::ReplicaDurable;
use paxos_core::node::pmmc::replica::Replica;
use paxos_core::node::pvalue::PValue;
use paxos_core::paxos_command::PaxosCommand;
use paxos_core::rsm::kv_store::KVStore;
use uuid::Uuid;

fn new_id() -> u128 {
    Uuid::new_v4().as_u128()
}

fn cmd(value: usize) -> PaxosCommand {
    PaxosCommand::PUT { key: "k".to_string(), version: 1, value }
}

fn two_member_topology(node_id: u128, peer_id: u128) -> PeerTopology {
    let members = vec![node_id, peer_id];
    PeerTopology::new(members.clone(), members.clone(), members)
}

fn full_node(node_id: u128, peer_id: u128, epoch: usize) -> PmmcNodeState {
    let members = vec![node_id, peer_id];
    PmmcNodeState::init(
        node_id,
        two_member_topology(node_id, peer_id),
        Some(Leader::new(node_id, LeaderDurable::default(), epoch, 2, members)),
        Some(Acceptor::new(node_id, AcceptedData::default())),
        Some(Replica::new(
            node_id,
            ReplicaDurable::default(),
            64,
            0,
            ConfigurationStrategy::JointConsensus,
            KVStore::new(AssocMap::new()),
        )),
    )
}

#[test]
fn accepted_is_routed_to_replica_and_replies_ack() {
    let node_id = new_id();
    let peer_id = new_id();
    let mut state = full_node(node_id, peer_id, 0);

    let out = state.handle_message(PmmcMessage::ACCEPTED {
        from: peer_id,
        pvalue: PValue::new(0, Ballot::new(1, peer_id), cmd(7)),
    });

    let ack = out
        .messages
        .iter()
        .find(|(m, _)| matches!(m, PmmcMessage::ACK { .. }))
        .expect("ack should arrive");
    assert!(matches!(
        ack.0,
        PmmcMessage::ACK { from, to, slot } if from == node_id && to == peer_id && slot == 0
    ));
    assert_eq!(ack.1, vec![peer_id]);
}

#[test]
fn non_replica_node_does_not_report_stopped() {
    let node_id = new_id();
    let acceptors = vec![new_id(), new_id(), new_id()];
    let state = PmmcNodeState::init(
        node_id,
        PeerTopology::new(acceptors.clone(), vec![], vec![node_id]),
        Some(Leader::new(node_id, LeaderDurable::default(), 0, 2, vec![])),
        None,
        None,
    );

    assert!(!state.is_stopped(), "leader-only node should report active runtime status");
}

#[test]
fn does_not_start_election_while_leader_active() {
    let node_id = new_id();
    let peer_id = new_id();
    let mut state = full_node(node_id, peer_id, 0);

    let (p1a, targets, timer) = state
        .start_election()
        .expect("node should start an election and emit p1a");
    let adopted_ballot = match p1a {
        PmmcMessage::P1A { ballot, .. } => ballot,
        _ => unreachable!(),
    };
    assert_eq!(targets, vec![node_id, peer_id]);
    assert_eq!(timer, ElectionTimer::Reset);

    let _ = state.handle_message(PmmcMessage::ADOPTED {
        from: new_id(),
        to: node_id,
        ballot: adopted_ballot,
        pvalues: vec![],
    });

    assert!(state.is_leader());
    assert!(
        state.start_election().is_none(),
        "active leader should not keep starting elections"
    );
}

#[test]
fn heartbeat_tick_sends_when_active() {
    let node_id = new_id();
    let peer_id = new_id();
    let mut state = full_node(node_id, peer_id, 1);
    assert!(state.send_heartbeat().is_none());

    let _ = state.handle_message(PmmcMessage::ADOPTED {
        from: new_id(),
        to: node_id,
        ballot: Ballot::with_epoch(0, node_id, 1),
        pvalues: vec![],
    });

    let (heartbeat, targets) = state
        .send_heartbeat()
        .expect("active leader should emit periodic heartbeats");
    assert!(matches!(heartbeat, PmmcMessage::HEARTBEAT { from, .. } if from == node_id));
    assert_eq!(targets, vec![node_id, peer_id]);
}

#[test]
fn node_without_a_component_drops_its_messages() {
    let node_id = new_id();
    let mut state = PmmcNodeState::init(
        node_id,
        two_member_topology(node_id, new_id()),
        None,
        None,
        None,
    );

    let out = state.handle_message(PmmcMessage::P1A {
        from: new_id(),
        ballot: Ballot::new(1, new_id()),
        start_index: 0,
    });

    assert!(out.messages.is_empty());
    assert!(out.acceptor_event.is_none());
    assert!(out.leader_event.is_none());
}

#[test]
fn assemble_builds_the_roles_and_announces_them() {
    let node_id = new_id();
    let peer_id = new_id();
    let roles = Roles { proposer: false, acceptor: true, learner: true };
    let (state, caps) = PmmcNodeState::assemble(
        node_id,
        two_member_topology(node_id, peer_id),
        &roles,
        None,
        Some(Acceptor::new(node_id, AcceptedData::default())),
        Some(Replica::new(
            node_id,
            ReplicaDurable::default(),
            64,
            0,
            ConfigurationStrategy::JointConsensus,
            KVStore::new(AssocMap::new()),
        )),
    )
    .expect("the components fit the roles");
    assert!(state.leader().is_none());
    assert!(state.acceptor().is_some());
    assert!(state.replica_handle().is_some());
    assert_eq!(caps.id, node_id);
    assert_eq!(caps.roles, vec!["Acceptor".to_string(), "Replica".to_string()]);
    assert_eq!(caps.learning_strategy, "NONE");
}

#[test]
fn assemble_refuses_components_that_do_not_fit_the_roles() {
    let node_id = new_id();
    let peer_id = new_id();
    let roles = Roles { proposer: true, acceptor: true, learner: false };
    let r = PmmcNodeState::assemble(
        node_id,
        two_member_topology(node_id, peer_id),
        &roles,
        None,
        Some(Acceptor::new(node_id, AcceptedData::default())),
        None,
    );
    assert!(r.is_none());
}

#[test]
fn assemble_refuses_components_of_another_node() {
    let node_id = new_id();
    let other = new_id();
    let roles = Roles { proposer: false, acceptor: true, learner: false };
    let r = PmmcNodeState::assemble(
        node_id,
        two_member_topology(node_id, other),
        &roles,
        None,
        Some(Acceptor::new(other, AcceptedData::default())),
        None,
    );
    assert!(r.is_none());
}
