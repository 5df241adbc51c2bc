use paxos_core::ballot::Ballot;
use paxos_core::cluster::vertical::activation::{ActivationSnapshot, PredecessorChain};
use paxos_core::cluster::vertical::configuration::{VerticalClusterConfiguration, VerticalPaxosVariant};
use paxos_core::cluster::vertical::quorum::Quorum;
use paxos_core::node::vertical_paxos::node_state::{
    LeaderLifecycle, ReplicaLifecycle, VerticalPaxosNodeStateSketch,
};
use uuid::Uuid;

fn node_id() -> u128 {
    Uuid::new_v4().as_u128()
}

fn configuration(node_id_value: u128) -> VerticalClusterConfiguration {
    let acceptors = vec![node_id_value, node_id()];
    let replicas = vec![node_id_value];
    let quorum = Quorum::new(acceptors.clone()).expect("quorum should be valid");
    VerticalClusterConfiguration::new(
        node_id(),
        node_id_value,
        VerticalPaxosVariant::V1,
        Ballot::new(4, node_id_value),
        0,
        acceptors,
        replicas,
        quorum.clone(),
        quorum,
        None,
    )
    .expect("leader config should be valid")
}

#[test]
fn install_sets_membership_and_assigned_states() {
    let node = node_id();
    let configuration = configuration(node);
    let mut state = VerticalPaxosNodeStateSketch::new(node);

    state.install_configuration(configuration.clone());

    assert!(state.installed_roles().designated_leader());
    assert!(state.installed_roles().member_of_acceptor_set());
    assert!(state.installed_roles().member_of_replica_set());
    assert!(matches!(
        state.leader(),
        LeaderLifecycle::Assigned { configuration_id } if *configuration_id == configuration.id()
    ));
    assert!(matches!(
        state.replica(),
        ReplicaLifecycle::Assigned { configuration_id } if *configuration_id == configuration.id()
    ));
}

#[test]
fn activation_and_supersession_are_separate_leader_states() {
    let node = node_id();
    let configuration = configuration(node);
    let snapshot = ActivationSnapshot::new(configuration.clone(), PredecessorChain::default());
    let mut state = VerticalPaxosNodeStateSketch::new(node);
    state.install_configuration(configuration.clone());

    state.start_activation(snapshot.clone());
    assert!(matches!(
        state.leader(),
        LeaderLifecycle::Synchronizing { snapshot: active } if active.configuration().id() == configuration.id()
    ));

    let newer = Ballot::new(5, node_id());
    state.supersede(newer);
    assert!(matches!(
        state.leader(),
        LeaderLifecycle::Superseded { superseded_by, .. } if *superseded_by == newer
    ));
}

#[test]
fn replica_lifecycle_distinguishes_active_and_redirecting_membership() {
    let node = node_id();
    let current = configuration(node);
    let successor = configuration(node_id());
    let snapshot = ActivationSnapshot::new(current.clone(), PredecessorChain::default());
    let mut state = VerticalPaxosNodeStateSketch::new(node);
    state.install_configuration(current.clone());

    state.start_activation(snapshot);
    assert!(matches!(
        state.replica(),
        ReplicaLifecycle::Syncing { configuration_id } if *configuration_id == current.id()
    ));

    state.activate_replica_set(current.clone());
    assert!(matches!(
        state.replica(),
        ReplicaLifecycle::Active { configuration_id } if *configuration_id == current.id()
    ));

    state.decommission_to(successor.clone());
    assert!(matches!(
        state.replica(),
        ReplicaLifecycle::Redirecting {
            installed_configuration_id,
            active_configuration_id,
        } if *installed_configuration_id == current.id() && *active_configuration_id == successor.id()
    ));
}

#[test]
fn node_outside_the_replica_set_stays_inactive_on_install() {
    let node = node_id();
    let configuration = configuration(node_id());
    let mut state = VerticalPaxosNodeStateSketch::new(node);
    state.install_configuration(configuration);
    assert!(!state.installed_roles().designated_leader());
    assert!(matches!(state.leader(), LeaderLifecycle::Inactive));
    assert!(matches!(state.replica(), ReplicaLifecycle::Inactive));
}

#[test]
fn quorum_rejects_empty_and_duplicate_members() {
    assert!(Quorum::new(vec![]).is_err());
    assert!(Quorum::new(vec![1, 1]).is_err());
    assert!(Quorum::new(vec![1, 2]).is_ok());
}
