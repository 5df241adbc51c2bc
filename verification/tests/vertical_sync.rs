use paxos_core::ballot::Ballot;
use paxos_core::cluster::vertical::activation::{ActivationSnapshot, PredecessorChain};
use paxos_core::cluster::vertical::configuration::{
    VerticalClusterConfiguration, VerticalPaxosVariant,
};
use paxos_core::cluster::vertical::quorum::Quorum;
use paxos_core::node::pvalue::PValue;
use paxos_core::node::vertical_paxos::leader::sync::recovery::RecoverySynchronizer;
use paxos_core::node::vertical_paxos::leader::sync::scout_round::ScoutRound;
use paxos_core::node::vertical_paxos::leader::sync::write_quorum::WriteQuorumSynchronizer;
use paxos_core::node::vertical_paxos::leader::sync::LeaderSynchronizer;
use paxos_core::node::vertical_paxos::message::VerticalPaxosMessage;
use paxos_core::paxos_command::PaxosCommand;
use uuid::Uuid;

fn new_id() -> u128 {
    Uuid::new_v4().as_u128()
}

fn sync_snapshot() -> ActivationSnapshot {
    let leader = new_id();
    let acceptor_a = new_id();
    let acceptor_b = new_id();
    let configuration = VerticalClusterConfiguration::new(
        new_id(),
        leader,
        VerticalPaxosVariant::V1,
        Ballot::new(3, leader),
        4,
        vec![acceptor_a, acceptor_b],
        vec![leader],
        Quorum::new(vec![acceptor_a, acceptor_b]).expect("read quorum should build"),
        Quorum::new(vec![acceptor_a, acceptor_b]).expect("write quorum should build"),
        None,
    )
    .expect("configuration should build");
    ActivationSnapshot::new(configuration, PredecessorChain::default())
}

fn write_quorum_snapshot() -> ActivationSnapshot {
    let leader = new_id();
    let member_a = new_id();
    let member_b = new_id();
    let configuration = VerticalClusterConfiguration::new(
        new_id(),
        leader,
        VerticalPaxosVariant::V1,
        Ballot::new(4, leader),
        0,
        vec![member_a, member_b],
        vec![leader],
        Quorum::new(vec![member_a]).expect("read quorum should build"),
        Quorum::new(vec![member_a, member_b]).expect("write quorum should build"),
        None,
    )
    .expect("configuration should build");
    ActivationSnapshot::new(configuration, PredecessorChain::default())
}

fn recovery_snapshot() -> ActivationSnapshot {
    let leader = new_id();
    let acceptor_a = new_id();
    let acceptor_b = new_id();
    let predecessor_acceptor = new_id();
    let current = VerticalClusterConfiguration::new(
        new_id(),
        leader,
        VerticalPaxosVariant::V1,
        Ballot::new(3, leader),
        5,
        vec![acceptor_a, acceptor_b],
        vec![leader],
        Quorum::new(vec![acceptor_a, acceptor_b]).expect("read quorum should build"),
        Quorum::new(vec![acceptor_a, acceptor_b]).expect("write quorum should build"),
        Some(Ballot::new(1, predecessor_acceptor)),
    )
    .expect("configuration should build");
    let predecessor = VerticalClusterConfiguration::new(
        new_id(),
        predecessor_acceptor,
        VerticalPaxosVariant::V1,
        Ballot::new(2, predecessor_acceptor),
        0,
        vec![predecessor_acceptor],
        vec![leader],
        Quorum::new(vec![predecessor_acceptor]).expect("read quorum should build"),
        Quorum::new(vec![predecessor_acceptor]).expect("write quorum should build"),
        None,
    )
    .expect("predecessor should build");
    ActivationSnapshot::new(current, PredecessorChain::new(vec![predecessor]))
}

#[test]
fn p1b_updates_history_and_write_readiness_in_parallel() {
    let snapshot = sync_snapshot();
    let leader = snapshot.configuration().leader();
    let ballot = snapshot.configuration().ballot();
    let members = snapshot.configuration().read_quorum().members().to_vec();
    let mut synchronizer = LeaderSynchronizer::new(leader, snapshot);

    synchronizer.start();
    synchronizer.handle_message(&VerticalPaxosMessage::P1B {
        from: members[0],
        to: leader,
        ballot,
        pvalues: vec![PValue::new(4, ballot, PaxosCommand::NOOP)],
    });
    assert!(synchronizer.is_in_progress());
    synchronizer.handle_message(&VerticalPaxosMessage::P1B {
        from: members[1],
        to: leader,
        ballot,
        pvalues: vec![],
    });

    assert!(synchronizer.is_ready());
    assert!(!synchronizer.is_in_progress());
}

#[test]
fn higher_ballot_stops_synchronization() {
    let snapshot = sync_snapshot();
    let leader = snapshot.configuration().leader();
    let higher = Ballot::new(snapshot.configuration().ballot().number + 1, new_id());
    let member = snapshot.configuration().read_quorum().members()[0];
    let mut synchronizer = LeaderSynchronizer::new(leader, snapshot);

    synchronizer.start();
    synchronizer.handle_message(&VerticalPaxosMessage::P1B {
        from: member,
        to: leader,
        ballot: higher,
        pvalues: vec![],
    });

    assert_eq!(synchronizer.superseded_by(), Some(higher));
    assert!(!synchronizer.is_in_progress());
    assert!(!synchronizer.is_ready());
}

#[test]
fn p1b_from_required_members_marks_write_quorum_ready() {
    let snapshot = write_quorum_snapshot();
    let leader = snapshot.configuration().leader();
    let ballot = snapshot.configuration().ballot();
    let members = snapshot.configuration().write_quorum().members().to_vec();
    let mut synchronizer = WriteQuorumSynchronizer::new(leader, snapshot);

    synchronizer.start();
    synchronizer.handle_message(&VerticalPaxosMessage::P1B {
        from: members[0],
        to: new_id(),
        ballot,
        pvalues: vec![],
    });
    synchronizer.handle_message(&VerticalPaxosMessage::P1B {
        from: members[1],
        to: new_id(),
        ballot,
        pvalues: vec![],
    });

    assert!(synchronizer.is_ready());
}

#[test]
fn higher_ballot_supersedes_write_quorum_synchronization() {
    let snapshot = write_quorum_snapshot();
    let leader = snapshot.configuration().leader();
    let higher = Ballot::new(snapshot.configuration().ballot().number + 1, new_id());
    let member = snapshot.configuration().write_quorum().members()[0];
    let mut synchronizer = WriteQuorumSynchronizer::new(leader, snapshot);

    synchronizer.start();
    synchronizer.handle_message(&VerticalPaxosMessage::P1B {
        from: member,
        to: new_id(),
        ballot: higher,
        pvalues: vec![],
    });

    assert_eq!(synchronizer.superseded_by(), Some(higher));
    assert!(!synchronizer.is_ready());
}

#[test]
fn start_resets_previous_write_quorum_progress() {
    let snapshot = write_quorum_snapshot();
    let leader = snapshot.configuration().leader();
    let ballot = snapshot.configuration().ballot();
    let members = snapshot.configuration().write_quorum().members().to_vec();
    let mut synchronizer = WriteQuorumSynchronizer::new(leader, snapshot);

    synchronizer.start();
    synchronizer.handle_message(&VerticalPaxosMessage::P1B {
        from: members[0],
        to: new_id(),
        ballot,
        pvalues: vec![],
    });
    synchronizer.handle_message(&VerticalPaxosMessage::P1B {
        from: members[1],
        to: new_id(),
        ballot,
        pvalues: vec![],
    });
    assert!(synchronizer.is_ready());

    synchronizer.start();

    assert!(!synchronizer.is_ready());
    assert_eq!(synchronizer.superseded_by(), None);
}

#[test]
fn round_processes_messages_until_history_is_recovered() {
    let leader = new_id();
    let member_a = new_id();
    let member_b = new_id();
    let ballot = Ballot::new(3, leader);
    let members = vec![member_a, member_b];
    let mut round = ScoutRound::new(leader, ballot, 0, &members);

    round.handle_message(&VerticalPaxosMessage::P1B {
        from: members[0],
        to: leader,
        ballot,
        pvalues: vec![PValue::new(4, ballot, PaxosCommand::NOOP)],
    });
    round.handle_message(&VerticalPaxosMessage::P1B {
        from: members[1],
        to: leader,
        ballot,
        pvalues: vec![],
    });

    assert!(round.is_complete());
    assert_eq!(round.settled_values().len(), 1);
    round.shutdown();
}

#[test]
fn recovery_walks_current_then_predecessors_and_merges_highest_values() {
    let snapshot = recovery_snapshot();
    let leader = snapshot.configuration().leader();
    let ballot = snapshot.configuration().ballot();
    let current_members = snapshot.configuration().read_quorum().members().to_vec();
    let predecessor_member =
        snapshot.predecessor_chain().entries()[0].read_quorum().members()[0];
    let mut recovery = RecoverySynchronizer::new(leader, snapshot);

    recovery.start();
    recovery.handle_message(&VerticalPaxosMessage::P1B {
        from: current_members[0],
        to: leader,
        ballot,
        pvalues: vec![PValue::new(5, Ballot::new(1, current_members[0]), PaxosCommand::NOOP)],
    });
    recovery.handle_message(&VerticalPaxosMessage::P1B {
        from: current_members[1],
        to: leader,
        ballot,
        pvalues: vec![],
    });
    recovery.handle_message(&VerticalPaxosMessage::P1B {
        from: predecessor_member,
        to: leader,
        ballot,
        pvalues: vec![PValue::new(5, Ballot::new(2, predecessor_member), PaxosCommand::NOOP)],
    });

    let recovered = recovery.recovered_state().expect("recovery should complete");
    assert_eq!(recovered.start_index(), 0);
    assert_eq!(
        recovered.settled_values().get(5).expect("slot should be recovered").ballot(),
        Ballot::new(2, predecessor_member)
    );
}

#[test]
fn higher_ballot_supersedes_recovery() {
    let snapshot = recovery_snapshot();
    let leader = snapshot.configuration().leader();
    let higher = Ballot::new(snapshot.configuration().ballot().number + 1, new_id());
    let member = snapshot.configuration().read_quorum().members()[0];
    let mut recovery = RecoverySynchronizer::new(leader, snapshot);

    recovery.start();
    recovery.handle_message(&VerticalPaxosMessage::P1B {
        from: member,
        to: leader,
        ballot: higher,
        pvalues: vec![],
    });

    assert_eq!(recovery.superseded_by(), Some(higher));
    assert!(!recovery.is_complete());
}

#[test]
fn scout_round_broadcasts_p1a_with_its_ballot_and_start_index() {
    let leader = new_id();
    let members = vec![new_id(), new_id()];
    let ballot = Ballot::new(7, leader);
    let round = ScoutRound::new(leader, ballot, 3, &members);

    assert!(round.wants_broadcast());
    assert_eq!(round.target_list(), members);
    assert!(matches!(
        round.p1a(),
        VerticalPaxosMessage::P1A { from, ballot: b, start_index: 3 } if from == leader && b == ballot
    ));
}

#[test]
fn leader_synchronizer_ignores_messages_before_start() {
    let snapshot = sync_snapshot();
    let leader = snapshot.configuration().leader();
    let higher = Ballot::new(snapshot.configuration().ballot().number + 1, new_id());
    let member = snapshot.configuration().read_quorum().members()[0];
    let mut synchronizer = LeaderSynchronizer::new(leader, snapshot);

    synchronizer.handle_message(&VerticalPaxosMessage::P1B {
        from: member,
        to: leader,
        ballot: higher,
        pvalues: vec![],
    });

    assert_eq!(synchronizer.superseded_by(), None);
    assert!(!synchronizer.is_in_progress());
}
