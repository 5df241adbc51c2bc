use paxos_core::assoc_map::AssocMap;
use paxos_core::ballot::Ballot;
use paxos_core::cluster::vertical::configuration::{
    VerticalClusterConfiguration, VerticalPaxosVariant,
};
use paxos_core::cluster::vertical::quorum::Quorum;
use paxos_core::node::proposer::Proposer;
use paxos_core::node::vertical_paxos::replica::{Replica, VerticalClientReply};
use paxos_core::paxos_command::PaxosCommand;
use paxos_core::rsm::kv_store::KVStore;
use uuid::Uuid;

fn new_id() -> u128 {
    Uuid::new_v4().as_u128()
}

fn config_led_by(leader: u128, replicas: Vec<u128>) -> VerticalClusterConfiguration {
    let acceptors = vec![leader, new_id()];
    let quorum = Quorum::new(acceptors.clone()).expect("quorum should build");
    VerticalClusterConfiguration::new(
        new_id(),
        leader,
        VerticalPaxosVariant::V1,
        Ballot::new(1, leader),
        0,
        acceptors,
        replicas,
        quorum.clone(),
        quorum,
        None,
    )
    .expect("configuration should build")
}

#[test]
fn proposal_event_reports_the_value_driven() {
    let mut proposer = Proposer::new(4, 2);
    let first = PaxosCommand::PUT { key: "k".to_string(), version: 1, value: 5 };
    let _ = proposer.propose(2, first.clone());
    let _ = proposer.propose(2, PaxosCommand::PUT { key: "k".to_string(), version: 1, value: 6 });
    let event = proposer.proposal_event(2);
    assert_eq!(event.decree_num, 2);
    assert_eq!(event.id, 4);
    assert_eq!(event.value, first);
    assert_eq!(proposer.proposal_event(9).value, PaxosCommand::BLANK);
}

#[test]
fn redirect_reply_reports_its_target() {
    let replica_id = new_id();
    let leader = new_id();
    let others = vec![leader, new_id()];
    let active = config_led_by(leader, others.clone());
    let active_id = active.id();
    let mut replica = Replica::new(replica_id, KVStore::new(AssocMap::new()));
    replica.decommission_to(active);
    let (reply, send) = replica.submit_client_request(PaxosCommand::NOOP);
    assert!(send.is_none());
    let event = reply.redirect_event().expect("a redirect is reported");
    assert_eq!(event.from_replica, replica_id);
    assert_eq!(event.active_configuration_id, active_id);
    assert_eq!(event.leader, leader);
    assert_eq!(event.replicas, others);
    let pending = VerticalClientReply::Pending { configuration_id: None };
    assert!(pending.redirect_event().is_none());
}
