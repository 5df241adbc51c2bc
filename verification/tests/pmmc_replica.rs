use paxos_core::assoc_map::AssocMap;
use paxos_core::ballot::Ballot;
use paxos_core::configuration::ConfigurationStrategy;
use paxos_core::message::ClientMessage;
use paxos_core::node::pmmc::message::PmmcMessage;
use paxos_core::node::pmmc::replica::replica_state::durable::ReplicaDurable;
use paxos_core::node::pmmc::replica::{ApplyStep, Replica};
use paxos_core::node::pvalue::PValue;
use paxos_core::paxos_command::PaxosCommand;
use paxos_core::rsm::kv_store::KVStore;
use uuid::Uuid;

fn node_id() -> u128 {
    Uuid::new_v4().as_u128()
}

fn new_replica() -> (Replica, u128) {
    let uuid = node_id();
    let replica = Replica::new(
        uuid,
        ReplicaDurable::default(),
        64,
        0,
        ConfigurationStrategy::JointConsensus,
        KVStore::new(AssocMap::new()),
    );
    (replica, uuid)
}

fn client_cmd(value: usize, request_id: u64) -> PaxosCommand {
    PaxosCommand::PUT { key: "k".to_string(), version: 1, value }.with_client(7, request_id)
}

fn accepted(replica: &mut Replica, slot: usize, ballot: Ballot, cmd: PaxosCommand) -> Option<PmmcMessage> {
    replica.handle_message(PmmcMessage::ACCEPTED { from: node_id(), pvalue: PValue::new(slot, ballot, cmd) }).0
}

#[test]
fn accepted_records_decision_and_replies_with_ack() {
    let (mut replica, uuid) = new_replica();
    let leader = node_id();
    let ballot = Ballot::new(3, leader);
    let cmd = client_cmd(10, 1);

    let reply = accepted(&mut replica, 0, ballot, cmd.clone());

    assert!(matches!(
        reply,
        Some(PmmcMessage::ACK { from, to, slot }) if from == uuid && to == leader && slot == 0
    ));
    assert_eq!(replica.state_handle().next_decision(), Some(cmd));
}

#[test]
fn decisions_are_only_executable_in_slot_order() {
    let (mut replica, _) = new_replica();
    let ballot = Ballot::new(5, node_id());
    let _ = accepted(&mut replica, 1, ballot, client_cmd(20, 2));

    assert_eq!(
        replica.state_handle().next_decision(),
        None,
        "PMMC replica executes only when decision for slot_out is present"
    );
}

#[test]
fn stale_decisions_for_executed_slots_are_ignored() {
    let (mut replica, _) = new_replica();
    let ballot = Ballot::new(7, node_id());
    let first = client_cmd(30, 3);
    let late = client_cmd(99, 4);

    let _ = accepted(&mut replica, 0, ballot, first.clone());
    assert_eq!(replica.state_handle().next_decision(), Some(first));
    assert!(matches!(replica.apply_next(), ApplyStep::Applied { slot: 0, .. }));

    let _ = accepted(&mut replica, 0, ballot, late);

    assert_eq!(
        replica.state_handle().next_decision(),
        None,
        "decision for an already executed slot should have no effect"
    );
}

#[test]
fn decided_slot_removes_conflicting_local_proposal() {
    let (mut replica, _) = new_replica();
    let ballot = Ballot::new(9, node_id());
    let local = client_cmd(40, 5);
    let decided = client_cmd(50, 6);

    let step = replica.propose_from_client(local);
    assert!(matches!(step.propose, Some(PmmcMessage::PROPOSE { slot: 0, .. })));
    let _ = accepted(&mut replica, 0, ballot, decided.clone());
    assert_eq!(replica.state_handle().next_decision(), Some(decided));
    assert!(matches!(replica.apply_next(), ApplyStep::Applied { slot: 0, .. }));

    let proposals = replica.state_handle().proposal();
    assert!(
        !proposals.contains_key(0),
        "PMMC replica should clear proposal at slot_out when a decision arrives for that slot"
    );
}

#[test]
fn conflicting_decision_requeues_local_proposal_to_new_slot() {
    let (mut replica, _) = new_replica();
    let ballot = Ballot::new(12, node_id());
    let local = client_cmd(60, 10);
    let decided = client_cmd(70, 11);

    let step = replica.propose_from_client(local.clone());
    assert!(matches!(step.propose, Some(PmmcMessage::PROPOSE { slot: 0, .. })));
    let _ = accepted(&mut replica, 0, ballot, decided);

    let proposals = replica.state_handle().proposal();
    assert_eq!(proposals.get(1), Some(&local));
}

#[test]
fn gap_fill_executes_in_order_once_missing_slot_arrives() {
    let (mut replica, _) = new_replica();
    let ballot = Ballot::new(13, node_id());
    let cmd0 = client_cmd(80, 12);
    let cmd1 = client_cmd(81, 13);

    let _ = accepted(&mut replica, 1, ballot, cmd1.clone());
    assert_eq!(replica.state_handle().next_decision(), None);

    let _ = accepted(&mut replica, 0, ballot, cmd0.clone());
    assert_eq!(replica.state_handle().next_decision(), Some(cmd0));
    assert!(matches!(replica.apply_next(), ApplyStep::Applied { slot: 0, .. }));
    assert_eq!(replica.state_handle().next_decision(), Some(cmd1));
}

#[test]
fn learned_decision_advances_proposal_slot_for_failover_replicas() {
    let (mut replica, _) = new_replica();
    let ballot = Ballot::new(14, node_id());
    let learned = client_cmd(82, 14);
    let fresh = client_cmd(83, 15);

    let _ = accepted(&mut replica, 0, ballot, learned);

    let slot = match replica.propose_from_client(fresh).propose {
        Some(PmmcMessage::PROPOSE { slot, .. }) => slot,
        _ => panic!("fresh proposal should be admitted"),
    };
    assert_eq!(slot, 1, "replica must not repropose slot 0 after learning it");
}

#[test]
fn duplicate_client_request_returns_cached_response_after_first_execution() {
    let (mut replica, _) = new_replica();
    let client_id = node_id();
    let cmd = PaxosCommand::PUT { key: "dup".to_string(), version: 1, value: 1 }.with_client(client_id, 99);

    let _ = replica.propose_from_client(cmd.clone());

    let leader = node_id();
    let _ = accepted(&mut replica, 0, Ballot::new(1, leader), cmd.clone());

    let first = match replica.apply_next() {
        ApplyStep::Applied { reply, .. } => reply,
        _ => panic!("first response should arrive"),
    };
    assert_eq!(first.0, client_id);
    assert!(matches!(first.1, ClientMessage::RESPONSE { .. }));

    let second = replica.propose_from_client(cmd.clone());
    let (to, msg) = second.reply.expect("duplicate request should return cached response");
    assert_eq!(to, client_id);
    assert!(matches!(msg, ClientMessage::RESPONSE { .. }));
}

#[test]
fn duplicate_inflight_request_does_not_rebroadcast_propose() {
    let (mut replica, _) = new_replica();
    let client_id = node_id();
    let cmd = PaxosCommand::PUT { key: "dup-inflight".to_string(), version: 1, value: 5 }.with_client(client_id, 111);

    let first = replica.propose_from_client(cmd.clone());
    assert!(
        matches!(first.propose, Some(PmmcMessage::PROPOSE { slot, .. }) if slot == 0),
        "first broadcast proposal should reserve slot 0"
    );

    let second = replica.propose_from_client(cmd);
    assert!(second.propose.is_none(), "duplicate in-flight request should not rebroadcast PROPOSE");
}

#[test]
fn duplicate_cached_request_does_not_rebroadcast_propose() {
    let (mut replica, _) = new_replica();
    let client_id = node_id();
    let leader = node_id();
    let cmd = PaxosCommand::PUT { key: "dup-cached".to_string(), version: 1, value: 8 }.with_client(client_id, 222);

    let first = replica.propose_from_client(cmd.clone());
    assert!(
        matches!(first.propose, Some(PmmcMessage::PROPOSE { slot, .. }) if slot == 0),
        "first broadcast proposal should reserve slot 0"
    );

    let _ = accepted(&mut replica, 0, Ballot::new(1, leader), cmd.clone());
    assert!(matches!(replica.apply_next(), ApplyStep::Applied { .. }), "first response should arrive");

    let second = replica.propose_from_client(cmd);
    assert!(second.reply.is_some(), "cached response should arrive");
    assert!(second.propose.is_none(), "duplicate cached request should not rebroadcast PROPOSE");
}

#[test]
fn replica_unhandled_message_returns_none() {
    let (mut replica, _) = new_replica();
    let reply = replica.handle_message(PmmcMessage::P1A { from: node_id(), ballot: Ballot::new(1, node_id()), start_index: 0 });
    assert!(reply.0.is_none());
}
