use paxos_core::assoc_map::AssocMap;
use paxos_core::ballot::Ballot;
use paxos_core::message::Message as SynodMessage;
use paxos_core::node::pmmc::acceptor::accepted_state::AcceptedData;
use paxos_core::node::pmmc::acceptor::Acceptor;
use paxos_core::node::pmmc::leader::commander::Commander;
use paxos_core::node::pmmc::leader::scout::Scout;
use paxos_core::node::pmmc::message::PmmcMessage;
use paxos_core::node::proposer::Proposer;
use paxos_core::node::pvalue::PValue;
use paxos_core::paxos_command::PaxosCommand;
use paxos_core::rsm::checkpoint::{CheckpointState, RsmCheckpoint, RsmCheckpointState};
use paxos_core::rsm::entry::KVEntry;
use paxos_core::rsm::kv_store::{KVStore, ReplyOutcome};
use paxos_core::rsm::types::{ClerkResponseError, KVValue, KVVersion};
use paxos_core::slot_map::SlotMap;

fn put(key: &str, value: usize) -> PaxosCommand {
    PaxosCommand::PUT { key: key.to_string(), version: 0, value }
}

fn entry(value: usize, version: usize) -> KVEntry {
    KVEntry { value: KVValue(value), version: KVVersion(version) }
}

#[test]
fn get_after_put_reads_the_written_value() {
    let mut store = KVStore::new(AssocMap::new());
    let written = store.apply(&put("alpha", 7)).expect("put succeeds");
    let read = store.apply(&PaxosCommand::GET { key: "alpha".to_string() }).expect("get succeeds");
    assert_eq!(written, ReplyOutcome::WriteOk { version: KVVersion(1) });
    assert_eq!(read, ReplyOutcome::GetOk { value: KVValue(7), version: KVVersion(1) });
}

#[test]
fn failed_add_leaves_the_store_unchanged() {
    let mut store = KVStore::new(AssocMap::new());
    let _ = store.apply(&put("alpha", 7));
    let wrong_version = PaxosCommand::ADD { key: "alpha".to_string(), version: 9, value: 1 };
    assert_eq!(
        store.apply(&wrong_version),
        Err(ClerkResponseError::ErrVersion { version: KVVersion(1) })
    );
    let missing = PaxosCommand::ADD { key: "beta".to_string(), version: 1, value: 1 };
    assert_eq!(store.apply(&missing), Err(ClerkResponseError::ErrKey));
    assert_eq!(
        store.apply(&PaxosCommand::GET { key: "alpha".to_string() }),
        Ok(ReplyOutcome::GetOk { value: KVValue(7), version: KVVersion(1) })
    );
    assert_eq!(
        store.apply(&PaxosCommand::GET { key: "beta".to_string() }),
        Err(ClerkResponseError::ErrKey)
    );
}

#[test]
fn checksum_does_not_depend_on_insertion_order() {
    let mut first = AssocMap::new();
    first.insert("alpha".to_string(), entry(1, 1));
    first.insert("beta".to_string(), entry(2, 3));
    let mut second = AssocMap::new();
    second.insert("beta".to_string(), entry(2, 3));
    second.insert("alpha".to_string(), entry(1, 1));
    let mut w1 = AssocMap::new();
    w1.insert(5u128, 10u64);
    w1.insert(3u128, 4u64);
    let mut w2 = AssocMap::new();
    w2.insert(3u128, 4u64);
    w2.insert(5u128, 10u64);

    let a = RsmCheckpoint::compute_checksum(&CheckpointState::new(RsmCheckpointState::new(first), w1));
    let b = RsmCheckpoint::compute_checksum(&CheckpointState::new(RsmCheckpointState::new(second), w2));
    assert_eq!(a, b);
}

#[test]
fn acceptor_promise_never_decreases() {
    let leader = 42u128;
    let mut acceptor = Acceptor::new(7, AcceptedData::default());
    let _ = acceptor.handle_message(PmmcMessage::P1A { from: leader, ballot: Ballot::new(5, leader), start_index: 0 });
    let (reply, event) = acceptor.handle_message(PmmcMessage::P1A {
        from: leader,
        ballot: Ballot::new(2, leader),
        start_index: 0,
    });
    assert!(event.is_none());
    assert!(matches!(
        reply,
        Some(PmmcMessage::P1B { ballot, .. }) if ballot == Ballot::new(5, leader)
    ));
    assert_eq!(acceptor.save().ballot_num(), Ballot::new(5, leader));
}

#[test]
fn acceptor_keeps_accepted_values_across_higher_promises() {
    let leader = 42u128;
    let b1 = Ballot::new(1, leader);
    let mut acceptor = Acceptor::new(7, AcceptedData::default());
    let _ = acceptor.handle_message(PmmcMessage::P1A { from: leader, ballot: b1, start_index: 0 });
    let _ = acceptor.handle_message(PmmcMessage::P2A { from: leader, pvalue: PValue::new(3, b1, put("k", 1)) });
    let _ = acceptor.handle_message(PmmcMessage::P1A { from: leader, ballot: Ballot::new(9, leader), start_index: 0 });
    let saved = acceptor.save();
    let kept = saved.accepted().get(3).expect("slot 3 stays accepted");
    assert_eq!(kept.ballot(), b1);
}

#[test]
fn commander_decides_a_slot_once() {
    let leader = 1u128;
    let ballot = Ballot::new(1, leader);
    let mut store = SlotMap::new();
    store.insert(0, put("k", 1));
    let mut commander = Commander::new(leader, 2, ballot, vec![], store);
    let pv = PValue::new(0, ballot, put("k", 1));
    let p2b = |from: u128| PmmcMessage::P2B { from, to: leader, ballot, pvalue: pv.clone() };

    assert!(commander.handle_message(p2b(10)).is_none());
    assert!(matches!(commander.handle_message(p2b(11)), Some(PmmcMessage::ACCEPTED { .. })));
    assert!(commander.handle_message(p2b(12)).is_none());
    assert!(commander.handle_message(p2b(11)).is_none());
}

#[test]
fn scout_adopts_only_with_distinct_acceptors() {
    let leader = 1u128;
    let ballot = Ballot::new(1, leader);
    let mut scout = Scout::new(leader, 2, ballot);
    let p1b = |from: u128| PmmcMessage::P1B { from, to: leader, ballot, pvalues: vec![] };

    assert!(scout.handle_message(p1b(10)).is_none());
    assert!(scout.handle_message(p1b(10)).is_none());
    assert!(matches!(scout.handle_message(p1b(11)), Some(PmmcMessage::ADOPTED { .. })));
}

#[test]
fn proposer_tries_increasing_ballots() {
    let mut proposer = Proposer::new(3, 2);
    let first = proposer.propose(0, put("k", 1));
    let second = proposer.propose(0, put("k", 1));
    match (first, second) {
        (
            SynodMessage::Prepare { ballot: b1, decree_num: 0, .. },
            SynodMessage::Prepare { ballot: b2, decree_num: 0, .. },
        ) => {
            assert!(b1 < b2);
            assert_eq!(b1.node_id, 3);
        },
        _ => panic!("propose answers with a prepare request"),
    }
}
