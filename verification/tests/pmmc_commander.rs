use paxos_core::ballot::Ballot;
use paxos_core::node::pmmc::leader::commander::state::{CommanderAction, CommanderState};
use paxos_core::node::pmmc::leader::commander::Commander;
use paxos_core::node::pmmc::message::PmmcMessage as Message;
use paxos_core::node::pvalue::PValue;
use paxos_core::paxos_command::PaxosCommand;
use paxos_core::slot_map::SlotMap;
use uuid::Uuid;

fn node_id() -> u128 {
    Uuid::new_v4().as_u128()
}

fn cmd(v: usize) -> PaxosCommand {
    PaxosCommand::PUT { key: "k".to_string(), version: 1, value: v }
}

fn proposals(entries: &[(usize, usize)]) -> SlotMap<PaxosCommand> {
    let mut m = SlotMap::new();
    for (slot, v) in entries {
        m.insert(*slot, cmd(*v));
    }
    m
}

fn mk_commander(quorum: usize, ballot: Ballot, store: SlotMap<PaxosCommand>) -> Commander {
    Commander::new(ballot.node_id, quorum, ballot, vec![], store)
}

/// What one tick of the commander's timer sends, as the node's loop runs it:
/// nothing once the commander is stopped.
fn tick(c: &Commander) -> Vec<CommanderAction> {
    if c.is_stopped() {
        Vec::new()
    } else {
        c.tick_actions()
    }
}

#[test]
fn p2b_returns_nack_until_quorum_then_accepted() {
    let leader = node_id();
    let ballot = Ballot::new(5, leader);
    let a1 = node_id();
    let a2 = node_id();
    let mut commander = mk_commander(2, ballot, proposals(&[(3, 10)]));

    let first = commander.handle_message(Message::P2B {
        from: a1,
        to: leader,
        ballot,
        pvalue: PValue::new(3, ballot, cmd(10)),
    });
    assert!(matches!(first, None));

    let second = commander.handle_message(Message::P2B {
        from: a2,
        to: leader,
        ballot,
        pvalue: PValue::new(3, ballot, cmd(10)),
    });
    assert!(matches!(
        second,
        Some(Message::ACCEPTED { from, pvalue }) if from == leader && pvalue.slot() == 3 && pvalue.ballot() == ballot && pvalue.cmd() == cmd(10)
    ));
}

#[test]
fn duplicate_acceptor_ack_does_not_count_twice() {
    let leader = node_id();
    let ballot = Ballot::new(7, leader);
    let a1 = node_id();
    let a2 = node_id();
    let mut commander = mk_commander(2, ballot, proposals(&[(1, 1)]));

    let r1 = commander.handle_message(Message::P2B { from: a1, to: leader, ballot, pvalue: PValue::new(1, ballot, cmd(1)) });
    assert!(matches!(r1, None));
    let dup = commander.handle_message(Message::P2B { from: a1, to: leader, ballot, pvalue: PValue::new(1, ballot, cmd(1)) });
    assert!(matches!(dup, None));
    let quorum = commander.handle_message(Message::P2B { from: a2, to: leader, ballot, pvalue: PValue::new(1, ballot, cmd(1)) });
    assert!(matches!(quorum, Some(Message::ACCEPTED { .. })));
}

#[test]
fn higher_ballot_p2b_preempts_commander() {
    let leader = node_id();
    let ballot = Ballot::new(8, leader);
    let mut commander = mk_commander(2, ballot, proposals(&[(2, 2)]));
    let higher = Ballot::new(9, node_id());

    let reply = commander.handle_message(Message::P2B {
        from: node_id(),
        to: leader,
        ballot: higher,
        pvalue: PValue::new(2, ballot, cmd(2)),
    });

    assert!(
        matches!(reply, Some(Message::PREEMPT { ballot, .. }) if ballot == higher),
        "PMMC commander should preempt on a higher ballot in p2b"
    );
}

#[test]
fn lower_ballot_p2b_is_ignored() {
    let leader = node_id();
    let ballot = Ballot::new(11, leader);
    let lower = Ballot::new(10, node_id());
    let mut commander = mk_commander(2, ballot, proposals(&[(2, 2)]));

    let reply = commander.handle_message(Message::P2B {
        from: node_id(),
        to: leader,
        ballot: lower,
        pvalue: PValue::new(2, lower, cmd(2)),
    });

    assert!(matches!(reply, None), "PMMC commander should ignore lower-ballot p2b responses");
}

#[test]
fn unhandled_message_returns_nack() {
    let leader = node_id();
    let ballot = Ballot::new(1, leader);
    let mut commander = mk_commander(1, ballot, proposals(&[(0, 0)]));

    let reply = commander.handle_message(Message::P1A { from: leader, ballot, start_index: 0 });
    assert!(matches!(reply, None));
}

#[test]
fn unknown_slot_p2b_is_ignored() {
    let leader = node_id();
    let ballot = Ballot::new(3, leader);
    let mut commander = mk_commander(2, ballot, proposals(&[(0, 0)]));

    let reply = commander.handle_message(Message::P2B {
        from: node_id(),
        to: leader,
        ballot,
        pvalue: PValue::new(42, ballot, cmd(42)),
    });
    assert!(matches!(reply, None));
}

#[test]
fn run_rebroadcasts_p2a_periodically_until_quorum() {
    let leader = node_id();
    let peer = node_id();
    let ballot = Ballot::new(1, leader);
    let commander = Commander::new(leader, 2, ballot, vec![peer], proposals(&[(0, 1)]));

    let mut p2a_count = 0usize;
    for _ in 0..2 {
        for action in tick(&commander) {
            if matches!(commander.action_message(&action), Message::P2A { .. }) {
                p2a_count += 1;
            }
        }
    }

    assert!(p2a_count >= 2, "commander should keep re-broadcasting p2a while quorum is not reached");
}

#[test]
fn run_stops_rebroadcasts_after_stop_signal() {
    let leader = node_id();
    let peer = node_id();
    let ballot = Ballot::new(1, leader);
    let mut commander = Commander::new(leader, 2, ballot, vec![peer], proposals(&[(0, 1)]));

    let before_stop = tick(&commander)
        .iter()
        .filter(|a| matches!(commander.action_message(a), Message::P2A { .. }))
        .count();
    assert!(before_stop >= 1, "commander should emit p2a before stop");

    commander.stop();
    let after_stop = tick(&commander)
        .iter()
        .filter(|a| matches!(commander.action_message(a), Message::P2A { .. }))
        .count();

    assert_eq!(after_stop, 0, "commander should emit no further p2a once stop is signaled");
}

#[test]
fn run_rebroadcasts_accepted_to_only_unacked_replicas_once_decided() {
    let leader = node_id();
    let r1 = node_id();
    let r2 = node_id();
    let ballot = Ballot::new(1, leader);
    let mut commander = Commander::new(leader, 1, ballot, vec![r1, r2], proposals(&[(0, 11)]));

    let accepted = commander.handle_message(Message::P2B {
        from: node_id(),
        to: leader,
        ballot,
        pvalue: PValue::new(0, ballot, cmd(11)),
    });
    assert!(matches!(accepted, Some(Message::ACCEPTED { .. })));

    commander.record_replica_ack(r1, 0);

    let mut r1_accepted = 0;
    let mut r2_accepted = 0;
    for action in tick(&commander) {
        if let CommanderAction::Resend { to, .. } = &action {
            r1_accepted += to.iter().filter(|t| **t == r1).count();
            r2_accepted += to.iter().filter(|t| **t == r2).count();
        }
    }

    assert_eq!(r1_accepted, 0, "already-acked replica should not get accepted rebroadcast");
    assert!(r2_accepted >= 1, "unacked replica should receive accepted rebroadcast");
}

#[test]
fn all_replica_acks_compact_decided_slot() {
    let leader = node_id();
    let ballot = Ballot::new(2, leader);
    let r1 = node_id();
    let r2 = node_id();
    let mut commander = Commander::new(leader, 1, ballot, vec![r1, r2], proposals(&[(5, 5)]));

    let accepted = commander.handle_message(Message::P2B {
        from: node_id(),
        to: leader,
        ballot,
        pvalue: PValue::new(5, ballot, cmd(5)),
    });
    assert!(matches!(accepted, Some(Message::ACCEPTED { .. })));

    commander.record_replica_ack(r1, 5);
    commander.record_replica_ack(r2, 5);

    let after_compact = commander.handle_message(Message::P2B {
        from: node_id(),
        to: leader,
        ballot,
        pvalue: PValue::new(5, ballot, cmd(5)),
    });
    assert!(
        matches!(after_compact, None),
        "once slot is compacted by replica acks, further p2b for that slot should be ignored"
    );
}

#[test]
fn role_split_replica_acks_compaction_stops_accepted_rebroadcasts() {
    let leader = node_id();
    let ballot = Ballot::new(3, leader);
    let r1 = node_id();
    let r2 = node_id();
    let mut commander = Commander::new(leader, 1, ballot, vec![r1, r2], proposals(&[(0, 17)]));

    let accepted = commander.handle_message(Message::P2B {
        from: node_id(),
        to: leader,
        ballot,
        pvalue: PValue::new(0, ballot, cmd(17)),
    });
    assert!(matches!(accepted, Some(Message::ACCEPTED { .. })));

    commander.record_replica_ack(r1, 0);
    commander.record_replica_ack(r2, 0);

    let mut r1_accepted = 0;
    let mut r2_accepted = 0;
    for action in tick(&commander) {
        if let CommanderAction::Resend { to, .. } = &action {
            r1_accepted += to.iter().filter(|t| **t == r1).count();
            r2_accepted += to.iter().filter(|t| **t == r2).count();
        }
    }

    assert_eq!(r1_accepted, 0, "compacted slot must not be rebroadcast to replica r1");
    assert_eq!(r2_accepted, 0, "compacted slot must not be rebroadcast to replica r2");
}

#[test]
fn add_pending_for_same_slot_should_keep_first_command_regression() {
    let id = node_id();
    let ballot = Ballot::new(1, id);
    let mut state = CommanderState::new(id, ballot, 2, vec![], proposals(&[(0, 10)]));

    state.add_pending(0, cmd(99));

    assert_eq!(
        state.pending_cmd(0),
        Some(cmd(10)),
        "regression: same-slot add_pending should not overwrite existing command"
    );
}

#[test]
fn process_ignores_p2b_for_unknown_slot() {
    let id = node_id();
    let ballot = Ballot::new(2, id);
    let mut state = CommanderState::new(id, ballot, 2, vec![], SlotMap::new());

    let reply = state.process(node_id(), PValue::new(7, ballot, cmd(7)));
    assert!(matches!(reply, None));
}
