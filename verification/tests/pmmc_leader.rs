use paxos_core::ballot::Ballot;
use paxos_core::node::pmmc::leader::leader_state::durable::LeaderDurable;
use paxos_core::node::pmmc::leader::leader_state::ElectionTimer;
use paxos_core::node::pmmc::leader::Leader;
use paxos_core::node::pmmc::message::PmmcMessage as Message;
use paxos_core::node::pvalue::PValue;
use paxos_core::paxos_command::PaxosCommand;
use uuid::Uuid;

fn node_id() -> u128 {
    Uuid::new_v4().as_u128()
}

fn mk_leader() -> Leader {
    Leader::new(0, LeaderDurable::default(), 0, 2, vec![])
}

fn mk_leader_with_peer() -> Leader {
    Leader::new(node_id(), LeaderDurable::default(), 0, 2, vec![])
}

fn cmd(value: usize) -> PaxosCommand {
    PaxosCommand::PUT { key: "k".to_string(), version: 1, value }
}

fn adopt(leader: &mut Leader, ballot: Ballot) {
    let to = leader.node_id();
    let _ = leader.handle_message(Message::ADOPTED { from: node_id(), to, ballot, pvalues: vec![] });
}

#[test]
fn adopted_for_current_ballot_activates_leader() {
    let mut leader = mk_leader();
    let ballot = leader.ballot();
    assert!(!leader.is_leader());
    adopt(&mut leader, ballot);
    assert!(leader.is_leader());
}

#[test]
fn adopted_with_mismatched_ballot_does_not_activate_leader() {
    let mut leader = mk_leader();
    assert!(!leader.is_leader());
    adopt(&mut leader, Ballot::new(1, node_id()));
    assert!(!leader.is_leader(), "leader should only activate for ADOPTED at its current ballot");
}

#[test]
fn heartbeat_message_updates_leader_timers_when_ballot_is_higher() {
    let mut leader = mk_leader();
    let out = leader.handle_message(Message::HEARTBEAT { from: node_id(), ballot: Ballot::new(1, node_id()) });
    assert!(
        out.timer == ElectionTimer::Reset,
        "leader should process higher-ballot heartbeat and reset election deadline"
    );
}

#[test]
fn persistence_round_trip_preserves_active_state() {
    let mut leader = mk_leader();
    let ballot = leader.ballot();
    adopt(&mut leader, ballot);
    assert!(leader.is_leader());
    let saved = leader.save();
    drop(leader);

    let reloaded = Leader::new(0, saved, 0, 2, vec![]);
    assert!(reloaded.is_leader(), "active status should survive leader restart");
}

#[test]
fn leader_unhandled_message_returns_none() {
    let mut leader = mk_leader();
    let out = leader.handle_message(Message::PROPOSE { from: node_id(), slot: 0, cmd: PaxosCommand::NOOP });
    assert!(out.reply.is_none());
}

#[test]
fn preempt_with_higher_ballot_deactivates_leader() {
    let mut leader = mk_leader();
    let ballot = leader.ballot();
    adopt(&mut leader, ballot);
    assert!(leader.is_leader());

    let to = leader.node_id();
    let _ = leader.handle_message(Message::PREEMPT { from: node_id(), to, ballot: Ballot::new(ballot.number + 1, node_id()) });

    assert!(!leader.is_leader());
}

#[test]
fn delayed_adopted_after_preempt_does_not_reactivate_leader() {
    let mut leader = mk_leader();
    let ballot = leader.ballot();
    let higher = Ballot::new(ballot.number + 1, node_id());

    adopt(&mut leader, ballot);
    assert!(leader.is_leader());

    let to = leader.node_id();
    let _ = leader.handle_message(Message::PREEMPT { from: node_id(), to, ballot: higher });
    assert!(!leader.is_leader());

    adopt(&mut leader, ballot);
    assert!(!leader.is_leader());
}

#[test]
fn commander_respects_leader_quorum_for_p2b() {
    let mut leader = mk_leader();
    let ballot = leader.ballot();
    let slot = 4usize;
    let command = cmd(42);
    let a1 = node_id();
    let a2 = node_id();
    let to = leader.node_id();

    adopt(&mut leader, ballot);
    let _ = leader.handle_message(Message::PROPOSE { from: node_id(), slot, cmd: command.clone() });

    let first = leader.handle_message(Message::P2B {
        from: a1,
        to,
        ballot,
        pvalue: PValue::new(slot, ballot, command.clone()),
    });
    assert!(first.reply.is_none());

    let second = leader.handle_message(Message::P2B { from: a2, to, ballot, pvalue: PValue::new(slot, ballot, command) });
    assert!(matches!(second.reply, Some(Message::ACCEPTED { .. })));
}

#[test]
fn start_election_broadcasts_p1a() {
    let mut leader = mk_leader_with_peer();

    let (msg, _timer) = leader.start_election();

    let expected_ballot = leader.ballot();
    let id = leader.node_id();
    assert!(matches!(
        msg,
        Message::P1A { from, ballot, start_index } if from == id && ballot == expected_ballot && start_index == 0
    ));
}

#[test]
fn heartbeat_is_only_sent_when_active() {
    let mut leader = mk_leader_with_peer();

    assert!(leader.send_heartbeat().is_none(), "passive leader should not send heartbeat");

    let ballot = leader.ballot();
    adopt(&mut leader, ballot);
    let msg = leader.send_heartbeat().expect("active leader should send heartbeat");
    let id = leader.node_id();
    assert!(matches!(msg, Message::HEARTBEAT { from, ballot: hb } if from == id && hb == ballot));
}

#[test]
fn p1b_quorum_emits_adopted_but_does_not_activate_until_adopted_message() {
    let mut leader = mk_leader_with_peer();
    let _ = leader.start_election();
    let ballot = leader.ballot();
    let to = leader.node_id();

    let _ = leader.handle_message(Message::P1B { from: node_id(), to, ballot, pvalues: vec![] });
    let second = leader.handle_message(Message::P1B { from: node_id(), to, ballot, pvalues: vec![] });

    assert!(matches!(second.reply, Some(Message::ADOPTED { .. })), "scout should emit ADOPTED at quorum");
    assert!(
        !leader.is_leader(),
        "leader must not activate until ADOPTED is delivered to leader handler"
    );

    adopt(&mut leader, ballot);
    assert!(leader.is_leader());
}

#[test]
fn higher_ballot_p2b_emits_preempt_but_does_not_deactivate_until_preempt_message() {
    let mut leader = mk_leader_with_peer();
    let ballot = leader.ballot();
    let command = cmd(9);
    let to = leader.node_id();

    adopt(&mut leader, ballot);
    assert!(leader.is_leader());

    let _ = leader.handle_message(Message::PROPOSE { from: node_id(), slot: 1, cmd: command.clone() });

    let higher = Ballot::new(ballot.number + 1, node_id());
    let reply = leader.handle_message(Message::P2B { from: node_id(), to, ballot: higher, pvalue: PValue::new(1, ballot, command) });
    assert!(
        matches!(reply.reply, Some(Message::PREEMPT { ballot, .. }) if ballot == higher),
        "commander should surface preempt on higher-ballot p2b"
    );
    assert!(leader.is_leader(), "leader must not deactivate until PREEMPT is delivered to leader handler");

    let _ = leader.handle_message(Message::PREEMPT { from: node_id(), to, ballot: higher });
    assert!(!leader.is_leader());
}
