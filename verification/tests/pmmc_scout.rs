use paxos_core::ballot::Ballot;
use paxos_core::node::pmmc::leader::scout::Scout;
use paxos_core::node::pmmc::message::PmmcMessage;
use paxos_core::node::pvalue::PValue;
use paxos_core::paxos_command::PaxosCommand;
use uuid::Uuid;

fn node_id() -> u128 {
    Uuid::new_v4().as_u128()
}

fn cmd(value: usize) -> PaxosCommand {
    PaxosCommand::PUT { key: "k".to_string(), version: 1, value }
}

#[test]
fn scout_preempts_when_acceptor_reports_higher_ballot() {
    let leader = node_id();
    let acceptor = node_id();
    let mut scout = Scout::new(leader, 2, Ballot::new(5, leader));

    let reply = scout.handle_message(PmmcMessage::P1B {
        from: acceptor,
        to: leader,
        ballot: Ballot::new(6, acceptor),
        pvalues: vec![],
    });

    assert!(
        matches!(reply, Some(PmmcMessage::PREEMPT { ballot, .. }) if ballot == Ballot::new(6, acceptor)),
        "PMMC scout must preempt when any p1b carries a higher ballot"
    );
}

#[test]
fn scout_ignores_lower_ballot_responses() {
    let leader = node_id();
    let acceptor = node_id();
    let mut scout = Scout::new(leader, 2, Ballot::new(5, leader));

    let reply = scout.handle_message(PmmcMessage::P1B {
        from: acceptor,
        to: leader,
        ballot: Ballot::new(4, acceptor),
        pvalues: vec![],
    });

    assert!(matches!(reply, None), "PMMC scout should ignore stale lower-ballot p1b responses");
}

#[test]
fn scout_adopts_after_quorum_and_returns_pmax_per_slot() {
    let leader = node_id();
    let a1 = node_id();
    let a2 = node_id();
    let leader_ballot = Ballot::new(10, leader);
    let mut scout = Scout::new(leader, 2, leader_ballot);
    let lower = PValue::new(7, Ballot::new(8, a1), cmd(100));
    let higher = PValue::new(7, Ballot::new(9, a2), cmd(200));
    let other_slot = PValue::new(9, Ballot::new(7, a1), cmd(300));

    let r1 = scout.handle_message(PmmcMessage::P1B {
        from: a1,
        to: leader,
        ballot: leader_ballot,
        pvalues: vec![lower.clone(), other_slot.clone()],
    });
    assert!(matches!(r1, None));

    let r2 = scout.handle_message(PmmcMessage::P1B {
        from: a2,
        to: leader,
        ballot: leader_ballot,
        pvalues: vec![higher.clone()],
    });

    if let Some(PmmcMessage::ADOPTED { ballot, pvalues, .. }) = r2 {
        assert_eq!(ballot, leader_ballot);
        assert_eq!(pvalues.len(), 2);
        assert!(pvalues.contains(&higher));
        assert!(pvalues.contains(&other_slot));
        assert!(!pvalues.contains(&lower));
    } else {
        panic!("expected ADOPTED after quorum");
    }
}

#[test]
fn scout_same_acceptor_cannot_satisfy_quorum_twice() {
    let leader = node_id();
    let a1 = node_id();
    let a2 = node_id();
    let ballot = Ballot::new(3, leader);
    let mut scout = Scout::new(leader, 2, ballot);

    let first = scout.handle_message(PmmcMessage::P1B { from: a1, to: leader, ballot, pvalues: vec![] });
    assert!(matches!(first, None));

    let dup = scout.handle_message(PmmcMessage::P1B { from: a1, to: leader, ballot, pvalues: vec![] });
    assert!(matches!(dup, None));

    let quorum = scout.handle_message(PmmcMessage::P1B { from: a2, to: leader, ballot, pvalues: vec![] });

    assert!(matches!(quorum, Some(PmmcMessage::ADOPTED { .. })));
}

#[test]
fn scout_tests_preempts_when_acceptor_reports_higher_ballot() {
    let leader = node_id();
    let acceptor = node_id();
    let mut scout = Scout::new(leader, 2, Ballot::new(5, leader));

    let reply = scout.handle_message(PmmcMessage::P1B {
        from: acceptor,
        to: leader,
        ballot: Ballot::new(6, acceptor),
        pvalues: vec![],
    });

    assert!(
        matches!(reply, Some(PmmcMessage::PREEMPT { ballot, .. }) if ballot == Ballot::new(6, acceptor)),
        "PMMC scout must preempt when any p1b carries a higher ballot"
    );
}

#[test]
fn scout_tests_ignores_lower_ballot_responses() {
    let leader = node_id();
    let acceptor = node_id();
    let mut scout = Scout::new(leader, 2, Ballot::new(5, leader));

    let reply = scout.handle_message(PmmcMessage::P1B {
        from: acceptor,
        to: leader,
        ballot: Ballot::new(4, acceptor),
        pvalues: vec![],
    });

    assert!(matches!(reply, None), "PMMC scout should ignore stale lower-ballot p1b responses");
}

#[test]
fn scout_tests_adopts_after_quorum_and_returns_pmax_per_slot() {
    let leader = node_id();
    let a1 = node_id();
    let a2 = node_id();
    let leader_ballot = Ballot::new(10, leader);
    let mut scout = Scout::new(leader, 2, leader_ballot);
    let lower = PValue::new(7, Ballot::new(8, a1), cmd(100));
    let higher = PValue::new(7, Ballot::new(9, a2), cmd(200));
    let other_slot = PValue::new(9, Ballot::new(7, a1), cmd(300));

    let r1 = scout.handle_message(PmmcMessage::P1B {
        from: a1,
        to: leader,
        ballot: leader_ballot,
        pvalues: vec![lower.clone(), other_slot.clone()],
    });
    assert!(matches!(r1, None));

    let r2 = scout.handle_message(PmmcMessage::P1B {
        from: a2,
        to: leader,
        ballot: leader_ballot,
        pvalues: vec![higher.clone()],
    });

    if let Some(PmmcMessage::ADOPTED { ballot, pvalues, .. }) = r2 {
        assert_eq!(ballot, leader_ballot);
        assert_eq!(pvalues.len(), 2);
        assert!(pvalues.contains(&higher));
        assert!(pvalues.contains(&other_slot));
        assert!(!pvalues.contains(&lower));
    } else {
        panic!("expected ADOPTED after quorum");
    }
}

#[test]
fn scout_tests_same_acceptor_cannot_satisfy_quorum_twice() {
    let leader = node_id();
    let a1 = node_id();
    let a2 = node_id();
    let ballot = Ballot::new(3, leader);
    let mut scout = Scout::new(leader, 2, ballot);

    let first = scout.handle_message(PmmcMessage::P1B { from: a1, to: leader, ballot, pvalues: vec![] });
    assert!(matches!(first, None));

    let dup = scout.handle_message(PmmcMessage::P1B { from: a1, to: leader, ballot, pvalues: vec![] });
    assert!(matches!(dup, None));

    let quorum = scout.handle_message(PmmcMessage::P1B { from: a2, to: leader, ballot, pvalues: vec![] });

    assert!(matches!(quorum, Some(PmmcMessage::ADOPTED { .. })));
}

#[test]
fn quorum_one_adopts_on_first_matching_p1b() {
    let leader = node_id();
    let a1 = node_id();
    let ballot = Ballot::new(2, leader);
    let mut scout = Scout::new(leader, 1, ballot);

    let reply = scout.handle_message(PmmcMessage::P1B {
        from: a1,
        to: leader,
        ballot,
        pvalues: vec![PValue::new(0, Ballot::new(1, a1), cmd(9))],
    });

    assert!(
        matches!(reply, Some(PmmcMessage::ADOPTED { ballot: b, .. }) if b == ballot),
        "quorum=1 scout should adopt immediately on first valid p1b"
    );
}

#[test]
fn preempt_after_partial_adoption_with_higher_ballot() {
    let leader = node_id();
    let a1 = node_id();
    let a2 = node_id();
    let base = Ballot::new(4, leader);
    let higher = Ballot::new(5, a2);
    let mut scout = Scout::new(leader, 2, base);

    let first = scout.handle_message(PmmcMessage::P1B { from: a1, to: leader, ballot: base, pvalues: vec![] });
    assert!(matches!(first, None));

    let preempt = scout.handle_message(PmmcMessage::P1B { from: a2, to: leader, ballot: higher, pvalues: vec![] });

    assert!(
        matches!(preempt, Some(PmmcMessage::PREEMPT { ballot, .. }) if ballot == higher),
        "higher-ballot p1b should preempt even after partial progress"
    );
}
