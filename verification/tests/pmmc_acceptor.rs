use paxos_core::ballot::Ballot;
use paxos_core::node::pmmc::acceptor::accepted_state::AcceptedData;
use paxos_core::node::pmmc::acceptor::Acceptor;
use paxos_core::node::pmmc::message::PmmcMessage as Message;
use paxos_core::node::pvalue::PValue;
use paxos_core::paxos_command::PaxosCommand;
use uuid::Uuid;

fn node_id() -> u128 {
    Uuid::new_v4().as_u128()
}

fn new_acceptor() -> Acceptor {
    Acceptor::new(node_id(), AcceptedData::default())
}

fn cmd(value: usize) -> PaxosCommand {
    PaxosCommand::PUT { key: "k".to_string(), version: 1, value }
}

#[test]
fn acceptor_p1a_adopts_only_strictly_higher_ballots() {
    let mut acceptor = new_acceptor();
    let leader = node_id();
    let acceptor_id = node_id();
    let b5 = Ballot::new(5, leader);
    let b3 = Ballot::new(3, acceptor_id);

    let first = acceptor
        .handle_message(Message::P1A { from: leader, ballot: b5, start_index: 0 })
        .0
        .expect("p1a should return p1b");
    assert!(matches!(
        first,
        Message::P1B { to, ballot, pvalues, .. } if to == leader && ballot == b5 && pvalues.is_empty()
    ));

    let second = acceptor
        .handle_message(Message::P1A { from: acceptor_id, ballot: b3, start_index: 0 })
        .0
        .expect("p1a should return p1b");
    assert!(matches!(
        second,
        Message::P1B { to, ballot, .. } if to == acceptor_id && ballot == b5
    ));
}

#[test]
fn acceptor_p2a_accepts_only_when_ballot_equals_current_ballot() {
    let mut acceptor = new_acceptor();
    let leader = node_id();
    let b7 = Ballot::new(7, leader);
    let b6 = Ballot::new(6, leader);
    let b8 = Ballot::new(8, leader);
    let v7 = PValue::new(1, b7, cmd(7));
    let v6 = PValue::new(2, b6, cmd(6));
    let v8 = PValue::new(3, b8, cmd(8));

    let _ = acceptor.handle_message(Message::P1A { from: leader, ballot: b7, start_index: 0 });
    let _ = acceptor.handle_message(Message::P2A { from: leader, pvalue: v7.clone() });
    let _ = acceptor.handle_message(Message::P2A { from: leader, pvalue: v6 });
    let high = acceptor
        .handle_message(Message::P2A { from: leader, pvalue: v8.clone() })
        .0
        .expect("p2a should return p2b");

    assert!(
        matches!(high, Message::P2B { ballot, .. } if ballot == b7),
        "paper rule: p2a with b > ballot_num should not advance ballot_num"
    );

    let check = acceptor
        .handle_message(Message::P1A { from: leader, ballot: b7, start_index: 0 })
        .0
        .expect("p1a should return p1b");

    if let Message::P1B { ballot, pvalues, .. } = check {
        assert_eq!(ballot, b7);
        assert!(pvalues.contains(&v7), "value at current ballot should be accepted");
        assert!(
            !pvalues.contains(&v8),
            "paper rule: higher ballot p2a must not be accepted before adoption"
        );
    } else {
        panic!("expected P1B");
    }
}

#[test]
fn acceptor_p1a_returns_previously_accepted_pvalues() {
    let mut acceptor = new_acceptor();
    let leader = node_id();
    let b4 = Ballot::new(4, leader);
    let v1 = PValue::new(1, b4, cmd(10));
    let v2 = PValue::new(2, b4, cmd(20));

    let _ = acceptor.handle_message(Message::P1A { from: leader, ballot: b4, start_index: 0 });
    let _ = acceptor.handle_message(Message::P2A { from: leader, pvalue: v1.clone() });
    let _ = acceptor.handle_message(Message::P2A { from: leader, pvalue: v2.clone() });

    let reply = acceptor
        .handle_message(Message::P1A { from: leader, ballot: b4, start_index: 0 })
        .0
        .expect("p1a should return p1b");

    if let Message::P1B { pvalues, ballot, .. } = reply {
        assert_eq!(ballot, b4);
        assert_eq!(pvalues.len(), 2);
        assert!(pvalues.contains(&v1));
        assert!(pvalues.contains(&v2));
    } else {
        panic!("expected P1B");
    }
}

#[test]
fn acceptor_p1a_respects_start_index_filter() {
    let mut acceptor = new_acceptor();
    let leader = node_id();
    let b4 = Ballot::new(4, leader);
    let v1 = PValue::new(1, b4, cmd(10));
    let v2 = PValue::new(2, b4, cmd(20));
    let v4 = PValue::new(4, b4, cmd(40));

    let _ = acceptor.handle_message(Message::P1A { from: leader, ballot: b4, start_index: 0 });
    let _ = acceptor.handle_message(Message::P2A { from: leader, pvalue: v1.clone() });
    let _ = acceptor.handle_message(Message::P2A { from: leader, pvalue: v2.clone() });
    let _ = acceptor.handle_message(Message::P2A { from: leader, pvalue: v4.clone() });

    let reply = acceptor
        .handle_message(Message::P1A { from: leader, ballot: b4, start_index: 2 })
        .0
        .expect("p1a should return p1b");

    if let Message::P1B { pvalues, .. } = reply {
        assert_eq!(pvalues.len(), 2);
        assert!(pvalues.contains(&v2));
        assert!(pvalues.contains(&v4));
        assert!(!pvalues.contains(&v1));
    } else {
        panic!("expected P1B");
    }
}

#[test]
fn acceptor_duplicate_p2a_is_idempotent_for_same_pvalue() {
    let mut acceptor = new_acceptor();
    let leader = node_id();
    let ballot = Ballot::new(11, leader);
    let value = PValue::new(7, ballot, cmd(77));

    let _ = acceptor.handle_message(Message::P1A { from: leader, ballot, start_index: 0 });
    let _ = acceptor.handle_message(Message::P2A { from: leader, pvalue: value.clone() });
    let _ = acceptor.handle_message(Message::P2A { from: leader, pvalue: value.clone() });

    let reply = acceptor
        .handle_message(Message::P1A { from: leader, ballot, start_index: 0 })
        .0
        .expect("p1a should return p1b");

    if let Message::P1B { pvalues, .. } = reply {
        assert_eq!(pvalues.len(), 1);
        assert_eq!(pvalues[0], value);
    } else {
        panic!("expected P1B");
    }
}

#[test]
fn acceptor_unhandled_message_returns_none() {
    let mut acceptor = new_acceptor();
    let resp = acceptor.handle_message(Message::PROPOSE { from: node_id(), slot: 0, cmd: PaxosCommand::NOOP });
    assert!(resp.0.is_none());
}
