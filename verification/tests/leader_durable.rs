use paxos_core::ballot::Ballot;
use paxos_core::node::pmmc::leader::leader_state::durable::LeaderDurable;
use paxos_core::node::pvalue::PValue;
use paxos_core::paxos_command::PaxosCommand;
use paxos_core::slot_map::SlotMap;
use uuid::Uuid;

fn cmd(value: usize) -> PaxosCommand {
    PaxosCommand::PUT { key: "k".to_string(), version: 1, value }
}

#[test]
fn pmax_overwrites_same_slot_without_leader_ballot_gating() {
    let a1 = Uuid::new_v4().as_u128();
    let mut state = LeaderDurable::from_parts(false, 100, SlotMap::new());

    state.add(3, cmd(10));
    let adopted = PValue::new(3, Ballot::with_epoch(5, a1, 0), cmd(20));
    state.pmax(vec![adopted]);

    let proposals = state.proposal();
    assert_eq!(
        proposals.get(3),
        Some(&cmd(20)),
        "PMMC leader durable merge should honor scout-selected pmax values"
    );
}
