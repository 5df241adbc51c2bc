use paxos_core::ballot::Ballot;
use paxos_core::node::pmmc::leader::leader_state::durable::LeaderDurable;
use paxos_core::node::pmmc::leader::leader_state::volatile::LeaderVolatile;
use paxos_core::node::pmmc::leader::leader_state::{ElectionTimer, LeaderState};
use paxos_core::slot_map::SlotMap;
use uuid::Uuid;

fn node_id() -> u128 {
    Uuid::new_v4().as_u128()
}

fn mk_state(active: bool, ballot: Ballot) -> LeaderState {
    let id = if ballot.node_id == 0 { 1 } else { ballot.node_id };
    LeaderState::from_parts(
        LeaderDurable::from_parts(active, ballot.number, SlotMap::new()),
        LeaderVolatile::default(),
        id,
        ballot.epoch,
    )
}

fn mk_state_with_scout(active: bool, ballot: Ballot, leader_id: u128, scout_ballot: Ballot) -> LeaderState {
    let id = if ballot.node_id == 0 { 1 } else { ballot.node_id };
    let mut volatile = LeaderVolatile::default();
    volatile.start_scout(leader_id, scout_ballot, 2);
    LeaderState::from_parts(
        LeaderDurable::from_parts(active, ballot.number, SlotMap::new()),
        volatile,
        id,
        ballot.epoch,
    )
}

#[test]
fn higher_preempt_updates_state_and_drops_scout() {
    let current = Ballot::new(5, 0);
    let higher = Ballot::new(6, node_id());
    let leader_id = node_id();
    let mut state = mk_state_with_scout(false, current, leader_id, Ballot::new(5, leader_id));

    let timer = state.preempt(higher);

    assert_eq!(state.volatile_state().highest_seen(), higher);
    assert!(!state.volatile_state().has_scout());
    assert_eq!(timer, ElectionTimer::BackoffAndReset);
}

#[test]
fn stale_preempt_is_ignored() {
    let current = Ballot::new(9, 0);
    let stale = Ballot::new(8, node_id());
    let leader_id = node_id();
    let mut state = mk_state_with_scout(false, current, leader_id, Ballot::new(9, leader_id));
    let before_seen = state.volatile_state().highest_seen();

    let timer = state.preempt(stale);

    assert_eq!(state.volatile_state().highest_seen(), before_seen);
    assert!(state.volatile_state().has_scout());
    assert_eq!(timer, ElectionTimer::Keep);
}

#[test]
fn heartbeat_with_higher_ballot_drops_scout_and_resets_deadline() {
    let higher = Ballot::new(4, node_id());
    let leader_id = node_id();
    let mut state = mk_state_with_scout(false, Ballot::new(3, 0), leader_id, Ballot::new(3, leader_id));

    let timer = state.heartbeat_handler(higher);

    assert_eq!(state.volatile_state().highest_seen(), higher);
    assert!(!state.volatile_state().has_scout());
    assert_eq!(timer, ElectionTimer::Reset);
}

#[test]
fn heartbeat_is_ignored_for_stale_ballot_or_active_leader() {
    let mut active = mk_state(true, Ballot::new(7, 0));
    let stale = Ballot::new(6, node_id());
    let active_before = active.volatile_state().highest_seen();

    let timer = active.heartbeat_handler(stale);
    assert_eq!(timer, ElectionTimer::Keep);
    assert_eq!(active.volatile_state().highest_seen(), active_before);

    let mut passive = mk_state(false, Ballot::new(7, 0));
    let passive_before = passive.volatile_state().highest_seen();

    let timer = passive.heartbeat_handler(stale);
    assert_eq!(timer, ElectionTimer::Keep);
    assert_eq!(passive.volatile_state().highest_seen(), passive_before);
}
