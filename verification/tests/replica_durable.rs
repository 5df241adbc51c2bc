use paxos_core::ballot::Ballot;
use paxos_core::configuration::ConfigurationStrategy;
use paxos_core::node::pmmc::replica::replica_state::durable::{ProposalPolicy, ReplicaDurable};
use paxos_core::node::pvalue::PValue;
use paxos_core::paxos_command::PaxosCommand;
use paxos_core::rsm::kv_store::ReplyOutcome;
use uuid::Uuid;

fn node_id() -> u128 {
    Uuid::new_v4().as_u128()
}

#[test]
fn durable_dedup_watermark_ignores_pending_cache_entries() {
    let mut durable = ReplicaDurable::default();
    let client_id = node_id();
    let req1 = PaxosCommand::NOOP.with_client(client_id, 1);
    let req2 = PaxosCommand::NOOP.with_client(client_id, 2);

    durable.add_to_cache(&req1);
    assert!(durable.client_dedup_watermark().is_empty());

    durable.update_cache(&req1, ReplyOutcome::Done);
    assert_eq!(durable.client_dedup_watermark().get(&client_id), Some(&1));

    durable.add_to_cache(&req2);
    assert_eq!(durable.client_dedup_watermark().get(&client_id), Some(&1));
}

#[test]
fn durable_tests_dedup_watermark_ignores_pending_cache_entries() {
    let mut durable = ReplicaDurable::default();
    let client_id = node_id();
    let req1 = PaxosCommand::NOOP.with_client(client_id, 1);
    let req2 = PaxosCommand::NOOP.with_client(client_id, 2);

    durable.add_to_cache(&req1);
    assert!(durable.client_dedup_watermark().is_empty());

    durable.update_cache(&req1, ReplyOutcome::Done);
    assert_eq!(durable.client_dedup_watermark().get(&client_id), Some(&1));

    durable.add_to_cache(&req2);
    assert_eq!(durable.client_dedup_watermark().get(&client_id), Some(&1));
}

#[test]
fn stop_sign_rejects_new_proposals_after_stop_slot() {
    let node = node_id();
    let mut durable = ReplicaDurable::default();
    durable.set_strategy(ConfigurationStrategy::StopSign);
    let stop = PaxosCommand::STOP.with_client(node, 1);
    let _ = durable.add_decision(PValue::new(0, Ballot::new(1, node), stop));

    assert!(matches!(durable.proposal_policy(), ProposalPolicy::RejectStopped));
}

#[test]
fn delayed_stop_sign_allows_grace_slots_before_rejecting() {
    let node = node_id();
    let mut durable = ReplicaDurable::default();
    durable.set_strategy(ConfigurationStrategy::DelayedStopSign);
    durable.set_alpha(2);
    let stop = PaxosCommand::STOP.with_client(node, 1);
    let _ = durable.add_decision(PValue::new(0, Ballot::new(1, node), stop));

    assert!(matches!(durable.proposal_policy(), ProposalPolicy::Admit));
    let _ = durable.add_proposal(PaxosCommand::NOOP.with_client(node, 2));
    assert!(matches!(durable.proposal_policy(), ProposalPolicy::Admit));
    let _ = durable.add_proposal(PaxosCommand::NOOP.with_client(node, 3));
    assert!(matches!(durable.proposal_policy(), ProposalPolicy::RejectStopped));
}

#[test]
fn padding_rewrites_post_stop_proposals_to_noop() {
    let node = node_id();
    let mut durable = ReplicaDurable::default();
    durable.set_strategy(ConfigurationStrategy::Padding);
    let stop = PaxosCommand::STOP.with_client(node, 1);
    let _ = durable.add_decision(PValue::new(0, Ballot::new(1, node), stop));

    let admitted = durable.add_proposal(PaxosCommand::PUT {
        key: "k".to_string(),
        version: 1,
        value: 9,
    });
    assert_eq!(admitted, PaxosCommand::NOOP);
}

#[test]
fn padding_rejects_proposals_after_alpha_boundary() {
    let node = node_id();
    let mut durable = ReplicaDurable::default();
    durable.set_strategy(ConfigurationStrategy::Padding);
    durable.set_alpha(2);
    let stop = PaxosCommand::STOP.with_client(node, 1);
    let _ = durable.add_decision(PValue::new(0, Ballot::new(1, node), stop));

    assert!(matches!(durable.proposal_policy(), ProposalPolicy::PadWithNoop));
    let _ = durable.add_proposal(PaxosCommand::NOOP.with_client(node, 2));
    assert!(matches!(durable.proposal_policy(), ProposalPolicy::PadWithNoop));
    let _ = durable.add_proposal(PaxosCommand::NOOP.with_client(node, 3));
    assert!(matches!(durable.proposal_policy(), ProposalPolicy::RejectStopped));
}

#[test]
fn padding_requires_drain_before_stop_is_considered_drained() {
    let node = node_id();
    let mut durable = ReplicaDurable::default();
    durable.set_strategy(ConfigurationStrategy::Padding);
    durable.set_alpha(1);
    let stop = PaxosCommand::STOP.with_client(node, 1);
    let _ = durable.add_decision(PValue::new(0, Ballot::new(1, node), stop));

    assert!(!durable.is_stop_drained());
    durable.increment_decisions();
    assert!(!durable.is_stop_drained());
    durable.increment_decisions();
    assert!(durable.is_stop_drained());

    let _ = durable.add_proposal(PaxosCommand::NOOP.with_client(node, 2));
    assert!(durable.is_stop_drained());
}

#[test]
fn brick_wall_does_not_wait_for_post_stop_drain() {
    let node = node_id();
    let mut durable = ReplicaDurable::default();
    durable.set_strategy(ConfigurationStrategy::BrickWall);
    let stop = PaxosCommand::STOP.with_client(node, 1);
    let _ = durable.add_decision(PValue::new(0, Ballot::new(1, node), stop));

    assert!(!durable.is_stop_drained());
    durable.increment_decisions();
    assert!(durable.is_stop_drained());
}
