use paxos_core::message::ClientMessage;
use paxos_core::node::pmmc::admin::{
    wait_for_stop_response, AdminStep, ConfigurationCommand, ConfigurationHandlerError,
    ConfigurationReplyOutcome, NodeAdmin, StopWaitEvent,
};
use paxos_core::paxos_command::PaxosCommand;
use paxos_core::rsm::kv_store::ReplyOutcome;

type WaitResult = Result<ConfigurationReplyOutcome, ConfigurationHandlerError>;

/// Feeds the events to the one-step wait in order, as the node's runtime
/// does, until a step settles the wait; an exhausted queue is a timeout.
fn wait_over(events: Vec<StopWaitEvent>, request_id: u64) -> WaitResult {
    for event in events {
        if let Some(result) = wait_for_stop_response(event, request_id) {
            return result;
        }
    }
    match wait_for_stop_response(StopWaitEvent::TimedOut, request_id) {
        Some(result) => result,
        None => unreachable!(),
    }
}

#[test]
fn wait_for_stop_response_ignores_non_matching_messages() {
    let request_id = 77;
    let events = vec![
        StopWaitEvent::Received(ClientMessage::RESPONSE {
            request_id: request_id - 1,
            response: ReplyOutcome::Done,
        }),
        StopWaitEvent::Received(ClientMessage::PROPOSE { cmd: PaxosCommand::NOOP }),
        StopWaitEvent::Received(ClientMessage::RESPONSE {
            request_id,
            response: ReplyOutcome::Done,
        }),
    ];

    let outcome = wait_over(events, request_id).expect("matching stop response should be accepted");

    assert!(matches!(outcome, ConfigurationReplyOutcome::Stopped));
}

#[test]
fn wait_for_stop_response_times_out_without_match() {
    let result = wait_over(vec![], 12);
    assert!(matches!(result, Err(ConfigurationHandlerError::Timeout)));
}

#[test]
fn wait_for_stop_response_errors_when_channel_closes() {
    let result = wait_over(vec![StopWaitEvent::Closed], 15);
    assert!(matches!(result, Err(ConfigurationHandlerError::ResponseChannelClosed)));
}

#[test]
fn stop_submissions_use_fresh_request_ids_under_the_admin_client() {
    let node_id = 0x1234_5678_9abc_def0_1234_5678_9abc_def0u128;
    let mut admin = NodeAdmin::new(node_id);
    let again = NodeAdmin::new(node_id);
    assert_eq!(admin.client_id(), again.client_id());
    assert_ne!(admin.client_id(), node_id);
    assert_ne!(admin.client_id(), NodeAdmin::new(node_id + 1).client_id());

    let (first, command) = admin.build_stop_submission();
    let (second, _) = admin.build_stop_submission();
    assert_eq!(first, 1);
    assert_eq!(second, 2);
    assert_eq!(
        command,
        PaxosCommand::STOP.with_client(admin.client_id(), first)
    );
}

#[test]
fn admin_client_id_is_the_oid_v5_uuid_of_its_name() {
    let node_id = 0x0011_2233_4455_6677_8899_aabb_ccdd_eeffu128;
    let admin = NodeAdmin::new(node_id);
    let name = format!(
        "pmmc-admin-client:{}",
        uuid::Uuid::from_u128(node_id).hyphenated()
    );
    let expected = uuid::Uuid::new_v5(&uuid::Uuid::NAMESPACE_OID, name.as_bytes()).as_u128();
    assert_eq!(admin.client_id(), expected);
}

#[test]
fn configuration_commands_are_planned_by_role_and_state() {
    let admin = NodeAdmin::new(1);
    assert!(matches!(
        admin.handle_configuration_command(ConfigurationCommand::Stop, true, false),
        AdminStep::SubmitStop
    ));
    assert!(matches!(
        admin.handle_configuration_command(ConfigurationCommand::Stop, false, false),
        AdminStep::Reply(Err(ConfigurationHandlerError::Rejected { .. }))
    ));
    assert!(matches!(
        admin.handle_configuration_command(ConfigurationCommand::Status, true, true),
        AdminStep::Reply(Ok(ConfigurationReplyOutcome::Stopped))
    ));
    assert!(matches!(
        admin.handle_configuration_command(ConfigurationCommand::Status, false, false),
        AdminStep::Reply(Ok(ConfigurationReplyOutcome::Active))
    ));
    assert!(matches!(
        admin.handle_configuration_command(ConfigurationCommand::Checkpoint, true, true),
        AdminStep::EmitCheckpoint
    ));
    assert!(matches!(
        admin.handle_configuration_command(ConfigurationCommand::Add { node_id: 5 }, true, false),
        AdminStep::Reply(Err(ConfigurationHandlerError::InvalidRequest { .. }))
    ));
}
