//! The node's administrative endpoint: it answers status queries, emits
//! checkpoints of a stopped replica, and stops the node by proposing a STOP
//! command as its own client and waiting for that command's response.
use vstd::prelude::*;

use crate::ballot::NodeId;
use crate::message::ClientMessage;
use crate::paxos_command::{PaxosCommand, RequestId};
use crate::rsm::canonical::{bytes_of, hyphenated_uuid, push_bytes, utf8, uuid_text};
use crate::rsm::checkpoint::RsmCheckpoint;
use vstd::string::StringSliceAdditionalSpecFns;

verus! {

pub enum ConfigurationCommand {
    Stop,
    Status,
    Checkpoint,
    Add { node_id: NodeId },
    Remove { node_id: NodeId },
}

#[derive(Debug, Clone, PartialEq, Eq)]
pub enum ConfigurationHandlerError {
    InvalidRequest { reason: String },
    Rejected { reason: String },
    Internal { reason: String },
    Timeout,
    ResponseChannelClosed,
}

pub enum ConfigurationReplyOutcome {
    Active,
    Stopped,
    /// The command was taken; nothing to report.
    Done,
    Checkpoint(RsmCheckpoint),
    Error(ConfigurationHandlerError),
}

/// What the endpoint does with a command.
pub enum AdminStep {
    /// Answer at once.
    Reply(Result<ConfigurationReplyOutcome, ConfigurationHandlerError>),
    /// Propose the STOP command and wait for its response.
    SubmitStop,
    /// Answer with a checkpoint of the replica.
    EmitCheckpoint,
}

/// What can happen while waiting for the response to the STOP command.
pub enum StopWaitEvent {
    Received(ClientMessage),
    Closed,
    TimedOut,
}

/// The UUID, version 5 in the OID namespace, of a name.
pub uninterp spec fn oid_uuid_v5(name: Seq<u8>) -> u128;

/// `uuid::Uuid::new_v5(&Uuid::NAMESPACE_OID, name)`, as a 128-bit value.
#[verifier::external_body]
fn uuid_v5_oid(name: &[u8]) -> (r: u128)
    ensures
        r == oid_uuid_v5(name@),
{
    uuid::Uuid::new_v5(&uuid::Uuid::NAMESPACE_OID, name).as_u128()
}

/// The name the admin client of `node_id` is derived from:
/// `pmmc-admin-client:` followed by the node's UUID text.
pub open spec fn admin_client_name(node_id: NodeId) -> Seq<u8> {
    "pmmc-admin-client:".spec_bytes() + utf8(hyphenated_uuid(node_id))
}

/// The reason given when membership commands reach the endpoint.
pub open spec fn membership_reason() -> Seq<char> {
    "membership commands are handled by node state"@
}

/// The reason given when a node without a replica is asked to stop or to
/// checkpoint.
pub open spec fn no_replica_reason() -> Seq<char> {
    "node has no replica role for stop proposal"@
}

/// The endpoint's answer to a command, given whether the node has a replica
/// and whether it is stopped.
pub open spec fn admin_plan(
    cmd: ConfigurationCommand,
    has_replica: bool,
    is_stopped: bool,
    step: AdminStep,
) -> bool {
    match cmd {
        ConfigurationCommand::Stop => if has_replica {
            step is SubmitStop
        } else {
            step matches AdminStep::Reply(Err(ConfigurationHandlerError::Rejected { reason }))
                && reason@ == no_replica_reason()
        },
        ConfigurationCommand::Status => if is_stopped {
            step matches AdminStep::Reply(Ok(ConfigurationReplyOutcome::Stopped))
        } else {
            step matches AdminStep::Reply(Ok(ConfigurationReplyOutcome::Active))
        },
        ConfigurationCommand::Checkpoint => if !has_replica {
            step matches AdminStep::Reply(Err(ConfigurationHandlerError::Rejected { reason }))
                && reason@ == no_replica_reason()
        } else if is_stopped {
            step is EmitCheckpoint
        } else {
            step matches AdminStep::Reply(Ok(ConfigurationReplyOutcome::Done))
        },
        ConfigurationCommand::Add { .. } | ConfigurationCommand::Remove { .. } => step matches AdminStep::Reply(
            Err(ConfigurationHandlerError::InvalidRequest { reason }),
        ) && reason@ == membership_reason(),
    }
}

/// The outcome of waiting on `event` for the response to request
/// `request_id`: the matching response means the node stopped; any other
/// message is ignored; a closed channel and a timeout are errors.
pub open spec fn stop_wait_outcome(
    event: StopWaitEvent,
    request_id: RequestId,
    r: Option<Result<ConfigurationReplyOutcome, ConfigurationHandlerError>>,
) -> bool {
    match event {
        StopWaitEvent::Received(ClientMessage::RESPONSE { request_id: id, .. }) => if id
            == request_id {
            r matches Some(Ok(ConfigurationReplyOutcome::Stopped))
        } else {
            r is None
        },
        StopWaitEvent::Received(_) => r is None,
        StopWaitEvent::Closed => r == Some(
            Err::<ConfigurationReplyOutcome, ConfigurationHandlerError>(
                ConfigurationHandlerError::ResponseChannelClosed,
            ),
        ),
        StopWaitEvent::TimedOut => r == Some(
            Err::<ConfigurationReplyOutcome, ConfigurationHandlerError>(
                ConfigurationHandlerError::Timeout,
            ),
        ),
    }
}

/// One step of waiting for the STOP response (see `stop_wait_outcome`).
pub fn wait_for_stop_response(event: StopWaitEvent, request_id: RequestId) -> (r: Option<
    Result<ConfigurationReplyOutcome, ConfigurationHandlerError>,
>)
    ensures
        stop_wait_outcome(event, request_id, r),
{
    match event {
        StopWaitEvent::Received(ClientMessage::RESPONSE { request_id: id, .. }) => {
            if id == request_id {
                Some(Ok(ConfigurationReplyOutcome::Stopped))
            } else {
                None
            }
        },
        StopWaitEvent::Received(_) => None,
        StopWaitEvent::Closed => Some(Err(ConfigurationHandlerError::ResponseChannelClosed)),
        StopWaitEvent::TimedOut => Some(Err(ConfigurationHandlerError::Timeout)),
    }
}

pub struct NodeAdmin {
    client_id: u128,
    request_id: u64,
}

impl NodeAdmin {
    pub closed spec fn client(&self) -> u128 {
        self.client_id
    }

    pub closed spec fn last_request(&self) -> u64 {
        self.request_id
    }

    /// The endpoint of `node_id`: its client identity is derived from the
    /// node's identity, and no request has been made yet.
    pub fn new(node_id: NodeId) -> (a: NodeAdmin)
        ensures
            a.client() == oid_uuid_v5(admin_client_name(node_id)),
            a.last_request() == 0,
    {
        let mut name = bytes_of("pmmc-admin-client:");
        let text = uuid_text(node_id);
        push_bytes(&mut name, text.as_str().as_bytes());
        proof {
            assert(name@ =~= admin_client_name(node_id));
        }
        NodeAdmin { client_id: uuid_v5_oid(name.as_slice()), request_id: 0 }
    }

    pub fn client_id(&self) -> (r: u128)
        ensures
            r == self.client(),
    {
        self.client_id
    }

    /// The next request id: one more than the last, wrapping around.
    fn next_request_id(&mut self) -> (r: u64)
        ensures
            r == (if old(self).last_request() == u64::MAX {
                0
            } else {
                (old(self).last_request() + 1) as u64
            }),
            final(self).last_request() == r,
            final(self).client() == old(self).client(),
    {
        self.request_id = if self.request_id == u64::MAX {
            0
        } else {
            self.request_id + 1
        };
        self.request_id
    }

    /// The STOP command, as the endpoint's client, under a fresh request id.
    pub fn build_stop_submission(&mut self) -> (r: (u64, PaxosCommand))
        ensures
            r.0 == (if old(self).last_request() == u64::MAX {
                0
            } else {
                (old(self).last_request() + 1) as u64
            }),
            final(self).last_request() == r.0,
            final(self).client() == old(self).client(),
            r.1@ == PaxosCommand::STOP@.with_client(old(self).client(), r.0),
    {
        let request_id = self.next_request_id();
        let command = PaxosCommand::STOP.with_client(self.client_id, request_id);
        (request_id, command)
    }

    /// What to do with `cmd` (see `admin_plan`).
    pub fn handle_configuration_command(
        &self,
        cmd: ConfigurationCommand,
        has_replica: bool,
        is_stopped: bool,
    ) -> (step: AdminStep)
        ensures
            admin_plan(cmd, has_replica, is_stopped, step),
    {
        match cmd {
            ConfigurationCommand::Stop => {
                if has_replica {
                    AdminStep::SubmitStop
                } else {
                    AdminStep::Reply(Err(NodeAdmin::no_replica()))
                }
            },
            ConfigurationCommand::Status => {
                if is_stopped {
                    AdminStep::Reply(Ok(ConfigurationReplyOutcome::Stopped))
                } else {
                    AdminStep::Reply(Ok(ConfigurationReplyOutcome::Active))
                }
            },
            ConfigurationCommand::Checkpoint => {
                if !has_replica {
                    AdminStep::Reply(Err(NodeAdmin::no_replica()))
                } else if is_stopped {
                    AdminStep::EmitCheckpoint
                } else {
                    AdminStep::Reply(Ok(ConfigurationReplyOutcome::Done))
                }
            },
            ConfigurationCommand::Add { .. } | ConfigurationCommand::Remove { .. } => {
                let reason = "membership commands are handled by node state".to_owned();
                AdminStep::Reply(Err(ConfigurationHandlerError::InvalidRequest { reason }))
            },
        }
    }

    fn no_replica() -> (e: ConfigurationHandlerError)
        ensures
            e matches ConfigurationHandlerError::Rejected { reason } && reason@ == no_replica_reason(),
    {
        let reason = "node has no replica role for stop proposal".to_owned();
        ConfigurationHandlerError::Rejected { reason }
    }
}

} // verus!
