//! The node-wide message vocabulary: the multi-decree (PMMC) phase messages,
//! the single-decree Synod messages and the negative reply.
use vstd::prelude::*;

use crate::ballot::{Ballot, NodeId};
use crate::node::pvalue::PValue;
use crate::paxos_command::PaxosCommand;
use crate::rsm::kv_store::ReplyOutcome;

verus! {

#[derive(Debug, Clone)]
#[allow(inconsistent_fields)]
pub enum Message {
    ACK { from: NodeId, to: NodeId, slot: usize },
    ACCEPTED { from: NodeId, pvalue: PValue },
    ADOPTED { from: NodeId, to: NodeId, ballot: Ballot, pvalues: Vec<PValue> },
    HEARTBEAT { from: NodeId, ballot: Ballot },
    PROPOSE { from: NodeId, slot: usize, cmd: PaxosCommand },
    PREEMPT { from: NodeId, to: NodeId, ballot: Ballot },
    P1A { from: NodeId, ballot: Ballot, start_index: usize },
    P1B { from: NodeId, to: NodeId, ballot: Ballot, pvalues: Vec<PValue> },
    P2A { from: NodeId, pvalue: PValue },
    P2B { from: NodeId, to: NodeId, ballot: Ballot, pvalue: PValue },
    Prepare { from: usize, decree_num: usize, ballot: Ballot },
    Promise {
        from: usize,
        decree_num: usize,
        ballot: Ballot,
        accepted_ballot: Ballot,
        accepted_value: PaxosCommand,
    },
    Accept {
        from: usize,
        decree_num: usize,
        ballot: Ballot,
        value: PaxosCommand,
        quorum: Vec<usize>,
    },
    NACK,
}

/// Messages between a client and a replica.
#[derive(Debug, Clone)]
pub enum ClientMessage {
    PROPOSE { cmd: PaxosCommand },
    RESPONSE { request_id: u64, response: ReplyOutcome },
}

impl Message {
    /// The PMMC phase messages.
    pub open spec fn is_pmmc(self) -> bool {
        !(self is Prepare || self is Promise || self is Accept || self is NACK)
    }
}

} // verus!
