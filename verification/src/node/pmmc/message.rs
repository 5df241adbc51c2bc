//! Messages of the multi-decree protocol, and their place in the node-wide
//! vocabulary.
use vstd::prelude::*;

use crate::ballot::{Ballot, NodeId};
use crate::message::Message;
use crate::node::pvalue::PValue;
use crate::paxos_command::PaxosCommand;

verus! {

#[derive(Debug, Clone)]
pub enum PmmcMessage {
    ACK { from: NodeId, to: NodeId, slot: usize },
    ACCEPTED { from: NodeId, pvalue: PValue },
    ADOPTED { from: NodeId, to: NodeId, ballot: Ballot, pvalues: Vec<PValue> },
    HEARTBEAT { from: NodeId, ballot: Ballot },
    PROPOSE { from: NodeId, slot: usize, cmd: PaxosCommand },
    PREEMPT { from: NodeId, to: NodeId, ballot: Ballot },
    P1A { from: NodeId, ballot: Ballot, start_index: usize },
    P1B { from: NodeId, to: NodeId, ballot: Ballot, pvalues: Vec<PValue> },
    P2A { from: NodeId, pvalue: PValue },
    P2B { from: NodeId, to: NodeId, ballot: Ballot, pvalue: PValue },
}

/// The node-wide message that carries a PMMC message: the variant of the same
/// name with the same fields.
pub open spec fn message_of(m: PmmcMessage) -> Message {
    match m {
        PmmcMessage::ACK { from, to, slot } => Message::ACK { from, to, slot },
        PmmcMessage::ACCEPTED { from, pvalue } => Message::ACCEPTED { from, pvalue },
        PmmcMessage::ADOPTED { from, to, ballot, pvalues } => Message::ADOPTED {
            from,
            to,
            ballot,
            pvalues,
        },
        PmmcMessage::HEARTBEAT { from, ballot } => Message::HEARTBEAT { from, ballot },
        PmmcMessage::PROPOSE { from, slot, cmd } => Message::PROPOSE { from, slot, cmd },
        PmmcMessage::PREEMPT { from, to, ballot } => Message::PREEMPT { from, to, ballot },
        PmmcMessage::P1A { from, ballot, start_index } => Message::P1A {
            from,
            ballot,
            start_index,
        },
        PmmcMessage::P1B { from, to, ballot, pvalues } => Message::P1B {
            from,
            to,
            ballot,
            pvalues,
        },
        PmmcMessage::P2A { from, pvalue } => Message::P2A { from, pvalue },
        PmmcMessage::P2B { from, to, ballot, pvalue } => Message::P2B { from, to, ballot, pvalue },
    }
}

/// The PMMC message a node-wide message carries, if it carries one.
pub open spec fn pmmc_of(m: Message) -> Result<PmmcMessage, ()> {
    if m.is_pmmc() {
        Ok(choose|p: PmmcMessage| message_of(p) == m)
    } else {
        Err(())
    }
}

/// Every PMMC phase message is carried by exactly one PMMC message.
pub proof fn lemma_message_of_onto(m: Message)
    requires
        m.is_pmmc(),
    ensures
        exists|p: PmmcMessage| message_of(p) == m,
{
    let p = match m {
        Message::ACK { from, to, slot } => PmmcMessage::ACK { from, to, slot },
        Message::ACCEPTED { from, pvalue } => PmmcMessage::ACCEPTED { from, pvalue },
        Message::ADOPTED { from, to, ballot, pvalues } => PmmcMessage::ADOPTED {
            from,
            to,
            ballot,
            pvalues,
        },
        Message::HEARTBEAT { from, ballot } => PmmcMessage::HEARTBEAT { from, ballot },
        Message::PROPOSE { from, slot, cmd } => PmmcMessage::PROPOSE { from, slot, cmd },
        Message::PREEMPT { from, to, ballot } => PmmcMessage::PREEMPT { from, to, ballot },
        Message::P1A { from, ballot, start_index } => PmmcMessage::P1A {
            from,
            ballot,
            start_index,
        },
        Message::P1B { from, to, ballot, pvalues } => PmmcMessage::P1B {
            from,
            to,
            ballot,
            pvalues,
        },
        Message::P2A { from, pvalue } => PmmcMessage::P2A { from, pvalue },
        Message::P2B { from, to, ballot, pvalue } => PmmcMessage::P2B { from, to, ballot, pvalue },
        _ => PmmcMessage::ACK { from: 0, to: 0, slot: 0 },
    };
    assert(message_of(p) == m);
}

/// Converting a PMMC message to the node-wide vocabulary and back gives the
/// message itself; node-wide messages outside PMMC do not convert.
pub proof fn lemma_pmmc_roundtrip(p: PmmcMessage, m: Message)
    ensures
        pmmc_of(message_of(p)) == Ok::<PmmcMessage, ()>(p),
        !m.is_pmmc() ==> pmmc_of(m) == Err::<PmmcMessage, ()>(()),
{
    let m2 = message_of(p);
    lemma_message_of_onto(m2);
    let q = choose|q: PmmcMessage| message_of(q) == m2;
    assert(q == p);
}

impl TryFrom<Message> for PmmcMessage {
    type Error = ();

    fn try_from(value: Message) -> (r: Result<PmmcMessage, ()>) {
        let ghost original = value;
        proof {
            lemma_pmmc_roundtrip(PmmcMessage::ACK { from: 0, to: 0, slot: 0 }, original);
        }
        let r = match value {
            Message::ACK { from, to, slot } => Ok(PmmcMessage::ACK { from, to, slot }),
            Message::ACCEPTED { from, pvalue } => Ok(PmmcMessage::ACCEPTED { from, pvalue }),
            Message::ADOPTED { from, to, ballot, pvalues } => Ok(
                PmmcMessage::ADOPTED { from, to, ballot, pvalues },
            ),
            Message::HEARTBEAT { from, ballot } => Ok(PmmcMessage::HEARTBEAT { from, ballot }),
            Message::PROPOSE { from, slot, cmd } => Ok(PmmcMessage::PROPOSE { from, slot, cmd }),
            Message::PREEMPT { from, to, ballot } => Ok(PmmcMessage::PREEMPT { from, to, ballot }),
            Message::P1A { from, ballot, start_index } => Ok(
                PmmcMessage::P1A { from, ballot, start_index },
            ),
            Message::P1B { from, to, ballot, pvalues } => Ok(
                PmmcMessage::P1B { from, to, ballot, pvalues },
            ),
            Message::P2A { from, pvalue } => Ok(PmmcMessage::P2A { from, pvalue }),
            Message::P2B { from, to, ballot, pvalue } => Ok(
                PmmcMessage::P2B { from, to, ballot, pvalue },
            ),
            _ => Err(()),
        };
        proof {
            if r is Ok {
                lemma_pmmc_roundtrip(r->Ok_0, original);
            }
        }
        r
    }
}

impl vstd::std_specs::convert::TryFromSpecImpl<Message> for PmmcMessage {
    open spec fn obeys_try_from_spec() -> bool {
        true
    }

    open spec fn try_from_spec(v: Message) -> Result<PmmcMessage, ()> {
        pmmc_of(v)
    }
}

impl From<PmmcMessage> for Message {
    fn from(value: PmmcMessage) -> (r: Message) {
        match value {
            PmmcMessage::ACK { from, to, slot } => Message::ACK { from, to, slot },
            PmmcMessage::ACCEPTED { from, pvalue } => Message::ACCEPTED { from, pvalue },
            PmmcMessage::ADOPTED { from, to, ballot, pvalues } => Message::ADOPTED {
                from,
                to,
                ballot,
                pvalues,
            },
            PmmcMessage::HEARTBEAT { from, ballot } => Message::HEARTBEAT { from, ballot },
            PmmcMessage::PROPOSE { from, slot, cmd } => Message::PROPOSE { from, slot, cmd },
            PmmcMessage::PREEMPT { from, to, ballot } => Message::PREEMPT { from, to, ballot },
            PmmcMessage::P1A { from, ballot, start_index } => Message::P1A {
                from,
                ballot,
                start_index,
            },
            PmmcMessage::P1B { from, to, ballot, pvalues } => Message::P1B {
                from,
                to,
                ballot,
                pvalues,
            },
            PmmcMessage::P2A { from, pvalue } => Message::P2A { from, pvalue },
            PmmcMessage::P2B { from, to, ballot, pvalue } => Message::P2B {
                from,
                to,
                ballot,
                pvalue,
            },
        }
    }
}

impl vstd::std_specs::convert::FromSpecImpl<PmmcMessage> for Message {
    open spec fn obeys_from_spec() -> bool {
        true
    }

    open spec fn from_spec(v: PmmcMessage) -> Message {
        message_of(v)
    }
}

} // verus!
