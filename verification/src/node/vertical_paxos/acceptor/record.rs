//! The Vertical Paxos acceptor's durable record: its promised ballot and its
//! accepted pvalues, kept as the PMMC acceptor keeps them.
use vstd::prelude::*;

verus! {

pub type AcceptorRecord = crate::node::pmmc::acceptor::accepted_state::AcceptedData;

pub type AcceptorState = crate::node::pmmc::acceptor::accepted_state::AcceptorState;

} // verus!
