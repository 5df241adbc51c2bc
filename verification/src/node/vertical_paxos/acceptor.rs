//! The Vertical Paxos acceptor answers the same phase 1a and 2a messages as the
//! PMMC acceptor, from the same durable record, in the same way.
use vstd::prelude::*;

pub mod record;

verus! {

pub type Acceptor = crate::node::pmmc::acceptor::Acceptor;

pub type AcceptorEvent = crate::node::pmmc::acceptor::AcceptorEvent;

} // verus!
