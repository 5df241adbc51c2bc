//! Vertical Paxos speaks the PMMC message vocabulary.
use vstd::prelude::*;

verus! {

pub type VerticalPaxosMessage = crate::node::pmmc::message::PmmcMessage;

} // verus!
