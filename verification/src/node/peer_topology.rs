//! Which peers play which role.
use vstd::prelude::*;

use crate::ballot::NodeId;

verus! {

#[derive(Debug, Clone)]
pub struct PeerTopology {
    pub acceptors: Vec<NodeId>,
    pub learners: Vec<NodeId>,
    pub proposers: Vec<NodeId>,
}

impl PeerTopology {
    pub fn new(acceptors: Vec<NodeId>, learners: Vec<NodeId>, proposers: Vec<NodeId>) -> (t: PeerTopology)
        ensures
            t.acceptors@ == acceptors@,
            t.learners@ == learners@,
            t.proposers@ == proposers@,
    {
        PeerTopology { acceptors, learners, proposers }
    }
}

} // verus!
