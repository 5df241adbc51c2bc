//! Configuration the nodes are built from: which roles a node plays and how
//! a replica group stops for reconfiguration.
use vstd::prelude::*;

verus! {

/// How a replica group stops when a STOP command is decided.
#[derive(Debug, Clone, Copy, PartialEq, Eq, Structural)]
pub enum ConfigurationStrategy {
    JointConsensus,
    StopSign,
    DelayedStopSign,
    Padding,
    BrickWall,
}

/// The roles a PMMC node plays.
#[derive(Debug, Clone, Copy, PartialEq, Eq, Structural)]
pub struct Roles {
    pub proposer: bool,
    pub acceptor: bool,
    pub learner: bool,
}

impl Default for Roles {
    /// Every role.
    fn default() -> (r: Roles)
        ensures
            r.proposer && r.acceptor && r.learner,
    {
        Roles { proposer: true, acceptor: true, learner: true }
    }
}

} // verus!
