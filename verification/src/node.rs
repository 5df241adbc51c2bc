pub mod peer_topology;
pub mod pmmc;
pub mod proposer;
pub mod pvalue;
pub mod routing;
pub mod vertical_paxos;
