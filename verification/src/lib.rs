//! Verified core of a multi-decree Paxos (PMMC) and Vertical Paxos node:
//! ballots, commands, acceptor/leader/replica state machines, routing and the
//! replicated key-value state machine.
pub mod assoc_map;
pub mod ballot;
pub mod cluster;
pub mod configuration;
pub mod message;
pub mod node;
pub mod node_set;
pub mod paxos_command;
pub mod rsm;
pub mod slot_map;
