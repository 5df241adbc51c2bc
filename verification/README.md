# paxos_core

A verified core for Paxos-replicated key-value stores: the multi-decree
"Paxos made moderately complex" protocol (acceptor, scout, commander, leader,
replica), Vertical Paxos (configurations, recovery through predecessor
configurations, write-quorum synchronization, reconfigurable replicas), the
single-decree Synod proposer, and the replicated key-value state machine with
its checkpoints.

Every component is a state machine: a function from its state and an incoming
message to its next state and the messages it answers with. Each function
states in its contract exactly what it does, over mathematical views of the
state; the protocol's invariants (promises never decrease, a slot is decided
once and only by a quorum, decisions are executed in slot order, a leader
activates only for its own ballot, checksums do not depend on insertion order,
and more) are proved either in those contracts or as proof functions.

Layout:

- `src/` is the library, verified by Verus.
  - `ballot`, `slot_map`, `assoc_map`, `node_set`, `paxos_command`, `message`,
    `configuration`: shared values and collections.
  - `node/pmmc`: the multi-decree protocol and the node that dispatches to its
    components; `node/vertical_paxos`: Vertical Paxos; `node/proposer`: the
    Synod proposer; `node/routing`, `node/peer_topology`, `node/pvalue`.
  - `cluster/vertical`: quorums, configurations and activation snapshots.
  - `rsm`: the key-value store, its entries, and checkpoints with their
    canonical encoding and SHA-256 checksum.
- `tests/` exercises the library.
- `app/` is the asynchronous runtime around it: message and timer loops,
  the administrative endpoint, UUID conversions and checkpoint JSON.
