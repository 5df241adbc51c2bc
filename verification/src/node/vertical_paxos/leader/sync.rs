//! A new leader's synchronization: recovery of the values it must keep and
//! readiness of its write quorum run side by side; the first higher ballot
//! either of them sees supersedes the leader, and once both are done the
//! leader is ready.
use vstd::prelude::*;

use crate::ballot::{Ballot, NodeId};
use crate::cluster::vertical::activation::{ActivationSnapshot, ActivationView};
use crate::node::vertical_paxos::leader::sync::recovery::{
    advance,
    recovery_answer,
    recovery_initial,
    RecoverySynchronizer,
    RecoveryView,
};
use crate::node::vertical_paxos::leader::sync::write_quorum::{
    write_quorum_answer,
    write_quorum_initial,
    WriteQuorumSynchronizer,
    WriteQuorumView,
};
use crate::node::vertical_paxos::leader::sync::scout_round::fresh_round;
use crate::node::vertical_paxos::message::VerticalPaxosMessage;

pub mod recovery;
pub mod scout_round;
pub mod write_quorum;

verus! {

/// The larger of two optional ballots; `None` when both are.
pub open spec fn max_opt(left: Option<Ballot>, right: Option<Ballot>) -> Option<Ballot> {
    match (left, right) {
        (Some(l), Some(r)) => Some(Ballot::max_of(l, r)),
        (Some(b), None) => Some(b),
        (None, Some(b)) => Some(b),
        (None, None) => None,
    }
}

pub fn max_ballot(left: Option<Ballot>, right: Option<Ballot>) -> (r: Option<Ballot>)
    ensures
        r == max_opt(left, right),
{
    match (left, right) {
        (Some(left), Some(right)) => Some(left.max(right)),
        (Some(ballot), None) | (None, Some(ballot)) => Some(ballot),
        (None, None) => None,
    }
}

pub struct LeaderSynchronizer {
    snapshot: ActivationSnapshot,
    recovery: RecoverySynchronizer,
    write_quorum: WriteQuorumSynchronizer,
    in_progress: bool,
    superseded_by: Option<Ballot>,
}

pub struct LeaderSyncView {
    pub snapshot: ActivationView,
    pub recovery: RecoveryView,
    pub write_quorum: WriteQuorumView,
    pub in_progress: bool,
    pub superseded: Option<Ballot>,
}

impl View for LeaderSynchronizer {
    type V = LeaderSyncView;

    closed spec fn view(&self) -> LeaderSyncView {
        LeaderSyncView {
            snapshot: self.snapshot@,
            recovery: self.recovery@,
            write_quorum: self.write_quorum@,
            in_progress: self.in_progress,
            superseded: self.superseded_by,
        }
    }
}

/// Ready: not superseded, recovery complete and the write quorum ready.
pub open spec fn sync_ready(v: LeaderSyncView) -> bool {
    v.superseded is None && v.recovery.recovered is Some && v.write_quorum.ready
}

/// Both halves with their rounds stopped.
pub open spec fn sync_stopped(v: LeaderSyncView) -> LeaderSyncView {
    LeaderSyncView {
        recovery: RecoveryView { round: None, ..v.recovery },
        write_quorum: WriteQuorumView { round: None, ..v.write_quorum },
        in_progress: false,
        ..v
    }
}

/// Both halves started afresh.
pub open spec fn sync_started(v: LeaderSyncView) -> LeaderSyncView {
    LeaderSyncView {
        recovery: advance(
            RecoveryView {
                next_round: 0,
                round: None,
                settled: Map::empty(),
                recovered: None,
                superseded: None,
                ..v.recovery
            },
        ),
        write_quorum: WriteQuorumView {
            round: Some(
                fresh_round(
                    v.write_quorum.leader_id,
                    v.write_quorum.ballot,
                    v.write_quorum.snapshot.configuration.start_index,
                    v.write_quorum.required,
                ),
            ),
            ready: false,
            superseded: None,
            ..v.write_quorum
        },
        in_progress: true,
        superseded: None,
        ..v
    }
}

/// The synchronizer after taking in `msg`. Outside a synchronization nothing
/// changes. Otherwise both halves take the message in; if either is now
/// superseded, the synchronization stops superseded by the higher of their
/// ballots; if it is now ready, it stops ready.
pub open spec fn sync_answer(v: LeaderSyncView, msg: VerticalPaxosMessage) -> LeaderSyncView {
    if !v.in_progress {
        v
    } else {
        let stepped = LeaderSyncView {
            recovery: recovery_answer(v.recovery, msg),
            write_quorum: write_quorum_answer(v.write_quorum, msg),
            ..v
        };
        let sup = max_opt(stepped.recovery.superseded, stepped.write_quorum.superseded);
        if sup is Some {
            sync_stopped(LeaderSyncView { superseded: sup, ..stepped })
        } else if sync_ready(stepped) {
            sync_stopped(stepped)
        } else {
            stepped
        }
    }
}

/// A stopped synchronization ignores messages; a running one is never
/// superseded, so a message that leaves it superseded or ready stops it; it
/// is never both.
pub proof fn lemma_sync_stops(v: LeaderSyncView, msg: VerticalPaxosMessage)
    ensures
        !v.in_progress ==> sync_answer(v, msg) == v,
        sync_started(v).superseded is None,
        (v.in_progress ==> v.superseded is None) ==> (sync_answer(v, msg).in_progress
            ==> sync_answer(v, msg).superseded is None),
        v.in_progress && sync_ready(sync_answer(v, msg)) ==> !sync_answer(v, msg).in_progress,
        !(sync_ready(v) && v.superseded is Some),
{
}

impl LeaderSynchronizer {
    pub closed spec fn wf(&self) -> bool {
        self.recovery.wf()
    }

    pub fn new(leader_id: NodeId, snapshot: ActivationSnapshot) -> (r: LeaderSynchronizer)
        ensures
            r.wf(),
            r@ == (LeaderSyncView {
                snapshot: snapshot@,
                recovery: recovery_initial(leader_id, snapshot@),
                write_quorum: write_quorum_initial(leader_id, snapshot@),
                in_progress: false,
                superseded: None,
            }),
    {
        let recovery = RecoverySynchronizer::new(leader_id, snapshot.clone());
        let write_quorum = WriteQuorumSynchronizer::new(leader_id, snapshot.clone());
        LeaderSynchronizer { snapshot, recovery, write_quorum, in_progress: false, superseded_by: None }
    }

    pub fn snapshot(&self) -> (r: &ActivationSnapshot)
        ensures
            r@ == self@.snapshot,
    {
        &self.snapshot
    }

    /// Starts both halves afresh.
    pub fn start(&mut self)
        requires
            old(self).wf(),
        ensures
            final(self).wf(),
            final(self)@ == sync_started(old(self)@),
    {
        self.in_progress = true;
        self.superseded_by = None;
        self.recovery.start();
        self.write_quorum.start();
    }

    pub fn is_in_progress(&self) -> (b: bool)
        ensures
            b == self@.in_progress,
    {
        self.in_progress
    }

    pub fn is_ready(&self) -> (b: bool)
        ensures
            b == sync_ready(self@),
    {
        self.superseded_by.is_none() && self.recovery.is_complete() && self.write_quorum.is_ready()
    }

    pub fn superseded_by(&self) -> (b: Option<Ballot>)
        ensures
            b == self@.superseded,
    {
        self.superseded_by
    }

    pub fn recovery(&self) -> (r: &RecoverySynchronizer)
        ensures
            r@ == self@.recovery,
    {
        &self.recovery
    }

    pub fn write_quorum(&self) -> (r: &WriteQuorumSynchronizer)
        ensures
            r@ == self@.write_quorum,
    {
        &self.write_quorum
    }

    /// Takes in a message (see `sync_answer`).
    pub fn handle_message(&mut self, msg: &VerticalPaxosMessage)
        requires
            old(self).wf(),
        ensures
            final(self).wf(),
            final(self)@ == sync_answer(old(self)@, *msg),
    {
        if !self.in_progress {
            return ;
        }
        self.recovery.handle_message(msg);
        self.write_quorum.handle_message(msg);
        let superseded_by = max_ballot(
            self.recovery.superseded_by(),
            self.write_quorum.superseded_by(),
        );
        if let Some(ballot) = superseded_by {
            self.superseded_by = Some(ballot);
            self.in_progress = false;
            self.recovery.shutdown();
            self.write_quorum.shutdown();
            return ;
        }
        if self.is_ready() {
            self.in_progress = false;
            self.recovery.shutdown();
            self.write_quorum.shutdown();
        }
    }

    /// Stops synchronizing and forgets any supersession.
    pub fn shutdown(&mut self)
        requires
            old(self).wf(),
        ensures
            final(self).wf(),
            final(self)@ == (LeaderSyncView { superseded: None, ..sync_stopped(old(self)@) }),
    {
        self.in_progress = false;
        self.superseded_by = None;
        self.recovery.shutdown();
        self.write_quorum.shutdown();
    }
}

} // verus!
