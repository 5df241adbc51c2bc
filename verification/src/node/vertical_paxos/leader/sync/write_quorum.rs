//! Before it may write, a new leader hears from every member of its write
//! quorum for its ballot, through one scout round from the configuration's
//! start index; a higher ballot in an answer supersedes it.
use vstd::prelude::*;

use crate::ballot::{Ballot, NodeId};
use crate::cluster::vertical::activation::{ActivationSnapshot, ActivationView};
use crate::node::vertical_paxos::leader::sync::scout_round::{
    fresh_round,
    scout_answer,
    ScoutRound,
    ScoutRoundView,
};
use crate::node::vertical_paxos::leader::sync::recovery::round_view;
use crate::node::vertical_paxos::message::VerticalPaxosMessage;

verus! {

pub struct WriteQuorumSynchronizer {
    leader_id: NodeId,
    snapshot: ActivationSnapshot,
    ballot: Ballot,
    required: Vec<NodeId>,
    round: Option<ScoutRound>,
    ready: bool,
    superseded_by: Option<Ballot>,
}

pub struct WriteQuorumView {
    pub leader_id: NodeId,
    pub snapshot: ActivationView,
    pub ballot: Ballot,
    pub required: Set<NodeId>,
    pub round: Option<ScoutRoundView>,
    pub ready: bool,
    pub superseded: Option<Ballot>,
}

impl View for WriteQuorumSynchronizer {
    type V = WriteQuorumView;

    closed spec fn view(&self) -> WriteQuorumView {
        WriteQuorumView {
            leader_id: self.leader_id,
            snapshot: self.snapshot@,
            ballot: self.ballot,
            required: self.required@.to_set(),
            round: round_view(self.round),
            ready: self.ready,
            superseded: self.superseded_by,
        }
    }
}

/// The synchronizer before its round starts.
pub open spec fn write_quorum_initial(leader_id: NodeId, snapshot: ActivationView) -> WriteQuorumView {
    WriteQuorumView {
        leader_id,
        snapshot,
        ballot: snapshot.configuration.ballot,
        required: snapshot.configuration.write_quorum.to_set(),
        round: None,
        ready: false,
        superseded: None,
    }
}

/// The synchronizer after taking in `msg`: its round takes it in, and the
/// synchronizer is superseded when the round is, ready when the round is
/// complete and not superseded.
pub open spec fn write_quorum_answer(v: WriteQuorumView, msg: VerticalPaxosMessage) -> WriteQuorumView {
    match v.round {
        None => v,
        Some(r) => {
            let r2 = scout_answer(r, msg);
            WriteQuorumView {
                round: Some(r2),
                superseded: r2.superseded,
                ready: r2.superseded is None && r2.complete,
                ..v
            }
        },
    }
}

impl WriteQuorumSynchronizer {
    pub fn new(leader_id: NodeId, snapshot: ActivationSnapshot) -> (r: WriteQuorumSynchronizer)
        ensures
            r@ == write_quorum_initial(leader_id, snapshot@),
    {
        let ballot = snapshot.configuration().ballot();
        let members = snapshot.configuration().write_quorum().members();
        let required = members.clone();
        assert(required@ =~= members@);
        WriteQuorumSynchronizer {
            leader_id,
            snapshot,
            ballot,
            required,
            round: None,
            ready: false,
            superseded_by: None,
        }
    }

    /// Starts a fresh round against the write quorum.
    pub fn start(&mut self)
        ensures
            final(self)@ == (WriteQuorumView {
                round: Some(
                    fresh_round(
                        old(self)@.leader_id,
                        old(self)@.ballot,
                        old(self)@.snapshot.configuration.start_index,
                        old(self)@.required,
                    ),
                ),
                ready: false,
                superseded: None,
                ..old(self)@
            }),
    {
        self.superseded_by = None;
        self.ready = false;
        let round = ScoutRound::new(
            self.leader_id,
            self.ballot,
            self.snapshot.configuration().start_index(),
            &self.required,
        );
        self.round = Some(round);
    }

    /// Takes in a message (see `write_quorum_answer`).
    pub fn handle_message(&mut self, msg: &VerticalPaxosMessage)
        ensures
            final(self)@ == write_quorum_answer(old(self)@, *msg),
    {
        let mut round = match self.round.take() {
            Some(r) => r,
            None => {
                return ;
            },
        };
        round.handle_message(msg);
        self.superseded_by = round.superseded_by();
        self.ready = self.superseded_by.is_none() && round.is_complete();
        self.round = Some(round);
    }

    pub fn is_ready(&self) -> (b: bool)
        ensures
            b == self@.ready,
    {
        self.ready
    }

    pub fn superseded_by(&self) -> (b: Option<Ballot>)
        ensures
            b == self@.superseded,
    {
        self.superseded_by
    }

    /// The round under way, whose P1A is to be sent to its targets.
    pub fn active_round(&self) -> (r: Option<&ScoutRound>)
        ensures
            match r {
                Some(s) => self@.round == Some(s@),
                None => self@.round is None,
            },
    {
        match &self.round {
            Some(s) => Some(s),
            None => None,
        }
    }

    /// Stops the round under way.
    pub fn shutdown(&mut self)
        ensures
            final(self)@ == (WriteQuorumView { round: None, ..old(self)@ }),
    {
        self.round = None;
    }
}

} // verus!
