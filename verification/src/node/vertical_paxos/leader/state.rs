//! The leader's state: proposals recorded while it synchronizes, the
//! synchronizer of its activation, and the commander that takes over the
//! proposals once the synchronization is ready.
use vstd::prelude::*;

use crate::ballot::NodeId;
use crate::cluster::vertical::activation::ActivationSnapshot;
use crate::node::vertical_paxos::leader::commander::{
    after_message,
    after_replica_ack,
    message_step,
    commander_initial,
    Commander,
    CommanderStep,
    CommanderView,
};
use crate::node::vertical_paxos::leader::sync::{
    sync_answer,
    sync_ready,
    sync_stopped,
    sync_started,
    LeaderSyncView,
    LeaderSynchronizer,
};
use crate::node::vertical_paxos::leader::{progress_reports, LeaderProgress};
use crate::node::vertical_paxos::message::VerticalPaxosMessage;
use crate::node::pmmc::leader::commander::state::PendingView;
use crate::node::pvalue::PValue;
use crate::paxos_command::PaxosCommand;
use crate::slot_map::SlotMap;

verus! {

pub struct LeaderState {
    proposals: SlotMap<PaxosCommand>,
    synchronizer: Option<LeaderSynchronizer>,
    commander: Option<Commander>,
}

pub struct LeaderStateView {
    pub proposals: Map<usize, PaxosCommand>,
    pub sync: Option<LeaderSyncView>,
    pub commander: Option<CommanderView>,
}

pub open spec fn sync_view(s: Option<LeaderSynchronizer>) -> Option<LeaderSyncView> {
    match s {
        Some(s) => Some(s@),
        None => None,
    }
}

pub open spec fn commander_view(c: Option<Commander>) -> Option<CommanderView> {
    match c {
        Some(c) => Some(c@),
        None => None,
    }
}

impl View for LeaderState {
    type V = LeaderStateView;

    closed spec fn view(&self) -> LeaderStateView {
        LeaderStateView {
            proposals: self.proposals@,
            sync: sync_view(self.synchronizer),
            commander: commander_view(self.commander),
        }
    }
}

/// The commander a ready synchronization hands the recorded proposals to.
pub open spec fn commander_for(s: LeaderSyncView, proposals: Map<usize, PaxosCommand>) -> CommanderView {
    let c = s.snapshot.configuration;
    commander_initial(
        c.leader,
        c.ballot,
        c.write_quorum.to_set(),
        c.replicas.to_set(),
        proposals,
    )
}

/// The state after a proposal of `cmd` at `slot`: the commander takes it when
/// there is one (unless the slot is pending there); before, it is recorded
/// unless its slot already holds one.
pub open spec fn after_proposal(v: LeaderStateView, slot: usize, cmd: PaxosCommand) -> LeaderStateView {
    match v.commander {
        Some(c) => if c.pending.contains_key(slot) {
            v
        } else {
            LeaderStateView {
                commander: Some(
                    CommanderView {
                        pending: c.pending.insert(
                            slot,
                            PendingView {
                                cmd,
                                acceptor_acks: Set::empty(),
                                decided: false,
                                replica_acks: Set::empty(),
                            },
                        ),
                        ..c
                    },
                ),
                ..v
            }
        },
        None => if v.proposals.contains_key(slot) {
            v
        } else {
            LeaderStateView { proposals: v.proposals.insert(slot, cmd), ..v }
        },
    }
}

/// What is sent after a proposal: its P2A to the write quorum when the
/// commander newly takes it, nothing otherwise.
pub open spec fn proposal_step(v: LeaderStateView, slot: usize, cmd: PaxosCommand, step: CommanderStep) -> bool {
    match v.commander {
        Some(c) => if c.pending.contains_key(slot) {
            step is Ignore
        } else {
            step matches CommanderStep::ToWriteQuorum { msg, targets } && msg
                == VerticalPaxosMessage::P2A { from: c.id, pvalue: PValue::of(slot, c.ballot, cmd) }
                && targets@.to_set() == c.write_quorum
        },
        None => step is Ignore,
    }
}

/// The state after a P1B: while synchronizing, the synchronizer takes it in,
/// and once it is ready a commander is created (if there is none) from the
/// recorded proposals.
pub open spec fn after_p1b(v: LeaderStateView, msg: VerticalPaxosMessage) -> LeaderStateView {
    match v.sync {
        Some(s) => if s.in_progress {
            let s2 = sync_answer(s, msg);
            LeaderStateView {
                sync: Some(s2),
                commander: if v.commander is None && sync_ready(s2) {
                    Some(commander_for(s2, v.proposals))
                } else {
                    v.commander
                },
                ..v
            }
        } else {
            v
        },
        None => v,
    }
}

/// The state after the commander, if any, takes in `msg`.
pub open spec fn after_commander_message(v: LeaderStateView, msg: VerticalPaxosMessage) -> LeaderStateView {
    match v.commander {
        Some(c) => LeaderStateView { commander: Some(after_message(c, msg)), ..v },
        None => v,
    }
}

/// The state after a replica's acknowledgement reaches the commander, if any.
pub open spec fn after_ack(v: LeaderStateView, from: NodeId, slot: usize) -> LeaderStateView {
    match v.commander {
        Some(c) => LeaderStateView { commander: Some(after_replica_ack(c, from, slot)), ..v },
        None => v,
    }
}

impl LeaderState {
    pub closed spec fn wf(&self) -> bool {
        self.synchronizer matches Some(s) ==> s.wf()
    }

    pub fn new() -> (s: LeaderState)
        ensures
            s.wf(),
            s@ == (LeaderStateView { proposals: Map::empty(), sync: None, commander: None }),
    {
        LeaderState { proposals: SlotMap::new(), synchronizer: None, commander: None }
    }

    /// Takes `synchronizer` for the new activation; any commander is dropped.
    pub fn install_activation(&mut self, synchronizer: LeaderSynchronizer)
        requires
            synchronizer.wf(),
        ensures
            final(self).wf(),
            final(self)@ == (LeaderStateView {
                sync: Some(synchronizer@),
                commander: None,
                ..old(self)@
            }),
    {
        self.synchronizer = Some(synchronizer);
        self.commander = None;
    }

    /// Starts the installed synchronization and hands back its snapshot.
    pub fn start_synchronization(&mut self) -> (r: Option<ActivationSnapshot>)
        requires
            old(self).wf(),
        ensures
            final(self).wf(),
            match old(self)@.sync {
                None => r is None && final(self)@ == old(self)@,
                Some(s) => r matches Some(snapshot) && snapshot@ == s.snapshot && final(self)@
                    == (LeaderStateView { sync: Some(sync_started(s)), ..old(self)@ }),
            },
    {
        match self.synchronizer.take() {
            None => None,
            Some(mut synchronizer) => {
                synchronizer.start();
                let snapshot = synchronizer.snapshot().clone();
                self.synchronizer = Some(synchronizer);
                Some(snapshot)
            },
        }
    }

    /// A proposal goes to the commander when there is one; before, it is
    /// recorded unless its slot already holds one.
    pub fn record_proposal(&mut self, slot: usize, cmd: PaxosCommand) -> (step: CommanderStep)
        requires
            old(self).wf(),
        ensures
            final(self).wf(),
            final(self)@ == after_proposal(old(self)@, slot, cmd),
            proposal_step(old(self)@, slot, cmd, step),
    {
        match self.commander.take() {
            Some(mut commander) => {
                let step = commander.add_pending(slot, cmd);
                self.commander = Some(commander);
                step
            },
            None => {
                if !self.proposals.contains_key(slot) {
                    self.proposals.insert(slot, cmd);
                }
                CommanderStep::Ignore
            },
        }
    }

    pub fn is_ready(&self) -> (b: bool)
        ensures
            b == (self@.sync matches Some(s) && sync_ready(s)),
    {
        match &self.synchronizer {
            Some(s) => s.is_ready(),
            None => false,
        }
    }

    /// Takes in a P1B while synchronizing: the synchronizer takes it in, its
    /// progress is reported, and once it is ready a commander is created (if
    /// there is none) from the recorded proposals.
    pub fn handle_p1b(&mut self, msg: &VerticalPaxosMessage) -> (r: LeaderProgress)
        requires
            old(self).wf(),
        ensures
            final(self).wf(),
            final(self)@ == after_p1b(old(self)@, *msg),
            match old(self)@.sync {
                Some(s) => if s.in_progress {
                    progress_reports(r, sync_answer(s, *msg))
                } else {
                    r is NoChange
                },
                None => r is NoChange,
            },
    {
        let mut synchronizer = match self.synchronizer.take() {
            Some(s) => s,
            None => {
                return LeaderProgress::NoChange;
            },
        };
        if !synchronizer.is_in_progress() {
            self.synchronizer = Some(synchronizer);
            return LeaderProgress::NoChange;
        }
        synchronizer.handle_message(msg);
        let progress = LeaderProgress::from_synchronizer(&synchronizer);
        if self.commander.is_none() && synchronizer.is_ready() {
            let configuration = synchronizer.snapshot().configuration();
            let commander = Commander::new(
                configuration.leader(),
                configuration.ballot(),
                configuration.write_quorum().members(),
                configuration.replicas(),
                &self.proposals,
            );
            self.commander = Some(commander);
        }
        self.synchronizer = Some(synchronizer);
        progress
    }

    /// Hands a message to the commander, when there is one.
    pub fn handle_message(&mut self, msg: VerticalPaxosMessage) -> (step: CommanderStep)
        requires
            old(self).wf(),
        ensures
            final(self).wf(),
            final(self)@ == after_commander_message(old(self)@, msg),
            match old(self)@.commander {
                Some(c) => message_step(c, msg, step),
                None => step is Ignore,
            },
    {
        match self.commander.take() {
            Some(mut commander) => {
                let step = commander.handle_message(msg);
                self.commander = Some(commander);
                step
            },
            None => CommanderStep::Ignore,
        }
    }

    /// Hands a replica's acknowledgement to the commander, when there is one.
    pub fn handle_ack(&mut self, from: NodeId, slot: usize)
        requires
            old(self).wf(),
        ensures
            final(self).wf(),
            final(self)@ == after_ack(old(self)@, from, slot),
    {
        if let Some(mut commander) = self.commander.take() {
            commander.record_replica_ack(from, slot);
            self.commander = Some(commander);
        }
    }

    /// Drops the synchronization and the commander.
    pub fn shutdown(&mut self)
        requires
            old(self).wf(),
        ensures
            final(self).wf(),
            final(self)@ == (LeaderStateView { sync: None, commander: None, ..old(self)@ }),
    {
        self.synchronizer = None;
        self.commander = None;
    }

    /// The commander, when the leader is ready.
    pub fn commander(&self) -> (c: Option<&Commander>)
        ensures
            match c {
                Some(c) => self@.commander == Some(c@),
                None => self@.commander is None,
            },
    {
        match &self.commander {
            Some(c) => Some(c),
            None => None,
        }
    }

    /// The synchronizer, when an activation is installed.
    pub fn synchronizer(&self) -> (s: Option<&LeaderSynchronizer>)
        ensures
            match s {
                Some(s) => self@.sync == Some(s@),
                None => self@.sync is None,
            },
    {
        match &self.synchronizer {
            Some(s) => Some(s),
            None => None,
        }
    }
}

} // verus!
