//! The Vertical Paxos leader: it synchronizes on an activation snapshot, and
//! once ready drives proposals through its commander. Progress of the
//! synchronization is reported through `LeaderCallbacks`.
use vstd::prelude::*;

use crate::ballot::{Ballot, NodeId};
use crate::cluster::vertical::activation::ActivationSnapshot;
use crate::node::vertical_paxos::leader::commander::CommanderStep;
use crate::node::vertical_paxos::leader::commander::message_step;
use crate::node::vertical_paxos::leader::state::{
    after_ack,
    after_commander_message,
    after_p1b,
    after_proposal,
    proposal_step,
    LeaderState,
    LeaderStateView,
};
use crate::node::vertical_paxos::leader::sync::recovery::recovery_initial;
use crate::node::vertical_paxos::leader::sync::write_quorum::write_quorum_initial;
use crate::node::vertical_paxos::leader::sync::{
    sync_ready,
    sync_started,
    LeaderSyncView,
    LeaderSynchronizer,
};
use crate::node::vertical_paxos::message::VerticalPaxosMessage;
use crate::paxos_command::PaxosCommand;

pub mod commander;
pub mod state;
pub mod sync;

verus! {

/// What the node is told of a leader's synchronization.
pub trait LeaderCallbacks {
    fn on_sync_started(&self, snapshot: ActivationSnapshot);

    fn on_sync_ready(&self, snapshot: ActivationSnapshot);

    fn on_sync_superseded(&self, snapshot: ActivationSnapshot, superseded_by: Ballot);
}

pub enum LeaderProgress {
    /// Nothing to report.
    NoChange,
    Ready { snapshot: ActivationSnapshot },
    Superseded { snapshot: ActivationSnapshot, superseded_by: Ballot },
}

/// `p` reports the state of the synchronization `s`: superseded, ready, or
/// nothing.
pub open spec fn progress_reports(p: LeaderProgress, s: LeaderSyncView) -> bool {
    match s.superseded {
        Some(b) => p matches LeaderProgress::Superseded { snapshot, superseded_by } && snapshot@
            == s.snapshot && superseded_by == b,
        None => if sync_ready(s) {
            p matches LeaderProgress::Ready { snapshot } && snapshot@ == s.snapshot
        } else {
            p is NoChange
        },
    }
}

impl LeaderProgress {
    pub fn from_synchronizer(synchronizer: &LeaderSynchronizer) -> (p: LeaderProgress)
        ensures
            progress_reports(p, synchronizer@),
    {
        if let Some(superseded_by) = synchronizer.superseded_by() {
            return LeaderProgress::Superseded {
                snapshot: synchronizer.snapshot().clone(),
                superseded_by,
            };
        }
        if synchronizer.is_ready() {
            return LeaderProgress::Ready { snapshot: synchronizer.snapshot().clone() };
        }
        LeaderProgress::NoChange
    }
}

pub struct Leader<C: LeaderCallbacks> {
    uuid: NodeId,
    state: LeaderState,
    callbacks: C,
}

/// The leader's state after taking in `msg`.
pub open spec fn leader_answer(v: LeaderStateView, msg: VerticalPaxosMessage) -> LeaderStateView {
    match msg {
        VerticalPaxosMessage::P1B { .. } => after_p1b(v, msg),
        VerticalPaxosMessage::PROPOSE { slot, cmd, .. } => after_proposal(v, slot, cmd),
        VerticalPaxosMessage::ACK { from, slot, .. } => after_ack(v, from, slot),
        _ => after_commander_message(v, msg),
    }
}

/// What the leader asks to be sent after taking in `msg`.
pub open spec fn leader_step(v: LeaderStateView, msg: VerticalPaxosMessage, step: CommanderStep) -> bool {
    match msg {
        VerticalPaxosMessage::P1B { .. } => step is Ignore,
        VerticalPaxosMessage::PROPOSE { slot, cmd, .. } => proposal_step(v, slot, cmd, step),
        VerticalPaxosMessage::ACK { .. } => step is Ignore,
        _ => match v.commander {
            Some(c) => message_step(c, msg, step),
            None => step is Ignore,
        },
    }
}

impl<C: LeaderCallbacks> Leader<C> {
    pub closed spec fn uuid(&self) -> NodeId {
        self.uuid
    }

    pub closed spec fn state_view(&self) -> LeaderStateView {
        self.state@
    }

    pub closed spec fn wf(&self) -> bool {
        self.state.wf()
    }

    /// The callbacks the leader was built with.
    pub closed spec fn callbacks_value(&self) -> C {
        self.callbacks
    }

    pub fn new(uuid: NodeId, callbacks: C) -> (l: Leader<C>)
        ensures
            l.wf(),
            l.uuid() == uuid,
            l.callbacks_value() == callbacks,
            l.state_view() == (LeaderStateView { proposals: Map::empty(), sync: None, commander: None }),
    {
        Leader { uuid, state: LeaderState::new(), callbacks }
    }

    pub fn id(&self) -> (r: NodeId)
        ensures
            r == self.uuid(),
    {
        self.uuid
    }

    /// Installs a synchronization for `snapshot`, dropping any commander.
    pub fn install_activation(&mut self, snapshot: ActivationSnapshot)
        requires
            old(self).wf(),
        ensures
            final(self).callbacks_value() == old(self).callbacks_value(),
            final(self).wf(),
            final(self).uuid() == old(self).uuid(),
            final(self).state_view() == (LeaderStateView {
                sync: Some(
                    LeaderSyncView {
                        snapshot: snapshot@,
                        recovery: recovery_initial(old(self).uuid(), snapshot@),
                        write_quorum: write_quorum_initial(old(self).uuid(), snapshot@),
                        in_progress: false,
                        superseded: None,
                    },
                ),
                commander: None,
                ..old(self).state_view()
            }),
    {
        let synchronizer = LeaderSynchronizer::new(self.uuid, snapshot);
        self.state.install_activation(synchronizer);
    }

    /// Starts the installed synchronization and reports its start.
    pub fn start_synchronization(&mut self)
        requires
            old(self).wf(),
        ensures
            final(self).callbacks_value() == old(self).callbacks_value(),
            final(self).wf(),
            final(self).uuid() == old(self).uuid(),
            final(self).state_view() == match old(self).state_view().sync {
                Some(s) => LeaderStateView { sync: Some(sync_started(s)), ..old(self).state_view() },
                None => old(self).state_view(),
            },
    {
        if let Some(snapshot) = self.state.start_synchronization() {
            self.callbacks.on_sync_started(snapshot);
        }
    }

    pub fn propose_handler(&mut self, slot: usize, cmd: PaxosCommand) -> (step: CommanderStep)
        requires
            old(self).wf(),
        ensures
            final(self).callbacks_value() == old(self).callbacks_value(),
            final(self).wf(),
            final(self).uuid() == old(self).uuid(),
            final(self).state_view() == after_proposal(old(self).state_view(), slot, cmd),
            proposal_step(old(self).state_view(), slot, cmd, step),
    {
        self.state.record_proposal(slot, cmd)
    }

    fn handle_sync_progress(&self, progress: LeaderProgress) {
        match progress {
            LeaderProgress::NoChange => {},
            LeaderProgress::Ready { snapshot } => {
                self.callbacks.on_sync_ready(snapshot);
            },
            LeaderProgress::Superseded { snapshot, superseded_by } => {
                self.callbacks.on_sync_superseded(snapshot, superseded_by);
            },
        }
    }

    pub fn reset(&mut self)
        requires
            old(self).wf(),
        ensures
            final(self).callbacks_value() == old(self).callbacks_value(),
            final(self).wf(),
            final(self).uuid() == old(self).uuid(),
            final(self).state_view() == (LeaderStateView {
                sync: None,
                commander: None,
                ..old(self).state_view()
            }),
    {
        self.state.shutdown();
    }

    pub fn is_leader(&self) -> (b: bool)
        ensures
            b == (self.state_view().sync matches Some(s) && sync_ready(s)),
    {
        self.state.is_ready()
    }

    pub fn shutdown(&mut self)
        requires
            old(self).wf(),
        ensures
            final(self).callbacks_value() == old(self).callbacks_value(),
            final(self).wf(),
            final(self).uuid() == old(self).uuid(),
            final(self).state_view() == (LeaderStateView {
                sync: None,
                commander: None,
                ..old(self).state_view()
            }),
    {
        self.state.shutdown();
    }

    /// Takes in a message: P1Bs drive the synchronization (whose progress is
    /// reported through the callbacks), proposals go to `propose_handler`,
    /// replica acknowledgements and everything else to the commander.
    pub fn handle_message(&mut self, msg: VerticalPaxosMessage) -> (step: CommanderStep)
        requires
            old(self).wf(),
        ensures
            final(self).callbacks_value() == old(self).callbacks_value(),
            final(self).wf(),
            final(self).uuid() == old(self).uuid(),
            final(self).state_view() == leader_answer(old(self).state_view(), msg),
            leader_step(old(self).state_view(), msg, step),
    {
        match msg {
            VerticalPaxosMessage::P1B { .. } => {
                let progress = self.state.handle_p1b(&msg);
                self.handle_sync_progress(progress);
                CommanderStep::Ignore
            },
            VerticalPaxosMessage::PROPOSE { from: _, slot, cmd } => self.propose_handler(slot, cmd),
            VerticalPaxosMessage::ACK { from, slot, .. } => {
                self.state.handle_ack(from, slot);
                CommanderStep::Ignore
            },
            _ => self.state.handle_message(msg),
        }
    }

    pub fn state(&self) -> (s: &LeaderState)
        ensures
            s@ == self.state_view(),
    {
        &self.state
    }

    pub fn callbacks(&self) -> (c: &C)
        ensures
            *c == self.callbacks_value(),
    {
        &self.callbacks
    }
}

} // verus!
