//! The roles a Vertical Paxos node takes in its installed configuration, and
//! the lifecycles of its leader and replica as activation, readiness,
//! supersession and reconfiguration move them along.
use vstd::prelude::*;

use crate::ballot::{Ballot, NodeId};
use crate::cluster::vertical::activation::{ActivationSnapshot, ActivationView};
use crate::cluster::vertical::configuration::{ConfigurationView, VerticalClusterConfiguration};
use crate::cluster::vertical::quorum::contains_node;

verus! {

#[derive(Debug, Clone, Copy, PartialEq, Eq, Structural)]
pub struct InstalledRoles {
    designated_leader: bool,
    member_of_acceptor_set: bool,
    member_of_replica_set: bool,
}

/// The roles of `node_id` in a configuration.
pub open spec fn roles_in(node_id: NodeId, c: ConfigurationView) -> (bool, bool, bool) {
    (c.leader == node_id, c.acceptors.contains(node_id), c.replicas.contains(node_id))
}

impl InstalledRoles {
    pub closed spec fn flags(&self) -> (bool, bool, bool) {
        (self.designated_leader, self.member_of_acceptor_set, self.member_of_replica_set)
    }

    fn from_configuration(node_id: NodeId, configuration: &VerticalClusterConfiguration) -> (r:
        InstalledRoles)
        ensures
            r.flags() == roles_in(node_id, configuration@),
    {
        InstalledRoles {
            designated_leader: configuration.leader() == node_id,
            member_of_acceptor_set: contains_node(configuration.acceptors(), node_id),
            member_of_replica_set: contains_node(configuration.replicas(), node_id),
        }
    }

    pub fn designated_leader(&self) -> (r: bool)
        ensures
            r == self.flags().0,
    {
        self.designated_leader
    }

    pub fn member_of_acceptor_set(&self) -> (r: bool)
        ensures
            r == self.flags().1,
    {
        self.member_of_acceptor_set
    }

    pub fn member_of_replica_set(&self) -> (r: bool)
        ensures
            r == self.flags().2,
    {
        self.member_of_replica_set
    }
}

impl Default for InstalledRoles {
    fn default() -> (r: InstalledRoles)
        ensures
            r.flags() == (false, false, false),
    {
        InstalledRoles {
            designated_leader: false,
            member_of_acceptor_set: false,
            member_of_replica_set: false,
        }
    }
}

#[derive(Debug, Clone, Copy, PartialEq, Eq, Structural)]
pub struct AcceptorRuntimeState {
    online: bool,
}

impl AcceptorRuntimeState {
    pub closed spec fn is_online(&self) -> bool {
        self.online
    }

    pub fn online(&self) -> (r: bool)
        ensures
            r == self.is_online(),
    {
        self.online
    }
}

impl Default for AcceptorRuntimeState {
    fn default() -> (r: AcceptorRuntimeState)
        ensures
            !r.is_online(),
    {
        AcceptorRuntimeState { online: false }
    }
}

#[derive(Debug, Clone, Copy, PartialEq, Eq, Structural)]
pub struct ReplicaRuntimeState {
    online: bool,
}

impl ReplicaRuntimeState {
    pub closed spec fn is_online(&self) -> bool {
        self.online
    }

    pub fn online(&self) -> (r: bool)
        ensures
            r == self.is_online(),
    {
        self.online
    }
}

impl Default for ReplicaRuntimeState {
    fn default() -> (r: ReplicaRuntimeState)
        ensures
            !r.is_online(),
    {
        ReplicaRuntimeState { online: false }
    }
}

pub enum LeaderLifecycle {
    Inactive,
    Assigned { configuration_id: NodeId },
    Synchronizing { snapshot: ActivationSnapshot },
    Ready { snapshot: ActivationSnapshot },
    Superseded { configuration_id: NodeId, superseded_by: Ballot },
}

/// A leader lifecycle with its snapshot taken by value.
pub enum LeaderLifecycleView {
    Inactive,
    Assigned { configuration_id: NodeId },
    Synchronizing { snapshot: ActivationView },
    Ready { snapshot: ActivationView },
    Superseded { configuration_id: NodeId, superseded_by: Ballot },
}

impl View for LeaderLifecycle {
    type V = LeaderLifecycleView;

    open spec fn view(&self) -> LeaderLifecycleView {
        match self {
            LeaderLifecycle::Inactive => LeaderLifecycleView::Inactive,
            LeaderLifecycle::Assigned { configuration_id } => LeaderLifecycleView::Assigned {
                configuration_id: *configuration_id,
            },
            LeaderLifecycle::Synchronizing { snapshot } => LeaderLifecycleView::Synchronizing {
                snapshot: snapshot@,
            },
            LeaderLifecycle::Ready { snapshot } => LeaderLifecycleView::Ready { snapshot: snapshot@ },
            LeaderLifecycle::Superseded { configuration_id, superseded_by } =>
                LeaderLifecycleView::Superseded {
                configuration_id: *configuration_id,
                superseded_by: *superseded_by,
            },
        }
    }
}

#[derive(Debug, Clone, Copy, PartialEq, Eq, Structural)]
pub enum ReplicaLifecycle {
    Inactive,
    Assigned { configuration_id: NodeId },
    Syncing { configuration_id: NodeId },
    Active { configuration_id: NodeId },
    Redirecting { installed_configuration_id: NodeId, active_configuration_id: NodeId },
}

/// The sketch after installing `configuration`: the node's roles are read
/// off it, no configuration is active any more, and the leader and the
/// replica are assigned to it where the node is its leader or one of its
/// replicas.
pub open spec fn sketch_installed(before: VerticalPaxosNodeStateSketch, after: VerticalPaxosNodeStateSketch, configuration: ConfigurationView) -> bool {
    &&& after.node_id() == before.node_id()
    &&& after.installed() == Some(configuration)
    &&& after.active() is None
    &&& after.roles().flags() == roles_in(before.node_id(), configuration)
    &&& after.acceptor_state() == before.acceptor_state()
    &&& after.replica_state() == before.replica_state()
    &&& after.leader_state() == (if configuration.leader == before.node_id() {
        LeaderLifecycleView::Assigned { configuration_id: configuration.id }
    } else {
        LeaderLifecycleView::Inactive
    })
    &&& after.replica_lifecycle() == (if configuration.replicas.contains(before.node_id()) {
        ReplicaLifecycle::Assigned { configuration_id: configuration.id }
    } else {
        ReplicaLifecycle::Inactive
    })
}

/// The sketch after the leader started synchronizing on `snapshot`: a
/// replica of the installed configuration starts syncing with it.
pub open spec fn sketch_activation_started(before: VerticalPaxosNodeStateSketch, after: VerticalPaxosNodeStateSketch, snapshot: ActivationView) -> bool {
    &&& after.leader_state() == (LeaderLifecycleView::Synchronizing {
        snapshot: snapshot,
    })
    &&& after.replica_lifecycle() == (if before.roles().flags().2
        && before.installed() is Some {
        ReplicaLifecycle::Syncing { configuration_id: before.installed()->0.id }
    } else {
        before.replica_lifecycle()
    })
    &&& after.node_id() == before.node_id()
    &&& after.installed() == before.installed()
    &&& after.active() == before.active()
    &&& after.roles() == before.roles()
    &&& after.acceptor_state() == before.acceptor_state()
    &&& after.replica_state() == before.replica_state()
}

/// The sketch after `configuration`'s replica set became the active one.
pub open spec fn sketch_replica_set_activated(before: VerticalPaxosNodeStateSketch, after: VerticalPaxosNodeStateSketch, configuration: ConfigurationView) -> bool {
    &&& after.active() == Some(configuration)
    &&& after.replica_lifecycle() == (if configuration.replicas.contains(before.node_id()) {
        ReplicaLifecycle::Active { configuration_id: configuration.id }
    } else if before.installed() is Some {
        if before.installed()->0.replicas.contains(before.node_id()) {
            ReplicaLifecycle::Redirecting {
                installed_configuration_id: before.installed()->0.id,
                active_configuration_id: configuration.id,
            }
        } else {
            ReplicaLifecycle::Inactive
        }
    } else {
        before.replica_lifecycle()
    })
    &&& after.node_id() == before.node_id()
    &&& after.installed() == before.installed()
    &&& after.roles() == before.roles()
    &&& after.acceptor_state() == before.acceptor_state()
    &&& after.replica_state() == before.replica_state()
    &&& after.leader_state() == before.leader_state()
}

/// The sketch after the node handed over to `active_configuration`.
pub open spec fn sketch_decommissioned(before: VerticalPaxosNodeStateSketch, after: VerticalPaxosNodeStateSketch, active_configuration: ConfigurationView) -> bool {
    &&& after.active() == Some(active_configuration)
    &&& after.replica_lifecycle() == (if before.installed() is Some
        && before.installed()->0.replicas.contains(before.node_id()) {
        ReplicaLifecycle::Redirecting {
            installed_configuration_id: before.installed()->0.id,
            active_configuration_id: active_configuration.id,
        }
    } else {
        before.replica_lifecycle()
    })
    &&& after.node_id() == before.node_id()
    &&& after.installed() == before.installed()
    &&& after.roles() == before.roles()
    &&& after.acceptor_state() == before.acceptor_state()
    &&& after.replica_state() == before.replica_state()
    &&& after.leader_state() == before.leader_state()
}

/// The sketch after the leader was superseded by `superseded_by`.
pub open spec fn sketch_superseded(before: VerticalPaxosNodeStateSketch, after: VerticalPaxosNodeStateSketch, superseded_by: Ballot) -> bool {
    &&& after.leader_state() == (LeaderLifecycleView::Superseded {
        configuration_id: match before.installed() {
            Some(c) => c.id,
            None => 0,
        },
        superseded_by,
    })
    &&& after.node_id() == before.node_id()
    &&& after.installed() == before.installed()
    &&& after.active() == before.active()
    &&& after.roles() == before.roles()
    &&& after.acceptor_state() == before.acceptor_state()
    &&& after.replica_state() == before.replica_state()
    &&& after.replica_lifecycle() == before.replica_lifecycle()
}

/// The sketch with its acceptor online or not.
pub open spec fn sketch_acceptor_online(before: VerticalPaxosNodeStateSketch, after: VerticalPaxosNodeStateSketch, online: bool) -> bool {
    &&& after.acceptor_state().is_online() == online
    &&& after.node_id() == before.node_id()
    &&& after.installed() == before.installed()
    &&& after.active() == before.active()
    &&& after.roles() == before.roles()
    &&& after.replica_state() == before.replica_state()
    &&& after.leader_state() == before.leader_state()
    &&& after.replica_lifecycle() == before.replica_lifecycle()
}

/// The sketch with its replica online or not.
pub open spec fn sketch_replica_online(before: VerticalPaxosNodeStateSketch, after: VerticalPaxosNodeStateSketch, online: bool) -> bool {
    &&& after.replica_state().is_online() == online
    &&& after.node_id() == before.node_id()
    &&& after.installed() == before.installed()
    &&& after.active() == before.active()
    &&& after.roles() == before.roles()
    &&& after.acceptor_state() == before.acceptor_state()
    &&& after.leader_state() == before.leader_state()
    &&& after.replica_lifecycle() == before.replica_lifecycle()
}

pub struct VerticalPaxosNodeStateSketch {
    node_id: NodeId,
    installed_configuration: Option<VerticalClusterConfiguration>,
    active_configuration: Option<VerticalClusterConfiguration>,
    installed_roles: InstalledRoles,
    acceptor_runtime: AcceptorRuntimeState,
    replica_runtime: ReplicaRuntimeState,
    leader: LeaderLifecycle,
    replica: ReplicaLifecycle,
}

/// The view of an optional configuration.
pub open spec fn config_view(c: Option<VerticalClusterConfiguration>) -> Option<ConfigurationView> {
    match c {
        Some(c) => Some(c@),
        None => None,
    }
}

impl VerticalPaxosNodeStateSketch {
    pub closed spec fn node_id(&self) -> NodeId {
        self.node_id
    }

    pub closed spec fn installed(&self) -> Option<ConfigurationView> {
        config_view(self.installed_configuration)
    }

    pub closed spec fn active(&self) -> Option<ConfigurationView> {
        config_view(self.active_configuration)
    }

    pub closed spec fn roles(&self) -> InstalledRoles {
        self.installed_roles
    }

    pub closed spec fn acceptor_state(&self) -> AcceptorRuntimeState {
        self.acceptor_runtime
    }

    pub closed spec fn replica_state(&self) -> ReplicaRuntimeState {
        self.replica_runtime
    }

    pub closed spec fn leader_state(&self) -> LeaderLifecycleView {
        self.leader@
    }

    pub closed spec fn replica_lifecycle(&self) -> ReplicaLifecycle {
        self.replica
    }

    pub fn new(node_id: NodeId) -> (s: VerticalPaxosNodeStateSketch)
        ensures
            s.node_id() == node_id,
            s.installed() is None,
            s.active() is None,
            s.roles().flags() == (false, false, false),
            !s.acceptor_state().is_online(),
            !s.replica_state().is_online(),
            s.leader_state() == LeaderLifecycleView::Inactive,
            s.replica_lifecycle() == ReplicaLifecycle::Inactive,
    {
        VerticalPaxosNodeStateSketch {
            node_id,
            installed_configuration: None,
            active_configuration: None,
            installed_roles: InstalledRoles::default(),
            acceptor_runtime: AcceptorRuntimeState::default(),
            replica_runtime: ReplicaRuntimeState::default(),
            leader: LeaderLifecycle::Inactive,
            replica: ReplicaLifecycle::Inactive,
        }
    }

    /// Installs `configuration`: the node's roles are read off it, no
    /// configuration is active any more, and the leader and the replica are
    /// assigned to it where the node is its leader or one of its replicas.
    pub fn install_configuration(&mut self, configuration: VerticalClusterConfiguration)
        ensures
            sketch_installed(*old(self), *final(self), configuration@),
    {
        let roles = InstalledRoles::from_configuration(self.node_id, &configuration);
        let configuration_id = configuration.id();
        self.installed_configuration = Some(configuration);
        self.active_configuration = None;
        self.installed_roles = roles;
        self.leader = if roles.designated_leader() {
            LeaderLifecycle::Assigned { configuration_id }
        } else {
            LeaderLifecycle::Inactive
        };
        self.replica = if roles.member_of_replica_set() {
            ReplicaLifecycle::Assigned { configuration_id }
        } else {
            ReplicaLifecycle::Inactive
        };
    }

    pub fn set_acceptor_online(&mut self, online: bool)
        ensures
            sketch_acceptor_online(*old(self), *final(self), online),
    {
        self.acceptor_runtime.online = online;
    }

    pub fn set_replica_online(&mut self, online: bool)
        ensures
            sketch_replica_online(*old(self), *final(self), online),
    {
        self.replica_runtime.online = online;
    }

    /// The leader starts synchronizing on `snapshot`; a replica of the
    /// installed configuration starts syncing with it.
    pub fn start_activation(&mut self, snapshot: ActivationSnapshot)
        ensures
            sketch_activation_started(*old(self), *final(self), snapshot@),
    {
        self.leader = LeaderLifecycle::Synchronizing { snapshot };
        if self.installed_roles.member_of_replica_set() {
            if let Some(configuration) = &self.installed_configuration {
                self.replica = ReplicaLifecycle::Syncing { configuration_id: configuration.id() };
            }
        }
    }

    pub fn mark_leader_ready(&mut self, snapshot: ActivationSnapshot)
        ensures
            final(self).leader_state() == (LeaderLifecycleView::Ready { snapshot: snapshot@ }),
            final(self).node_id() == old(self).node_id(),
            final(self).installed() == old(self).installed(),
            final(self).active() == old(self).active(),
            final(self).roles() == old(self).roles(),
            final(self).acceptor_state() == old(self).acceptor_state(),
            final(self).replica_state() == old(self).replica_state(),
            final(self).replica_lifecycle() == old(self).replica_lifecycle(),
    {
        self.leader = LeaderLifecycle::Ready { snapshot };
    }

    /// `configuration`'s replica set becomes the active one: the replica is
    /// active if the node belongs to it, redirects to it if the node is a
    /// replica only of the installed configuration, and is inactive otherwise
    /// (unchanged when nothing is installed).
    pub fn activate_replica_set(&mut self, configuration: VerticalClusterConfiguration)
        ensures
            sketch_replica_set_activated(*old(self), *final(self), configuration@),
    {
        let configuration_id = configuration.id();
        let member = contains_node(configuration.replicas(), self.node_id);
        self.active_configuration = Some(configuration);
        if member {
            self.replica = ReplicaLifecycle::Active { configuration_id };
        } else if let Some(installed) = &self.installed_configuration {
            if contains_node(installed.replicas(), self.node_id) {
                self.replica = ReplicaLifecycle::Redirecting {
                    installed_configuration_id: installed.id(),
                    active_configuration_id: configuration_id,
                };
            } else {
                self.replica = ReplicaLifecycle::Inactive;
            }
        }
    }

    /// The node hands over to `active_configuration`: a replica of the
    /// installed configuration redirects to it.
    pub fn decommission_to(&mut self, active_configuration: VerticalClusterConfiguration)
        ensures
            sketch_decommissioned(*old(self), *final(self), active_configuration@),
    {
        let active_id = active_configuration.id();
        self.active_configuration = Some(active_configuration);
        if let Some(installed) = &self.installed_configuration {
            if contains_node(installed.replicas(), self.node_id) {
                self.replica = ReplicaLifecycle::Redirecting {
                    installed_configuration_id: installed.id(),
                    active_configuration_id: active_id,
                };
            }
        }
    }

    /// The leader is superseded by `superseded_by`; it records the installed
    /// configuration's id, or the nil id when none is installed.
    pub fn supersede(&mut self, superseded_by: Ballot)
        ensures
            sketch_superseded(*old(self), *final(self), superseded_by),
    {
        let configuration_id = match &self.installed_configuration {
            Some(configuration) => configuration.id(),
            None => 0,
        };
        self.leader = LeaderLifecycle::Superseded { configuration_id, superseded_by };
    }

    pub fn installed_roles(&self) -> (r: &InstalledRoles)
        ensures
            *r == self.roles(),
    {
        &self.installed_roles
    }

    pub fn acceptor_runtime(&self) -> (r: &AcceptorRuntimeState)
        ensures
            *r == self.acceptor_state(),
    {
        &self.acceptor_runtime
    }

    pub fn replica_runtime(&self) -> (r: &ReplicaRuntimeState)
        ensures
            *r == self.replica_state(),
    {
        &self.replica_runtime
    }

    pub fn leader(&self) -> (r: &LeaderLifecycle)
        ensures
            r@ == self.leader_state(),
    {
        &self.leader
    }

    pub fn replica(&self) -> (r: &ReplicaLifecycle)
        ensures
            *r == self.replica_lifecycle(),
    {
        &self.replica
    }

    pub fn active_configuration(&self) -> (r: Option<VerticalClusterConfiguration>)
        ensures
            config_view(r) == self.active(),
    {
        match &self.active_configuration {
            Some(c) => Some(c.clone()),
            None => None,
        }
    }
}

} // verus!
