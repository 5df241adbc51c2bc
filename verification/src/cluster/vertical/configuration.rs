//! A Vertical Paxos configuration: the ballot a leader runs, its acceptors,
//! read and write quorums, replicas, and from which slot it starts.
use vstd::prelude::*;

use crate::ballot::{Ballot, NodeId};
use crate::cluster::vertical::quorum::{contains_node, Quorum};

verus! {

#[derive(Debug, Clone, Copy, PartialEq, Eq, Structural)]
pub enum VerticalPaxosVariant {
    /// Recovery reads every slot from zero.
    V1,
    /// Recovery reads from the configuration's start index.
    V2,
}

#[derive(Debug, Clone, Copy, PartialEq, Eq, Structural)]
pub enum ConfigurationError {
    /// A member of the read or the write quorum is not an acceptor.
    QuorumMemberNotAcceptor,
}

pub struct VerticalClusterConfiguration {
    id: NodeId,
    leader: NodeId,
    variant: VerticalPaxosVariant,
    ballot: Ballot,
    start_index: usize,
    acceptors: Vec<NodeId>,
    replicas: Vec<NodeId>,
    read_quorum: Quorum,
    write_quorum: Quorum,
    complete_bal: Option<Ballot>,
}

pub struct ConfigurationView {
    pub id: NodeId,
    pub leader: NodeId,
    pub variant: VerticalPaxosVariant,
    pub ballot: Ballot,
    pub start_index: usize,
    pub acceptors: Seq<NodeId>,
    pub replicas: Seq<NodeId>,
    pub read_quorum: Seq<NodeId>,
    pub write_quorum: Seq<NodeId>,
    pub complete_bal: Option<Ballot>,
}

impl View for VerticalClusterConfiguration {
    type V = ConfigurationView;

    closed spec fn view(&self) -> ConfigurationView {
        ConfigurationView {
            id: self.id,
            leader: self.leader,
            variant: self.variant,
            ballot: self.ballot,
            start_index: self.start_index,
            acceptors: self.acceptors@,
            replicas: self.replicas@,
            read_quorum: self.read_quorum@,
            write_quorum: self.write_quorum@,
            complete_bal: self.complete_bal,
        }
    }
}

/// Every member of `quorum` is an acceptor.
pub open spec fn quorum_of_acceptors(quorum: Seq<NodeId>, acceptors: Seq<NodeId>) -> bool {
    forall|i: int| 0 <= i < quorum.len() ==> acceptors.contains(#[trigger] quorum[i])
}

fn members_are_acceptors(quorum: &Quorum, acceptors: &Vec<NodeId>) -> (b: bool)
    ensures
        b == quorum_of_acceptors(quorum@, acceptors@),
{
    let members = quorum.members();
    let mut i: usize = 0;
    while i < members.len()
        invariant
            i <= members@.len(),
            members@ == quorum@,
            forall|j: int| 0 <= j < i ==> acceptors@.contains(#[trigger] members@[j]),
        decreases members@.len() - i,
    {
        if !contains_node(acceptors, members[i]) {
            return false;
        }
        i = i + 1;
    }
    true
}

impl VerticalClusterConfiguration {
    pub fn new(
        id: NodeId,
        leader: NodeId,
        variant: VerticalPaxosVariant,
        ballot: Ballot,
        start_index: usize,
        acceptors: Vec<NodeId>,
        replicas: Vec<NodeId>,
        read_quorum: Quorum,
        write_quorum: Quorum,
        complete_bal: Option<Ballot>,
    ) -> (r: Result<VerticalClusterConfiguration, ConfigurationError>)
        ensures
            r is Ok <==> quorum_of_acceptors(read_quorum@, acceptors@) && quorum_of_acceptors(
                write_quorum@,
                acceptors@,
            ),
            r matches Ok(c) ==> c@ == (ConfigurationView {
                id,
                leader,
                variant,
                ballot,
                start_index,
                acceptors: acceptors@,
                replicas: replicas@,
                read_quorum: read_quorum@,
                write_quorum: write_quorum@,
                complete_bal,
            }),
            r matches Err(e) ==> e == ConfigurationError::QuorumMemberNotAcceptor,
    {
        if !members_are_acceptors(&read_quorum, &acceptors) || !members_are_acceptors(
            &write_quorum,
            &acceptors,
        ) {
            return Err(ConfigurationError::QuorumMemberNotAcceptor);
        }
        Ok(
            VerticalClusterConfiguration {
                id,
                leader,
                variant,
                ballot,
                start_index,
                acceptors,
                replicas,
                read_quorum,
                write_quorum,
                complete_bal,
            },
        )
    }

    pub fn id(&self) -> (r: NodeId)
        ensures
            r == self@.id,
    {
        self.id
    }

    pub fn leader(&self) -> (r: NodeId)
        ensures
            r == self@.leader,
    {
        self.leader
    }

    pub fn variant(&self) -> (r: VerticalPaxosVariant)
        ensures
            r == self@.variant,
    {
        self.variant
    }

    pub fn ballot(&self) -> (r: Ballot)
        ensures
            r == self@.ballot,
    {
        self.ballot
    }

    pub fn start_index(&self) -> (r: usize)
        ensures
            r == self@.start_index,
    {
        self.start_index
    }

    pub fn acceptors(&self) -> (r: &Vec<NodeId>)
        ensures
            r@ == self@.acceptors,
    {
        &self.acceptors
    }

    pub fn replicas(&self) -> (r: &Vec<NodeId>)
        ensures
            r@ == self@.replicas,
    {
        &self.replicas
    }

    pub fn read_quorum(&self) -> (r: &Quorum)
        ensures
            r@ == self@.read_quorum,
    {
        &self.read_quorum
    }

    pub fn write_quorum(&self) -> (r: &Quorum)
        ensures
            r@ == self@.write_quorum,
    {
        &self.write_quorum
    }

    pub fn complete_bal(&self) -> (r: Option<Ballot>)
        ensures
            r == self@.complete_bal,
    {
        self.complete_bal
    }
}

impl Clone for VerticalClusterConfiguration {
    fn clone(&self) -> (r: Self)
        ensures
            r@ == self@,
    {
        let acceptors = self.acceptors.clone();
        let replicas = self.replicas.clone();
        assert(acceptors@ =~= self.acceptors@);
        assert(replicas@ =~= self.replicas@);
        VerticalClusterConfiguration {
            id: self.id,
            leader: self.leader,
            variant: self.variant,
            ballot: self.ballot,
            start_index: self.start_index,
            acceptors,
            replicas,
            read_quorum: self.read_quorum.clone(),
            write_quorum: self.write_quorum.clone(),
            complete_bal: self.complete_bal,
        }
    }
}

} // verus!
