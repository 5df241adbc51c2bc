//! A quorum of a Vertical Paxos configuration: a non-empty list of distinct
//! acceptors, every one of which must answer.
use vstd::prelude::*;

use crate::ballot::NodeId;

verus! {

#[derive(Debug, Clone, Copy, PartialEq, Eq, Structural)]
pub enum QuorumError {
    Empty,
    DuplicateMember,
}

pub struct Quorum {
    members: Vec<NodeId>,
}

impl View for Quorum {
    type V = Seq<NodeId>;

    closed spec fn view(&self) -> Seq<NodeId> {
        self.members@
    }
}

/// Whether `v` holds `x` at an index below `n`.
pub fn contains_node(v: &Vec<NodeId>, x: NodeId) -> (b: bool)
    ensures
        b == v@.contains(x),
{
    let mut i: usize = 0;
    while i < v.len()
        invariant
            i <= v@.len(),
            forall|j: int| 0 <= j < i ==> v@[j] != x,
        decreases v@.len() - i,
    {
        if v[i] == x {
            return true;
        }
        i = i + 1;
    }
    false
}

/// Whether the entries of `v` are pairwise distinct.
pub fn all_distinct(v: &Vec<NodeId>) -> (b: bool)
    ensures
        b == v@.no_duplicates(),
{
    let mut i: usize = 0;
    while i < v.len()
        invariant
            i <= v@.len(),
            forall|a: int, b: int| 0 <= a < b < v@.len() && a < i ==> v@[a] != v@[b],
        decreases v@.len() - i,
    {
        let mut j: usize = i + 1;
        while j < v.len()
            invariant
                i < v@.len(),
                i + 1 <= j <= v@.len(),
                forall|a: int, b: int| 0 <= a < b < v@.len() && a < i ==> v@[a] != v@[b],
                forall|b: int| i < b < j ==> v@[i as int] != v@[b],
            decreases v@.len() - j,
        {
            if v[i] == v[j] {
                return false;
            }
            j = j + 1;
        }
        i = i + 1;
    }
    true
}

impl Quorum {
    #[verifier::type_invariant]
    spec fn well_formed(&self) -> bool {
        self.members@.len() > 0 && self.members@.no_duplicates()
    }

    pub fn new(members: Vec<NodeId>) -> (r: Result<Quorum, QuorumError>)
        ensures
            match r {
                Ok(q) => q@ == members@ && members@.len() > 0 && members@.no_duplicates(),
                Err(QuorumError::Empty) => members@.len() == 0,
                Err(QuorumError::DuplicateMember) => members@.len() > 0
                    && !members@.no_duplicates(),
            },
    {
        if members.len() == 0 {
            return Err(QuorumError::Empty);
        }
        if !all_distinct(&members) {
            return Err(QuorumError::DuplicateMember);
        }
        Ok(Quorum { members })
    }

    pub fn members(&self) -> (m: &Vec<NodeId>)
        ensures
            m@ == self@,
            m@.len() > 0,
            m@.no_duplicates(),
    {
        proof {
            use_type_invariant(self);
        }
        &self.members
    }

    pub fn contains(&self, id: NodeId) -> (b: bool)
        ensures
            b == self@.contains(id),
    {
        contains_node(&self.members, id)
    }
}

impl Clone for Quorum {
    fn clone(&self) -> (r: Self)
        ensures
            r@ == self@,
    {
        proof {
            use_type_invariant(self);
        }
        let members = self.members.clone();
        assert(members@ =~= self.members@);
        Quorum { members }
    }
}

} // verus!
