//! Ballots order every phase of the protocol: `(epoch, number, node_id)`,
//! compared lexicographically.
use vstd::prelude::*;

verus! {

/// Identity of a node or client, the 128-bit value of its UUID.
pub type NodeId = u128;

#[derive(Debug, Clone, Copy, PartialEq, Eq, Structural, PartialOrd, Ord, Hash)]
pub struct Ballot {
    pub epoch: usize,
    pub number: usize,
    pub node_id: NodeId,
}

impl Ballot {
    /// Strict lexicographic order on `(epoch, number, node_id)`.
    pub open spec fn less(self, other: Ballot) -> bool {
        ||| self.epoch < other.epoch
        ||| (self.epoch == other.epoch && self.number < other.number)
        ||| (self.epoch == other.epoch && self.number == other.number && self.node_id
            < other.node_id)
    }

    pub open spec fn at_most(self, other: Ballot) -> bool {
        self.less(other) || self == other
    }

    /// The larger of two ballots.
    pub open spec fn max_of(a: Ballot, b: Ballot) -> Ballot {
        if a.less(b) { b } else { a }
    }

    pub open spec fn zero() -> Ballot {
        Ballot { epoch: 0, number: 0, node_id: 0 }
    }

    /// A ballot of epoch 0.
    pub fn new(number: usize, node_id: NodeId) -> (b: Ballot)
        ensures
            b == (Ballot { epoch: 0, number, node_id }),
    {
        Ballot { epoch: 0, number, node_id }
    }

    pub fn with_epoch(number: usize, node_id: NodeId, epoch: usize) -> (b: Ballot)
        ensures
            b == (Ballot { epoch, number, node_id }),
    {
        Ballot { epoch, number, node_id }
    }

    /// `self < other`.
    pub fn precedes(&self, other: &Ballot) -> (r: bool)
        ensures
            r == self.less(*other),
    {
        self.epoch < other.epoch || (self.epoch == other.epoch && (self.number < other.number || (
        self.number == other.number && self.node_id < other.node_id)))
    }

    /// `self == other`.
    pub fn same(&self, other: &Ballot) -> (r: bool)
        ensures
            r == (*self == *other),
    {
        self.epoch == other.epoch && self.number == other.number && self.node_id == other.node_id
    }

    /// The larger of `self` and `other`.
    pub fn max(self, other: Ballot) -> (r: Ballot)
        ensures
            r == Ballot::max_of(self, other),
    {
        if self.precedes(&other) {
            other
        } else {
            self
        }
    }

    /// The next ballot this node tries: same epoch and node, with a number
    /// above both its own and the highest number it has seen.
    pub fn bump(self, seen: Ballot) -> (r: Ballot)
        requires
            self.number < usize::MAX,
            seen.number < usize::MAX,
        ensures
            r.epoch == self.epoch,
            r.node_id == self.node_id,
            r.number == (if self.number < seen.number { seen.number } else { self.number }) + 1,
            self.less(r),
            seen.epoch <= self.epoch ==> seen.less(r),
    {
        let top = if self.number < seen.number {
            seen.number
        } else {
            self.number
        };
        Ballot { epoch: self.epoch, number: top + 1, node_id: self.node_id }
    }
}

impl Default for Ballot {
    fn default() -> (b: Ballot)
        ensures
            b == Ballot::zero(),
    {
        Ballot { epoch: 0, number: 0, node_id: 0 }
    }
}

/// `less` is a strict total order.
pub proof fn lemma_ballot_order(a: Ballot, b: Ballot, c: Ballot)
    ensures
        !a.less(a),
        a.less(b) ==> !b.less(a),
        a.less(b) && b.less(c) ==> a.less(c),
        a.less(b) || a == b || b.less(a),
{
}

} // verus!
