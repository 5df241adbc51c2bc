//! What a priest notes of each decree: the last ballot it tried for it.
use vstd::prelude::*;

use crate::ballot::{Ballot, NodeId};

verus! {

pub struct DecreeNote {
    pub last_tried: Ballot,
}

impl DecreeNote {
    /// A note of a priest that has tried no ballot yet: ballot number zero
    /// under its own identity.
    pub fn new(id: usize) -> (n: DecreeNote)
        ensures
            n.last_tried == (Ballot { epoch: 0, number: 0, node_id: id as NodeId }),
    {
        DecreeNote { last_tried: Ballot::new(0, id as NodeId) }
    }

    /// The next ballot to try: numbered above both the last one tried and
    /// `highest_accepted`, under the same identity. It becomes the last tried.
    pub fn next_ballot(&mut self, highest_accepted: usize) -> (b: Ballot)
        requires
            old(self).last_tried.number < usize::MAX,
            highest_accepted < usize::MAX,
        ensures
            b == final(self).last_tried,
            b.epoch == old(self).last_tried.epoch,
            b.node_id == old(self).last_tried.node_id,
            b.number == (if old(self).last_tried.number < highest_accepted {
                highest_accepted
            } else {
                old(self).last_tried.number
            }) + 1,
    {
        let seen = Ballot::new(highest_accepted, self.last_tried.node_id);
        let next = self.last_tried.bump(seen);
        self.last_tried = next;
        next
    }
}

} // verus!
