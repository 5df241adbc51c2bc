//! Finite sets of node identities, kept as vectors without repetitions; the
//! abstract value is a `Set<NodeId>`.
use vstd::prelude::*;

use crate::ballot::NodeId;

verus! {

pub struct NodeSet {
    members: Vec<NodeId>,
}

impl NodeSet {
    #[verifier::type_invariant]
    spec fn no_repeats(&self) -> bool {
        self.members@.no_duplicates()
    }

    /// The members in the order they joined.
    pub closed spec fn order(&self) -> Seq<NodeId> {
        self.members@
    }

    pub fn new() -> (s: NodeSet)
        ensures
            s@ == Set::<NodeId>::empty(),
            s.order() == Seq::<NodeId>::empty(),
    {
        let s = NodeSet { members: Vec::new() };
        assert(s.members@.to_set() =~= Set::<NodeId>::empty());
        s
    }

    /// The set of the distinct entries of `v`.
    pub fn from_vec(v: &Vec<NodeId>) -> (s: NodeSet)
        ensures
            s@ == v@.to_set(),
    {
        let mut s = NodeSet::new();
        let mut i: usize = 0;
        while i < v.len()
            invariant
                i <= v@.len(),
                s@ == v@.take(i as int).to_set(),
            decreases v@.len() - i,
        {
            s.insert(v[i]);
            proof {
                broadcast use vstd::seq_lib::group_seq_properties;

                assert(v@.take(i + 1) =~= v@.take(i as int).push(v@[i as int]));
            }
            i = i + 1;
        }
        assert(v@.take(i as int) =~= v@);
        s
    }

    pub fn len(&self) -> (n: usize)
        ensures
            n == self@.len(),
            self@.finite(),
    {
        proof {
            use_type_invariant(self);
            self.members@.unique_seq_to_set();
        }
        self.members.len()
    }

    pub fn contains(&self, id: NodeId) -> (b: bool)
        ensures
            b == self@.contains(id),
    {
        let mut i: usize = 0;
        while i < self.members.len()
            invariant
                i <= self.members@.len(),
                forall|j: int| 0 <= j < i ==> self.members@[j] != id,
            decreases self.members@.len() - i,
        {
            if self.members[i] == id {
                assert(self.members@.to_set().contains(id));
                return true;
            }
            i = i + 1;
        }
        false
    }

    /// Adds `id`; the result tells whether it was new.
    pub fn insert(&mut self, id: NodeId) -> (added: bool)
        ensures
            final(self)@ == old(self)@.insert(id),
            added == !old(self)@.contains(id),
    {
        proof {
            use_type_invariant(&*self);
        }
        if self.contains(id) {
            proof {
                assert(self@.insert(id) =~= self@);
            }
            return false;
        }
        let mut members = Vec::new();
        std::mem::swap(&mut members, &mut self.members);
        let ghost before = members@;
        members.push(id);
        proof {
            assert(members@.no_duplicates()) by {
                assert forall|a: int, b: int| 0 <= a < b < members@.len() implies members@[a]
                    != members@[b] by {
                    if b == before.len() {
                        assert(before.to_set().contains(before[a]));
                    }
                }
            }
            assert(members@.to_set() =~= before.to_set().insert(id)) by {
                broadcast use vstd::seq_lib::group_seq_properties;

            }
        }
        self.members = members;
        true
    }

    /// Whether every entry of `v` is a member.
    pub fn contains_all(&self, v: &Vec<NodeId>) -> (b: bool)
        ensures
            b == v@.to_set().subset_of(self@),
    {
        let mut i: usize = 0;
        while i < v.len()
            invariant
                i <= v@.len(),
                forall|j: int| 0 <= j < i ==> self@.contains(#[trigger] v@[j]),
            decreases v@.len() - i,
        {
            if !self.contains(v[i]) {
                assert(v@.to_set().contains(v@[i as int]));
                return false;
            }
            i = i + 1;
        }
        true
    }

    /// The members that are not in `other`, in the order they joined.
    pub fn missing_from(&self, other: &NodeSet) -> (v: Vec<NodeId>)
        ensures
            v@.to_set() == self@.difference(other@),
            v@.no_duplicates(),
            v@.len() == 0 <==> self@.difference(other@) == Set::<NodeId>::empty(),
    {
        proof {
            use_type_invariant(self);
        }
        let mut out: Vec<NodeId> = Vec::new();
        let mut i: usize = 0;
        while i < self.members.len()
            invariant
                i <= self.members@.len(),
                self.members@.no_duplicates(),
                out@.no_duplicates(),
                out@.to_set() == self.members@.take(i as int).to_set().difference(other@),
                forall|j: int| 0 <= j < out@.len() ==> self.members@.take(i as int).contains(#[trigger] out@[j]),
            decreases self.members@.len() - i,
        {
            let id = self.members[i];
            proof {
                broadcast use vstd::seq_lib::group_seq_properties;

                assert(self.members@.take(i + 1) =~= self.members@.take(i as int).push(id));
            }
            if !other.contains(id) {
                proof {
                    assert(!out@.contains(id)) by {
                        if out@.contains(id) {
                            let j = choose|j: int| 0 <= j < out@.len() && out@[j] == id;
                            let k = choose|k: int| 0 <= k < i && self.members@.take(i as int)[k] == id;
                            assert(self.members@[k] == self.members@[i as int]);
                        }
                    }
                }
                let ghost prev = out@;
                out.push(id);
                proof {
                    broadcast use vstd::seq_lib::group_seq_properties;

                    assert(out@ == prev.push(id));
                    assert(out@.to_set() =~= prev.to_set().insert(id));
                    assert(self.members@.take(i + 1).to_set() =~= self.members@.take(i as int).to_set().insert(id));

                    assert forall|a: int, b: int| 0 <= a < b < out@.len() implies out@[a] != out@[b] by {
                        if b == out@.len() - 1 {
                            assert(out@.drop_last().contains(out@[a]));
                        }
                    }
                    assert(out@.to_set() =~= self.members@.take(i + 1).to_set().difference(other@));
                    assert forall|j: int| 0 <= j < out@.len() implies self.members@.take(i + 1).contains(#[trigger] out@[j]) by {
                        if j < out@.len() - 1 {
                            assert(self.members@.take(i as int).contains(out@[j]));
                        } else {
                            assert(self.members@.take(i + 1)[i as int] == id);
                        }
                    }
                }
            } else {
                proof {
                    broadcast use vstd::seq_lib::group_seq_properties;

                    assert(out@.to_set() =~= self.members@.take(i + 1).to_set().difference(other@));
                    assert forall|j: int| 0 <= j < out@.len() implies self.members@.take(i + 1).contains(#[trigger] out@[j]) by {
                        let k = choose|k: int| 0 <= k < i && self.members@.take(i as int)[k] == out@[j];
                        assert(self.members@.take(i + 1)[k] == out@[j]);
                    }
                }
            }
            i = i + 1;
        }
        proof {
            assert(self.members@.take(i as int) =~= self.members@);
            if out@.len() > 0 {
                assert(out@.to_set().contains(out@[0]));
            } else {
                assert(out@.to_set() =~= Set::<NodeId>::empty());
            }
        }
        out
    }

    /// A copy of the set.
    pub fn duplicate(&self) -> (r: NodeSet)
        ensures
            r@ == self@,
            r.order() == self.order(),
    {
        proof {
            use_type_invariant(self);
        }
        let members = self.members.clone();
        assert(members@ =~= self.members@);
        NodeSet { members }
    }

    /// The members, in the order they joined.
    pub fn to_vec(&self) -> (v: Vec<NodeId>)
        ensures
            v@ == self.order(),
            v@.to_set() == self@,
            v@.no_duplicates(),
    {
        proof {
            use_type_invariant(self);
        }
        let v = self.members.clone();
        assert(v@ =~= self.members@);
        v
    }
}

impl View for NodeSet {
    type V = Set<NodeId>;

    closed spec fn view(&self) -> Set<NodeId> {
        self.members@.to_set()
    }
}

} // verus!
