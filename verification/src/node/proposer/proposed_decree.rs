//! A decree a proposer is driving: the value it proposes, and the promises of
//! the current ballot with the highest ballot any of them reported.
use vstd::prelude::*;

use crate::ballot::Ballot;
use crate::paxos_command::PaxosCommand;

verus! {

/// The priests that promised, without repetitions.
pub struct PromiseSet {
    members: Vec<usize>,
}

impl View for PromiseSet {
    type V = Set<usize>;

    closed spec fn view(&self) -> Set<usize> {
        self.members@.to_set()
    }
}

impl PromiseSet {
    #[verifier::type_invariant]
    spec fn no_repeats(&self) -> bool {
        self.members@.no_duplicates()
    }

    pub fn new() -> (s: PromiseSet)
        ensures
            s@ == Set::<usize>::empty(),
    {
        let s = PromiseSet { members: Vec::new() };
        assert(s.members@.to_set() =~= Set::<usize>::empty());
        s
    }

    pub fn len(&self) -> (n: usize)
        ensures
            n == self@.len(),
            self@.finite(),
    {
        proof {
            use_type_invariant(self);
            self.members@.unique_seq_to_set();
        }
        self.members.len()
    }

    pub fn insert(&mut self, id: usize)
        ensures
            final(self)@ == old(self)@.insert(id),
    {
        proof {
            use_type_invariant(&*self);
        }
        let mut i: usize = 0;
        while i < self.members.len()
            invariant
                i <= self.members@.len(),
                forall|j: int| 0 <= j < i ==> self.members@[j] != id,
            decreases self.members@.len() - i,
        {
            if self.members[i] == id {
                proof {
                    assert(self.members@.to_set().contains(id));
                    assert(self@.insert(id) =~= self@);
                }
                return ;
            }
            i = i + 1;
        }
        let mut members = Vec::new();
        std::mem::swap(&mut members, &mut self.members);
        let ghost before = members@;
        members.push(id);
        proof {
            assert(members@.no_duplicates()) by {
                assert forall|a: int, b: int| 0 <= a < b < members@.len() implies members@[a]
                    != members@[b] by {
                    if b == before.len() {
                        assert(before[a] != id);
                    }
                }
            }
            assert(members@.to_set() =~= before.to_set().insert(id)) by {
                broadcast use vstd::seq_lib::group_seq_properties;

            }
        }
        self.members = members;
    }

    pub fn to_vec(&self) -> (v: Vec<usize>)
        ensures
            v@.to_set() == self@,
            v@.no_duplicates(),
    {
        proof {
            use_type_invariant(self);
        }
        let v = self.members.clone();
        assert(v@ =~= self.members@);
        v
    }
}

pub struct Quorum {
    promises: PromiseSet,
    highest_accepted: Ballot,
    quorum_size: usize,
}

pub struct QuorumView {
    pub promises: Set<usize>,
    pub highest_accepted: Ballot,
    pub quorum_size: usize,
}

impl View for Quorum {
    type V = QuorumView;

    closed spec fn view(&self) -> QuorumView {
        QuorumView {
            promises: self.promises@,
            highest_accepted: self.highest_accepted,
            quorum_size: self.quorum_size,
        }
    }
}

impl Quorum {
    /// No promises yet, for a quorum of `quorum_size` priests.
    pub fn new(quorum_size: usize) -> (q: Quorum)
        ensures
            q@ == (QuorumView {
                promises: Set::empty(),
                highest_accepted: Ballot::zero(),
                quorum_size,
            }),
    {
        Quorum { promises: PromiseSet::new(), highest_accepted: Ballot::default(), quorum_size }
    }

    /// Whether as many priests as the quorum size have promised.
    pub fn has_met_quorum(&self) -> (b: bool)
        ensures
            b == (self@.promises.len() >= self@.quorum_size),
    {
        self.promises.len() >= self.quorum_size
    }
}

impl Default for Quorum {
    /// A quorum that no number of promises meets.
    fn default() -> (q: Quorum)
        ensures
            q@ == (QuorumView {
                promises: Set::empty(),
                highest_accepted: Ballot::zero(),
                quorum_size: usize::MAX,
            }),
    {
        Quorum::new(usize::MAX)
    }
}

pub struct ProposedDecree {
    proposed_value: PaxosCommand,
    quorum: Quorum,
}

pub struct DecreeView {
    pub proposed_value: PaxosCommand,
    pub promises: Set<usize>,
    pub highest_accepted: Ballot,
}

impl View for ProposedDecree {
    type V = DecreeView;

    closed spec fn view(&self) -> DecreeView {
        DecreeView {
            proposed_value: self.proposed_value,
            promises: self.quorum@.promises,
            highest_accepted: self.quorum@.highest_accepted,
        }
    }
}

/// A decree nothing has been proposed for.
pub open spec fn decree_initial() -> DecreeView {
    DecreeView {
        proposed_value: PaxosCommand::BLANK,
        promises: Set::empty(),
        highest_accepted: Ballot::zero(),
    }
}

impl ProposedDecree {
    /// How many promises the decree's own quorum asks for.
    pub closed spec fn quorum_size(&self) -> usize {
        self.quorum@.quorum_size
    }

    pub fn new() -> (d: ProposedDecree)
        ensures
            d@ == decree_initial(),
            d.quorum_size() == usize::MAX,
    {
        ProposedDecree { proposed_value: PaxosCommand::BLANK, quorum: Quorum::new(usize::MAX) }
    }

    pub fn proposed_value(&self) -> (v: &PaxosCommand)
        ensures
            *v == self@.proposed_value,
    {
        &self.proposed_value
    }

    /// Starts a new ballot: no promises yet; the proposed value becomes `cmd`
    /// unless one is already set.
    pub fn restart(&mut self, cmd: PaxosCommand)
        ensures
            final(self)@ == (DecreeView {
                promises: Set::empty(),
                proposed_value: if old(self)@.proposed_value@ == PaxosCommand::BLANK@ {
                    cmd
                } else {
                    old(self)@.proposed_value
                },
                ..old(self)@
            }),
            final(self).quorum_size() == old(self).quorum_size(),
    {
        self.quorum.promises = PromiseSet::new();
        if self.proposed_value == PaxosCommand::BLANK {
            self.proposed_value = cmd;
        }
    }

    /// Takes in a promise of `from`: a report of a higher accepted ballot
    /// replaces the proposed value by the one accepted there.
    pub fn record_promise(&mut self, accepted_ballot: Ballot, accepted_value: PaxosCommand, from: usize)
        ensures
            final(self)@ == (if old(self)@.highest_accepted.less(accepted_ballot) {
                DecreeView {
                    proposed_value: accepted_value,
                    highest_accepted: accepted_ballot,
                    promises: old(self)@.promises.insert(from),
                }
            } else {
                DecreeView { promises: old(self)@.promises.insert(from), ..old(self)@ }
            }),
            final(self).quorum_size() == old(self).quorum_size(),
    {
        if self.quorum.highest_accepted.precedes(&accepted_ballot) {
            self.quorum.highest_accepted = accepted_ballot;
            self.proposed_value = accepted_value;
        }
        self.quorum.promises.insert(from);
    }

    /// Whether the decree's own quorum has promised.
    pub fn has_met_quorum(&self) -> (b: bool)
        ensures
            b == (self@.promises.len() >= self.quorum_size()),
    {
        self.quorum.has_met_quorum()
    }

    pub fn highest_accepted_number(&self) -> (n: usize)
        ensures
            n == self@.highest_accepted.number,
    {
        self.quorum.highest_accepted.number
    }

    pub fn promise_count(&self) -> (n: usize)
        ensures
            n == self@.promises.len(),
            self@.promises.finite(),
    {
        self.quorum.promises.len()
    }

    pub fn promisers(&self) -> (v: Vec<usize>)
        ensures
            v@.to_set() == self@.promises,
            v@.no_duplicates(),
    {
        self.quorum.promises.to_vec()
    }
}

} // verus!
