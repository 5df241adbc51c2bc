//! A pvalue: a command proposed for a slot under a ballot.
use vstd::prelude::*;

use crate::ballot::Ballot;
use crate::paxos_command::{CommandView, PaxosCommand};
use crate::slot_map::SlotMap;

verus! {

#[derive(Debug)]
pub struct PValue {
    slot: usize,
    ballot: Ballot,
    cmd: PaxosCommand,
}

pub struct PValueView {
    pub slot: usize,
    pub ballot: Ballot,
    pub cmd: CommandView,
}

impl View for PValue {
    type V = PValueView;

    closed spec fn view(&self) -> PValueView {
        PValueView { slot: self.slot, ballot: self.ballot, cmd: self.cmd@ }
    }
}

#[derive(Debug, Clone, PartialEq, Eq)]
pub enum PValueError {
    DifferentSlot,
    InvalidOperation(String),
}

impl PValue {
    /// The pvalue of `cmd` at `slot` under `ballot`.
    pub closed spec fn of(slot: usize, ballot: Ballot, cmd: PaxosCommand) -> PValue {
        PValue { slot, ballot, cmd }
    }

    pub broadcast proof fn lemma_of_view(slot: usize, ballot: Ballot, cmd: PaxosCommand)
        ensures
            #[trigger] PValue::of(slot, ballot, cmd)@ == (PValueView { slot, ballot, cmd: cmd@ }),
    {
    }

    /// The command of a pvalue.
    pub closed spec fn command(&self) -> PaxosCommand {
        self.cmd
    }

    pub fn new(slot: usize, ballot: Ballot, cmd: PaxosCommand) -> (p: PValue)
        ensures
            p == PValue::of(slot, ballot, cmd),
            p@ == (PValueView { slot, ballot, cmd: cmd@ }),
            p.command() == cmd,
    {
        PValue { slot, ballot, cmd }
    }

    pub fn slot(&self) -> (r: usize)
        ensures
            r == self@.slot,
    {
        self.slot
    }

    pub fn ballot(&self) -> (r: Ballot)
        ensures
            r == self@.ballot,
    {
        self.ballot
    }

    pub fn cmd(&self) -> (r: PaxosCommand)
        ensures
            r@ == self@.cmd,
            r == self.command(),
    {
        self.cmd.clone()
    }

    /// Orders two pvalues of one slot by their ballots; pvalues of different
    /// slots are not comparable.
    pub fn compare(&self, other: &Self) -> (r: Result<std::cmp::Ordering, PValueError>)
        ensures
            self@.slot != other@.slot ==> r == Err::<std::cmp::Ordering, PValueError>(
                PValueError::DifferentSlot,
            ),
            self@.slot == other@.slot ==> r == Ok::<std::cmp::Ordering, PValueError>(
                if self@.ballot.less(other@.ballot) {
                    std::cmp::Ordering::Less
                } else if self@.ballot == other@.ballot {
                    std::cmp::Ordering::Equal
                } else {
                    std::cmp::Ordering::Greater
                },
            ),
    {
        if self.slot != other.slot {
            return Err(PValueError::DifferentSlot);
        }
        if self.ballot.precedes(&other.ballot) {
            Ok(std::cmp::Ordering::Less)
        } else if self.ballot.same(&other.ballot) {
            Ok(std::cmp::Ordering::Equal)
        } else {
            Ok(std::cmp::Ordering::Greater)
        }
    }
}

impl Clone for PValue {
    fn clone(&self) -> (r: Self)
        ensures
            r == *self,
    {
        PValue { slot: self.slot, ballot: self.ballot, cmd: self.cmd.clone() }
    }
}

/// Cloning a pvalue yields an equal pvalue.
pub proof fn lemma_pvalue_cloned(a: PValue, b: PValue)
    requires
        cloned::<PValue>(a, b),
    ensures
        a == b,
{
}

/// A copy of a list of pvalues.
pub fn clone_pvalues(v: &Vec<PValue>) -> (r: Vec<PValue>)
    ensures
        r@ == v@,
{
    let r = v.clone();
    assert(r@ =~= v@);
    r
}

/// A copy of a slot map of pvalues.
pub fn duplicate_pvalue_map(m: &SlotMap<PValue>) -> (r: SlotMap<PValue>)
    ensures
        r@ == m@,
        r.listing() == m.listing(),
{
    let r = m.duplicate();
    m.lemma_listing();
    r.lemma_listing();
    proof {
        assert forall|i: int| 0 <= i < m.listing().len() implies r.listing()[i] == m.listing()[i] by {
            lemma_pvalue_cloned(m.listing()[i].1, r.listing()[i].1);
        }
        assert(r.listing() =~= m.listing());
    }
    r
}

impl PartialEq for PValue {
    fn eq(&self, other: &Self) -> (r: bool) {
        self.slot == other.slot && self.ballot.same(&other.ballot) && self.cmd == other.cmd
    }
}

impl Eq for PValue {

}

impl vstd::std_specs::cmp::PartialEqSpecImpl for PValue {
    open spec fn obeys_eq_spec() -> bool {
        true
    }

    open spec fn eq_spec(&self, other: &Self) -> bool {
        self@ == other@
    }
}

} // verus!
