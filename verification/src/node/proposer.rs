//! The proposer of single-decree (Synod) Paxos: per decree it tries
//! successively higher ballots, collects promises, and asks for acceptance of
//! the value of the highest ballot reported by a quorum, or its own value.
use vstd::prelude::*;

use crate::ballot::{Ballot, NodeId};
use crate::node::proposer::decree_notes::DecreeNote;
use crate::message::Message;
use crate::node::proposer::proposed_decree::{
    decree_initial,
    DecreeView,
    ProposedDecree,
};
use crate::paxos_command::PaxosCommand;
use crate::slot_map::SlotMap;

pub mod decree_notes;
pub mod proposed_decree;

verus! {

pub struct Proposer {
    id: usize,
    quorum_size: usize,
    notes: SlotMap<DecreeNote>,
    state: SlotMap<ProposedDecree>,
}

pub struct ProposerView {
    pub id: usize,
    pub quorum_size: usize,
    /// Decree -> the last ballot tried for it.
    pub last_tried: Map<usize, Ballot>,
    /// Decree -> the decree being driven.
    pub decrees: Map<usize, DecreeView>,
}

pub open spec fn last_tried_of(m: Map<usize, DecreeNote>) -> Map<usize, Ballot> {
    m.map_values(|n: DecreeNote| n.last_tried)
}

pub open spec fn decree_views(m: Map<usize, ProposedDecree>) -> Map<usize, DecreeView> {
    m.map_values(|d: ProposedDecree| d@)
}

impl View for Proposer {
    type V = ProposerView;

    closed spec fn view(&self) -> ProposerView {
        ProposerView {
            id: self.id,
            quorum_size: self.quorum_size,
            last_tried: last_tried_of(self.notes@),
            decrees: decree_views(self.state@),
        }
    }
}

/// The ballot a priest that has tried nothing for a decree starts from.
pub open spec fn untried(id: usize) -> Ballot {
    Ballot { epoch: 0, number: 0, node_id: id as NodeId }
}

/// The last ballot tried for `decree`.
pub open spec fn tried(v: ProposerView, decree: usize) -> Ballot {
    if v.last_tried.contains_key(decree) {
        v.last_tried[decree]
    } else {
        untried(v.id)
    }
}

/// The state of `decree`.
pub open spec fn decree_of(v: ProposerView, decree: usize) -> DecreeView {
    if v.decrees.contains_key(decree) {
        v.decrees[decree]
    } else {
        decree_initial()
    }
}

/// The ballot `propose` tries next for `decree`.
pub open spec fn next_tried(v: ProposerView, decree: usize) -> Ballot {
    let t = tried(v, decree);
    let h = decree_of(v, decree).highest_accepted.number;
    Ballot {
        epoch: t.epoch,
        number: ((if t.number < h { h } else { t.number }) + 1) as usize,
        node_id: t.node_id,
    }
}

/// Each ballot `propose` tries for a decree lies above the last one tried for
/// it, with a number above that of every ballot reported accepted for it.
pub proof fn lemma_next_tried_higher(v: ProposerView, decree: usize)
    requires
        tried(v, decree).number < usize::MAX,
        decree_of(v, decree).highest_accepted.number < usize::MAX,
    ensures
        tried(v, decree).less(next_tried(v, decree)),
        decree_of(v, decree).highest_accepted.number < next_tried(v, decree).number,
{
}

/// What `promise` does: see there.
pub open spec fn promise_outcome(
    v: ProposerView,
    w: ProposerView,
    m: Message,
    decree_num: usize,
    ballot: Ballot,
    accepted_ballot: Ballot,
    accepted_value: PaxosCommand,
    from_node: usize,
) -> bool {
    &&& w.id == v.id
    &&& w.quorum_size == v.quorum_size
    &&& !v.decrees.contains_key(decree_num) ==> m is NACK && w == v
    &&& v.decrees.contains_key(decree_num) ==> {
                &&& w.last_tried == v.last_tried.insert(
                    decree_num,
                    tried(v, decree_num),
                )
                &&& ballot != tried(v, decree_num) ==> m is NACK && w.decrees
                    == v.decrees
                &&& ballot == tried(v, decree_num) ==> {
                    let d = v.decrees[decree_num];
                    let d2 = if d.highest_accepted.less(accepted_ballot) {
                        DecreeView {
                            proposed_value: accepted_value,
                            highest_accepted: accepted_ballot,
                            promises: d.promises.insert(from_node),
                        }
                    } else {
                        DecreeView { promises: d.promises.insert(from_node), ..d }
                    };
                    &&& w.decrees == v.decrees.insert(decree_num, d2)
                    &&& d2.promises.len() >= v.quorum_size ==> (m matches Message::Accept {
                        from,
                        decree_num: dn,
                        ballot: b,
                        value,
                        quorum,
                    } && from == v.id && dn == decree_num && b == ballot && value
                        == d2.proposed_value && quorum@.to_set() == d2.promises)
                    &&& d2.promises.len() < v.quorum_size ==> m is NACK
                }
            }
}

/// A promise for the ballot last tried on a proposed decree that reports an
/// accepted ballot above every one reported before makes the reported value
/// the decree's value; any other promise keeps the value. Once a quorum has
/// promised, the Accept carries the decree's value as it then stands, so it
/// carries the value of the highest accepted ballot any promiser reported.
pub proof fn lemma_promise_adopts_highest_accepted(
    v: ProposerView,
    w: ProposerView,
    m: Message,
    decree_num: usize,
    ballot: Ballot,
    accepted_ballot: Ballot,
    accepted_value: PaxosCommand,
    from_node: usize,
)
    requires
        v.decrees.contains_key(decree_num),
        ballot == tried(v, decree_num),
        promise_outcome(v, w, m, decree_num, ballot, accepted_ballot, accepted_value, from_node),
    ensures
        w.decrees.contains_key(decree_num),
        w.decrees[decree_num].promises == v.decrees[decree_num].promises.insert(from_node),
        v.decrees[decree_num].highest_accepted.less(accepted_ballot) ==> {
            &&& w.decrees[decree_num].proposed_value == accepted_value
            &&& w.decrees[decree_num].highest_accepted == accepted_ballot
        },
        !v.decrees[decree_num].highest_accepted.less(accepted_ballot) ==> {
            &&& w.decrees[decree_num].proposed_value == v.decrees[decree_num].proposed_value
            &&& w.decrees[decree_num].highest_accepted == v.decrees[decree_num].highest_accepted
        },
        m matches Message::Accept { value, .. } ==> value == w.decrees[decree_num].proposed_value,
{
}

/// What a proposer reports when it proposes: the decree, its own id and the
/// value it drives for the decree.
#[derive(Debug)]
pub struct ProposalEvent {
    pub decree_num: usize,
    pub id: usize,
    pub value: PaxosCommand,
}

impl Proposer {
    pub fn new(id: usize, quorum_size: usize) -> (p: Proposer)
        ensures
            p@ == (ProposerView {
                id,
                quorum_size,
                last_tried: Map::empty(),
                decrees: Map::empty(),
            }),
    {
        let p = Proposer { id, quorum_size, notes: SlotMap::new(), state: SlotMap::new() };
        assert(p@.last_tried =~= Map::<usize, Ballot>::empty());
        assert(p@.decrees =~= Map::<usize, DecreeView>::empty());
        p
    }

    /// Starts a new ballot for `decree_num`: one numbered above the last ballot
    /// tried and the highest accepted ballot reported, promises reset, and the
    /// value proposed being `cmd` unless one is already set. Returns the
    /// prepare request for that ballot.
    pub fn propose(&mut self, decree_num: usize, cmd: PaxosCommand) -> (m: Message)
        requires
            tried(old(self)@, decree_num).number < usize::MAX,
            decree_of(old(self)@, decree_num).highest_accepted.number < usize::MAX,
        ensures
            m == (Message::Prepare {
                from: old(self)@.id,
                decree_num,
                ballot: next_tried(old(self)@, decree_num),
            }),
            final(self)@ == (ProposerView {
                last_tried: old(self)@.last_tried.insert(decree_num, next_tried(old(self)@, decree_num)),
                decrees: old(self)@.decrees.insert(
                    decree_num,
                    DecreeView {
                        promises: Set::empty(),
                        proposed_value: if decree_of(old(self)@, decree_num).proposed_value@
                            == PaxosCommand::BLANK@ {
                            cmd
                        } else {
                            decree_of(old(self)@, decree_num).proposed_value
                        },
                        ..decree_of(old(self)@, decree_num)
                    },
                ),
                ..old(self)@
            }),
    {
        let mut entry = match self.state.remove(decree_num) {
            Some(d) => d,
            None => ProposedDecree::new(),
        };
        let highest = entry.highest_accepted_number();
        let mut note = match self.notes.remove(decree_num) {
            Some(n) => n,
            None => DecreeNote::new(self.id),
        };
        let ballot = note.next_ballot(highest);
        entry.restart(cmd);
        let ghost ev = entry@;
        self.notes.insert(decree_num, note);
        self.state.insert(decree_num, entry);
        proof {
            assert(self@.last_tried =~= old(self)@.last_tried.insert(decree_num, ballot));
            assert(self@.decrees =~= old(self)@.decrees.insert(decree_num, ev));
        }
        Message::Prepare { from: self.id, decree_num, ballot }
    }

    /// The proposal report for `decree_num`: the value the proposer drives
    /// for it (BLANK for a decree never proposed). After `propose` this is the
    /// value that the prepare request goes out for.
    pub fn proposal_event(&self, decree_num: usize) -> (e: ProposalEvent)
        ensures
            e.decree_num == decree_num,
            e.id == self@.id,
            e.value == decree_of(self@, decree_num).proposed_value,
    {
        let value = match self.state.get(decree_num) {
            Some(d) => d.proposed_value().clone(),
            None => PaxosCommand::BLANK,
        };
        ProposalEvent { decree_num, id: self.id, value }
    }

    /// Takes in a promise for `decree_num`. A decree never proposed, or a
    /// ballot other than the last one tried, gets a NACK. Otherwise the
    /// promise is recorded (a higher accepted ballot replaces the proposed
    /// value), and once a quorum has promised the answer asks them to accept
    /// the proposed value; before that it is a NACK.
    pub fn promise(
        &mut self,
        decree_num: usize,
        ballot: Ballot,
        accepted_ballot: Ballot,
        accepted_value: PaxosCommand,
        from_node: usize,
    ) -> (m: Message)
        ensures
            promise_outcome(
                old(self)@,
                final(self)@,
                m,
                decree_num,
                ballot,
                accepted_ballot,
                accepted_value,
                from_node,
            ),
    {
        let mut entry = match self.state.remove(decree_num) {
            Some(d) => d,
            None => {
                proof {
                    assert(self.state@ =~= old(self).state@);
                }
                return Message::NACK;
            },
        };
        let note = match self.notes.remove(decree_num) {
            Some(n) => n,
            None => DecreeNote::new(self.id),
        };
        let last_tried = note.last_tried;
        self.notes.insert(decree_num, note);
        proof {
            assert(self@.last_tried =~= old(self)@.last_tried.insert(decree_num, last_tried));
        }
        if !ballot.same(&last_tried) {
            let ghost ev = entry@;
            self.state.insert(decree_num, entry);
            proof {
                assert(self@.decrees =~= old(self)@.decrees);
            }
            return Message::NACK;
        }
        entry.record_promise(accepted_ballot, accepted_value, from_node);
        let met = entry.promise_count() >= self.quorum_size;
        let reply = if met {
            Message::Accept {
                from: self.id,
                decree_num,
                ballot,
                value: entry.proposed_value().clone(),
                quorum: entry.promisers(),
            }
        } else {
            Message::NACK
        };
        let ghost ev = entry@;
        self.state.insert(decree_num, entry);
        proof {
            assert(self@.decrees =~= old(self)@.decrees.insert(decree_num, ev));
        }
        reply
    }

    /// Promises go to `promise`; anything else gets a NACK.
    pub fn handle_message(&mut self, msg: Message) -> (m: Message)
        ensures
            match msg {
                Message::Promise { from, decree_num, ballot, accepted_ballot, accepted_value } =>
                    promise_outcome(
                    old(self)@,
                    final(self)@,
                    m,
                    decree_num,
                    ballot,
                    accepted_ballot,
                    accepted_value,
                    from,
                ),
                _ => m is NACK && final(self)@ == old(self)@,
            },
    {
        match msg {
            Message::Promise { from, decree_num, ballot, accepted_ballot, accepted_value } => {
                self.promise(decree_num, ballot, accepted_ballot, accepted_value, from)
            },
            _ => Message::NACK,
        }
    }
}

} // verus!
