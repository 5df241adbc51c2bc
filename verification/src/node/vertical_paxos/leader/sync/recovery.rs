//! Recovery of the values a new leader must keep: one scout round against the
//! read quorum of its own configuration, then of each predecessor, newest
//! first, down to the first predecessor whose ballot is at most the
//! configuration's complete ballot. Per slot the highest ballot wins.
use vstd::prelude::*;

use crate::ballot::{Ballot, NodeId};
use crate::cluster::vertical::activation::{
    ActivationSnapshot,
    ActivationView,
    configuration_views,
};
use crate::cluster::vertical::configuration::{
    ConfigurationView,
    VerticalClusterConfiguration,
    VerticalPaxosVariant,
};
use crate::node::pvalue::{duplicate_pvalue_map, PValue};
use crate::node::vertical_paxos::leader::sync::scout_round::{
    fresh_round,
    scout_answer,
    ScoutRound,
    ScoutRoundView,
};
use crate::node::vertical_paxos::message::VerticalPaxosMessage;
use crate::slot_map::{listing_map, lemma_listing_map_take, SlotMap};

verus! {

/// The first slot recovery reads: zero in the first variant, the
/// configuration's start index in the second.
pub open spec fn effective_start(c: ConfigurationView) -> usize {
    match c.variant {
        VerticalPaxosVariant::V1 => 0,
        VerticalPaxosVariant::V2 => c.start_index,
    }
}

/// A configuration at or below the complete ballot holds nothing left to
/// recover.
pub open spec fn below_complete(c: ConfigurationView, complete_bal: Option<Ballot>) -> bool {
    match complete_bal {
        Some(cb) => c.ballot.at_most(cb),
        None => false,
    }
}

/// How many predecessors, from the newest, lie above the complete ballot
/// before the first one that does not.
pub open spec fn walked(preds: Seq<ConfigurationView>, complete_bal: Option<Ballot>) -> nat
    decreases preds.len(),
{
    if preds.len() == 0 || below_complete(preds[0], complete_bal) {
        0
    } else {
        1 + walked(preds.drop_first(), complete_bal)
    }
}

/// The configurations recovery reads, in order: the snapshot's own, then the
/// predecessors it walks.
pub open spec fn recovery_chain(s: ActivationView) -> Seq<ConfigurationView> {
    seq![s.configuration] + s.predecessors.take(
        walked(s.predecessors, s.configuration.complete_bal) as int,
    )
}

/// `a` merged with `b`: per slot, the pvalue of `b` replaces that of `a` when
/// `a` has none or one of a lower ballot.
pub open spec fn merge_settled(a: Map<usize, PValue>, b: Map<usize, PValue>) -> Map<usize, PValue> {
    Map::new(
        |k: usize| a.contains_key(k) || b.contains_key(k),
        |k: usize|
            if b.contains_key(k) && (!a.contains_key(k) || a[k]@.ballot.less(b[k]@.ballot)) {
                b[k]
            } else {
                a[k]
            },
    )
}

/// Merging keeps every slot of both sides, each at a pvalue of one of them
/// whose ballot is no lower than either side's.
pub proof fn lemma_merge_keeps_highest(a: Map<usize, PValue>, b: Map<usize, PValue>)
    ensures
        forall|k: usize| #[trigger]
            merge_settled(a, b).contains_key(k) <==> a.contains_key(k) || b.contains_key(k),
        forall|k: usize| #[trigger]
            merge_settled(a, b).contains_key(k) ==> (a.contains_key(k) && merge_settled(a, b)[k]
                == a[k]) || (b.contains_key(k) && merge_settled(a, b)[k] == b[k]),
        forall|k: usize| #[trigger]
            a.contains_key(k) ==> a[k]@.ballot.at_most(merge_settled(a, b)[k]@.ballot),
        forall|k: usize| #[trigger]
            b.contains_key(k) ==> b[k]@.ballot.at_most(merge_settled(a, b)[k]@.ballot),
{
    assert forall|k: usize| #[trigger] b.contains_key(k) implies b[k]@.ballot.at_most(
        merge_settled(a, b)[k]@.ballot,
    ) by {
        if a.contains_key(k) {
            crate::ballot::lemma_ballot_order(a[k]@.ballot, b[k]@.ballot, b[k]@.ballot);
        }
    }
}

/// The predecessors walked all lie above the complete ballot, and the walk
/// stops at the first that does not.
proof fn lemma_walked_bounds(preds: Seq<ConfigurationView>, cb: Option<Ballot>)
    ensures
        walked(preds, cb) <= preds.len(),
        forall|i: int| 0 <= i < walked(preds, cb) ==> !below_complete(#[trigger] preds[i], cb),
        walked(preds, cb) < preds.len() ==> below_complete(preds[walked(preds, cb) as int], cb),
    decreases preds.len(),
{
    if preds.len() > 0 && !below_complete(preds[0], cb) {
        let rest = preds.drop_first();
        lemma_walked_bounds(rest, cb);
        assert forall|i: int| 0 <= i < walked(preds, cb) implies !below_complete(
            #[trigger] preds[i],
            cb,
        ) by {
            if i > 0 {
                assert(preds[i] == rest[i - 1]);
            }
        }
        if walked(preds, cb) < preds.len() {
            assert(preds[walked(preds, cb) as int] == rest[walked(rest, cb) as int]);
        }
    }
}

/// Recovery reads its own configuration first, then predecessors newest
/// first, each of them above the complete ballot, and stops at the first
/// predecessor that is not.
pub proof fn lemma_recovery_chain(s: ActivationView)
    ensures
        recovery_chain(s).len() >= 1,
        recovery_chain(s)[0] == s.configuration,
        recovery_chain(s).len() <= s.predecessors.len() + 1,
        forall|i: int|
            1 <= i < recovery_chain(s).len() ==> #[trigger] recovery_chain(s)[i] == s.predecessors[i
                - 1] && !below_complete(recovery_chain(s)[i], s.configuration.complete_bal),
        recovery_chain(s).len() <= s.predecessors.len() ==> below_complete(
            s.predecessors[recovery_chain(s).len() - 1],
            s.configuration.complete_bal,
        ),
{
    lemma_walked_bounds(s.predecessors, s.configuration.complete_bal);
}

pub fn effective_start_index(configuration: &VerticalClusterConfiguration) -> (r: usize)
    ensures
        r == effective_start(configuration@),
        r == first_recovered_slot(configuration@),
{
    match configuration.variant() {
        VerticalPaxosVariant::V1 => 0,
        VerticalPaxosVariant::V2 => configuration.start_index(),
    }
}

proof fn lemma_walked_step(preds: Seq<ConfigurationView>, cb: Option<Ballot>, i: int)
    requires
        0 <= i < preds.len(),
        !below_complete(preds[i], cb),
    ensures
        walked(preds.skip(i), cb) == 1 + walked(preds.skip(i + 1), cb),
{
    assert(preds.skip(i).drop_first() =~= preds.skip(i + 1));
}

pub fn recovery_configs(snapshot: &ActivationSnapshot) -> (r: Vec<VerticalClusterConfiguration>)
    ensures
        configuration_views(r@) == recovery_chain(snapshot@),
{
    let current = snapshot.configuration();
    let complete_bal = current.complete_bal();
    let entries = snapshot.predecessor_chain().entries();
    let ghost preds = snapshot@.predecessors;
    let mut configs: Vec<VerticalClusterConfiguration> = Vec::new();
    configs.push(current.clone());
    let mut i: usize = 0;
    proof {
        assert(preds.skip(0) =~= preds);
        assert(configuration_views(configs@) =~= seq![current@] + preds.take(0));
    }
    while i < entries.len()
        invariant_except_break
            i <= entries@.len(),
            configuration_views(entries@) == preds,
            preds == snapshot@.predecessors,
            complete_bal == snapshot@.configuration.complete_bal,
            walked(preds, complete_bal) == i + walked(preds.skip(i as int), complete_bal),
            configuration_views(configs@) == seq![snapshot@.configuration] + preds.take(i as int),
            i == entries@.len() ==> walked(preds.skip(i as int), complete_bal) == 0,
        ensures
            configuration_views(configs@) == recovery_chain(snapshot@),
        decreases entries@.len() - i,
    {
        let settled = match complete_bal {
            Some(cb) => {
                let b = entries[i].ballot();
                b.precedes(&cb) || b.same(&cb)
            },
            None => false,
        };
        assert(entries@[i as int]@ == preds[i as int]);
        if settled {
            proof {
                assert(preds.skip(i as int)[0] == preds[i as int]);
                assert(walked(preds.skip(i as int), complete_bal) == 0);
                assert(walked(preds, complete_bal) == i);
            }
            break;
        }
        proof {
            lemma_walked_step(preds, complete_bal, i as int);
        }
        let ghost before = configs@;
        configs.push(entries[i].clone());
        proof {
            assert(configuration_views(configs@) =~= configuration_views(before).push(
                preds[i as int],
            ));
            assert(preds.take(i + 1) =~= preds.take(i as int).push(preds[i as int]));
            assert(configuration_views(configs@) =~= seq![snapshot@.configuration] + preds.take(
                i + 1,
            ));
        }
        i = i + 1;
        proof {
            if i == entries@.len() {
                assert(preds.skip(i as int).len() == 0);
            }
        }
    }
    configs
}

/// Merges `incoming` into `settled`.
fn merge_into(settled: &mut SlotMap<PValue>, incoming: &SlotMap<PValue>)
    ensures
        final(settled)@ == merge_settled(old(settled)@, incoming@),
{
    incoming.lemma_listing();
    let ghost listing = incoming.listing();
    let mut i: usize = 0;
    proof {
        assert(listing_map(listing.take(0)) =~= Map::<usize, PValue>::empty());
        assert(merge_settled(old(settled)@, Map::<usize, PValue>::empty()) =~= old(settled)@);
    }
    while i < incoming.len()
        invariant
            i <= listing.len(),
            listing == incoming.listing(),
            crate::slot_map::strictly_sorted(listing),
            incoming@ == listing_map(listing),
            settled@ == merge_settled(old(settled)@, listing_map(listing.take(i as int))),
        decreases listing.len() - i,
    {
        let entry = incoming.entry_at(i);
        let k = entry.0;
        let ghost m = listing_map(listing.take(i as int));
        proof {
            lemma_listing_map_take(listing, i as int);
            crate::slot_map::lemma_listing_map(listing.take(i as int));
            if m.contains_key(k) {
                let j = choose|j: int| 0 <= j < listing.take(i as int).len() && listing.take(i as int)[j].0 == k;
                assert(listing[j].0 < listing[i as int].0);
            }
        }
        let replace = match settled.get(k) {
            None => true,
            Some(existing) => existing.ballot().precedes(&entry.1.ballot()),
        };
        if replace {
            settled.insert(k, entry.1.clone());
        }
        proof {
            let before = merge_settled(old(settled)@, m);
            let after = merge_settled(old(settled)@, m.insert(k, entry.1));
            assert(settled@ =~= after);
        }
        i = i + 1;
    }
    proof {
        assert(listing.take(i as int) =~= listing);
    }
}

pub struct RecoveredState {
    settled_values: SlotMap<PValue>,
    start_index: usize,
}

pub struct RecoveredView {
    pub settled: Map<usize, PValue>,
    pub start_index: usize,
}

impl View for RecoveredState {
    type V = RecoveredView;

    closed spec fn view(&self) -> RecoveredView {
        RecoveredView { settled: self.settled_values@, start_index: self.start_index }
    }
}

impl RecoveredState {
    pub fn new(settled_values: SlotMap<PValue>, start_index: usize) -> (r: RecoveredState)
        ensures
            r@ == (RecoveredView { settled: settled_values@, start_index }),
    {
        RecoveredState { settled_values, start_index }
    }

    pub fn settled_values(&self) -> (r: &SlotMap<PValue>)
        ensures
            r@ == self@.settled,
    {
        &self.settled_values
    }

    pub fn start_index(&self) -> (r: usize)
        ensures
            r == self@.start_index,
    {
        self.start_index
    }
}

pub struct RecoverySynchronizer {
    leader_id: NodeId,
    snapshot: ActivationSnapshot,
    recovery_configs: Vec<VerticalClusterConfiguration>,
    next_round: usize,
    active_round: Option<ScoutRound>,
    settled_values: SlotMap<PValue>,
    recovered_state: Option<RecoveredState>,
    superseded_by: Option<Ballot>,
}

pub struct RecoveryView {
    pub leader_id: NodeId,
    pub snapshot: ActivationView,
    pub configs: Seq<ConfigurationView>,
    pub next_round: usize,
    pub round: Option<ScoutRoundView>,
    pub settled: Map<usize, PValue>,
    pub recovered: Option<RecoveredView>,
    pub superseded: Option<Ballot>,
}

pub open spec fn round_view(r: Option<ScoutRound>) -> Option<ScoutRoundView> {
    match r {
        Some(r) => Some(r@),
        None => None,
    }
}

pub open spec fn recovered_view(r: Option<RecoveredState>) -> Option<RecoveredView> {
    match r {
        Some(r) => Some(r@),
        None => None,
    }
}

impl View for RecoverySynchronizer {
    type V = RecoveryView;

    closed spec fn view(&self) -> RecoveryView {
        RecoveryView {
            leader_id: self.leader_id,
            snapshot: self.snapshot@,
            configs: configuration_views(self.recovery_configs@),
            next_round: self.next_round,
            round: round_view(self.active_round),
            settled: self.settled_values@,
            recovered: recovered_view(self.recovered_state),
            superseded: self.superseded_by,
        }
    }
}

/// Recovery before its first round.
pub open spec fn recovery_initial(leader_id: NodeId, snapshot: ActivationView) -> RecoveryView {
    RecoveryView {
        leader_id,
        snapshot,
        configs: recovery_chain(snapshot),
        next_round: 0,
        round: None,
        settled: Map::empty(),
        recovered: None,
        superseded: None,
    }
}

/// The round recovery runs against the read quorum of its `i`-th
/// configuration.
pub open spec fn round_for(v: RecoveryView, i: int) -> ScoutRoundView {
    fresh_round(
        v.leader_id,
        v.snapshot.configuration.ballot,
        effective_start(v.snapshot.configuration),
        v.configs[i].read_quorum.to_set(),
    )
}

/// Starts the next round, or finishes recovery when every configuration has
/// been read.
pub open spec fn advance(v: RecoveryView) -> RecoveryView {
    if v.next_round < v.configs.len() {
        RecoveryView { round: Some(round_for(v, v.next_round as int)), ..v }
    } else {
        RecoveryView {
            recovered: Some(
                RecoveredView {
                    settled: v.settled,
                    start_index: effective_start(v.snapshot.configuration),
                },
            ),
            ..v
        }
    }
}

/// The first slot a configuration's recovery reads: slot 0 under the first
/// variant, the configuration's own start index under the second.
pub open spec fn first_recovered_slot(c: ConfigurationView) -> usize {
    if c.variant == VerticalPaxosVariant::V2 {
        c.start_index
    } else {
        0
    }
}

/// Every round recovery runs, and the state it recovers, begin at the
/// configuration's first recovered slot.
pub open spec fn reads_from_first_slot(v: RecoveryView) -> bool {
    &&& v.round matches Some(r) ==> r.start_index == first_recovered_slot(v.snapshot.configuration)
    &&& v.recovered matches Some(x) ==> x.start_index == first_recovered_slot(
        v.snapshot.configuration,
    )
}

/// Recovery reads from the right first slot throughout: a V2 configuration's
/// rounds ask for (and its recovered state starts at) its start index, a V1
/// configuration's at slot 0. This holds before recovery starts, when it
/// (re)starts, after each round it starts and after every message.
pub proof fn lemma_recovery_reads_from_first_slot(v: RecoveryView, msg: VerticalPaxosMessage)
    ensures
        reads_from_first_slot(recovery_initial(v.leader_id, v.snapshot)),
        reads_from_first_slot(
            advance(
                RecoveryView {
                    next_round: 0,
                    round: None,
                    settled: Map::empty(),
                    recovered: None,
                    superseded: None,
                    ..v
                },
            ),
        ),
        reads_from_first_slot(v) ==> reads_from_first_slot(advance(v)),
        reads_from_first_slot(v) ==> reads_from_first_slot(recovery_answer(v, msg)),
{
    if reads_from_first_slot(v) {
        if let Some(r) = v.round {
            let r2 = scout_answer(r, msg);
            assert(r2.start_index == r.start_index);
            if r2.superseded is None && r2.complete {
                let w = RecoveryView {
                    settled: merge_settled(v.settled, r2.settled),
                    round: None,
                    next_round: (v.next_round + 1) as usize,
                    ..v
                };
                assert(reads_from_first_slot(w));
            }
        }
    }
}

/// Recovery after taking in `msg`: the running round takes it in; if that
/// supersedes the round, recovery stops superseded; if it completes the
/// round, its values are merged and the next round starts.
pub open spec fn recovery_answer(v: RecoveryView, msg: VerticalPaxosMessage) -> RecoveryView {
    match v.round {
        None => v,
        Some(r) => {
            let r2 = scout_answer(r, msg);
            if r2.superseded is Some {
                RecoveryView { superseded: r2.superseded, round: None, ..v }
            } else if r2.complete {
                advance(
                    RecoveryView {
                        settled: merge_settled(v.settled, r2.settled),
                        round: None,
                        next_round: (v.next_round + 1) as usize,
                        ..v
                    },
                )
            } else {
                RecoveryView { round: Some(r2), ..v }
            }
        },
    }
}

impl RecoverySynchronizer {
    pub closed spec fn wf(&self) -> bool {
        &&& configuration_views(self.recovery_configs@) == recovery_chain(self.snapshot@)
        &&& self.active_round is Some ==> self.next_round < self.recovery_configs@.len()
    }

    pub fn new(leader_id: NodeId, snapshot: ActivationSnapshot) -> (r: RecoverySynchronizer)
        ensures
            r.wf(),
            r@ == recovery_initial(leader_id, snapshot@),
    {
        let recovery_configs = recovery_configs(&snapshot);
        RecoverySynchronizer {
            leader_id,
            snapshot,
            recovery_configs,
            next_round: 0,
            active_round: None,
            settled_values: SlotMap::new(),
            recovered_state: None,
            superseded_by: None,
        }
    }

    /// Restarts recovery from the first configuration.
    pub fn start(&mut self)
        requires
            old(self).wf(),
        ensures
            final(self).wf(),
            final(self)@ == advance(
                RecoveryView {
                    next_round: 0,
                    round: None,
                    settled: Map::empty(),
                    recovered: None,
                    superseded: None,
                    ..old(self)@
                },
            ),
    {
        self.next_round = 0;
        self.settled_values = SlotMap::new();
        self.recovered_state = None;
        self.superseded_by = None;
        self.active_round = None;
        self.start_next_round();
    }

    pub fn is_complete(&self) -> (b: bool)
        ensures
            b == self@.recovered is Some,
    {
        self.recovered_state.is_some()
    }

    pub fn superseded_by(&self) -> (b: Option<Ballot>)
        ensures
            b == self@.superseded,
    {
        self.superseded_by
    }

    pub fn recovered_state(&self) -> (r: Option<&RecoveredState>)
        ensures
            match r {
                Some(s) => self@.recovered == Some(s@),
                None => self@.recovered is None,
            },
    {
        match &self.recovered_state {
            Some(s) => Some(s),
            None => None,
        }
    }

    /// The round under way, whose P1A is to be sent to its targets.
    pub fn active_round(&self) -> (r: Option<&ScoutRound>)
        ensures
            match r {
                Some(s) => self@.round == Some(s@),
                None => self@.round is None,
            },
    {
        match &self.active_round {
            Some(s) => Some(s),
            None => None,
        }
    }

    /// Takes in a message (see `recovery_answer`).
    pub fn handle_message(&mut self, msg: &VerticalPaxosMessage)
        requires
            old(self).wf(),
        ensures
            final(self).wf(),
            final(self)@ == recovery_answer(old(self)@, *msg),
    {
        proof {
            if self.active_round is Some {
                assert(self.next_round < self.recovery_configs@.len());
            }
        }
        let ghost n = self.recovery_configs@.len();
        let mut round = match self.active_round.take() {
            Some(r) => r,
            None => {
                return ;
            },
        };
        round.handle_message(msg);
        if let Some(superseded_by) = round.superseded_by() {
            self.superseded_by = Some(superseded_by);
            return ;
        }
        if round.is_complete() {
            let values = round.settled_values();
            merge_into(&mut self.settled_values, &values);
            let total = self.recovery_configs.len();
            assert(self.next_round < total);
            self.next_round = self.next_round + 1;
            self.start_next_round();
            return ;
        }
        self.active_round = Some(round);
    }

    /// Stops the round under way.
    pub fn shutdown(&mut self)
        requires
            old(self).wf(),
        ensures
            final(self).wf(),
            final(self)@ == (RecoveryView { round: None, ..old(self)@ }),
    {
        self.active_round = None;
    }

    fn start_next_round(&mut self)
        requires
            configuration_views(old(self).recovery_configs@) == recovery_chain(old(self).snapshot@),
            old(self).active_round is None,
        ensures
            final(self).wf(),
            final(self)@ == advance(old(self)@),
    {
        if self.next_round < self.recovery_configs.len() {
            let configuration = &self.recovery_configs[self.next_round];
            proof {
                assert(configuration_views(self.recovery_configs@)[self.next_round as int]
                    == configuration@);
            }
            let members = configuration.read_quorum().members();
            let round = ScoutRound::new(
                self.leader_id,
                self.snapshot.configuration().ballot(),
                effective_start_index(self.snapshot.configuration()),
                members,
            );
            self.active_round = Some(round);
            return ;
        }
        let settled = duplicate_pvalue_map(&self.settled_values);
        self.recovered_state = Some(
            RecoveredState::new(settled, effective_start_index(self.snapshot.configuration())),
        );
    }
}

} // verus!
