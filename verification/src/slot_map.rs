//! Maps keyed by slot number, kept as a vector of entries sorted by slot.
//! The abstract value of a map is a `Map<usize, V>`; its `listing` is the
//! sequence of its entries in increasing slot order, which is the order in
//! which the protocol hands entries out.
use vstd::prelude::*;

verus! {

pub open spec fn strictly_sorted<V>(s: Seq<(usize, V)>) -> bool {
    forall|i: int, j: int| 0 <= i < j < s.len() ==> #[trigger] s[i].0 < #[trigger] s[j].0
}

pub open spec fn listing_has<V>(s: Seq<(usize, V)>, k: usize) -> bool {
    exists|i: int| 0 <= i < s.len() && #[trigger] s[i].0 == k
}

pub open spec fn listing_index<V>(s: Seq<(usize, V)>, k: usize) -> int {
    choose|i: int| 0 <= i < s.len() && #[trigger] s[i].0 == k
}

/// The map whose entries a listing enumerates.
pub open spec fn listing_map<V>(s: Seq<(usize, V)>) -> Map<usize, V> {
    Map::new(|k: usize| listing_has(s, k), |k: usize| s[listing_index(s, k)].1)
}

/// In a sorted listing, the map holds exactly the listed pairs.
pub proof fn lemma_listing_map<V>(s: Seq<(usize, V)>)
    requires
        strictly_sorted(s),
    ensures
        forall|i: int|
            0 <= i < s.len() ==> #[trigger] listing_map(s).contains_key(s[i].0) && listing_map(
                s,
            )[s[i].0] == s[i].1,
        forall|k: usize|
            #[trigger] listing_map(s).contains_key(k) ==> exists|i: int|
                0 <= i < s.len() && s[i].0 == k,
{
    assert forall|i: int| 0 <= i < s.len() implies #[trigger] listing_map(s).contains_key(s[i].0)
        && listing_map(s)[s[i].0] == s[i].1 by {
        assert(listing_has(s, s[i].0));
        let j = listing_index(s, s[i].0);
        if j < i {
            assert(s[j].0 < s[i].0);
        } else if i < j {
            assert(s[i].0 < s[j].0);
        }
    }
}

/// Extending a sorted prefix by the next entry inserts that entry.
pub proof fn lemma_listing_map_take<V>(s: Seq<(usize, V)>, i: int)
    requires
        strictly_sorted(s),
        0 <= i < s.len(),
    ensures
        listing_map(s.take(i + 1)) == listing_map(s.take(i)).insert(s[i].0, s[i].1),
        strictly_sorted(s.take(i)),
{
    let t0 = s.take(i);
    let t1 = s.take(i + 1);
    assert(strictly_sorted(t1));
    assert(strictly_sorted(t0));
    lemma_listing_map(t1);
    lemma_listing_map(t0);
    assert(t1[i] == s[i]);
    assert(listing_map(t1) =~= listing_map(t0).insert(s[i].0, s[i].1)) by {
        assert forall|k: usize| #[trigger]
            listing_map(t1).contains_key(k) <==> listing_map(t0).insert(s[i].0, s[i].1).contains_key(k) by {
            if listing_map(t1).contains_key(k) {
                let j = choose|j: int| 0 <= j < t1.len() && t1[j].0 == k;
                if j < i {
                    assert(t0[j] == t1[j]);
                }
            }
            if listing_map(t0).contains_key(k) {
                let j = choose|j: int| 0 <= j < t0.len() && t0[j].0 == k;
                assert(t1[j] == t0[j]);
            }
        }
        assert forall|k: usize| #[trigger] listing_map(t1).contains_key(k) implies listing_map(t1)[k]
            == listing_map(t0).insert(s[i].0, s[i].1)[k] by {
            let j = choose|j: int| 0 <= j < t1.len() && t1[j].0 == k;
            if j < i {
                assert(t0[j] == t1[j]);
                assert(t0[j].0 < s[i].0);
            }
        }
    }
}

pub struct SlotMap<V> {
    entries: Vec<(usize, V)>,
}

impl<V> SlotMap<V> {
    /// The entries, in increasing slot order.
    pub closed spec fn listing(&self) -> Seq<(usize, V)> {
        self.entries@
    }

    #[verifier::type_invariant]
    spec fn sorted(&self) -> bool {
        strictly_sorted(self.entries@)
    }

    /// The listing is sorted and enumerates the map.
    pub fn lemma_listing(&self)
        ensures
            lists_in_order(self.listing(), self@),
            strictly_sorted(self.listing()),
            self@ == listing_map(self.listing()),
            forall|i: int|
                0 <= i < self.listing().len() ==> #[trigger] self@.contains_key(
                    self.listing()[i].0,
                ) && self@[self.listing()[i].0] == self.listing()[i].1,
            forall|k: usize|
                #[trigger] self@.contains_key(k) ==> exists|i: int|
                    0 <= i < self.listing().len() && self.listing()[i].0 == k,
    {
        proof {
            use_type_invariant(self);
            lemma_listing_map(self.entries@);
        }
    }

    pub fn new() -> (m: SlotMap<V>)
        ensures
            m@ == Map::<usize, V>::empty(),
            m.listing() == Seq::<(usize, V)>::empty(),
    {
        let m = SlotMap { entries: Vec::new() };
        assert(listing_map(m.entries@) =~= Map::<usize, V>::empty());
        m
    }

    pub fn len(&self) -> (n: usize)
        ensures
            n == self.listing().len(),
    {
        self.entries.len()
    }

    pub fn is_empty(&self) -> (b: bool)
        ensures
            b == (self@ == Map::<usize, V>::empty()),
            b == (self.listing().len() == 0),
    {
        self.lemma_listing();
        proof {
            if self.listing().len() > 0 {
                assert(self@.contains_key(self.listing()[0].0));
            } else {
                assert(self@ =~= Map::<usize, V>::empty());
            }
        }
        self.entries.len() == 0
    }

    /// The entry at position `i` of the listing.
    pub fn entry_at(&self, i: usize) -> (e: &(usize, V))
        requires
            i < self.listing().len(),
        ensures
            *e == self.listing()[i as int],
    {
        &self.entries[i]
    }

    /// The first position whose slot is at least `k`.
    fn position(&self, k: usize) -> (i: usize)
        ensures
            i <= self.listing().len(),
            forall|j: int| 0 <= j < i ==> #[trigger] self.listing()[j].0 < k,
            i < self.listing().len() ==> k <= self.listing()[i as int].0,
    {
        let mut i: usize = 0;
        while i < self.entries.len()
            invariant
                i <= self.entries@.len(),
                forall|j: int| 0 <= j < i ==> #[trigger] self.entries@[j].0 < k,
            decreases self.entries@.len() - i,
        {
            if self.entries[i].0 >= k {
                return i;
            }
            i = i + 1;
        }
        i
    }

    pub fn contains_key(&self, k: usize) -> (b: bool)
        ensures
            b == self@.contains_key(k),
    {
        self.lemma_listing();
        proof {
            use_type_invariant(self);
        }
        let i = self.position(k);
        let found = i < self.entries.len() && self.entries[i].0 == k;
        proof {
            if !found && self@.contains_key(k) {
                let j = choose|j: int| 0 <= j < self.listing().len() && self.listing()[j].0 == k;
                if j >= i {
                    assert(self.listing()[i as int].0 <= self.listing()[j].0);
                }
            }
        }
        found
    }

    pub fn get(&self, k: usize) -> (r: Option<&V>)
        ensures
            match r {
                Some(v) => self@.contains_key(k) && *v == self@[k],
                None => !self@.contains_key(k),
            },
    {
        self.lemma_listing();
        proof {
            use_type_invariant(self);
        }
        let i = self.position(k);
        if i < self.entries.len() && self.entries[i].0 == k {
            Some(&self.entries[i].1)
        } else {
            proof {
                if self@.contains_key(k) {
                    let j = choose|j: int|
                        0 <= j < self.listing().len() && self.listing()[j].0 == k;
                    if j >= i {
                        assert(self.listing()[i as int].0 <= self.listing()[j].0);
                    }
                }
            }
            None
        }
    }

    /// Sets the value at `k`, handing back the value it replaces.
    pub fn insert(&mut self, k: usize, v: V) -> (old_v: Option<V>)
        ensures
            final(self)@ == old(self)@.insert(k, v),
            match old_v {
                Some(x) => old(self)@.contains_key(k) && x == old(self)@[k],
                None => !old(self)@.contains_key(k),
            },
    {
        self.lemma_listing();
        proof {
            use_type_invariant(&*self);
        }
        let ghost before = self.entries@;
        let i = self.position(k);
        if i < self.entries.len() && self.entries[i].0 == k {
            let mut entries = Vec::new();
            std::mem::swap(&mut entries, &mut self.entries);
            let (_, old_value) = entries.remove(i);
            entries.insert(i, (k, v));
            proof {
                let after = entries@;
                assert(after =~= before.update(i as int, (k, v)));
                assert(strictly_sorted(after)) by {
                    assert forall|a: int, b: int| 0 <= a < b < after.len() implies #[trigger] after[a].0
                        < #[trigger] after[b].0 by {
                        assert(before[a].0 < before[b].0 || a == i || b == i);
                        if a == i {
                            assert(before[a].0 < before[b].0);
                        }
                        if b == i {
                            assert(before[a].0 < before[b].0);
                        }
                    }
                }
                lemma_listing_map(after);
                assert(listing_map(after) =~= listing_map(before).insert(k, v)) by {
                    assert forall|key: usize| #[trigger]
                        listing_map(after).contains_key(key) <==> listing_map(
                            before,
                        ).insert(k, v).contains_key(key) by {
                        if listing_map(after).contains_key(key) {
                            let j = choose|j: int| 0 <= j < after.len() && after[j].0 == key;
                            assert(before[j].0 == key || j == i);
                        }
                        if listing_map(before).contains_key(key) {
                            let j = choose|j: int| 0 <= j < before.len() && before[j].0 == key;
                            assert(after[j].0 == key);
                        }
                    }
                    assert forall|key: usize| #[trigger]
                        listing_map(after).contains_key(key) implies listing_map(after)[key]
                        == listing_map(before).insert(k, v)[key] by {
                        let j = choose|j: int| 0 <= j < after.len() && after[j].0 == key;
                        if j != i {
                            assert(before[j] == after[j]);
                        }
                    }
                }
            }
            self.entries = entries;
            Some(old_value)
        } else {
            let mut entries = Vec::new();
            std::mem::swap(&mut entries, &mut self.entries);
            entries.insert(i, (k, v));
            proof {
                let after = entries@;
                before.insert_ensures(i as int, (k, v));
                assert(strictly_sorted(after)) by {
                    assert forall|a: int, b: int| 0 <= a < b < after.len() implies #[trigger] after[a].0
                        < #[trigger] after[b].0 by {
                        if b < i {
                            assert(after[a] == before[a] && after[b] == before[b]);
                        } else if b == i {
                            assert(after[a] == before[a]);
                        } else if a < i {
                            assert(after[a] == before[a] && after[b] == before[b - 1]);
                            if i < before.len() {
                                assert(before[a].0 < k);
                            }
                        } else if a == i {
                            assert(after[b] == before[b - 1]);
                            assert(k <= before[i as int].0);
                            if b - 1 > i {
                                assert(before[i as int].0 < before[b - 1].0);
                            }
                        } else {
                            assert(after[a] == before[a - 1] && after[b] == before[b - 1]);
                        }
                    }
                }
                lemma_listing_map(after);
                if listing_map(before).contains_key(k) {
                    let j = choose|j: int| 0 <= j < before.len() && before[j].0 == k;
                    if j >= i {
                        assert(before[i as int].0 <= before[j].0);
                    }
                }
                assert(listing_map(after) =~= listing_map(before).insert(k, v)) by {
                    assert forall|key: usize| #[trigger]
                        listing_map(after).contains_key(key) <==> listing_map(
                            before,
                        ).insert(k, v).contains_key(key) by {
                        if key == k {
                            assert(after[i as int].0 == k);
                        }
                        if listing_map(after).contains_key(key) {
                            let j = choose|j: int| 0 <= j < after.len() && after[j].0 == key;
                            if j < i {
                                assert(before[j] == after[j]);
                            } else if j > i {
                                assert(before[j - 1] == after[j]);
                            }
                        }
                        if listing_map(before).contains_key(key) {
                            let j = choose|j: int| 0 <= j < before.len() && before[j].0 == key;
                            if j < i {
                                assert(after[j] == before[j]);
                            } else {
                                assert(after[j + 1] == before[j]);
                            }
                        }
                    }
                    assert forall|key: usize| #[trigger]
                        listing_map(after).contains_key(key) implies listing_map(after)[key]
                        == listing_map(before).insert(k, v)[key] by {
                        let j = choose|j: int| 0 <= j < after.len() && after[j].0 == key;
                        if j < i {
                            assert(before[j] == after[j]);
                        } else if j > i {
                            assert(before[j - 1] == after[j]);
                        }
                    }
                }
            }
            self.entries = entries;
            None
        }
    }

    /// Removes `k`, handing back its value.
    pub fn remove(&mut self, k: usize) -> (old_v: Option<V>)
        ensures
            final(self)@ == old(self)@.remove(k),
            match old_v {
                Some(x) => old(self)@.contains_key(k) && x == old(self)@[k],
                None => !old(self)@.contains_key(k),
            },
    {
        self.lemma_listing();
        proof {
            use_type_invariant(&*self);
        }
        let ghost before = self.entries@;
        let i = self.position(k);
        if i < self.entries.len() && self.entries[i].0 == k {
            let mut entries = Vec::new();
            std::mem::swap(&mut entries, &mut self.entries);
            let (_, old_value) = entries.remove(i);
            proof {
                let after = entries@;
                before.remove_ensures(i as int);
                assert(strictly_sorted(after)) by {
                    assert forall|a: int, b: int| 0 <= a < b < after.len() implies #[trigger] after[a].0
                        < #[trigger] after[b].0 by {
                        if b < i {
                            assert(after[a] == before[a] && after[b] == before[b]);
                        } else if a < i {
                            assert(after[a] == before[a] && after[b] == before[b + 1]);
                        } else {
                            assert(after[a] == before[a + 1] && after[b] == before[b + 1]);
                        }
                    }
                }
                lemma_listing_map(after);
                assert(listing_map(after) =~= listing_map(before).remove(k)) by {
                    assert forall|key: usize| #[trigger]
                        listing_map(after).contains_key(key) <==> listing_map(
                            before,
                        ).remove(k).contains_key(key) by {
                        if listing_map(after).contains_key(key) {
                            let j = choose|j: int| 0 <= j < after.len() && after[j].0 == key;
                            if j < i {
                                assert(before[j] == after[j]);
                                assert(before[j].0 < before[i as int].0);
                            } else {
                                assert(before[j + 1] == after[j]);
                                assert(before[i as int].0 < before[j + 1].0);
                            }
                        }
                        if listing_map(before).contains_key(key) && key != k {
                            let j = choose|j: int| 0 <= j < before.len() && before[j].0 == key;
                            if j < i {
                                assert(after[j] == before[j]);
                            } else {
                                assert(j != i);
                                assert(after[j - 1] == before[j]);
                            }
                        }
                    }
                    assert forall|key: usize| #[trigger]
                        listing_map(after).contains_key(key) implies listing_map(after)[key]
                        == listing_map(before).remove(k)[key] by {
                        let j = choose|j: int| 0 <= j < after.len() && after[j].0 == key;
                        if j < i {
                            assert(before[j] == after[j]);
                        } else {
                            assert(before[j + 1] == after[j]);
                        }
                    }
                }
            }
            self.entries = entries;
            Some(old_value)
        } else {
            proof {
                if listing_map(before).contains_key(k) {
                    let j = choose|j: int| 0 <= j < before.len() && before[j].0 == k;
                    if j >= i {
                        assert(before[i as int].0 <= before[j].0);
                    }
                }
                assert(listing_map(before) =~= listing_map(before).remove(k));
            }
            None
        }
    }
}

impl<V: Clone> SlotMap<V> {
    /// A copy of the map, each value cloned.
    pub fn duplicate(&self) -> (r: SlotMap<V>)
        ensures
            r.listing().len() == self.listing().len(),
            forall|i: int|
                0 <= i < self.listing().len() ==> r.listing()[i].0 == self.listing()[i].0
                    && cloned::<V>(self.listing()[i].1, r.listing()[i].1),
    {
        proof {
            use_type_invariant(self);
        }
        let mut out: Vec<(usize, V)> = Vec::new();
        let mut i: usize = 0;
        while i < self.entries.len()
            invariant
                i <= self.entries@.len(),
                out@.len() == i,
                strictly_sorted(self.entries@),
                forall|j: int|
                    0 <= j < i ==> out@[j].0 == self.entries@[j].0 && cloned::<V>(
                        self.entries@[j].1,
                        out@[j].1,
                    ),
            decreases self.entries@.len() - i,
        {
            let v = self.entries[i].1.clone();
            out.push((self.entries[i].0, v));
            i = i + 1;
        }
        SlotMap { entries: out }
    }
}

impl<V> View for SlotMap<V> {
    type V = Map<usize, V>;

    closed spec fn view(&self) -> Map<usize, V> {
        listing_map(self.entries@)
    }
}

/// A slot map's contents are the pairs its listing enumerates.
pub proof fn lemma_view_of_listing<V>(m: SlotMap<V>)
    ensures
        m@ == listing_map(m.listing()),
{
}

/// A listing sorted by slot that enumerates `m`: one entry per slot of `m`,
/// in increasing slot order.
pub open spec fn lists_in_order<V>(s: Seq<(usize, V)>, m: Map<usize, V>) -> bool {
    strictly_sorted(s) && listing_map(s) == m
}

} // verus!
