//! Small maps kept as vectors of entries with distinct keys, in insertion
//! order. Keys are compared by their abstract values, so the abstract value of
//! a map is a `Map<K::V, V>`.
use vstd::prelude::*;

verus! {

/// Keys of an association map: compared and copied by their abstract value.
pub trait MapKey: View + Sized {
    fn same_key(&self, other: &Self) -> (b: bool)
        ensures
            b == (self@ == other@),
    ;

    fn copy_key(&self) -> (r: Self)
        ensures
            r@ == self@,
    ;
}

impl MapKey for u128 {
    fn same_key(&self, other: &Self) -> (b: bool) {
        *self == *other
    }

    fn copy_key(&self) -> (r: Self) {
        *self
    }
}

impl MapKey for (u128, u64) {
    fn same_key(&self, other: &Self) -> (b: bool) {
        self.0 == other.0 && self.1 == other.1
    }

    fn copy_key(&self) -> (r: Self) {
        (self.0, self.1)
    }
}

impl MapKey for String {
    fn same_key(&self, other: &Self) -> (b: bool) {
        *self == *other
    }

    fn copy_key(&self) -> (r: Self) {
        self.clone()
    }
}

pub open spec fn distinct_keys<K: View, V>(s: Seq<(K, V)>) -> bool {
    forall|i: int, j: int| 0 <= i < j < s.len() ==> #[trigger] s[i].0@ != #[trigger] s[j].0@
}

pub open spec fn keys_have<K: View, V>(s: Seq<(K, V)>, k: K::V) -> bool {
    exists|i: int| 0 <= i < s.len() && #[trigger] s[i].0@ == k
}

pub open spec fn key_index<K: View, V>(s: Seq<(K, V)>, k: K::V) -> int {
    choose|i: int| 0 <= i < s.len() && #[trigger] s[i].0@ == k
}

pub open spec fn entries_map<K: View, V>(s: Seq<(K, V)>) -> Map<K::V, V> {
    Map::new(|k: K::V| keys_have(s, k), |k: K::V| s[key_index(s, k)].1)
}

pub proof fn lemma_entries_map<K: View, V>(s: Seq<(K, V)>)
    requires
        distinct_keys(s),
    ensures
        forall|i: int|
            0 <= i < s.len() ==> #[trigger] entries_map(s).contains_key(s[i].0@) && entries_map(
                s,
            )[s[i].0@] == s[i].1,
        forall|k: K::V|
            #[trigger] entries_map(s).contains_key(k) ==> exists|i: int|
                0 <= i < s.len() && s[i].0@ == k,
{
    assert forall|i: int| 0 <= i < s.len() implies #[trigger] entries_map(s).contains_key(s[i].0@)
        && entries_map(s)[s[i].0@] == s[i].1 by {
        assert(keys_have(s, s[i].0@));
        let j = key_index(s, s[i].0@);
        if j != i {
            if j < i {
                assert(s[j].0@ != s[i].0@);
            } else {
                assert(s[i].0@ != s[j].0@);
            }
        }
    }
}

/// Two positions of a listing with distinct keys hold distinct keys.
pub proof fn lemma_distinct_at<K: View, V>(s: Seq<(K, V)>, i: int, j: int)
    requires
        distinct_keys(s),
        0 <= i < s.len(),
        0 <= j < s.len(),
        i != j,
    ensures
        s[i].0@ != s[j].0@,
{
    if i > j {
        assert(s[j].0@ != s[i].0@);
    }
}

/// A listing with distinct keys maps the key at each position to the value
/// there.
pub proof fn lemma_entries_map_at<K: View, V>(s: Seq<(K, V)>, i: int)
    requires
        distinct_keys(s),
        0 <= i < s.len(),
    ensures
        entries_map(s).contains_key(s[i].0@),
        entries_map(s)[s[i].0@] == s[i].1,
{
    lemma_entries_map(s);
}

/// A key of a listing's map stands at some position of the listing.
pub proof fn lemma_entries_map_position<K: View, V>(s: Seq<(K, V)>, k: K::V) -> (i: int)
    requires
        entries_map(s).contains_key(k),
    ensures
        0 <= i < s.len(),
        s[i].0@ == k,
{
    key_index(s, k)
}

pub struct AssocMap<K: MapKey, V> {
    entries: Vec<(K, V)>,
}

impl<K: MapKey, V> AssocMap<K, V> {
    #[verifier::type_invariant]
    spec fn distinct(&self) -> bool {
        distinct_keys(self.entries@)
    }

    /// The entries in the order their keys were first inserted.
    pub closed spec fn listing(&self) -> Seq<(K, V)> {
        self.entries@
    }

    pub fn lemma_listing(&self)
        ensures
            distinct_keys(self.listing()),
            self@ == entries_map(self.listing()),
            forall|i: int|
                0 <= i < self.listing().len() ==> #[trigger] self@.contains_key(
                    self.listing()[i].0@,
                ) && self@[self.listing()[i].0@] == self.listing()[i].1,
            forall|k: K::V|
                #[trigger] self@.contains_key(k) ==> exists|i: int|
                    0 <= i < self.listing().len() && self.listing()[i].0@ == k,
    {
        proof {
            use_type_invariant(self);
            lemma_entries_map(self.entries@);
        }
    }

    pub fn new() -> (m: AssocMap<K, V>)
        ensures
            m@ == Map::<K::V, V>::empty(),
            m.listing() == Seq::<(K, V)>::empty(),
    {
        let m = AssocMap { entries: Vec::new() };
        assert(entries_map(m.entries@) =~= Map::<K::V, V>::empty());
        m
    }

    pub fn len(&self) -> (n: usize)
        ensures
            n == self.listing().len(),
    {
        self.entries.len()
    }

    /// Whether the map has no entries.
    pub fn is_empty(&self) -> (b: bool)
        ensures
            b == (self@ == Map::<K::V, V>::empty()),
    {
        self.lemma_listing();
        let b = self.entries.len() == 0;
        proof {
            if b {
                assert(self@ =~= Map::<K::V, V>::empty());
            } else {
                assert(self@.contains_key(self.listing()[0].0@));
            }
        }
        b
    }

    pub fn entry_at(&self, i: usize) -> (e: &(K, V))
        requires
            i < self.listing().len(),
        ensures
            *e == self.listing()[i as int],
    {
        &self.entries[i]
    }

    fn find(&self, k: &K) -> (r: Option<usize>)
        ensures
            match r {
                Some(i) => i < self.listing().len() && self.listing()[i as int].0@ == k@,
                None => !self@.contains_key(k@),
            },
    {
        let mut i: usize = 0;
        while i < self.entries.len()
            invariant
                i <= self.entries@.len(),
                forall|j: int| 0 <= j < i ==> #[trigger] self.entries@[j].0@ != k@,
            decreases self.entries@.len() - i,
        {
            if self.entries[i].0.same_key(k) {
                return Some(i);
            }
            i = i + 1;
        }
        None
    }

    pub fn contains_key(&self, k: &K) -> (b: bool)
        ensures
            b == self@.contains_key(k@),
    {
        self.lemma_listing();
        self.find(k).is_some()
    }

    pub fn get(&self, k: &K) -> (r: Option<&V>)
        ensures
            match r {
                Some(v) => self@.contains_key(k@) && *v == self@[k@],
                None => !self@.contains_key(k@),
            },
    {
        self.lemma_listing();
        match self.find(k) {
            Some(i) => Some(&self.entries[i].1),
            None => None,
        }
    }

    /// Sets the value of `k`; a new key goes to the end of the listing.
    pub fn insert(&mut self, k: K, v: V)
        ensures
            final(self)@ == old(self)@.insert(k@, v),
    {
        self.lemma_listing();
        proof {
            use_type_invariant(&*self);
        }
        let ghost before = self.entries@;
        let mut entries = Vec::new();
        std::mem::swap(&mut entries, &mut self.entries);
        match self.find_in(&entries, &k) {
            Some(i) => {
                let _ = entries.remove(i);
                entries.insert(i, (k, v));
                proof {
                    let after = entries@;
                    assert(after =~= before.update(i as int, after[i as int]));
                    assert(distinct_keys(after)) by {
                        assert forall|a: int, b: int| 0 <= a < b < after.len() implies #[trigger] after[a].0@
                            != #[trigger] after[b].0@ by {
                            assert(before[a].0@ != before[b].0@);
                        }
                    }
                    lemma_entries_map(after);
                    lemma_entries_map(before);
                    assert(entries_map(after) =~= entries_map(before).insert(k@, v)) by {
                        assert forall|key: K::V| #[trigger]
                            entries_map(after).contains_key(key) <==> entries_map(before).insert(
                                k@,
                                v,
                            ).contains_key(key) by {
                            if entries_map(after).contains_key(key) {
                                let j = choose|j: int| 0 <= j < after.len() && after[j].0@ == key;
                                if j != i {
                                    assert(before[j] == after[j]);
                                }
                            }
                            if entries_map(before).contains_key(key) {
                                let j = choose|j: int| 0 <= j < before.len() && before[j].0@ == key;
                                if j != i {
                                    assert(after[j] == before[j]);
                                } else {
                                    assert(after[j].0@ == key);
                                }
                            }
                        }
                        assert forall|key: K::V| #[trigger]
                            entries_map(after).contains_key(key) implies entries_map(after)[key]
                            == entries_map(before).insert(k@, v)[key] by {
                            let j = choose|j: int| 0 <= j < after.len() && after[j].0@ == key;
                            if j != i {
                                assert(before[j] == after[j]);
                            }
                        }
                    }
                }
            },
            None => {
                entries.push((k, v));
                proof {
                    let after = entries@;
                    assert(after =~= before.push(after.last()));
                    assert(distinct_keys(after)) by {
                        assert forall|a: int, b: int| 0 <= a < b < after.len() implies #[trigger] after[a].0@
                            != #[trigger] after[b].0@ by {
                            if b == after.len() - 1 {
                                assert(entries_map(before).contains_key(before[a].0@));
                            }
                        }
                    }
                    lemma_entries_map(after);
                    lemma_entries_map(before);
                    assert(entries_map(after) =~= entries_map(before).insert(k@, v)) by {
                        assert forall|key: K::V| #[trigger]
                            entries_map(after).contains_key(key) <==> entries_map(before).insert(
                                k@,
                                v,
                            ).contains_key(key) by {
                            if entries_map(after).contains_key(key) {
                                let j = choose|j: int| 0 <= j < after.len() && after[j].0@ == key;
                                if j < before.len() {
                                    assert(before[j] == after[j]);
                                }
                            }
                            if entries_map(before).contains_key(key) {
                                let j = choose|j: int| 0 <= j < before.len() && before[j].0@ == key;
                                assert(after[j] == before[j]);
                            }
                            if key == k@ {
                                assert(after[before.len() as int].0@ == key);
                            }
                        }
                        assert forall|key: K::V| #[trigger]
                            entries_map(after).contains_key(key) implies entries_map(after)[key]
                            == entries_map(before).insert(k@, v)[key] by {
                            let j = choose|j: int| 0 <= j < after.len() && after[j].0@ == key;
                            if j < before.len() {
                                assert(before[j] == after[j]);
                            }
                        }
                    }
                }
            },
        }
        self.entries = entries;
    }

    /// Removes `k`, handing back its value.
    pub fn remove(&mut self, k: &K) -> (old_v: Option<V>)
        ensures
            final(self)@ == old(self)@.remove(k@),
            match old_v {
                Some(x) => old(self)@.contains_key(k@) && x == old(self)@[k@],
                None => !old(self)@.contains_key(k@),
            },
    {
        self.lemma_listing();
        proof {
            use_type_invariant(&*self);
        }
        let ghost before = self.entries@;
        let mut entries = Vec::new();
        std::mem::swap(&mut entries, &mut self.entries);
        let r = match self.find_in(&entries, k) {
            Some(i) => {
                let (_, v) = entries.remove(i);
                proof {
                    let after = entries@;
                    before.remove_ensures(i as int);
                    assert(distinct_keys(after)) by {
                        assert forall|a: int, b: int| 0 <= a < b < after.len() implies #[trigger] after[a].0@
                            != #[trigger] after[b].0@ by {
                            if b < i {
                                assert(after[a] == before[a] && after[b] == before[b]);
                            } else if a < i {
                                assert(after[a] == before[a] && after[b] == before[b + 1]);
                            } else {
                                assert(after[a] == before[a + 1] && after[b] == before[b + 1]);
                            }
                        }
                    }
                    lemma_entries_map(after);
                    lemma_entries_map(before);
                    assert(entries_map(after) =~= entries_map(before).remove(k@)) by {
                        assert forall|key: K::V| #[trigger]
                            entries_map(after).contains_key(key) <==> entries_map(before).remove(
                                k@,
                            ).contains_key(key) by {
                            if entries_map(after).contains_key(key) {
                                let j = choose|j: int| 0 <= j < after.len() && after[j].0@ == key;
                                if j < i {
                                    assert(before[j] == after[j]);
                                    assert(before[j].0@ != before[i as int].0@);
                                } else {
                                    assert(before[j + 1] == after[j]);
                                    assert(before[i as int].0@ != before[j + 1].0@);
                                }
                            }
                            if entries_map(before).contains_key(key) && key != k@ {
                                let j = choose|j: int| 0 <= j < before.len() && before[j].0@ == key;
                                if j < i {
                                    assert(after[j] == before[j]);
                                } else {
                                    assert(j != i);
                                    assert(after[j - 1] == before[j]);
                                }
                            }
                        }
                        assert forall|key: K::V| #[trigger]
                            entries_map(after).contains_key(key) implies entries_map(after)[key]
                            == entries_map(before).remove(k@)[key] by {
                            let j = choose|j: int| 0 <= j < after.len() && after[j].0@ == key;
                            if j < i {
                                assert(before[j] == after[j]);
                            } else {
                                assert(before[j + 1] == after[j]);
                            }
                        }
                    }
                }
                Some(v)
            },
            None => {
                proof {
                    assert(entries_map(before) =~= entries_map(before).remove(k@));
                }
                None
            },
        };
        self.entries = entries;
        r
    }

    fn find_in(&self, entries: &Vec<(K, V)>, k: &K) -> (r: Option<usize>)
        requires
            distinct_keys(entries@),
        ensures
            match r {
                Some(i) => i < entries@.len() && entries@[i as int].0@ == k@,
                None => !entries_map(entries@).contains_key(k@),
            },
    {
        let mut i: usize = 0;
        while i < entries.len()
            invariant
                i <= entries@.len(),
                forall|j: int| 0 <= j < i ==> #[trigger] entries@[j].0@ != k@,
            decreases entries@.len() - i,
        {
            if entries[i].0.same_key(k) {
                return Some(i);
            }
            i = i + 1;
        }
        None
    }
}

impl<K: MapKey, V> View for AssocMap<K, V> {
    type V = Map<K::V, V>;

    closed spec fn view(&self) -> Map<K::V, V> {
        entries_map(self.entries@)
    }
}

/// A map's contents are those its listing holds.
pub proof fn lemma_view_of_listing<K: MapKey, V>(m: AssocMap<K, V>)
    ensures
        m@ == entries_map(m.listing()),
{
}

impl<K: MapKey, V: Copy> AssocMap<K, V> {
    /// A copy of the map.
    pub fn duplicate(&self) -> (r: AssocMap<K, V>)
        ensures
            r@ == self@,
    {
        self.lemma_listing();
        let ghost l = self.listing();
        let mut r: AssocMap<K, V> = AssocMap::new();
        let mut i: usize = 0;
        while i < self.len()
            invariant
                i <= l.len(),
                l == self.listing(),
                distinct_keys(l),
                forall|j: int| 0 <= j < i ==> #[trigger] r@.contains_key(l[j].0@) && r@[l[j].0@] == l[j].1,
                forall|k: K::V| #[trigger] r@.contains_key(k) ==> exists|j: int| 0 <= j < i && l[j].0@ == k,
            decreases l.len() - i,
        {
            let entry = self.entry_at(i);
            let key = entry.0.copy_key();
            let ghost before = r@;
            r.insert(key, entry.1);
            proof {
                assert forall|j: int| 0 <= j < i + 1 implies #[trigger] r@.contains_key(l[j].0@) && r@[l[j].0@] == l[j].1 by {
                    if j < i {
                        assert(l[j].0@ != l[i as int].0@);
                    }
                }
                assert forall|k: K::V| #[trigger] r@.contains_key(k) implies exists|j: int| 0 <= j < i + 1 && l[j].0@ == k by {
                    if k != l[i as int].0@ {
                        assert(before.contains_key(k));
                    }
                }
            }
            i = i + 1;
        }
        proof {
            assert(r@ =~= self@) by {
                assert forall|k: K::V| r@.contains_key(k) <==> self@.contains_key(k) by {
                    if self@.contains_key(k) {
                        let j = choose|j: int| 0 <= j < l.len() && l[j].0@ == k;
                        assert(r@.contains_key(l[j].0@));
                    }
                }
                assert forall|k: K::V| r@.contains_key(k) implies r@[k] == self@[k] by {
                    let j = choose|j: int| 0 <= j < i && l[j].0@ == k;
                    assert(r@.contains_key(l[j].0@));
                }
            }
        }
        r
    }
}

} // verus!
