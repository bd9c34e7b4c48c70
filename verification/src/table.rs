use vstd::prelude::*;
use crate::principal::Principal;
use crate::exchange::ExchangeType;
use crate::types::StrategyType;

verus! {

/// A key that can be compared with another by its view.
pub trait TableKey: View + Sized {
    fn same_key(&self, other: &Self) -> (r: bool)
        ensures
            r == (self@ == other@),
    ;
}

impl TableKey for Principal {
    fn same_key(&self, other: &Self) -> (r: bool) {
        self.equals(other)
    }
}

impl TableKey for String {
    fn same_key(&self, other: &Self) -> (r: bool) {
        *self == *other
    }
}

impl View for StrategyType {
    type V = StrategyType;

    open spec fn view(&self) -> StrategyType {
        *self
    }
}

impl View for ExchangeType {
    type V = ExchangeType;

    open spec fn view(&self) -> ExchangeType {
        *self
    }
}

impl TableKey for ExchangeType {
    fn same_key(&self, other: &Self) -> (r: bool) {
        *self == *other
    }
}

impl TableKey for StrategyType {
    fn same_key(&self, other: &Self) -> (r: bool) {
        *self == *other
    }
}

/// The views of the keys of the entries, in order.
pub open spec fn entry_keys<K: View, V>(s: Seq<(K, V)>) -> Seq<K::V> {
    s.map_values(|e: (K, V)| e.0@)
}

/// The map from each key to the value stored with it.
pub open spec fn entries_map<K: View, V>(s: Seq<(K, V)>) -> Map<K::V, V> {
    Map::new(
        |k: K::V| entry_keys(s).contains(k),
        |k: K::V| s[entry_keys(s).index_of(k)].1,
    )
}

/// A finite map whose entries keep their order of first insertion; no two
/// entries have keys with the same view.
pub struct Table<K: View, V> {
    entries: Vec<(K, V)>,
}

impl<K: View, V> Table<K, V> {
    #[verifier::type_invariant]
    spec fn distinct_keys(self) -> bool {
        entry_keys(self.entries@).no_duplicates()
    }

    /// The entries in their stored order.
    pub closed spec fn entries(self) -> Seq<(K, V)> {
        self.entries@
    }
}

impl<K: View, V> Table<K, V> {
    /// No two entries have keys with the same view.
    pub open spec fn keys_distinct(self) -> bool {
        entry_keys(self.entries()).no_duplicates()
    }

    /// The map view is the map of the entries.
    pub proof fn lemma_view_entries(self)
        ensures
            self@ == entries_map(self.entries()),
    {
    }
}

impl<K: View, V> View for Table<K, V> {
    type V = Map<K::V, V>;

    closed spec fn view(&self) -> Map<K::V, V> {
        entries_map(self.entries@)
    }
}

/// In a sequence without duplicates, the first index of an element is its
/// only index.
pub proof fn lemma_index_of_unique<A>(s: Seq<A>, i: int)
    requires
        s.no_duplicates(),
        0 <= i < s.len(),
    ensures
        s.contains(s[i]),
        s.index_of(s[i]) == i,
{
    assert(s.contains(s[i]));
    let j = s.index_of(s[i]);
    assert(0 <= j < s.len() && s[j] == s[i]);
}

impl<K: TableKey, V> Table<K, V> {
    /// The empty table.
    pub fn new() -> (r: Self)
        ensures
            r@ == Map::<K::V, V>::empty(),
            r.entries().len() == 0,
    {
        let r = Table { entries: Vec::new() };
        assert(entry_keys(r.entries@) =~= Seq::<K::V>::empty());
        assert(r@ =~= Map::<K::V, V>::empty());
        r
    }

    /// The entries agree with the map view: each entry's key maps to its
    /// value, every key of the map has an entry, and there are as many
    /// entries as keys.
    pub proof fn lemma_entries(&self)
        requires
            self.keys_distinct(),
        ensures
            forall|i: int|
                0 <= i < self.entries().len() ==> #[trigger] self@.contains_key(self.entries()[i].0@)
                    && self@[self.entries()[i].0@] == self.entries()[i].1,
            forall|k: K::V|
                #[trigger] self@.contains_key(k) ==> exists|i: int|
                    0 <= i < self.entries().len() && #[trigger] self.entries()[i].0@ == k,
            self@.dom().finite(),
            self@.dom().len() == self.entries().len(),
    {
        let s = self.entries@;
        let ks = entry_keys(s);
        assert forall|i: int| 0 <= i < s.len() implies #[trigger] self@.contains_key(s[i].0@)
            && self@[s[i].0@] == s[i].1 by {
            assert(ks[i] == s[i].0@);
            lemma_index_of_unique(ks, i);
        }
        assert forall|k: K::V| #[trigger] self@.contains_key(k) implies exists|i: int|
            0 <= i < self.entries().len() && #[trigger] self.entries()[i].0@ == k by {
            let i = ks.index_of(k);
            assert(0 <= i < ks.len() && ks[i] == k);
            assert(ks[i] == s[i].0@);
            assert(self.entries()[i].0@ == k);
        }
        assert(self@.dom() =~= ks.to_set());
        ks.unique_seq_to_set();
    }

    /// The position of the entry whose key has the view `k`, if any.
    fn position(&self, k: &K) -> (r: Option<usize>)
        ensures
            r is None ==> !self@.contains_key(k@),
            r matches Some(i) ==> i < self.entries().len() && self.entries()[i as int].0@ == k@
                && self@.contains_key(k@) && self@[k@] == self.entries()[i as int].1,
    {
        proof { use_type_invariant(self); }
        let n = self.entries.len();
        let mut i: usize = 0;
        while i < n
            invariant
                n == self.entries@.len(),
                i <= n,
                entry_keys(self.entries@).no_duplicates(),
                forall|j: int| 0 <= j < i ==> self.entries@[j].0@ != k@,
            decreases n - i,
        {
            if self.entries[i].0.same_key(k) {
                proof {
                    let ks = entry_keys(self.entries@);
                    assert(ks[i as int] == k@);
                    lemma_index_of_unique(ks, i as int);
                }
                return Some(i);
            }
            i = i + 1;
        }
        proof {
            let ks = entry_keys(self.entries@);
            if ks.contains(k@) {
                let j = ks.index_of(k@);
                assert(ks[j] == self.entries@[j].0@);
            }
        }
        None
    }

    /// The value stored under `k`, if any.
    pub fn get(&self, k: &K) -> (r: Option<&V>)
        ensures
            r is Some <==> self@.contains_key(k@),
            r matches Some(v) ==> *v == self@[k@],
    {
        match self.position(k) {
            Some(i) => Some(&self.entries[i].1),
            None => None,
        }
    }

    /// Whether some value is stored under `k`.
    pub fn contains_key(&self, k: &K) -> (r: bool)
        ensures
            r == self@.contains_key(k@),
    {
        self.position(k).is_some()
    }

    /// The number of entries.
    pub fn len(&self) -> (r: usize)
        ensures
            r == self@.dom().len(),
            r == self.entries().len(),
            self@.dom().finite(),
            entry_keys(self.entries()).no_duplicates(),
            self@ == entries_map(self.entries()),
    {
        proof {
            use_type_invariant(self);
            self.lemma_entries();
        }
        self.entries.len()
    }

    /// The key and value of the entry at position `i`.
    pub fn entry_at(&self, i: usize) -> (r: (&K, &V))
        requires
            i < self.entries().len(),
        ensures
            *r.0 == self.entries()[i as int].0,
            *r.1 == self.entries()[i as int].1,
            self@.contains_key(r.0@),
            self@[r.0@] == *r.1,
    {
        proof {
            use_type_invariant(self);
            self.lemma_entries();
        }
        let e = &self.entries[i];
        (&e.0, &e.1)
    }

    /// Stores `v` under `k`, replacing any value stored there; a new key goes
    /// after all existing entries, an existing key keeps its position.
    pub fn insert(&mut self, k: K, v: V)
        ensures
            final(self)@ == old(self)@.insert(k@, v),
            old(self)@.contains_key(k@) ==> final(self).entries().len() == old(self).entries().len(),
            !old(self)@.contains_key(k@) ==> final(self).entries() == old(self).entries().push((k, v)),
    {
        proof { use_type_invariant(&*self); }
        let ghost old_s = self.entries@;
        let ghost kv = k@;
        match self.position(&k) {
            Some(i) => {
                let ghost old_ks = entry_keys(old_s);
                let mut entries: Vec<(K, V)> = Vec::new();
                std::mem::swap(&mut entries, &mut self.entries);
                entries.set(i, (k, v));
                proof {
                    let ks = entry_keys(entries@);
                    assert(ks =~= old_ks.update(i as int, kv));
                    assert(old_ks[i as int] == kv);
                    assert(ks =~= old_ks);
                }
                self.entries = entries;
                proof {
                    let s = self.entries@;
                    let ks = entry_keys(s);
                    assert(ks =~= old_ks.update(i as int, kv));
                    assert(old_ks[i as int] == kv);
                    assert(ks =~= old_ks);
                    assert(entries_map(s) =~= entries_map(old_s).insert(kv, v)) by {
                        assert forall|key: K::V| #[trigger] entries_map(s).contains_key(key)
                            implies entries_map(s)[key] == entries_map(old_s).insert(kv, v)[key] by {
                            let j = ks.index_of(key);
                            assert(ks[j] == key);
                            if key == kv {
                                lemma_index_of_unique(ks, i as int);
                            } else {
                                assert(j != i);
                                assert(old_ks[j] == key);
                            }
                        }
                    }
                }
            },
            None => {
                let ghost old_ks = entry_keys(old_s);
                let mut entries: Vec<(K, V)> = Vec::new();
                std::mem::swap(&mut entries, &mut self.entries);
                entries.push((k, v));
                proof {
                    let s = entries@;
                    let ks = entry_keys(s);
                    assert(ks =~= old_ks.push(kv));
                    assert(!old_ks.contains(kv));
                    assert(ks.no_duplicates()) by {
                        assert forall|a: int, b: int| 0 <= a < ks.len() && 0 <= b < ks.len() && a != b
                            implies ks[a] != ks[b] by {
                            if a == old_ks.len() {
                                assert(ks[b] == old_ks[b]);
                            } else if b == old_ks.len() {
                                assert(ks[a] == old_ks[a]);
                            }
                        }
                    }
                }
                self.entries = entries;
                proof {
                    let s = self.entries@;
                    let ks = entry_keys(s);
                    assert(ks =~= old_ks.push(kv));
                    assert(!old_ks.contains(kv));
                    assert(ks.no_duplicates()) by {
                        assert forall|a: int, b: int| 0 <= a < ks.len() && 0 <= b < ks.len() && a != b
                            implies ks[a] != ks[b] by {
                            if a == old_ks.len() {
                                assert(ks[b] == old_ks[b]);
                            } else if b == old_ks.len() {
                                assert(ks[a] == old_ks[a]);
                            }
                        }
                    }
                    assert(entries_map(s) =~= entries_map(old_s).insert(kv, v)) by {
                        assert forall|key: K::V| #[trigger] entries_map(s).contains_key(key)
                            implies entries_map(s)[key] == entries_map(old_s).insert(kv, v)[key] by {
                            let j = ks.index_of(key);
                            if key == kv {
                                lemma_index_of_unique(ks, old_ks.len() as int);
                            } else {
                                assert(j < old_ks.len());
                                assert(old_ks[j] == key);
                                lemma_index_of_unique(old_ks, j);
                            }
                        }
                        assert forall|key: K::V| entries_map(old_s).insert(kv, v).contains_key(key)
                            implies #[trigger] entries_map(s).contains_key(key) by {
                            if key != kv {
                                let j = old_ks.index_of(key);
                                assert(ks[j] == key);
                            } else {
                                assert(ks[old_ks.len() as int] == kv);
                            }
                        }
                    }
                }
            },
        }
    }
}

impl<K: TableKey, V> Table<K, V> {
    /// Removes the entry stored under `k`, if any, and returns its value; the
    /// other entries keep their order.
    pub fn remove(&mut self, k: &K) -> (r: Option<V>)
        ensures
            final(self)@ == old(self)@.remove(k@),
            r is Some <==> old(self)@.contains_key(k@),
            r matches Some(v) ==> v == old(self)@[k@],
    {
        proof { use_type_invariant(&*self); }
        let ghost old_s = self.entries@;
        let ghost old_ks = entry_keys(old_s);
        let ghost kv = k@;
        match self.position(k) {
            None => {
                proof {
                    assert(entries_map(old_s) =~= entries_map(old_s).remove(kv));
                }
                None
            },
            Some(i) => {
                let mut entries: Vec<(K, V)> = Vec::new();
                std::mem::swap(&mut entries, &mut self.entries);
                let e = entries.remove(i);
                proof {
                    let s = entries@;
                    let ks = entry_keys(s);
                    assert(ks =~= old_ks.remove(i as int));
                    assert(old_ks[i as int] == kv);
                    assert(ks.no_duplicates()) by {
                        assert forall|a: int, b: int| 0 <= a < ks.len() && 0 <= b < ks.len() && a != b
                            implies ks[a] != ks[b] by {
                            let a2 = if a < i { a } else { a + 1 };
                            let b2 = if b < i { b } else { b + 1 };
                            assert(ks[a] == old_ks[a2]);
                            assert(ks[b] == old_ks[b2]);
                        }
                    }
                    assert(!ks.contains(kv)) by {
                        if ks.contains(kv) {
                            let j = ks.index_of(kv);
                            let j2 = if j < i { j } else { j + 1 };
                            assert(ks[j] == old_ks[j2]);
                        }
                    }
                    assert(entries_map(s) =~= entries_map(old_s).remove(kv)) by {
                        assert forall|key: K::V| #[trigger] entries_map(s).contains_key(key)
                            implies entries_map(s)[key] == entries_map(old_s)[key] && key != kv by {
                            let j = ks.index_of(key);
                            assert(ks[j] == key);
                            let j2 = if j < i { j } else { j + 1 };
                            assert(ks[j] == old_ks[j2]);
                            assert(s[j] == old_s[j2]);
                            lemma_index_of_unique(old_ks, j2);
                        }
                        assert forall|key: K::V| entries_map(old_s).remove(kv).contains_key(key)
                            implies #[trigger] entries_map(s).contains_key(key) by {
                            let j2 = old_ks.index_of(key);
                            assert(j2 != i);
                            let j = if j2 < i { j2 } else { j2 - 1 };
                            assert(ks[j] == old_ks[j2]);
                        }
                    }
                }
                self.entries = entries;
                Some(e.1)
            },
        }
    }
}

} // verus!
