use vstd::prelude::*;

verus! {

/// Keys by which the library's small maps find their entries again: two keys
/// denote the same entry exactly when their `lookup_key`s are equal.
pub trait LookupKey {
    spec fn lookup_key(&self) -> (int, Seq<char>);

    fn same_key(&self, other: &Self) -> (r: bool)
        ensures
            r == (self.lookup_key() == other.lookup_key());
}

impl LookupKey for String {
    open spec fn lookup_key(&self) -> (int, Seq<char>) {
        (0, self@)
    }

    fn same_key(&self, other: &Self) -> (r: bool) {
        *self == *other
    }
}

/// A map held as a vector of entries whose keys are pairwise distinct.
#[derive(Debug)]
pub struct KeyedMap<K, V> {
    entries: Vec<(K, V)>,
}

impl<K: LookupKey, V> KeyedMap<K, V> {
    /// The keys are pairwise distinct.
    pub closed spec fn wf(&self) -> bool {
        forall|i: int, j: int|
            0 <= i < j < self.entries@.len() ==> (#[trigger] self.entries@[i]).0.lookup_key()
                != (#[trigger] self.entries@[j]).0.lookup_key()
    }

    /// The entries, in the order in which they were first inserted.
    pub closed spec fn entry_seq(&self) -> Seq<(K, V)> {
        self.entries@
    }

    /// The map from each key to its value.
    pub open spec fn view_map(&self) -> Map<(int, Seq<char>), V> {
        Map::new(
            |k: (int, Seq<char>)| exists|i: int| 0 <= i < self.entry_seq().len() && #[trigger] self.entry_seq()[i].0.lookup_key() == k,
            |k: (int, Seq<char>)| self.entry_seq()[self.index_of_spec(k)].1,
        )
    }

    /// The position of the entry with key `k`.
    pub closed spec fn index_of_spec(&self, k: (int, Seq<char>)) -> int {
        choose|i: int| 0 <= i < self.entries@.len() && #[trigger] self.entries@[i].0.lookup_key() == k
    }

    pub fn new() -> (r: Self)
        ensures
            r.wf(),
            r.view_map() == Map::<(int, Seq<char>), V>::empty(),
            r.entry_seq().len() == 0,
    {
        let r = KeyedMap { entries: Vec::new() };
        assert(r.view_map() =~= Map::<(int, Seq<char>), V>::empty());
        r
    }

    fn find(&self, key: &K) -> (r: Option<usize>)
        requires
            self.wf(),
        ensures
            match r {
                Some(i) => i < self.entries@.len() && self.entries@[i as int].0.lookup_key()
                    == key.lookup_key() && self.index_of_spec(key.lookup_key()) == i,
                None => !self.view_map().dom().contains(key.lookup_key()),
            },
    {
        let mut i: usize = 0;
        while i < self.entries.len()
            invariant
                self.wf(),
                i <= self.entries@.len(),
                forall|j: int| 0 <= j < i ==> (#[trigger] self.entries@[j]).0.lookup_key() != key.lookup_key(),
            decreases self.entries@.len() - i,
        {
            if self.entries[i].0.same_key(key) {
                assert(self.entries@[i as int].0.lookup_key() == key.lookup_key());
                proof {
                    let k = key.lookup_key();
                    let c = self.index_of_spec(k);
                    assert(0 <= c < self.entries@.len() && self.entries@[c].0.lookup_key() == k);
                    if c != i as int {
                        if c < i as int {
                            assert(self.entries@[c].0.lookup_key() != key.lookup_key());
                        } else {
                            assert(self.entries@[i as int].0.lookup_key() != self.entries@[c].0.lookup_key());
                        }
                    }
                }
                return Some(i);
            }
            i = i + 1;
        }
        None
    }

    /// The value stored under `key`, if any.
    pub fn get(&self, key: &K) -> (r: Option<&V>)
        requires
            self.wf(),
        ensures
            match r {
                Some(v) => self.view_map().dom().contains(key.lookup_key()) && *v == self.view_map()[key.lookup_key()],
                None => !self.view_map().dom().contains(key.lookup_key()),
            },
    {
        match self.find(key) {
            Some(i) => {
                assert(self.view_map().dom().contains(key.lookup_key()));
                Some(&self.entries[i].1)
            },
            None => None,
        }
    }

    /// Whether an entry is stored under `key`.
    pub fn contains(&self, key: &K) -> (r: bool)
        requires
            self.wf(),
        ensures
            r == self.view_map().dom().contains(key.lookup_key()),
    {
        match self.find(key) {
            Some(i) => {
                assert(self.view_map().dom().contains(key.lookup_key()));
                true
            },
            None => false,
        }
    }

    /// The number of entries.
    pub fn len(&self) -> (r: usize)
        ensures
            r == self.entry_seq().len(),
    {
        self.entries.len()
    }

    /// The entry at position `i` is what the map gives for its key.
    pub proof fn lemma_entry_in_view(&self, i: int)
        requires
            self.wf(),
            0 <= i < self.entry_seq().len(),
        ensures
            self.view_map().dom().contains(self.entry_seq()[i].0.lookup_key()),
            self.view_map()[self.entry_seq()[i].0.lookup_key()] == self.entry_seq()[i].1,
            self.index_of_spec(self.entry_seq()[i].0.lookup_key()) == i,
    {
        let k = self.entries@[i].0.lookup_key();
        assert(self.view_map().dom().contains(k));
        let c = self.index_of_spec(k);
        assert(0 <= c < self.entries@.len() && self.entries@[c].0.lookup_key() == k);
        if c < i {
            assert(self.entries@[c].0.lookup_key() != self.entries@[i].0.lookup_key());
        } else if c > i {
            assert(self.entries@[i].0.lookup_key() != self.entries@[c].0.lookup_key());
        }
    }

    /// The keys of the entries, in order.
    pub open spec fn key_seq(&self) -> Seq<(int, Seq<char>)> {
        self.entry_seq().map_values(|e: (K, V)| e.0.lookup_key())
    }

    /// The map has as many keys as entries.
    pub proof fn lemma_dom_len(&self)
        requires
            self.wf(),
        ensures
            self.view_map().dom().finite(),
            self.view_map().dom().len() == self.entry_seq().len(),
    {
        let ks = self.key_seq();
        assert(ks.no_duplicates()) by {
            assert forall|i: int, j: int| 0 <= i < ks.len() && 0 <= j < ks.len() && i != j implies ks[i] != ks[j] by {
                if i < j {
                    assert(self.entries@[i].0.lookup_key() != self.entries@[j].0.lookup_key());
                } else {
                    assert(self.entries@[j].0.lookup_key() != self.entries@[i].0.lookup_key());
                }
            }
        }
        assert(self.view_map().dom() =~= ks.to_set()) by {
            assert forall|k| self.view_map().dom().contains(k) implies ks.to_set().contains(k) by {
                let i = choose|i: int| 0 <= i < self.entry_seq().len() && #[trigger] self.entry_seq()[i].0.lookup_key() == k;
                assert(ks[i] == k);
            }
            assert forall|k| ks.to_set().contains(k) implies self.view_map().dom().contains(k) by {
                let i = choose|i: int| 0 <= i < ks.len() && ks[i] == k;
                assert(self.entry_seq()[i].0.lookup_key() == k);
            }
        }
        ks.unique_seq_to_set();
    }

    /// Stores `value` under `key`, replacing what was stored under it; a new key
    /// goes after all others.
    pub fn insert(&mut self, key: K, value: V)
        requires
            old(self).wf(),
        ensures
            final(self).wf(),
            final(self).view_map() == old(self).view_map().insert(key.lookup_key(), value),
            final(self).entry_seq().len() == old(self).entry_seq().len()
                + if old(self).view_map().dom().contains(key.lookup_key()) { 0int } else { 1int },
    {
        let ghost k = key.lookup_key();
        match self.find(&key) {
            Some(i) => {
                let ghost old_entries = self.entries@;
                self.entries.set(i, (key, value));
                assert(self.entries@ == old_entries.update(i as int, (key, value)));
                assert(self.wf()) by {
                    assert forall|a: int, b: int| 0 <= a < b < self.entries@.len() implies
                        (#[trigger] self.entries@[a]).0.lookup_key() != (#[trigger] self.entries@[b]).0.lookup_key() by {
                        assert(old_entries[a].0.lookup_key() != old_entries[b].0.lookup_key());
                    }
                }
                proof { self.lemma_view_after_update(old_entries, *old(self), i as int); }
            },
            None => {
                let ghost old_entries = self.entries@;
                self.entries.push((key, value));
                assert(self.wf()) by {
                    assert forall|a: int, b: int| 0 <= a < b < self.entries@.len() implies
                        (#[trigger] self.entries@[a]).0.lookup_key() != (#[trigger] self.entries@[b]).0.lookup_key() by {
                        if b == old_entries.len() {
                            old(self).lemma_entry_in_view(a);
                        } else {
                            assert(old_entries[a].0.lookup_key() != old_entries[b].0.lookup_key());
                        }
                    }
                }
                proof {
                    let n = old_entries.len() as int;
                    let newm = self.view_map();
                    let want = old(self).view_map().insert(k, value);
                    assert forall|kk: (int, Seq<char>)| newm.dom().contains(kk) == want.dom().contains(kk) by {
                        if newm.dom().contains(kk) {
                            let j = choose|j: int| 0 <= j < self.entries@.len() && #[trigger] self.entries@[j].0.lookup_key() == kk;
                            if j < n {
                                assert(old_entries[j] == self.entries@[j]);
                                old(self).lemma_entry_in_view(j);
                            }
                        }
                        if want.dom().contains(kk) && kk != k {
                            let j = choose|j: int| 0 <= j < old_entries.len() && #[trigger] old_entries[j].0.lookup_key() == kk;
                            assert(self.entries@[j] == old_entries[j]);
                        }
                        if kk == k {
                            assert(self.entries@[n].0.lookup_key() == kk);
                        }
                    }
                    assert forall|kk: (int, Seq<char>)| newm.dom().contains(kk) implies newm[kk] == want[kk] by {
                        let j = choose|j: int| 0 <= j < self.entries@.len() && #[trigger] self.entries@[j].0.lookup_key() == kk;
                        self.lemma_entry_in_view(j);
                        if j < n {
                            assert(old_entries[j] == self.entries@[j]);
                            old(self).lemma_entry_in_view(j);
                        }
                    }
                    assert(newm =~= want);
                }
            },
        }
    }

    proof fn lemma_view_after_update(&self, old_entries: Seq<(K, V)>, old_map: Self, i: int)
        requires
            self.wf(),
            old_map.wf(),
            old_map.entries@ == old_entries,
            0 <= i < old_entries.len(),
            self.entries@.len() == old_entries.len(),
            forall|j: int| 0 <= j < old_entries.len() && j != i ==> self.entries@[j] == old_entries[j],
            self.entries@[i].0.lookup_key() == old_entries[i].0.lookup_key(),
        ensures
            self.view_map() == old_map.view_map().insert(self.entries@[i].0.lookup_key(), self.entries@[i].1),
    {
        let k = self.entries@[i].0.lookup_key();
        let newm = self.view_map();
        let want = old_map.view_map().insert(k, self.entries@[i].1);
        assert forall|kk: (int, Seq<char>)| newm.dom().contains(kk) == want.dom().contains(kk) by {
            if newm.dom().contains(kk) {
                let j = choose|j: int| 0 <= j < self.entries@.len() && #[trigger] self.entries@[j].0.lookup_key() == kk;
                if j != i {
                    assert(old_entries[j] == self.entries@[j]);
                    old_map.lemma_entry_in_view(j);
                }
            }
            if want.dom().contains(kk) {
                if kk == k {
                    self.lemma_entry_in_view(i);
                } else {
                    let j = choose|j: int| 0 <= j < old_entries.len() && #[trigger] old_entries[j].0.lookup_key() == kk;
                    assert(self.entries@[j] == old_entries[j]);
                    self.lemma_entry_in_view(j);
                }
            }
        }
        assert forall|kk: (int, Seq<char>)| newm.dom().contains(kk) implies newm[kk] == want[kk] by {
            let j = choose|j: int| 0 <= j < self.entries@.len() && #[trigger] self.entries@[j].0.lookup_key() == kk;
            self.lemma_entry_in_view(j);
            if j != i {
                assert(old_entries[j] == self.entries@[j]);
                old_map.lemma_entry_in_view(j);
            }
        }
        assert(newm =~= want);
    }

    /// Takes out the entry stored under `key`, if any.
    pub fn remove(&mut self, key: &K) -> (r: Option<V>)
        requires
            old(self).wf(),
        ensures
            final(self).wf(),
            final(self).view_map() == old(self).view_map().remove(key.lookup_key()),
            final(self).entry_seq().len() == old(self).entry_seq().len()
                - if old(self).view_map().dom().contains(key.lookup_key()) { 1int } else { 0int },
            match r {
                Some(v) => old(self).view_map().dom().contains(key.lookup_key()) && v == old(self).view_map()[key.lookup_key()],
                None => !old(self).view_map().dom().contains(key.lookup_key()),
            },
    {
        match self.find(key) {
            Some(i) => {
                let ghost old_entries = self.entries@;
                proof { old(self).lemma_entry_in_view(i as int); }
                let (_k, v) = self.entries.remove(i);
                let ghost k = key.lookup_key();
                assert(self.entries@ == old_entries.remove(i as int));
                assert(self.wf()) by {
                    assert forall|a: int, b: int| 0 <= a < b < self.entries@.len() implies
                        (#[trigger] self.entries@[a]).0.lookup_key() != (#[trigger] self.entries@[b]).0.lookup_key() by {
                        let oa = if a < i { a } else { a + 1 };
                        let ob = if b < i { b } else { b + 1 };
                        assert(old_entries[oa].0.lookup_key() != old_entries[ob].0.lookup_key());
                    }
                }
                proof {
                    let newm = self.view_map();
                    let want = old(self).view_map().remove(k);
                    assert forall|kk: (int, Seq<char>)| newm.dom().contains(kk) == want.dom().contains(kk) by {
                        if newm.dom().contains(kk) {
                            let j = choose|j: int| 0 <= j < self.entries@.len() && #[trigger] self.entries@[j].0.lookup_key() == kk;
                            let oj = if j < i { j } else { j + 1 };
                            assert(self.entries@[j] == old_entries[oj]);
                            old(self).lemma_entry_in_view(oj);
                            if kk == k {
                                assert(old_entries[oj].0.lookup_key() == old_entries[i as int].0.lookup_key());
                                if oj < i { assert(old_entries[oj].0.lookup_key() != old_entries[i as int].0.lookup_key()); }
                                else { assert(old_entries[i as int].0.lookup_key() != old_entries[oj].0.lookup_key()); }
                            }
                        }
                        if want.dom().contains(kk) {
                            let oj = choose|j: int| 0 <= j < old_entries.len() && #[trigger] old_entries[j].0.lookup_key() == kk;
                            assert(oj != i);
                            let j = if oj < i { oj } else { oj - 1 };
                            assert(self.entries@[j] == old_entries[oj]);
                        }
                    }
                    assert forall|kk: (int, Seq<char>)| newm.dom().contains(kk) implies newm[kk] == want[kk] by {
                        let j = choose|j: int| 0 <= j < self.entries@.len() && #[trigger] self.entries@[j].0.lookup_key() == kk;
                        self.lemma_entry_in_view(j);
                        let oj = if j < i { j } else { j + 1 };
                        assert(self.entries@[j] == old_entries[oj]);
                        old(self).lemma_entry_in_view(oj);
                    }
                    assert(newm =~= want);
                }
                Some(v)
            },
            None => {
                assert(old(self).view_map().remove(key.lookup_key()) =~= old(self).view_map());
                None
            },
        }
    }

    /// The value stored under `key`, to change in place, if any.
    pub fn get_mut(&mut self, key: &K) -> (r: Option<&mut V>)
        requires
            old(self).wf(),
        ensures
            r is None ==> !old(self).view_map().dom().contains(key.lookup_key()) && *final(self) == *old(self),
            r is Some ==> old(self).view_map().dom().contains(key.lookup_key()),
            r is Some ==> *r->0 == old(self).view_map()[key.lookup_key()],
            r is Some ==> final(self).wf(),
            r is Some ==> final(self).entry_seq().len() == old(self).entry_seq().len(),
            r is Some ==> final(self).key_seq() == old(self).key_seq(),
            r is Some ==> final(self).view_map() == old(self).view_map().insert(key.lookup_key(), *final(r->0)),
    {
        match self.find(key) {
            Some(i) => {
                proof {
                    self.lemma_entry_in_view(i as int);
                    Self::lemma_set_value(*self, i as int);
                }
                Some(&mut self.entries[i].1)
            },
            None => None,
        }
    }

    /// Changing the value of the entry at position `i` keeps the keys
    /// distinct and changes the map at that key alone.
    proof fn lemma_set_value(m: Self, i: int)
        requires
            m.wf(),
            0 <= i < m.entries@.len(),
        ensures
            forall|m2: Self|
                #![trigger m2.wf()]
                #![trigger m2.view_map()]
                m2.entries@.len() == m.entries@.len() && m2.entries@[i].0 == m.entries@[i].0
                    && (forall|j: int| 0 <= j < m.entries@.len() && j != i ==> m2.entries@[j] == m.entries@[j])
                    ==> m2.wf()
                    && m2.view_map() == m.view_map().insert(m.entries@[i].0.lookup_key(), m2.entries@[i].1)
                    && m2.key_seq() == m.key_seq(),
    {
        assert forall|m2: Self|
            m2.entries@.len() == m.entries@.len() && m2.entries@[i].0 == m.entries@[i].0
                && (forall|j: int| 0 <= j < m.entries@.len() && j != i ==> m2.entries@[j] == m.entries@[j])
            implies #[trigger] m2.wf()
                && m2.view_map() == m.view_map().insert(m.entries@[i].0.lookup_key(), m2.entries@[i].1)
                && m2.key_seq() == m.key_seq() by {
            assert forall|a: int, b: int| 0 <= a < b < m2.entries@.len() implies
                (#[trigger] m2.entries@[a]).0.lookup_key() != (#[trigger] m2.entries@[b]).0.lookup_key() by {
                assert(m.entries@[a].0.lookup_key() != m.entries@[b].0.lookup_key());
                if a != i {
                    assert(m2.entries@[a] == m.entries@[a]);
                }
                if b != i {
                    assert(m2.entries@[b] == m.entries@[b]);
                }
            }
            m2.lemma_view_after_update(m.entries@, m, i);
            assert(m2.key_seq() =~= m.key_seq()) by {
                assert forall|j: int| 0 <= j < m2.key_seq().len() implies m2.key_seq()[j] == m.key_seq()[j] by {
                    if j != i {
                        assert(m2.entries@[j] == m.entries@[j]);
                    }
                }
            }
        }
    }

    /// The keys at two positions differ.
    pub proof fn lemma_key_seq_distinct(&self, i: int, j: int)
        requires
            self.wf(),
            0 <= i < self.entry_seq().len(),
            0 <= j < self.entry_seq().len(),
            i != j,
        ensures
            self.key_seq()[i] != self.key_seq()[j],
    {
        if i < j {
            assert(self.entries@[i].0.lookup_key() != self.entries@[j].0.lookup_key());
        } else {
            assert(self.entries@[j].0.lookup_key() != self.entries@[i].0.lookup_key());
        }
    }

    /// The entry at position `i`.
    pub fn entry_at(&self, i: usize) -> (r: &(K, V))
        requires
            i < self.entry_seq().len(),
        ensures
            *r == self.entry_seq()[i as int],
    {
        &self.entries[i]
    }
}

impl KeyedMap<String, String> {
    /// A copy of the map with the same entries in the same order.
    pub fn duplicate(&self) -> (r: Self)
        requires
            self.wf(),
        ensures
            r.wf(),
            r.entry_seq() == self.entry_seq(),
            r.view_map() == self.view_map(),
    {
        let mut entries: Vec<(String, String)> = Vec::new();
        let mut i: usize = 0;
        while i < self.entries.len()
            invariant
                i <= self.entries@.len(),
                entries@ == self.entries@.subrange(0, i as int),
            decreases self.entries@.len() - i,
        {
            let k = self.entries[i].0.clone();
            let v = self.entries[i].1.clone();
            entries.push((k, v));
            i = i + 1;
        }
        assert(entries@ == self.entries@);
        KeyedMap { entries }
    }
}


impl LookupKey for u128 {
    open spec fn lookup_key(&self) -> (int, Seq<char>) {
        (*self as int, Seq::empty())
    }

    fn same_key(&self, other: &Self) -> (r: bool) {
        *self == *other
    }
}

} // verus!
