use vstd::prelude::*;
use crate::keyed::{KeyedMap, LookupKey};
use crate::time_span::TimeSpan;

verus! {

/// Cache entry with metadata; times are in milliseconds.
#[derive(Debug)]
pub struct CacheEntry<V> {
    /// The cached value
    pub value: V,
    /// When the entry was created
    pub created_at: u64,
    /// When the entry was last accessed
    pub last_accessed: u64,
    /// Number of times the entry has been accessed
    pub access_count: u64,
}

/// Milliseconds from `then` to `now`, or 0 when `now` comes first.
pub open spec fn age(then: u64, now: u64) -> int {
    if now >= then { now - then } else { 0 }
}

/// An entry is fresh at `now` when it has no time-to-live or is younger than it.
pub open spec fn is_fresh<V>(e: CacheEntry<V>, now: u64, ttl: Option<TimeSpan>) -> bool {
    match ttl {
        None => true,
        Some(t) => age(e.created_at, now) < t.millis,
    }
}

/// The entries of `m` that are fresh at `now`.
pub open spec fn fresh_part<V>(m: Map<(int, Seq<char>), CacheEntry<V>>, now: u64, ttl: Option<TimeSpan>) -> Map<(int, Seq<char>), CacheEntry<V>> {
    Map::new(|k: (int, Seq<char>)| m.dom().contains(k) && is_fresh(m[k], now, ttl), |k: (int, Seq<char>)| m[k])
}

/// Key `k` is the key of one of the first `n` strings of `keys`.
pub open spec fn listed(keys: Seq<String>, n: int, k: (int, Seq<char>)) -> bool {
    exists|m: int| 0 <= m < n && k == (0int, #[trigger] keys[m]@)
}

/// The smaller of two integers.
pub open spec fn min_int(a: int, b: int) -> int {
    if a <= b { a } else { b }
}

/// How many entries a full cache of capacity `max` drops: a tenth, at least one.
pub open spec fn eviction_count(max: usize) -> int {
    if max / 10 >= 1 { (max / 10) as int } else { 1 }
}

/// `after` is what dropping least recently used entries of `before` may leave:
/// entries of `before`, none accessed later than an entry that was dropped,
/// `dropped` fewer of them.
pub open spec fn lru_dropped<V>(before: Map<(int, Seq<char>), CacheEntry<V>>, after: Map<(int, Seq<char>), CacheEntry<V>>) -> bool {
    &&& after.submap_of(before)
    &&& forall|a: (int, Seq<char>), b: (int, Seq<char>)|
        before.dom().contains(a) && !after.dom().contains(a) && #[trigger] after.dom().contains(b)
            ==> #[trigger] before[a].last_accessed <= after[b].last_accessed
}

/// `kept` is what making room in `m` for one more entry may leave: all of `m`
/// when it holds fewer than `cap` entries, else `m` without the least recently
/// used `eviction_count(cap)` entries (all of them, if it has fewer).
pub open spec fn room_made<V>(m: Map<(int, Seq<char>), CacheEntry<V>>, kept: Map<(int, Seq<char>), CacheEntry<V>>, cap: usize) -> bool {
    &&& lru_dropped(m, kept)
    &&& m.dom().len() < cap ==> kept == m
    &&& m.dom().len() >= cap ==> kept.dom().len() == m.dom().len() - min_int(eviction_count(cap), m.dom().len() as int)
}

/// The entry that a put at time `now` stores.
pub open spec fn new_entry<V>(value: V, now: u64) -> CacheEntry<V> {
    CacheEntry { value, created_at: now, last_accessed: now, access_count: 0 }
}

/// `after` is what a put of `value` under `key` at time `now` leaves of a cache
/// holding `before`: stale entries are gone, room is made, and the new entry
/// is stored.
pub open spec fn put_result<V>(
    before: Map<(int, Seq<char>), CacheEntry<V>>,
    cap: usize,
    ttl: Option<TimeSpan>,
    key: Seq<char>,
    value: V,
    now: u64,
    after: Map<(int, Seq<char>), CacheEntry<V>>,
) -> bool {
    exists|kept: Map<(int, Seq<char>), CacheEntry<V>>|
        #[trigger] room_made(fresh_part(before, now, ttl), kept, cap)
        && after == kept.insert((0int, key), new_entry(value, now))
}

/// `r` and `after` are what a get of `key` at time `now` returns and leaves of
/// a cache holding `before`: stale entries are gone; a fresh entry under `key`
/// is handed out (cloned) and records the access.
pub open spec fn get_result<V: Clone>(
    before: Map<(int, Seq<char>), CacheEntry<V>>,
    ttl: Option<TimeSpan>,
    key: Seq<char>,
    now: u64,
    r: Option<V>,
    after: Map<(int, Seq<char>), CacheEntry<V>>,
) -> bool {
    let m = fresh_part(before, now, ttl);
    let k = (0int, key);
    if m.dom().contains(k) {
        &&& r is Some
        &&& cloned(m[k].value, r->0)
        &&& after == m.insert(k, CacheEntry {
            value: m[k].value,
            created_at: m[k].created_at,
            last_accessed: now,
            access_count: if m[k].access_count < u64::MAX { (m[k].access_count + 1) as u64 } else { u64::MAX },
        })
    } else {
        &&& r is None
        &&& after == m
    }
}

/// Memory cache strategy: string keys, values of type `V`, a capacity and an
/// optional time-to-live. Time is passed in as milliseconds.
#[derive(Debug)]
pub struct MemoryCache<V> {
    /// The cache entries
    entries: KeyedMap<String, CacheEntry<V>>,
    /// Maximum number of entries
    max_entries: usize,
    /// Time-to-live for entries
    ttl: Option<TimeSpan>,
}

impl<V: Clone> MemoryCache<V> {
    pub closed spec fn wf(&self) -> bool {
        self.entries.wf()
    }

    /// The entries, by key.
    pub closed spec fn contents(&self) -> Map<(int, Seq<char>), CacheEntry<V>> {
        self.entries.view_map()
    }

    /// The number of entries.
    pub closed spec fn size(&self) -> int {
        self.entries.entry_seq().len() as int
    }

    pub closed spec fn capacity(&self) -> usize {
        self.max_entries
    }

    pub closed spec fn time_to_live(&self) -> Option<TimeSpan> {
        self.ttl
    }

    /// Create a new memory cache.
    pub fn new(max_entries: usize, ttl: Option<TimeSpan>) -> (r: Self)
        ensures
            r.wf(),
            r.contents() == Map::<(int, Seq<char>), CacheEntry<V>>::empty(),
            r.size() == 0,
            r.capacity() == max_entries,
            r.time_to_live() == ttl,
    {
        MemoryCache { entries: KeyedMap::new(), max_entries, ttl }
    }

    /// The number of entries in the cache.
    pub fn len(&self) -> (r: usize)
        requires
            self.wf(),
        ensures
            r == self.contents().dom().len(),
    {
        proof { self.entries.lemma_dom_len(); }
        self.entries.len()
    }

    /// Whether the cache is empty.
    pub fn is_empty(&self) -> (r: bool)
        requires
            self.wf(),
        ensures
            r == (self.contents().dom().len() == 0),
    {
        self.len() == 0
    }

    /// Drops the entries that are stale at `now`.
    fn evict_expired(&mut self, now: u64)
        requires
            old(self).wf(),
        ensures
            final(self).wf(),
            final(self).contents() == fresh_part(old(self).contents(), now, old(self).time_to_live()),
            final(self).capacity() == old(self).capacity(),
            final(self).time_to_live() == old(self).time_to_live(),
    {
        let ghost start = self.contents();
        let ghost m0 = self.entries;
        let ghost cap = self.max_entries;
        match self.ttl {
            None => {
                assert(fresh_part(start, now, self.ttl) =~= start);
            },
            Some(t) => {
                let mut stale: Vec<String> = Vec::new();
                let n = self.entries.len();
                let mut i: usize = 0;
                while i < n
                    invariant
                        self.wf(),
                        self.entries == m0,
                        self.contents() == start,
                        self.max_entries == cap,
                        self.ttl == Some(t),
                        n == self.entries.entry_seq().len(),
                        i <= n,
                        forall|j: int| 0 <= j < stale@.len() ==> start.dom().contains((0int, #[trigger] stale@[j]@))
                            && !is_fresh(start[(0int, stale@[j]@)], now, self.ttl),
                        forall|x: int| 0 <= x < i && !is_fresh(#[trigger] self.entries.entry_seq()[x].1, now, self.ttl)
                            ==> exists|j: int| 0 <= j < stale@.len() && stale@[j]@ == self.entries.entry_seq()[x].0@,
                    decreases n - i,
                {
                    let e = self.entries.entry_at(i);
                    proof { self.entries.lemma_entry_in_view(i as int); }
                    let created = e.1.created_at;
                    let elapsed = if now >= created { now - created } else { 0 };
                    let ghost prev = stale@;
                    if elapsed >= t.millis {
                        let k = e.0.clone();
                        stale.push(k);
                        assert(stale@[stale@.len() - 1]@ == self.entries.entry_seq()[i as int].0@);
                    }
                    assert forall|x: int| 0 <= x < i + 1 && !is_fresh(#[trigger] self.entries.entry_seq()[x].1, now, self.ttl)
                        implies exists|j: int| 0 <= j < stale@.len() && stale@[j]@ == self.entries.entry_seq()[x].0@ by {
                        if x < i {
                            let j = choose|j: int| 0 <= j < prev.len() && prev[j]@ == self.entries.entry_seq()[x].0@;
                            assert(stale@[j] == prev[j]);
                        } else {
                            assert(stale@[stale@.len() - 1]@ == self.entries.entry_seq()[x].0@);
                        }
                    }
                    i = i + 1;
                }
                let mut j: usize = 0;
                while j < stale.len()
                    invariant
                        self.wf(),
                        self.max_entries == cap,
                        self.ttl == Some(t),
                        j <= stale@.len(),
                        forall|m: int| 0 <= m < stale@.len() ==> start.dom().contains((0int, #[trigger] stale@[m]@))
                            && !is_fresh(start[(0int, stale@[m]@)], now, self.ttl),
                        self.contents() == Map::new(
                            |k: (int, Seq<char>)| start.dom().contains(k) && !listed(stale@, j as int, k),
                            |k: (int, Seq<char>)| start[k],
                        ),
                    decreases stale@.len() - j,
                {
                    let ghost before = self.contents();
                    let _ = self.entries.remove(&stale[j]);
                    assert(self.contents() =~= Map::new(
                        |k: (int, Seq<char>)| start.dom().contains(k) && !listed(stale@, j + 1, k),
                        |k: (int, Seq<char>)| start[k],
                    )) by {
                        assert forall|k: (int, Seq<char>)| #[trigger] listed(stale@, j + 1, k)
                            <==> (listed(stale@, j as int, k) || k == (0int, stale@[j as int]@)) by {
                            if k == (0int, stale@[j as int]@) {
                                assert(stale@[j as int]@ == k.1);
                            }
                            if listed(stale@, j + 1, k) && !listed(stale@, j as int, k) {
                                let m = choose|m: int| 0 <= m < j + 1 && k == (0int, #[trigger] stale@[m]@);
                                assert(m == j);
                            }
                        }
                    }
                    j = j + 1;
                }
                assert(self.contents() =~= fresh_part(start, now, self.ttl)) by {
                    assert forall|k: (int, Seq<char>)| #[trigger] start.dom().contains(k) implies
                        (is_fresh(start[k], now, self.ttl) <==> !listed(stale@, stale@.len() as int, k)) by {
                        if listed(stale@, stale@.len() as int, k) {
                            let m = choose|m: int| 0 <= m < stale@.len() && k == (0int, #[trigger] stale@[m]@);
                        }
                        if !is_fresh(start[k], now, self.ttl) {
                            let x = choose|x: int| 0 <= x < m0.entry_seq().len() && #[trigger] m0.entry_seq()[x].0.lookup_key() == k;
                            m0.lemma_entry_in_view(x);
                            assert(!is_fresh(m0.entry_seq()[x].1, now, self.ttl));
                            let j = choose|j: int| 0 <= j < stale@.len() && stale@[j]@ == m0.entry_seq()[x].0@;
                            assert(k == (0int, stale@[j]@));
                        }
                    }
                }
            },
        }
    }

    /// The position of a least recently used entry.
    fn oldest_index(&self) -> (r: usize)
        requires
            self.wf(),
            self.entries.entry_seq().len() > 0,
        ensures
            r < self.entries.entry_seq().len(),
            forall|k: (int, Seq<char>)| #[trigger] self.contents().dom().contains(k) ==>
                self.entries.entry_seq()[r as int].1.last_accessed <= self.contents()[k].last_accessed,
    {
        let n = self.entries.len();
        let mut best: usize = 0;
        let mut i: usize = 1;
        while i < n
            invariant
                n == self.entries.entry_seq().len(),
                1 <= i <= n,
                best < n,
                forall|x: int| 0 <= x < i ==> self.entries.entry_seq()[best as int].1.last_accessed
                    <= (#[trigger] self.entries.entry_seq()[x]).1.last_accessed,
            decreases n - i,
        {
            if self.entries.entry_at(i).1.last_accessed < self.entries.entry_at(best).1.last_accessed {
                best = i;
            }
            i = i + 1;
        }
        assert forall|k: (int, Seq<char>)| #[trigger] self.contents().dom().contains(k) implies
            self.entries.entry_seq()[best as int].1.last_accessed <= self.contents()[k].last_accessed by {
            let x = choose|x: int| 0 <= x < self.entries.entry_seq().len() && #[trigger] self.entries.entry_seq()[x].0.lookup_key() == k;
            self.entries.lemma_entry_in_view(x);
        }
        best
    }

    /// When the cache holds `capacity` entries or more, drops a tenth of the
    /// capacity (at least one) of its least recently used entries.
    fn evict_if_full(&mut self)
        requires
            old(self).wf(),
        ensures
            final(self).wf(),
            final(self).capacity() == old(self).capacity(),
            final(self).time_to_live() == old(self).time_to_live(),
            lru_dropped(old(self).contents(), final(self).contents()),
            old(self).contents().dom().len() < old(self).capacity() ==> final(self).contents() == old(self).contents(),
            old(self).contents().dom().len() >= old(self).capacity() ==> final(self).contents().dom().len()
                == old(self).contents().dom().len() - min_int(eviction_count(old(self).capacity()), old(self).contents().dom().len() as int),
    {
        let ghost start = self.contents();
        proof { self.entries.lemma_dom_len(); }
        if self.entries.len() >= self.max_entries {
            let to_remove: usize = if self.max_entries / 10 >= 1 { self.max_entries / 10 } else { 1 };
            let ghost cap = self.max_entries;
            let mut removed: usize = 0;
            while removed < to_remove && self.entries.len() > 0
                invariant
                    self.wf(),
                    self.max_entries == cap,
                    self.ttl == old(self).ttl,
                    to_remove == eviction_count(cap),
                    removed <= to_remove,
                    lru_dropped(start, self.contents()),
                    self.entries.entry_seq().len() == start.dom().len() - removed,
                    self.contents().dom().len() == self.entries.entry_seq().len(),
                decreases to_remove - removed,
            {
                let idx = self.oldest_index();
                let key = self.entries.entry_at(idx).0.clone();
                proof { self.entries.lemma_entry_in_view(idx as int); }
                let ghost before = self.contents();
                let ghost oldest = self.entries.entry_seq()[idx as int].1;
                let _ = self.entries.remove(&key);
                proof { self.entries.lemma_dom_len(); }
                assert forall|a: (int, Seq<char>), b: (int, Seq<char>)|
                    start.dom().contains(a) && !self.contents().dom().contains(a) && #[trigger] self.contents().dom().contains(b)
                    implies #[trigger] start[a].last_accessed <= self.contents()[b].last_accessed by {
                    assert(before.dom().contains(b));
                    if before.dom().contains(a) {
                        assert(a == (0int, key@));
                    }
                }
                removed = removed + 1;
            }
        } else {
            assert(lru_dropped(start, self.contents()));
        }
    }

    /// Get a value from the cache at time `now`: stale entries are dropped
    /// first, and a hit records the access.
    pub fn get(&mut self, key: &String, now: u64) -> (r: Option<V>)
        requires
            old(self).wf(),
        ensures
            final(self).wf(),
            final(self).capacity() == old(self).capacity(),
            final(self).time_to_live() == old(self).time_to_live(),
            get_result(old(self).contents(), old(self).time_to_live(), key@, now, r, final(self).contents()),
    {
        self.evict_expired(now);
        let ghost m = self.contents();
        match self.entries.remove(key) {
            Some(e) => {
                let v = e.value.clone();
                let entry = CacheEntry {
                    value: e.value,
                    created_at: e.created_at,
                    last_accessed: now,
                    access_count: if e.access_count < u64::MAX { e.access_count + 1 } else { u64::MAX },
                };
                self.entries.insert(key.clone(), entry);
                assert(self.contents() =~= m.insert((0int, key@), entry));
                Some(v)
            },
            None => {
                assert(self.contents() =~= m);
                None
            },
        }
    }

    /// Put a value in the cache at time `now`: stale entries are dropped, then,
    /// when the cache is full, its least recently used entries, and then the
    /// value is stored under `key` as a new entry.
    pub fn put(&mut self, key: String, value: V, now: u64)
        requires
            old(self).wf(),
        ensures
            final(self).wf(),
            final(self).capacity() == old(self).capacity(),
            final(self).time_to_live() == old(self).time_to_live(),
            put_result(old(self).contents(), old(self).capacity(), old(self).time_to_live(), key@, value, now, final(self).contents()),
    {
        self.evict_expired(now);
        proof { self.entries.lemma_dom_len(); }
        self.evict_if_full();
        let ghost kept = self.contents();
        let ghost k = (0int, key@);
        let entry = CacheEntry { value, created_at: now, last_accessed: now, access_count: 0 };
        let ghost ev = entry;
        self.entries.insert(key, entry);
        assert(room_made(fresh_part(old(self).contents(), now, old(self).time_to_live()), kept, old(self).capacity()));
        assert(self.contents() == kept.insert(k, ev));
        assert(put_result(old(self).contents(), old(self).capacity(), old(self).time_to_live(), key@, ev.value, now, self.contents()));
    }

    /// Remove a value from the cache.
    pub fn remove(&mut self, key: &String)
        requires
            old(self).wf(),
        ensures
            final(self).wf(),
            final(self).contents() == old(self).contents().remove((0int, key@)),
            final(self).capacity() == old(self).capacity(),
            final(self).time_to_live() == old(self).time_to_live(),
    {
        let _ = self.entries.remove(key);
    }

    /// Clear the cache.
    pub fn clear(&mut self)
        requires
            old(self).wf(),
        ensures
            final(self).wf(),
            final(self).contents() == Map::<(int, Seq<char>), CacheEntry<V>>::empty(),
            final(self).capacity() == old(self).capacity(),
            final(self).time_to_live() == old(self).time_to_live(),
    {
        self.entries = KeyedMap::new();
    }
}

/// A read after a write gives back what was written: once `value` is put under
/// `key` at time `t0`, a get of `key` at a later time `t1` returns a clone of
/// it, as long as the entry has not outlived the time-to-live.
pub proof fn law_get_after_put<V: Clone>(
    c0: Map<(int, Seq<char>), CacheEntry<V>>,
    cap: usize,
    ttl: Option<TimeSpan>,
    key: Seq<char>,
    value: V,
    t0: u64,
    c1: Map<(int, Seq<char>), CacheEntry<V>>,
    t1: u64,
    r: Option<V>,
    c2: Map<(int, Seq<char>), CacheEntry<V>>,
)
    requires
        put_result(c0, cap, ttl, key, value, t0, c1),
        get_result(c1, ttl, key, t1, r, c2),
        t0 <= t1,
        ttl is Some ==> t1 - t0 < ttl->0.millis,
    ensures
        r is Some,
        cloned(value, r->0),
{
    let k = (0int, key);
    assert(c1.dom().contains(k) && c1[k] == new_entry(value, t0));
    assert(fresh_part(c1, t1, ttl).dom().contains(k));
}

/// An entry does not outlive its time-to-live: once `value` is put under
/// `key` at time `t0`, a get of `key` at a time `t1` at least the
/// time-to-live later finds nothing.
pub proof fn law_expired_after_ttl<V: Clone>(
    c0: Map<(int, Seq<char>), CacheEntry<V>>,
    cap: usize,
    ttl: TimeSpan,
    key: Seq<char>,
    value: V,
    t0: u64,
    c1: Map<(int, Seq<char>), CacheEntry<V>>,
    t1: u64,
    r: Option<V>,
    c2: Map<(int, Seq<char>), CacheEntry<V>>,
)
    requires
        put_result(c0, cap, Some(ttl), key, value, t0, c1),
        get_result(c1, Some(ttl), key, t1, r, c2),
        t0 <= t1,
        t1 - t0 >= ttl.millis,
    ensures
        r is None,
{
    let k = (0int, key);
    assert(c1.dom().contains(k) && c1[k] == new_entry(value, t0));
    assert(!fresh_part(c1, t1, Some(ttl)).dom().contains(k));
}

/// A removed key is gone: a get right after a remove of `key` finds nothing.
pub proof fn law_get_after_remove<V: Clone>(
    c0: Map<(int, Seq<char>), CacheEntry<V>>,
    ttl: Option<TimeSpan>,
    key: Seq<char>,
    t: u64,
    r: Option<V>,
    c2: Map<(int, Seq<char>), CacheEntry<V>>,
)
    requires
        get_result(c0.remove((0int, key)), ttl, key, t, r, c2),
    ensures
        r is None,
{
}

/// A get never adds an entry: it keeps or refreshes those that are fresh.
pub proof fn law_get_keeps_keys<V: Clone>(
    c0: Map<(int, Seq<char>), CacheEntry<V>>,
    ttl: Option<TimeSpan>,
    key: Seq<char>,
    t: u64,
    r: Option<V>,
    c1: Map<(int, Seq<char>), CacheEntry<V>>,
)
    requires
        get_result(c0, ttl, key, t, r, c1),
    ensures
        c1.dom().subset_of(c0.dom()),
{
}

/// A cache never holds more entries than its capacity: starting within
/// capacity (at least one), a put leaves it within capacity.
pub proof fn law_put_within_capacity<V>(
    c0: Map<(int, Seq<char>), CacheEntry<V>>,
    cap: usize,
    ttl: Option<TimeSpan>,
    key: Seq<char>,
    value: V,
    t: u64,
    c1: Map<(int, Seq<char>), CacheEntry<V>>,
)
    requires
        c0.dom().finite(),
        c0.dom().len() <= cap,
        cap >= 1,
        put_result(c0, cap, ttl, key, value, t, c1),
    ensures
        c1.dom().finite(),
        c1.dom().len() <= cap,
{
    let fp = fresh_part(c0, t, ttl);
    let kept = choose|kept: Map<(int, Seq<char>), CacheEntry<V>>|
        #[trigger] room_made(fp, kept, cap) && c1 == kept.insert((0int, key), new_entry(value, t));
    assert(fp.dom().subset_of(c0.dom()));
    vstd::set_lib::lemma_len_subset(fp.dom(), c0.dom());
    assert(kept.dom().subset_of(fp.dom()));
    vstd::set_lib::lemma_len_subset(kept.dom(), fp.dom());
    assert(c1.dom() == kept.dom().insert((0int, key)));
    if fp.dom().len() >= cap {
        assert(kept.dom().len() < cap);
    }
}

} // verus!
