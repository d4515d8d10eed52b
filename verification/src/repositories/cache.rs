use vstd::prelude::*;
use vstd::string::*;
use vstd::utf8::encode_utf8;
use crate::keyed::{KeyedMap, LookupKey};
use crate::repositories::memory_cache::{get_result, put_result, CacheEntry, MemoryCache};
use crate::time_span::TimeSpan;

verus! {

/// Keys that entities are cached under.
pub trait CacheKey {}

impl CacheKey for String {}

impl CacheKey for u64 {}

impl CacheKey for i64 {}

impl CacheKey for u32 {}

impl CacheKey for i32 {}

/// What a cache offers: get, put, remove and clear, at a time given in
/// milliseconds.
pub trait CacheStrategy<V> {
    /// The cache's parts are well formed.
    spec fn inv(&self) -> bool;

    /// Get a value from the cache.
    fn get(&mut self, key: &String, now: u64) -> (r: Option<V>)
        requires
            old(self).inv(),
        ensures
            final(self).inv();

    /// Put a value in the cache.
    fn put(&mut self, key: String, value: V, now: u64)
        requires
            old(self).inv(),
        ensures
            final(self).inv();

    /// Remove a value from the cache.
    fn remove(&mut self, key: &String)
        requires
            old(self).inv(),
        ensures
            final(self).inv();

    /// Clear the cache.
    fn clear(&mut self)
        requires
            old(self).inv(),
        ensures
            final(self).inv();

    /// The number of entries in the cache.
    fn len(&self) -> usize
        requires
            self.inv();
}

impl<V: Clone> CacheStrategy<V> for MemoryCache<V> {
    open spec fn inv(&self) -> bool {
        self.wf()
    }

    fn get(&mut self, key: &String, now: u64) -> (r: Option<V>)
        ensures
            get_result(old(self).contents(), old(self).time_to_live(), key@, now, r, final(self).contents()),
            final(self).capacity() == old(self).capacity(),
            final(self).time_to_live() == old(self).time_to_live(),
    {
        MemoryCache::get(self, key, now)
    }

    fn put(&mut self, key: String, value: V, now: u64)
        ensures
            put_result(old(self).contents(), old(self).capacity(), old(self).time_to_live(), key@, value, now, final(self).contents()),
            final(self).capacity() == old(self).capacity(),
            final(self).time_to_live() == old(self).time_to_live(),
    {
        MemoryCache::put(self, key, value, now)
    }

    fn remove(&mut self, key: &String)
        ensures
            final(self).contents() == old(self).contents().remove((0int, key@)),
            final(self).capacity() == old(self).capacity(),
            final(self).time_to_live() == old(self).time_to_live(),
    {
        MemoryCache::remove(self, key)
    }

    fn clear(&mut self)
        ensures
            final(self).contents() == Map::<(int, Seq<char>), CacheEntry<V>>::empty(),
            final(self).capacity() == old(self).capacity(),
            final(self).time_to_live() == old(self).time_to_live(),
    {
        MemoryCache::clear(self)
    }

    fn len(&self) -> (r: usize)
        ensures
            r == self.contents().dom().len(),
    {
        MemoryCache::len(self)
    }
}

/// Cache factory for creating caches.
#[derive(Debug)]
pub struct CacheFactory;

impl CacheFactory {
    /// Create an empty memory cache.
    pub fn memory_cache<V: Clone>(max_entries: usize, ttl: Option<TimeSpan>) -> (r: MemoryCache<V>)
        ensures
            r.wf(),
            r.contents() == Map::<(int, Seq<char>), CacheEntry<V>>::empty(),
            r.capacity() == max_entries,
            r.time_to_live() == ttl,
    {
        MemoryCache::new(max_entries, ttl)
    }
}

/// The eight bytes of `n` in little-endian order.
pub open spec fn u64_le_bytes(n: nat) -> Seq<u8> {
    Seq::new(8, |i: int| ((n / vstd::arithmetic::power::pow(256, i as nat) as nat) % 256) as u8)
}

/// What bincode's default options make of a string: its length in UTF-8
/// bytes as a little-endian `u64`, then the bytes.
pub open spec fn bincode_string(s: Seq<char>) -> Seq<u8> {
    u64_le_bytes(encode_utf8(s).len()) + encode_utf8(s)
}

/// Serializes a string with `bincode::serialize`. With bincode 1's default
/// options a string is written as its length in UTF-8 bytes, a little-endian
/// `u64`, followed by those bytes; the size limit is unbounded and the writer
/// is a `Vec`, so the call does not fail.
#[verifier::external_body]
fn bincode_serialize_string(s: &String) -> (r: Option<Vec<u8>>)
    ensures
        r is Some,
        r->0@ == bincode_string(s@),
{
    match bincode::serialize(s) {
        Ok(bytes) => Some(bytes),
        Err(_) => None,
    }
}

/// The MD5 digest of a byte sequence, as `md5::compute` gives it.
pub uninterp spec fn md5_digest(data: Seq<u8>) -> Seq<u8>;

/// Computes the MD5 digest of `data` with `md5::compute`: the digest's 16
/// bytes, which the name `md5_digest` stands for.
#[verifier::external_body]
fn md5_compute(data: &Vec<u8>) -> (r: Vec<u8>)
    ensures
        r@ == md5_digest(data@),
        r@.len() == 16,
{
    md5::compute(data).0.to_vec()
}

/// The lowercase hexadecimal digit of `d`.
pub open spec fn hex_digit(d: u8) -> char {
    if d < 10 { ((d + 48) as u8) as char } else { ((d + 87) as u8) as char }
}

/// Each byte as two lowercase hexadecimal digits, as `{:02x}` writes it.
pub open spec fn hex_text(bytes: Seq<u8>) -> Seq<char>
    decreases bytes.len(),
{
    if bytes.len() == 0 {
        Seq::empty()
    } else {
        hex_text(bytes.drop_last()).push(hex_digit(bytes.last() / 16)).push(hex_digit(bytes.last() % 16))
    }
}

fn hex_digit_str(d: u8) -> (r: &'static str)
    requires
        d < 16,
    ensures
        r@ == seq![hex_digit(d)],
{
    proof {
        reveal_strlit("0"); reveal_strlit("1"); reveal_strlit("2"); reveal_strlit("3");
        reveal_strlit("4"); reveal_strlit("5"); reveal_strlit("6"); reveal_strlit("7");
        reveal_strlit("8"); reveal_strlit("9"); reveal_strlit("a"); reveal_strlit("b");
        reveal_strlit("c"); reveal_strlit("d"); reveal_strlit("e"); reveal_strlit("f");
    }
    if d == 0 { "0" } else if d == 1 { "1" } else if d == 2 { "2" } else if d == 3 { "3" }
    else if d == 4 { "4" } else if d == 5 { "5" } else if d == 6 { "6" } else if d == 7 { "7" }
    else if d == 8 { "8" } else if d == 9 { "9" } else if d == 10 { "a" } else if d == 11 { "b" }
    else if d == 12 { "c" } else if d == 13 { "d" } else if d == 14 { "e" } else { "f" }
}

/// The bytes in lowercase hexadecimal, two digits each.
pub fn hex_lower(bytes: &Vec<u8>) -> (r: String)
    ensures
        r@ == hex_text(bytes@),
{
    let mut s = String::new();
    let mut i: usize = 0;
    assert(bytes@.take(0) =~= Seq::<u8>::empty());
    while i < bytes.len()
        invariant
            i <= bytes@.len(),
            s@ == hex_text(bytes@.take(i as int)),
        decreases bytes@.len() - i,
    {
        let b = bytes[i];
        s.append(hex_digit_str(b / 16));
        s.append(hex_digit_str(b % 16));
        proof {
            let t = bytes@.take(i + 1);
            assert(t.drop_last() =~= bytes@.take(i as int));
            assert(t.last() == b);
        }
        i = i + 1;
    }
    assert(bytes@.take(i as int) =~= bytes@);
    s
}

/// The name of the file that holds the entry of `key`: the MD5 digest of the
/// key's bincode form, in lowercase hexadecimal.
pub open spec fn key_file_name(key: Seq<char>) -> Seq<char> {
    hex_text(md5_digest(bincode_string(key)))
}

/// The file name under which a disk cache keeps the entry of `key`.
pub fn key_path(key: &String) -> (r: String)
    ensures
        r@ == key_file_name(key@),
        r@.len() == 32,
{
    let bytes = match bincode_serialize_string(key) {
        Some(b) => b,
        None => Vec::new(),
    };
    let digest = md5_compute(&bytes);
    proof { lemma_hex_len(digest@); }
    hex_lower(&digest)
}

/// Two digits a byte.
proof fn lemma_hex_len(bytes: Seq<u8>)
    ensures
        hex_text(bytes).len() == 2 * bytes.len(),
    decreases bytes.len(),
{
    if bytes.len() > 0 {
        lemma_hex_len(bytes.drop_last());
    }
}

/// The index of a disk cache: the keys it holds, each with the time its
/// entry was written, in milliseconds. The files themselves are read and
/// written by the caller, under the names `key_path` gives.
#[derive(Debug)]
pub struct DiskCache {
    /// Cache directory
    cache_dir: String,
    /// Time-to-live for entries
    ttl: Option<TimeSpan>,
    /// When each key was written
    index: KeyedMap<String, u64>,
}

/// Whether an entry written at `created` has outlived `ttl` at `now`: it is
/// older than the time-to-live.
pub open spec fn disk_expired(created: u64, now: u64, ttl: Option<TimeSpan>) -> bool {
    match ttl {
        None => false,
        Some(t) => now >= created && now - created > t.millis,
    }
}

/// `name` is the file name of a key of `written` whose entry has outlived
/// `ttl` at `now`.
pub open spec fn names_expired(written: Map<(int, Seq<char>), u64>, now: u64, ttl: Option<TimeSpan>, name: Seq<char>) -> bool {
    exists|k: (int, Seq<char>)|
        #[trigger] written.dom().contains(k) && disk_expired(written[k], now, ttl) && name == key_file_name(k.1)
}

impl DiskCache {
    pub closed spec fn wf(&self) -> bool {
        self.index.wf()
    }

    /// The cache directory.
    pub closed spec fn dir(&self) -> Seq<char> {
        self.cache_dir@
    }

    /// The time-to-live of entries.
    pub closed spec fn time_to_live(&self) -> Option<TimeSpan> {
        self.ttl
    }

    /// When each key held was written, by key.
    pub closed spec fn written(&self) -> Map<(int, Seq<char>), u64> {
        self.index.view_map()
    }

    /// Create an empty disk cache index for the directory.
    pub fn new(cache_dir: String, ttl: Option<TimeSpan>) -> (r: Self)
        ensures
            r.wf(),
            r.written() == Map::<(int, Seq<char>), u64>::empty(),
            r.dir() == cache_dir@,
            r.time_to_live() == ttl,
    {
        DiskCache { cache_dir, ttl, index: KeyedMap::new() }
    }

    /// Drops the keys whose entries have outlived the time-to-live at `now`.
    /// Returns the names of the files to delete.
    pub fn evict_expired(&mut self, now: u64) -> (r: Vec<String>)
        requires
            old(self).wf(),
        ensures
            final(self).wf(),
            final(self).dir() == old(self).dir(),
            final(self).time_to_live() == old(self).time_to_live(),
            final(self).written() == old(self).written().restrict(
                old(self).written().dom().filter(|k: (int, Seq<char>)| !disk_expired(old(self).written()[k], now, old(self).time_to_live())),
            ),
            forall|i: int| 0 <= i < r@.len() ==> names_expired(old(self).written(), now, old(self).time_to_live(), (#[trigger] r@[i])@),
    {
        let ghost before = self.index.view_map();
        let ghost keep = before.dom().filter(|k: (int, Seq<char>)| !disk_expired(before[k], now, self.ttl));
        let mut kept: KeyedMap<String, u64> = KeyedMap::new();
        let mut files: Vec<String> = Vec::new();
        let mut i: usize = 0;
        while i < self.index.len()
            invariant
                self.index.wf(),
                self.index.view_map() == before,
                kept.wf(),
                i <= self.index.entry_seq().len(),
                keep == before.dom().filter(|k: (int, Seq<char>)| !disk_expired(before[k], now, self.ttl)),
                kept.view_map() == before.restrict(keep.intersect(Set::new(|k: (int, Seq<char>)|
                    exists|j: int| 0 <= j < i && #[trigger] self.index.entry_seq()[j].0.lookup_key() == k))),
                forall|a: int| 0 <= a < files@.len() ==> names_expired(before, now, self.ttl, (#[trigger] files@[a])@),
            decreases self.index.entry_seq().len() - i,
        {
            let e = self.index.entry_at(i);
            proof { self.index.lemma_entry_in_view(i as int); }
            let ghost k = e.0.lookup_key();
            let ghost prev = kept.view_map();
            let expired = match self.ttl {
                None => false,
                Some(t) => now >= e.1 && now - e.1 > t.millis,
            };
            if expired {
                let name = key_path(&e.0);
                files.push(name);
                assert(before.dom().contains(k) && disk_expired(before[k], now, self.ttl));
            } else {
                kept.insert(e.0.clone(), e.1);
            }
            let ghost upto = Set::new(|kk: (int, Seq<char>)|
                exists|j: int| 0 <= j < i + 1 && #[trigger] self.index.entry_seq()[j].0.lookup_key() == kk);
            assert(kept.view_map() =~= before.restrict(keep.intersect(upto))) by {
                assert(upto.contains(k));
                assert forall|kk| #[trigger] upto.contains(kk) && kk != k implies
                    exists|j: int| 0 <= j < i && #[trigger] self.index.entry_seq()[j].0.lookup_key() == kk by {
                    let j = choose|j: int| 0 <= j < i + 1 && #[trigger] self.index.entry_seq()[j].0.lookup_key() == kk;
                    assert(j != i);
                }
            }
            i = i + 1;
        }
        assert(keep.intersect(Set::new(|k: (int, Seq<char>)|
            exists|j: int| 0 <= j < i && #[trigger] self.index.entry_seq()[j].0.lookup_key() == k)) =~= keep);
        self.index = kept;
        files
    }

    /// The cache directory.
    pub fn cache_dir(&self) -> (r: &String)
        ensures
            r@ == self.dir(),
    {
        &self.cache_dir
    }

    /// Whether the index holds `key`.
    pub fn contains(&self, key: &String) -> (r: bool)
        requires
            self.wf(),
        ensures
            r == self.written().dom().contains((0int, key@)),
    {
        self.index.contains(key)
    }

    /// Records that the entry of `key` was written at `now`.
    pub fn record_put(&mut self, key: String, now: u64)
        requires
            old(self).wf(),
        ensures
            final(self).wf(),
            final(self).written() == old(self).written().insert((0int, key@), now),
            final(self).dir() == old(self).dir(),
            final(self).time_to_live() == old(self).time_to_live(),
    {
        self.index.insert(key, now);
    }

    /// Drops `key` from the index.
    pub fn remove(&mut self, key: &String)
        requires
            old(self).wf(),
        ensures
            final(self).wf(),
            final(self).written() == old(self).written().remove((0int, key@)),
            final(self).dir() == old(self).dir(),
            final(self).time_to_live() == old(self).time_to_live(),
    {
        let _ = self.index.remove(key);
    }

    /// Empties the index.
    pub fn clear(&mut self)
        ensures
            final(self).wf(),
            final(self).written() == Map::<(int, Seq<char>), u64>::empty(),
            final(self).dir() == old(self).dir(),
            final(self).time_to_live() == old(self).time_to_live(),
    {
        self.index = KeyedMap::new();
    }

    /// The number of keys held.
    pub fn len(&self) -> (r: usize)
        requires
            self.wf(),
        ensures
            r == self.written().dom().len(),
    {
        proof { self.index.lemma_dom_len(); }
        self.index.len()
    }
}

/// The second step of a read from a hybrid cache, once its memory tier has
/// missed: the value read from the disk tier, if any, is kept in the memory
/// tier at `now` (a clone of it) and returned.
pub fn promote_from_disk<V: Clone>(memory: &mut MemoryCache<V>, key: &String, disk_value: Option<V>, now: u64)
    -> (r: Option<V>)
    requires
        old(memory).wf(),
    ensures
        final(memory).wf(),
        final(memory).capacity() == old(memory).capacity(),
        final(memory).time_to_live() == old(memory).time_to_live(),
        r == disk_value,
        disk_value is None ==> final(memory).contents() == old(memory).contents(),
        disk_value matches Some(v) ==> exists|c: V| #[trigger] cloned(v, c)
            && put_result(old(memory).contents(), old(memory).capacity(), old(memory).time_to_live(), key@, c, now,
                final(memory).contents()),
{
    match disk_value {
        Some(v) => {
            let c = v.clone();
            let ghost cg = c;
            assert(cloned(v, cg));
            let k = key.clone();
            memory.put(k, c, now);
            assert(put_result(old(memory).contents(), old(memory).capacity(), old(memory).time_to_live(), key@, cg, now,
                memory.contents()));
            Some(v)
        },
        None => None,
    }
}

} // verus!
