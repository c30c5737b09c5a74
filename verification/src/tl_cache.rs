//! A bounded per-thread cache of parsed fonts.
//!
//! Fonts are keyed by a 64-bit FNV-1a hash of the first 64 bytes of their
//! data, a cheap identity approximation that tells different font files
//! apart without hashing the entire file.  The cache keeps at most
//! [`TL_CACHE_CAP`] fonts and evicts the least recently used one.

use vstd::prelude::*;
use crate::font::{fontdue_parses, LoadedFont};

verus! {

/// FNV-1a 64-bit offset basis.
pub const FNV_OFFSET_BASIS: u64 = 0xcbf29ce484222325;

/// FNV-1a 64-bit prime.
pub const FNV_PRIME: u64 = 0x00000100000001b3;

/// Per-thread capacity of the font cache.
pub const TL_CACHE_CAP: usize = 32;

/// One FNV-1a step: xor the byte in, then multiply by the prime modulo 2^64.
pub open spec fn fnv1a_step(h: u64, b: u8) -> u64 {
    (((h ^ (b as u64)) as nat * FNV_PRIME as nat) % 0x1_0000_0000_0000_0000) as u64
}

/// The FNV-1a 64-bit hash of `bytes`.
pub open spec fn fnv1a(bytes: Seq<u8>) -> u64
    decreases bytes.len(),
{
    if bytes.len() == 0 {
        FNV_OFFSET_BASIS
    } else {
        fnv1a_step(fnv1a(bytes.drop_last()), bytes.last())
    }
}

/// The bytes that identify a font: its first 64 bytes, or all of it if it
/// is shorter.
pub open spec fn key_sample(data: Seq<u8>) -> Seq<u8> {
    if data.len() <= 64 {
        data
    } else {
        data.take(64)
    }
}

/// The cache key of font data.
pub open spec fn spec_font_data_key(data: Seq<u8>) -> u64 {
    fnv1a(key_sample(data))
}

/// Hash the first 64 bytes of font data (FNV-1a, 64 bits) as a cheap
/// identity key.
pub fn font_data_key(data: &[u8]) -> (r: u64)
    ensures
        r == spec_font_data_key(data@),
{
    let n: usize = if data.len() < 64 { data.len() } else { 64 };
    let ghost sample = key_sample(data@);
    assert(sample =~= data@.take(n as int));
    let mut h: u64 = FNV_OFFSET_BASIS;
    let mut i: usize = 0;
    assert(data@.take(0) =~= Seq::<u8>::empty());
    while i < n
        invariant
            i <= n,
            n <= data@.len(),
            h == fnv1a(data@.take(i as int)),
        decreases n - i,
    {
        let b: u8 = data[i];
        h = h ^ (b as u64);
        h = h.wrapping_mul(FNV_PRIME);
        assert(data@.take(i + 1).drop_last() =~= data@.take(i as int));
        i = i + 1;
    }
    h
}

/// Two font data with the same first 64 bytes (or, if shorter, the same
/// bytes) get the same cache key.
pub proof fn lemma_key_depends_on_sample_only(a: Seq<u8>, b: Seq<u8>)
    requires
        key_sample(a) == key_sample(b),
    ensures
        spec_font_data_key(a) == spec_font_data_key(b),
{
}

/// `lru::LruCache`, a bounded least-recently-used map; opaque to the proofs
/// except through the names and wrappers below.
#[verifier::external_type_specification]
#[verifier::external_body]
#[verifier::reject_recursive_types(K)]
#[verifier::reject_recursive_types(V)]
#[verifier::reject_recursive_types(S)]
pub struct ExLruCache<K, V, S>(lru::LruCache<K, V, S>);

/// `lru::DefaultHasher`, the hasher type an `LruCache` uses by default.
#[verifier::external_type_specification]
#[verifier::external_body]
pub struct ExLruDefaultHasher(lru::DefaultHasher);

/// An LRU cache of parsed fonts keyed by their data's hash.
pub type FontLru = lru::LruCache<u64, LoadedFont>;

/// `e` has an entry for key `k`.
pub open spec fn has_key(e: Seq<(u64, Seq<u8>)>, k: u64) -> bool {
    exists|i: int| 0 <= i < e.len() && #[trigger] e[i].0 == k
}

/// The position of the entry for key `k` in `e` (meaningful when `e` has
/// one).
pub open spec fn key_index(e: Seq<(u64, Seq<u8>)>, k: u64) -> int {
    choose|i: int| 0 <= i < e.len() && #[trigger] e[i].0 == k
}

/// No key occurs twice in `e`.
pub open spec fn keys_distinct(e: Seq<(u64, Seq<u8>)>) -> bool {
    forall|i: int, j: int| 0 <= i < j < e.len() ==> #[trigger] e[i].0 != #[trigger] e[j].0
}

/// `e` after its entry for `k` has become the most recently used one (moved
/// to the end).
pub open spec fn touched(e: Seq<(u64, Seq<u8>)>, k: u64) -> Seq<(u64, Seq<u8>)> {
    let i = key_index(e, k);
    e.remove(i).push(e[i])
}

/// `e` after a new entry `(k, v)` has been added as the most recently used
/// one, in a cache of capacity `cap`: when the cache is full (it holds `cap`
/// entries, at least one), the least recently used entry (the first) is
/// evicted to make room.
pub open spec fn added(e: Seq<(u64, Seq<u8>)>, cap: nat, k: u64, v: Seq<u8>) -> Seq<(u64, Seq<u8>)> {
    (if e.len() == cap && e.len() > 0 {
        e.drop_first()
    } else {
        e
    }).push((k, v))
}

/// `e` after `(k, v)` has been put into a cache of capacity `cap`: an entry
/// for `k` gets the value `v` and becomes the most recently used; otherwise
/// the entry is added.
pub open spec fn put_entry(e: Seq<(u64, Seq<u8>)>, cap: nat, k: u64, v: Seq<u8>) -> Seq<(u64, Seq<u8>)> {
    if has_key(e, k) {
        e.remove(key_index(e, k)).push((k, v))
    } else {
        added(e, cap, k, v)
    }
}

/// The entries of a cache from the least to the most recently used: each
/// key with the bytes its cached font was parsed from.
pub uninterp spec fn lru_entries(cache: FontLru) -> Seq<(u64, Seq<u8>)>;

/// The capacity a cache was made with.
pub uninterp spec fn lru_capacity(cache: FontLru) -> nat;

/// `LruCache::new(NonZeroUsize::new(cap).unwrap())`.
///
/// Trusted: an empty cache with capacity `cap`.
#[verifier::external_body]
fn lru_new(cap: usize) -> (r: FontLru)
    requires
        cap > 0,
    ensures
        lru_entries(r) == Seq::<(u64, Seq<u8>)>::empty(),
        lru_capacity(r) == cap,
{
    lru::LruCache::new(std::num::NonZeroUsize::new(cap).unwrap())
}

/// `LruCache::contains(&key)`.
///
/// Trusted: whether the cache holds an entry for `key`; the recency order is
/// not touched.
#[verifier::external_body]
fn lru_contains(cache: &FontLru, key: u64) -> (r: bool)
    ensures
        r == has_key(lru_entries(*cache), key),
{
    cache.contains(&key)
}

/// `LruCache::put(key, font)`, dropping the replaced value.
///
/// Trusted: an existing entry for `key` gets the new font and moves to the
/// most recently used end; otherwise the entry is added there, and when the
/// cache holds as many entries as its capacity the least recently used entry
/// is evicted first.  The capacity is unchanged.
#[verifier::external_body]
fn lru_put(cache: &mut FontLru, key: u64, font: LoadedFont)
    ensures
        lru_capacity(*final(cache)) == lru_capacity(*old(cache)),
        lru_entries(*final(cache)) == put_entry(lru_entries(*old(cache)), lru_capacity(*old(cache)), key, font@),
{
    cache.put(key, font);
}

/// `LruCache::get(&key).cloned()`.
///
/// Trusted: the font cached under `key` (a clone), or `None` if there is
/// none.  A found entry becomes the most recently used; otherwise the cache
/// is unchanged.  The capacity is unchanged.
#[verifier::external_body]
fn lru_get_cloned(cache: &mut FontLru, key: u64) -> (r: Option<LoadedFont>)
    ensures
        lru_capacity(*final(cache)) == lru_capacity(*old(cache)),
        r.is_some() == has_key(lru_entries(*old(cache)), key),
        r matches Some(f) ==> f@ == lru_entries(*old(cache))[key_index(lru_entries(*old(cache)), key)].1,
        lru_entries(*final(cache)) == if r is Some {
            touched(lru_entries(*old(cache)), key)
        } else {
            lru_entries(*old(cache))
        },
{
    cache.get(&key).cloned()
}

/// A bounded cache of parsed fonts keyed by [`font_data_key`].
pub struct FontCache {
    cache: FontLru,
}

impl FontCache {
    /// The cached fonts from the least to the most recently used: each key
    /// with the bytes its font was parsed from.
    pub closed spec fn entries(&self) -> Seq<(u64, Seq<u8>)> {
        lru_entries(self.cache)
    }

    /// The most fonts the cache holds.
    pub closed spec fn capacity(&self) -> nat {
        lru_capacity(self.cache)
    }

    /// The capacity is positive, the cache holds no more fonts than its
    /// capacity, and each key once.
    pub open spec fn wf(&self) -> bool {
        &&& self.capacity() > 0
        &&& self.entries().len() <= self.capacity()
        &&& keys_distinct(self.entries())
    }

    /// What a lookup of `data` in cache state `before` leaves (`after`) and
    /// returns (`r`):
    /// - empty data: `None`, cache unchanged;
    /// - a font cached under the data's key: that font, whose entry becomes
    ///   the most recently used;
    /// - otherwise the data is parsed; if fontdue refuses it, `None` and the
    ///   cache unchanged, else the new font, added as the most recently used
    ///   entry (evicting the least recently used one if the cache is full).
    pub open spec fn spec_lookup(before: FontCache, data: Seq<u8>, after: FontCache, r: Option<LoadedFont>) -> bool {
        let key = spec_font_data_key(data);
        let e = before.entries();
        &&& after.capacity() == before.capacity()
        &&& if data.len() == 0 {
            r is None && after.entries() == e
        } else if has_key(e, key) {
            &&& r matches Some(f) && f@ == e[key_index(e, key)].1
            &&& after.entries() == touched(e, key)
        } else if !fontdue_parses(data) {
            r is None && after.entries() == e
        } else {
            &&& r matches Some(f) && f@ == data
            &&& after.entries() == added(e, before.capacity(), key, data)
        }
    }

    /// An empty cache holding at most `capacity` fonts.
    pub fn new(capacity: usize) -> (r: FontCache)
        requires
            capacity > 0,
        ensures
            r.entries() == Seq::<(u64, Seq<u8>)>::empty(),
            r.capacity() == capacity,
            r.wf(),
    {
        FontCache { cache: lru_new(capacity) }
    }

    /// Get or create the font for `face_data`.
    ///
    /// On the first call for a given font (identified by the hash of its
    /// first 64 bytes) the font is parsed and cached; later calls return a
    /// clone of the cached font.  Returns `None` if the data is empty or
    /// fontdue fails to parse it.
    pub fn get_or_parse(&mut self, face_data: &[u8]) -> (r: Option<LoadedFont>)
        ensures
            Self::spec_lookup(*old(self), face_data@, *final(self), r),
    {
        if face_data.len() == 0 {
            return None;
        }
        let key: u64 = font_data_key(face_data);
        if !lru_contains(&self.cache, key) {
            let font = match LoadedFont::from_bytes(face_data) {
                Some(f) => f,
                None => return None,
            };
            let ghost e = lru_entries(self.cache);
            let ghost cap = lru_capacity(self.cache);
            lru_put(&mut self.cache, key, font);
            proof {
                lemma_added_ends_with_only(e, cap, key, face_data@);
            }
        }
        lru_get_cloned(&mut self.cache, key)
    }
}

/// Adding a new key puts its entry last and nowhere else, so making it the
/// most recently used changes nothing.
proof fn lemma_added_ends_with_only(e: Seq<(u64, Seq<u8>)>, cap: nat, k: u64, v: Seq<u8>)
    requires
        !has_key(e, k),
    ensures
        has_key(added(e, cap, k, v), k),
        key_index(added(e, cap, k, v), k) == added(e, cap, k, v).len() - 1,
        touched(added(e, cap, k, v), k) == added(e, cap, k, v),
{
    let a = added(e, cap, k, v);
    let last = a.len() - 1;
    assert(a[last].0 == k);
    assert forall|i: int| 0 <= i < last implies #[trigger] a[i].0 != k by {
        if e.len() == cap && e.len() > 0 {
            assert(a[i] == e.drop_first()[i]);
            assert(e.drop_first()[i] == e[i + 1]);
        } else {
            assert(a[i] == e[i]);
        }
    }
    let j = key_index(a, k);
    assert(j == last);
    assert(a.remove(last).push(a[last]) =~= a);
}

/// Where `e` has an entry for `k`, [`key_index`] is its position; if no key
/// occurs twice, it is the only position holding `k`.
proof fn lemma_key_index(e: Seq<(u64, Seq<u8>)>, k: u64)
    requires
        has_key(e, k),
    ensures
        0 <= key_index(e, k) < e.len(),
        e[key_index(e, k)].0 == k,
        keys_distinct(e) ==> forall|i: int| 0 <= i < e.len() && #[trigger] e[i].0 == k ==> i == key_index(e, k),
{
    let j = key_index(e, k);
    assert forall|i: int| keys_distinct(e) && 0 <= i < e.len() && #[trigger] e[i].0 == k implies i == j by {
        if i < j {
            assert(e[i].0 != e[j].0);
        } else if j < i {
            assert(e[j].0 != e[i].0);
        }
    }
}

/// A lookup that finds or makes a font leaves its entry as the most
/// recently used one.
pub proof fn lemma_lookup_makes_most_recent(before: FontCache, data: Seq<u8>, after: FontCache, r: Option<LoadedFont>)
    requires
        FontCache::spec_lookup(before, data, after, r),
        r is Some,
    ensures
        after.entries().len() > 0,
        after.entries().last() == (spec_font_data_key(data), r.unwrap()@),
{
    let e = before.entries();
    let key = spec_font_data_key(data);
    if has_key(e, key) {
        lemma_key_index(e, key);
    }
}

/// A lookup keeps a well-formed cache well formed: the capacity is
/// unchanged, never exceeded, and no key is cached twice.
pub proof fn lemma_lookup_keeps_wf(before: FontCache, data: Seq<u8>, after: FontCache, r: Option<LoadedFont>)
    requires
        before.wf(),
        FontCache::spec_lookup(before, data, after, r),
    ensures
        after.wf(),
        after.capacity() == before.capacity(),
{
    let e = before.entries();
    let key = spec_font_data_key(data);
    let a = after.entries();
    if data.len() == 0 || !has_key(e, key) && !fontdue_parses(data) {
    } else if has_key(e, key) {
        lemma_key_index(e, key);
        let i = key_index(e, key);
        let rest = e.remove(i);
        assert(a == rest.push(e[i]));
        assert forall|p: int, q: int| 0 <= p < q < a.len() implies #[trigger] a[p].0 != #[trigger] a[q].0 by {
            let ip = if p < i { p } else { p + 1 };
            assert(a[p] == e[ip]);
            if q == a.len() - 1 {
                assert(a[q] == e[i]);
                assert(ip != i);
                if ip < i {
                    assert(e[ip].0 != e[i].0);
                } else {
                    assert(e[i].0 != e[ip].0);
                }
            } else {
                let iq = if q < i { q } else { q + 1 };
                assert(a[q] == e[iq]);
                assert(ip < iq);
            }
        }
    } else {
        let cap = before.capacity();
        let base = if e.len() == cap && e.len() > 0 { e.drop_first() } else { e };
        assert(a == base.push((key, data)));
        assert forall|p: int, q: int| 0 <= p < q < a.len() implies #[trigger] a[p].0 != #[trigger] a[q].0 by {
            let ip = if e.len() == cap && e.len() > 0 { p + 1 } else { p };
            assert(a[p] == e[ip]);
            if q == a.len() - 1 {
                assert(a[q].0 == key);
                assert(!(e[ip].0 == key));
            } else {
                let iq = if e.len() == cap && e.len() > 0 { q + 1 } else { q };
                assert(a[q] == e[iq]);
            }
        }
    }
}

/// Once a lookup has produced a font, looking the same data up again returns
/// a font parsed from the same bytes and leaves the cache as it was.
pub proof fn lemma_lookup_again_hits(
    c0: FontCache,
    c1: FontCache,
    c2: FontCache,
    data: Seq<u8>,
    r1: Option<LoadedFont>,
    r2: Option<LoadedFont>,
)
    requires
        c0.wf(),
        FontCache::spec_lookup(c0, data, c1, r1),
        FontCache::spec_lookup(c1, data, c2, r2),
        r1 is Some,
    ensures
        r2 is Some,
        r2.unwrap()@ == r1.unwrap()@,
        c2.entries() == c1.entries(),
{
    lemma_lookup_keeps_wf(c0, data, c1, r1);
    lemma_lookup_makes_most_recent(c0, data, c1, r1);
    let e = c1.entries();
    let key = spec_font_data_key(data);
    let last = e.len() - 1;
    assert(e[last].0 == key);
    assert(has_key(e, key));
    lemma_key_index(e, key);
    assert(key_index(e, key) == last);
    assert(e.remove(last).push(e[last]) =~= e);
}

} // verus!
