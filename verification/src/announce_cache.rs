//! The cache of the data that came with block announcements, kept in a
//! least-recently-used cache of the `lru` crate.

use crate::primitives::BlockHash;
use vstd::prelude::*;

verus! {

/// The least-recently-used cache of the `lru` crate.
#[verifier::external_type_specification]
#[verifier::external_body]
#[verifier::reject_recursive_types(K)]
#[verifier::reject_recursive_types(V)]
#[verifier::reject_recursive_types(S)]
pub struct ExLruCache<K, V, S>(lru::LruCache<K, V, S>);

/// The hasher that an `lru` cache uses unless it is given another.
#[verifier::external_type_specification]
#[verifier::external_body]
pub struct ExDefaultHasher(lru::DefaultHasher);

/// The entries of a cache, from the most recently used to the least.
pub uninterp spec fn cache_entries(cache: &lru::LruCache<[u8; 32], Vec<u8>>) -> Seq<
    ([u8; 32], Seq<u8>),
>;

/// The number of entries that a cache was made to hold at most.
pub uninterp spec fn cache_limit(cache: &lru::LruCache<[u8; 32], Vec<u8>>) -> nat;

/// Largest capacity that a cache is made with: room for that many entries
/// can be reserved on every machine.
pub const MAX_CACHE_CAPACITY: usize = 1048576;

/// Position of the entry for `key`, if there is one.
pub open spec fn entry_position(entries: Seq<([u8; 32], Seq<u8>)>, key: [u8; 32]) -> Option<int> {
    entries.map_values(|e: ([u8; 32], Seq<u8>)| e.0).index_of_first(key)
}

/// The value stored for `key`, if there is one.
pub open spec fn entry_value(entries: Seq<([u8; 32], Seq<u8>)>, key: [u8; 32]) -> Option<Seq<u8>> {
    match entry_position(entries, key) {
        Some(i) => Some(entries[i].1),
        None => None,
    }
}

/// The entries after `value` is put under `key`: the entry becomes the most
/// recently used one; a new key in a full cache drives out the least
/// recently used entry; a cache of capacity zero keeps nothing.
pub open spec fn entries_after_put(
    entries: Seq<([u8; 32], Seq<u8>)>,
    limit: nat,
    key: [u8; 32],
    value: Seq<u8>,
) -> Seq<([u8; 32], Seq<u8>)> {
    match entry_position(entries, key) {
        Some(i) => seq![(key, value)] + entries.remove(i),
        None => if limit == 0 {
            entries
        } else if entries.len() == limit {
            seq![(key, value)] + entries.drop_last()
        } else {
            seq![(key, value)] + entries
        },
    }
}

/// `lru::LruCache::new`: the cache starts empty and remembers the capacity it
/// was made with. The call reserves room for `cap` entries at once, so `cap`
/// is kept small enough for the size of that room to be computed without
/// overflow.
#[verifier::external_body]
fn lru_new(cap: usize) -> (cache: lru::LruCache<[u8; 32], Vec<u8>>)
    requires
        cap <= MAX_CACHE_CAPACITY,
    ensures
        cache_entries(&cache) == Seq::<([u8; 32], Seq<u8>)>::empty(),
        cache_limit(&cache) == cap,
{
    lru::LruCache::new(cap)
}

/// `lru::LruCache::put`: an existing key gets the new value, moves to the
/// front and its old value is returned; a new key goes to the front, after
/// the least recently used entry has left a full cache, and `None` is
/// returned; a cache of capacity zero stays empty.
#[verifier::external_body]
fn lru_put(cache: &mut lru::LruCache<[u8; 32], Vec<u8>>, key: [u8; 32], value: Vec<u8>) -> (prev:
    Option<Vec<u8>>)
    ensures
        cache_limit(final(cache)) == cache_limit(old(cache)),
        cache_entries(final(cache)) == entries_after_put(
            cache_entries(old(cache)),
            cache_limit(old(cache)),
            key,
            value@,
        ),
        match prev {
            Some(v) => entry_value(cache_entries(old(cache)), key) == Some(v@),
            None => entry_value(cache_entries(old(cache)), key).is_none(),
        },
{
    cache.put(key, value)
}

/// `lru::LruCache::peek`: the value under the key, without touching the
/// order of the entries.
#[verifier::external_body]
fn lru_peek(cache: &lru::LruCache<[u8; 32], Vec<u8>>, key: &[u8; 32]) -> (found: Option<Vec<u8>>)
    ensures
        match found {
            Some(v) => entry_value(cache_entries(cache), *key) == Some(v@),
            None => entry_value(cache_entries(cache), *key).is_none(),
        },
{
    cache.peek(key).cloned()
}

/// `lru::LruCache::len`: the number of entries.
#[verifier::external_body]
fn lru_len(cache: &lru::LruCache<[u8; 32], Vec<u8>>) -> (n: usize)
    ensures
        n == cache_entries(cache).len(),
{
    cache.len()
}

/// Data that came with block announcements, by block hash.
pub struct AnnounceCache {
    inner: lru::LruCache<[u8; 32], Vec<u8>>,
}

impl AnnounceCache {
    /// The entries, from the most recently used to the least, each keyed by
    /// the bytes of its block hash.
    pub closed spec fn view(&self) -> Seq<([u8; 32], Seq<u8>)> {
        cache_entries(&self.inner)
    }

    /// The number of entries the cache holds at most.
    pub closed spec fn limit(&self) -> nat {
        cache_limit(&self.inner)
    }

    /// An empty cache for at most `capacity` announcements.
    pub fn new(capacity: usize) -> (cache: AnnounceCache)
        requires
            capacity <= MAX_CACHE_CAPACITY,
        ensures
            cache@ == Seq::<([u8; 32], Seq<u8>)>::empty(),
            cache.limit() == capacity,
    {
        AnnounceCache { inner: lru_new(capacity) }
    }

    /// Stores `data` for the block `hash` as the most recently used entry.
    pub fn put(&mut self, hash: BlockHash, data: Vec<u8>)
        ensures
            final(self).limit() == old(self).limit(),
            final(self)@ == entries_after_put(old(self)@, old(self).limit(), hash.bytes, data@),
    {
        let _ = lru_put(&mut self.inner, hash.bytes, data);
    }

    /// The data stored for the block `hash`.
    pub fn peek(&self, hash: &BlockHash) -> (found: Option<Vec<u8>>)
        ensures
            match found {
                Some(v) => entry_value(self@, hash.bytes) == Some(v@),
                None => entry_value(self@, hash.bytes).is_none(),
            },
    {
        lru_peek(&self.inner, &hash.bytes)
    }

    /// Number of announcements with stored data.
    pub fn len(&self) -> (n: usize)
        ensures
            n == self@.len(),
    {
        lru_len(&self.inner)
    }
}

} // verus!
