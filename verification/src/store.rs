//! The store that holds cached responses, and the time-to-live store that
//! serves as the default.

use crate::entry::{CachedResponse, CachedView};
use crate::keyer::{key_view, CacheKey, KeyView};
use cached::{Cached, CloneCached, TimedCache};
use std::time::Duration;
use vstd::prelude::*;

verus! {

/// What a store holds: the cached value of each key that has one, whether
/// or not its time to live has passed.
pub type Entries = Map<KeyView, CachedView>;

/// A key-value store of cached responses that decides by itself when an
/// entry has expired.
///
/// An entry stays in the store until it is overwritten or removed, or until
/// a lookup of its key reports it as expired.
pub trait CacheStore {
    /// The entries that the store holds.
    spec fn entries(&self) -> Entries;

    /// Looks a key up. The first component is a copy of the value under the
    /// key, if there is one; the second tells whether that value has expired.
    /// Only an entry reported as expired may leave the store by a lookup.
    fn get_with_expiry(&mut self, key: &CacheKey) -> (found: (Option<CachedResponse>, bool))
        ensures
            found.0 is Some == old(self).entries().contains_key(key_view(key@)),
            found.0 matches Some(value) ==> value@ == old(self).entries()[key_view(key@)],
            final(self).entries() == old(self).entries() || (found.1 && final(self).entries()
                == old(self).entries().remove(key_view(key@))),
    ;

    /// Inserts a value under a key, or overwrites the value that is there.
    fn set(&mut self, key: CacheKey, value: CachedResponse)
        ensures
            final(self).entries() == old(self).entries().insert(key_view(key@), value@),
    ;

    /// Removes the entry of a key, if there is one.
    fn remove(&mut self, key: &CacheKey)
        ensures
            final(self).entries() == old(self).entries().remove(key_view(key@)),
    ;
}

/// `cached::TimedCache`, carried as an opaque value: a hash map from keys
/// to timestamped values, and a time to live.
#[verifier::external_type_specification]
#[verifier::external_body]
#[verifier::reject_recursive_types(K)]
#[verifier::reject_recursive_types(V)]
pub struct ExTimedCache<K, V>(TimedCache<K, V>);

/// The entries held by a `cached::TimedCache`: each key of its hash map
/// with the value stored beside the key's timestamp.
pub uninterp spec fn timed_cache_entries(cache: TimedCache<CacheKey, CachedResponse>) -> Entries;

/// `cached::TimedCache::with_lifespan`: a cache with the given time to live
/// and an empty hash map.
#[verifier::external_body]
fn timed_cache_with_lifespan(ttl: Duration) -> (cache: TimedCache<CacheKey, CachedResponse>)
    ensures
        timed_cache_entries(cache) == Entries::empty(),
{
    TimedCache::with_lifespan(ttl)
}

/// `cached::CloneCached::cache_get_expired` of `TimedCache`. For a key with
/// no entry it returns `(None, false)` and leaves the map alone. For a key
/// whose entry is within its time to live it returns a clone of the value
/// and `false`, and leaves the map's keys and values alone. For a key whose
/// entry is older it takes the entry out of the map and returns its value
/// and `true`. Which of the last two happens depends on the clock. The
/// cache also counts the lookup as a hit or a miss.
#[verifier::external_body]
fn timed_cache_get_expired(
    cache: &mut TimedCache<CacheKey, CachedResponse>,
    key: &CacheKey,
) -> (found: (Option<CachedResponse>, bool))
    ensures
        found.0 is Some == timed_cache_entries(*old(cache)).contains_key(key_view(key@)),
        found.0 matches Some(value) ==> value@ == timed_cache_entries(*old(cache))[key_view(key@)],
        found.1 ==> found.0 is Some,
        found.1 ==> timed_cache_entries(*final(cache)) == timed_cache_entries(*old(cache)).remove(
            key_view(key@),
        ),
        !found.1 ==> timed_cache_entries(*final(cache)) == timed_cache_entries(*old(cache)),
{
    cache.cache_get_expired(key)
}

/// `cached::Cached::cache_set` of `TimedCache`: stamps the value with the
/// present time and inserts it into the map under the key, replacing the
/// entry that was there. The replaced value is dropped here.
#[verifier::external_body]
fn timed_cache_set(
    cache: &mut TimedCache<CacheKey, CachedResponse>,
    key: CacheKey,
    value: CachedResponse,
)
    ensures
        timed_cache_entries(*final(cache)) == timed_cache_entries(*old(cache)).insert(
            key_view(key@),
            value@,
        ),
{
    cache.cache_set(key, value);
}

/// `cached::Cached::cache_remove` of `TimedCache`: takes the key's entry
/// out of the map, if there is one. The removed value is dropped here.
#[verifier::external_body]
fn timed_cache_remove(cache: &mut TimedCache<CacheKey, CachedResponse>, key: &CacheKey)
    ensures
        timed_cache_entries(*final(cache)) == timed_cache_entries(*old(cache)).remove(
            key_view(key@),
        ),
{
    cache.cache_remove(key);
}

impl CacheStore for TimedCache<CacheKey, CachedResponse> {
    open spec fn entries(&self) -> Entries {
        timed_cache_entries(*self)
    }

    fn get_with_expiry(&mut self, key: &CacheKey) -> (found: (Option<CachedResponse>, bool))
        ensures
            found.1 ==> found.0 is Some,
            found.1 ==> final(self).entries() == old(self).entries().remove(key_view(key@)),
            !found.1 ==> final(self).entries() == old(self).entries(),
    {
        timed_cache_get_expired(self, key)
    }

    fn set(&mut self, key: CacheKey, value: CachedResponse) {
        timed_cache_set(self, key, value)
    }

    fn remove(&mut self, key: &CacheKey) {
        timed_cache_remove(self, key)
    }
}

/// Makes the default store: an in-memory store whose entries expire `ttl`
/// after they were last set. It starts empty.
pub fn new_timed_store(ttl: Duration) -> (store: TimedCache<CacheKey, CachedResponse>)
    ensures
        store.entries() == Entries::empty(),
{
    timed_cache_with_lifespan(ttl)
}

} // verus!
