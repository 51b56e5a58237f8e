//! The cache layer: a store, a keyer and the options, from which caching
//! services are made.

use crate::clock::Clock;
use crate::entry::CachedResponse;
use crate::keyer::{BasicKeyer, CacheKey, Keyer};
use crate::model::{default_settings, Settings, DEFAULT_BODY_LIMIT};
use crate::service::CacheService;
use crate::shared::mutex_new;
use crate::store::{new_timed_store, CacheStore};
use cached::TimedCache;
use std::sync::{Arc, Mutex};
use std::time::Duration;
use vstd::prelude::*;

verus! {

/// The layer that gives caching to the services it wraps. It is generic
/// over the store `C` and the keyer `K` that yields the keys of cached
/// responses.
#[verifier::reject_recursive_types(C)]
pub struct CacheLayer<C, K> {
    cache: Arc<Mutex<C>>,
    settings: Settings,
    keyer: Arc<K>,
    clock: Clock,
}

impl<C, K> Clone for CacheLayer<C, K> {
    /// A second handle on the same layer: it shares the store, the keyer
    /// and the clock, and has the same options.
    fn clone(&self) -> (copy: Self)
        ensures
            copy == *self,
    {
        CacheLayer {
            cache: Arc::clone(&self.cache),
            settings: self.settings,
            keyer: Arc::clone(&self.keyer),
            clock: self.clock.share(),
        }
    }
}

impl<C, K> CacheLayer<C, K> {
    /// The options of the layer.
    pub closed spec fn settings(&self) -> Settings {
        self.settings
    }

    /// The keyer of the layer.
    pub closed spec fn keyer(&self) -> K {
        *self.keyer
    }

    /// The lock behind which the layer's store lives.
    pub closed spec fn store_handle(&self) -> Arc<Mutex<C>> {
        self.cache
    }

    /// The clock by which the layer's services age their responses.
    pub closed spec fn clock(&self) -> Clock {
        self.clock
    }

    /// The options of the layer.
    pub fn options(&self) -> (settings: Settings)
        ensures
            settings == self.settings(),
    {
        self.settings
    }

    /// Wraps a handler: the service shares the layer's store, keyer and
    /// clock, and has the layer's options.
    pub fn layer<S>(&self, inner: S) -> (service: CacheService<S, C, K>)
        ensures
            service.inner() == inner,
            service.settings() == self.settings(),
            service.keyer() == self.keyer(),
            service.store_handle() == self.store_handle(),
            service.clock() == self.clock(),
    {
        CacheService::assemble(
            inner,
            Arc::clone(&self.cache),
            self.settings,
            Arc::clone(&self.keyer),
            self.clock.share(),
        )
    }
}

impl<C: CacheStore, K: Keyer> CacheLayer<C, K> {
    /// Creates a layer over a given store and keyer, with the default
    /// options: stale values are not served, the body limit is 128 MiB,
    /// the invalidation header is ignored and no age is shown.
    pub fn with_cache_and_keyer(cache: C, keyer: K) -> (layer: Self)
        ensures
            layer.settings() == default_settings(),
            layer.keyer() == keyer,
    {
        CacheLayer {
            cache: Arc::new(mutex_new(cache)),
            settings: Settings {
                use_stale: false,
                limit: DEFAULT_BODY_LIMIT,
                allow_invalidation: false,
                add_response_headers: false,
            },
            keyer: Arc::new(keyer),
            clock: Clock::start(),
        }
    }

    /// Makes the layer serve the last successful response when its entry
    /// has expired and the handler fails to give a new successful one.
    pub fn use_stale_on_failure(self) -> (layer: Self)
        ensures
            layer.settings() == (Settings { use_stale: true, ..self.settings() }),
            layer.keyer() == self.keyer(),
            layer.store_handle() == self.store_handle(),
            layer.clock() == self.clock(),
    {
        CacheLayer { settings: Settings { use_stale: true, ..self.settings }, ..self }
    }

    /// Changes the body limit. For no limit, give `usize::MAX`.
    pub fn body_limit(self, new_limit: usize) -> (layer: Self)
        ensures
            layer.settings() == (Settings { limit: new_limit, ..self.settings() }),
            layer.keyer() == self.keyer(),
            layer.store_handle() == self.store_handle(),
            layer.clock() == self.clock(),
    {
        CacheLayer { settings: Settings { limit: new_limit, ..self.settings }, ..self }
    }

    /// Makes the layer honour the `X-Invalidate-Cache` header: a request
    /// that carries it has its entry removed before the lookup.
    pub fn allow_invalidation(self) -> (layer: Self)
        ensures
            layer.settings() == (Settings { allow_invalidation: true, ..self.settings() }),
            layer.keyer() == self.keyer(),
            layer.store_handle() == self.store_handle(),
            layer.clock() == self.clock(),
    {
        CacheLayer { settings: Settings { allow_invalidation: true, ..self.settings }, ..self }
    }

    /// Makes the layer annotate served responses with their age, in the
    /// `X-Cache-Age` header.
    pub fn add_response_headers(self) -> (layer: Self)
        ensures
            layer.settings() == (Settings { add_response_headers: true, ..self.settings() }),
            layer.keyer() == self.keyer(),
            layer.store_handle() == self.store_handle(),
            layer.clock() == self.clock(),
    {
        CacheLayer { settings: Settings { add_response_headers: true, ..self.settings }, ..self }
    }
}

impl<C: CacheStore> CacheLayer<C, BasicKeyer> {
    /// Creates a layer over a given store, with the default keyer and the
    /// default options.
    pub fn with(cache: C) -> (layer: Self)
        ensures
            layer.settings() == default_settings(),
            layer.keyer() == BasicKeyer,
    {
        CacheLayer::with_cache_and_keyer(cache, BasicKeyer)
    }
}

impl CacheLayer<TimedCache<CacheKey, CachedResponse>, BasicKeyer> {
    /// Creates a layer over a new in-memory store whose entries live for
    /// `ttl`, with the default keyer and the default options.
    pub fn with_lifespan(ttl: Duration) -> (layer: Self)
        ensures
            layer.settings() == default_settings(),
            layer.keyer() == BasicKeyer,
    {
        CacheLayer::with(new_timed_store(ttl))
    }
}

impl<K: Keyer> CacheLayer<TimedCache<CacheKey, CachedResponse>, K> {
    /// Creates a layer over a new in-memory store whose entries live for
    /// `ttl`, with a given keyer and the default options.
    pub fn with_lifespan_and_keyer(ttl: Duration, keyer: K) -> (layer: Self)
        ensures
            layer.settings() == default_settings(),
            layer.keyer() == keyer,
    {
        CacheLayer::with_cache_and_keyer(new_timed_store(ttl), keyer)
    }
}

} // verus!
