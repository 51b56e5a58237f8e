//! The caching service: what is done with a request before the wrapped
//! handler is asked, and with the handler's reply afterwards.

use crate::body::{materialize, BodyTooLarge};
use crate::clock::Clock;
use crate::entry::{served, CachedResponse, CachedView};
use crate::keyer::{copy_key, key_view, CacheKey, KeyView, Keyer};
use crate::message::{has_header, is_success, status_is_success, Request, RequestView, Response};
use crate::model::{
    asks_invalidation, entries_after_failure, entries_after_reply, entry_of, lemma_served_at_once,
    reply_response, stale_fallback, too_large_response, visible_entries, Settings,
};
use crate::shared::{guard_target, mutex_lock};
use crate::store::{CacheStore, Entries};
use crate::text::literal_bytes;
use std::sync::{Arc, Mutex};
use vstd::prelude::*;

verus! {

/// A request for which the handler has to be asked: its key, and the
/// expired value that the store held for it, if it held one.
pub struct Pending {
    pub key: CacheKey,
    pub stale: Option<CachedResponse>,
}

/// What is to be done with a request.
pub enum Plan {
    /// Send this response. The handler is not asked.
    Respond(Response),
    /// Ask the handler, then settle the request with its reply.
    Invoke(Pending),
}

/// What is to be done once the status of the handler's reply is known.
pub enum Verdict {
    /// The reply is a success: read its body, up to the body limit, and
    /// hand the reply to the cache under this key.
    Store(CacheKey),
    /// The reply is a failure and a stale value stands in for it: send
    /// this response and drop the reply.
    ServeStale(Response),
    /// The reply is a failure: send it on as it is.
    Forward,
}

impl Pending {
    /// The expired value that the lookup found, if it found one.
    pub open spec fn stale_view(&self) -> Option<CachedView> {
        match self.stale {
            Some(value) => Some(value@),
            None => None,
        }
    }
}

/// The mathematical form of the value in a store's answer.
pub open spec fn value_view(found: Option<CachedResponse>) -> Option<CachedView> {
    match found {
        Some(value) => Some(value@),
        None => None,
    }
}

/// The entries after the store's answer to a lookup was acted on: a value
/// that the store reports as expired is written back under its key.
pub open spec fn entries_after_answer(
    entries: Entries,
    key: KeyView,
    found: Option<CachedView>,
    expired: bool,
) -> Entries {
    match found {
        Some(value) => if expired {
            entries.insert(key, value)
        } else {
            entries
        },
        None => entries,
    }
}

/// The plan that the store's answer to a lookup calls for. A value that
/// the store reports as within its time to live is served as it stands at
/// `now`, and the handler is not asked. For a value that the store reports
/// as expired the handler is asked, and the value is kept for the case
/// that the handler fails. With no value the handler is asked, whatever
/// the store reports.
pub open spec fn answers_plan(
    key: KeyView,
    found: Option<CachedView>,
    expired: bool,
    now: u128,
    plan: Plan,
) -> bool {
    match found {
        Some(value) => if expired {
            &&& plan matches Plan::Invoke(pending)
            &&& key_view(pending.key@) == key
            &&& pending.stale_view() == Some(value)
        } else {
            &&& plan matches Plan::Respond(response)
            &&& response@ == served(value, now)
        },
        None => {
            &&& plan matches Plan::Invoke(pending)
            &&& key_view(pending.key@) == key
            &&& pending.stale_view() is None
        },
    }
}

/// Writes a value back that the store has just reported as expired, so
/// that a lookup that follows soon does not find it expired. Any other
/// answer leaves the store alone.
pub fn write_back<C: CacheStore>(
    store: &mut C,
    key: &CacheKey,
    found: &Option<CachedResponse>,
    expired: bool,
)
    ensures
        final(store).entries() == entries_after_answer(
            old(store).entries(),
            key_view(key@),
            value_view(*found),
            expired,
        ),
{
    if expired {
        if let Some(value) = found {
            store.set(copy_key(key), value.clone());
        }
    }
}

/// Makes the plan that the store's answer calls for: serve a live value,
/// ask the handler for an expired or a missing one.
pub fn plan_for(key: CacheKey, found: Option<CachedResponse>, expired: bool, now: u128) -> (plan:
    Plan)
    ensures
        answers_plan(key_view(key@), value_view(found), expired, now, plan),
        plan matches Plan::Respond(response) ==> is_success(response.status),
{
    match found {
        Some(value) => {
            if expired {
                Plan::Invoke(Pending { key, stale: Some(value) })
            } else {
                Plan::Respond(value.into_response(now))
            }
        },
        None => Plan::Invoke(Pending { key, stale: None }),
    }
}

/// The relation between a lookup's answer and the store around it: the
/// store holds what it held before, less the invalidated entry, and the
/// answer holds the value under the key, if there is one.
pub open spec fn lookup_result(
    before: Entries,
    key: KeyView,
    invalidate: bool,
    after: Entries,
    found: Option<CachedResponse>,
) -> bool {
    &&& after == visible_entries(before, key, invalidate)
    &&& value_view(found) == entry_of(after, key)
}

/// Looks a key up for a request and hands on the store's answer: the
/// value under the key, if there is one, and whether the store reports it
/// as expired. If the request invalidates, the key's entry is removed
/// first, so there is no value. An expired value is written back at once.
/// Afterwards the store holds what it held before, less the invalidated
/// entry. Whether a value has expired is the store's to say; what follows
/// from its answer is fixed by [`plan_for`].
pub fn look_up<C: CacheStore>(store: &mut C, key: &CacheKey, invalidate: bool) -> (answer: (
    Option<CachedResponse>,
    bool,
))
    ensures
        lookup_result(
            old(store).entries(),
            key_view(key@),
            invalidate,
            final(store).entries(),
            answer.0,
        ),
{
    if invalidate {
        store.remove(key);
    }
    let ghost visible = store.entries();
    let (found, expired) = store.get_with_expiry(key);
    write_back(store, key, &found, expired);
    assert(store.entries() =~= visible);
    (found, expired)
}

/// The relation between the plan for a request and the store around it:
/// the store holds what it held before, less the invalidated entry, and
/// the plan is one that [`answers_plan`] admits for the value under the
/// key. Which of the two it is, for a key with a value, follows from the
/// store's report on the value's age.
pub open spec fn plan_result(
    settings: Settings,
    key: KeyView,
    request: RequestView,
    before: Entries,
    now: u128,
    after: Entries,
    plan: Plan,
) -> bool {
    &&& after == visible_entries(before, key, asks_invalidation(settings, request))
    &&& match plan {
        Plan::Respond(response) => after.contains_key(key) && response@ == served(after[key], now),
        Plan::Invoke(pending) => key_view(pending.key@) == key && pending.stale_view() == entry_of(
            after,
            key,
        ),
    }
}

/// The relation between the verdict on a reply's status and the store
/// around it.
pub open spec fn verdict_result(
    settings: Settings,
    key: KeyView,
    stale: Option<CachedView>,
    status: u16,
    before: Entries,
    now: u128,
    after: Entries,
    verdict: Verdict,
) -> bool {
    if is_success(status) {
        &&& after == before
        &&& verdict matches Verdict::Store(kept)
        &&& key_view(kept@) == key
    } else {
        &&& after == entries_after_failure(settings, key, stale, before)
        &&& match verdict {
            Verdict::Store(_) => false,
            Verdict::ServeStale(response) => stale_fallback(settings, stale, now) == Some(response@),
            Verdict::Forward => stale_fallback(settings, stale, now) is None,
        }
    }
}

/// Hands a reply with a materialized body to the cache. If the body is
/// longer than `limit`, nothing is stored and the answer is a server error
/// that names the limit. Otherwise a reply in the success class is stored
/// under the key, stamped with `now` if ages are shown, and served; any
/// other reply is returned as it is and nothing is stored.
pub fn update_cache<C: CacheStore>(
    store: &mut C,
    key: CacheKey,
    response: Response,
    limit: usize,
    add_response_headers: bool,
    now: u128,
) -> (served: Response)
    ensures
        final(store).entries() == entries_after_reply(
            limit,
            add_response_headers,
            key_view(key@),
            old(store).entries(),
            response@,
            now,
        ),
        served@ == reply_response(limit, add_response_headers, response@),
{
    let Response { status, headers, body } = response;
    let body = match materialize(body, limit) {
        Ok(body) => body,
        Err(refusal) => {
            return refusal.into_response();
        },
    };
    if !status_is_success(status) {
        return Response { status, headers, body };
    }
    let timestamp = if add_response_headers {
        Some(now)
    } else {
        None
    };
    let value = CachedResponse::new(status, headers, body, timestamp);
    store.set(key, value.clone());
    proof {
        lemma_served_at_once(response@, add_response_headers, now);
    }
    value.into_response(now)
}

/// A handler wrapped in a cache. The service decides what is done with a
/// request before the handler is asked and with the handler's reply
/// afterwards; asking the handler is left to the caller.
#[verifier::reject_recursive_types(C)]
pub struct CacheService<S, C, K> {
    inner: S,
    cache: Arc<Mutex<C>>,
    settings: Settings,
    keyer: Arc<K>,
    clock: Clock,
}

impl<S, C, K> CacheService<S, C, K> {
    /// The wrapped handler.
    pub closed spec fn inner(&self) -> S {
        self.inner
    }

    /// The options of the service.
    pub closed spec fn settings(&self) -> Settings {
        self.settings
    }

    /// The keyer of the service.
    pub closed spec fn keyer(&self) -> K {
        *self.keyer
    }

    /// The lock behind which the service's store lives.
    pub closed spec fn store_handle(&self) -> Arc<Mutex<C>> {
        self.cache
    }

    /// The clock by which the service ages its responses.
    pub closed spec fn clock(&self) -> Clock {
        self.clock
    }

    pub(crate) fn assemble(
        inner: S,
        cache: Arc<Mutex<C>>,
        settings: Settings,
        keyer: Arc<K>,
        clock: Clock,
    ) -> (service: Self)
        ensures
            service.inner() == inner,
            service.settings() == settings,
            service.keyer() == *keyer,
            service.store_handle() == cache,
            service.clock() == clock,
    {
        CacheService { inner, cache, settings, keyer, clock }
    }

    /// The options of the service.
    pub fn options(&self) -> (settings: Settings)
        ensures
            settings == self.settings(),
    {
        self.settings
    }

    /// The wrapped handler.
    pub fn handler(&self) -> (inner: &S)
        ensures
            *inner == self.inner(),
    {
        &self.inner
    }

    /// The wrapped handler, to be changed in place. Nothing else of the
    /// service changes.
    pub fn handler_mut(&mut self) -> (inner: &mut S)
        ensures
            *inner == old(self).inner(),
            final(self).inner() == *final(inner),
            final(self).settings() == old(self).settings(),
            final(self).keyer() == old(self).keyer(),
            final(self).store_handle() == old(self).store_handle(),
            final(self).clock() == old(self).clock(),
    {
        &mut self.inner
    }
}

impl<S, C: CacheStore, K: Keyer> CacheService<S, C, K> {
    /// Plans a request against a store at clock reading `now`: derives the
    /// key, looks it up as [`look_up`] says, and makes the plan that
    /// [`plan_for`] gives for the store's answer. A value that the store
    /// reports as within its time to live is served at once. Otherwise
    /// the handler has to be asked; an expired value is written back and
    /// kept for the case that the handler fails.
    pub fn plan_in(&self, store: &mut C, request: &Request, now: u128) -> (plan: Plan)
        ensures
            plan_result(
                self.settings(),
                self.keyer().key_of(request@),
                request@,
                old(store).entries(),
                now,
                final(store).entries(),
                plan,
            ),
            plan matches Plan::Respond(response) ==> is_success(response.status),
    {
        let key = self.keyer.get_key(request);
        let invalidate = self.settings.allow_invalidation && has_header(
            &request.headers,
            literal_bytes("X-Invalidate-Cache").as_slice(),
        );
        let (found, expired) = look_up(store, &key, invalidate);
        plan_for(key, found, expired, now)
    }

    /// Settles a pending request once the status of the handler's reply is
    /// known. A success is to be stored. A failure is answered with the
    /// stale value if there is one and stale values may be served; if
    /// there is one and they may not, its entry is removed and the reply
    /// is sent on; with no stale value the reply is sent on.
    pub fn settle_in(&self, store: &mut C, pending: Pending, status: u16, now: u128) -> (verdict:
        Verdict)
        ensures
            verdict_result(
                self.settings(),
                key_view(pending.key@),
                pending.stale_view(),
                status,
                old(store).entries(),
                now,
                final(store).entries(),
                verdict,
            ),
            verdict matches Verdict::ServeStale(response) ==> is_success(response.status),
    {
        let Pending { key, stale } = pending;
        if status_is_success(status) {
            return Verdict::Store(key);
        }
        match stale {
            Some(value) => {
                if self.settings.use_stale {
                    Verdict::ServeStale(value.into_response(now))
                } else {
                    store.remove(&key);
                    Verdict::Forward
                }
            },
            None => Verdict::Forward,
        }
    }

    /// Hands a reply with a materialized body to the cache, under the
    /// service's body limit and age option. See [`update_cache`].
    pub fn store_in(&self, store: &mut C, key: CacheKey, response: Response, now: u128) -> (served:
        Response)
        ensures
            final(store).entries() == entries_after_reply(
                self.settings().limit,
                self.settings().add_response_headers,
                key_view(key@),
                old(store).entries(),
                response@,
                now,
            ),
            served@ == reply_response(
                self.settings().limit,
                self.settings().add_response_headers,
                response@,
            ),
    {
        update_cache(
            store,
            key,
            response,
            self.settings.limit,
            self.settings.add_response_headers,
            now,
        )
    }

    /// Plans a request: takes the lock of the shared store, reads the
    /// clock, and plans the request against the store as it stands. See
    /// [`CacheService::plan_in`]. The store may be shared, so the plan is
    /// stated for the entries and the clock reading that were found.
    pub fn call(&self, request: &Request) -> (plan: Plan)
        ensures
            exists|before: Entries, now: u128, after: Entries|
                plan_result(
                    self.settings(),
                    self.keyer().key_of(request@),
                    request@,
                    before,
                    now,
                    after,
                    plan,
                ),
            plan matches Plan::Respond(response) ==> is_success(response.status),
            plan matches Plan::Invoke(pending) ==> key_view(pending.key@) == self.keyer().key_of(
                request@,
            ),
            asks_invalidation(self.settings(), request@) ==> (plan matches Plan::Invoke(pending)
                && pending.stale is None),
    {
        let now = self.clock.now();
        let mut guard = mutex_lock(&self.cache);
        let store = guard_target(&mut guard);
        let ghost before = store.entries();
        let plan = self.plan_in(store, request, now);
        assert(plan_result(
            self.settings(),
            self.keyer().key_of(request@),
            request@,
            before,
            now,
            store.entries(),
            plan,
        ));
        plan
    }

    /// Settles a pending request once the status of the handler's reply is
    /// known: takes the lock of the shared store, reads the clock, and
    /// settles the request against the store as it stands. See
    /// [`CacheService::settle_in`].
    pub fn settle(&self, pending: Pending, status: u16) -> (verdict: Verdict)
        ensures
            exists|before: Entries, now: u128, after: Entries|
                verdict_result(
                    self.settings(),
                    key_view(pending.key@),
                    pending.stale_view(),
                    status,
                    before,
                    now,
                    after,
                    verdict,
                ),
            is_success(status) <==> verdict is Store,
            verdict matches Verdict::ServeStale(response) ==> is_success(response.status),
    {
        let now = self.clock.now();
        let mut guard = mutex_lock(&self.cache);
        let store = guard_target(&mut guard);
        let ghost before = store.entries();
        let verdict = self.settle_in(store, pending, status, now);
        assert(verdict_result(
            self.settings(),
            key_view(pending.key@),
            pending.stale_view(),
            status,
            before,
            now,
            store.entries(),
            verdict,
        ));
        verdict
    }

    /// Hands a reply with a materialized body to the cache: takes the lock
    /// of the shared store, reads the clock, and stores the reply as
    /// [`CacheService::store_in`] says. The response that goes out does
    /// not depend on what the store held.
    pub fn store(&self, key: CacheKey, response: Response) -> (served: Response)
        ensures
            served@ == reply_response(
                self.settings().limit,
                self.settings().add_response_headers,
                response@,
            ),
    {
        let now = self.clock.now();
        let mut guard = mutex_lock(&self.cache);
        let store = guard_target(&mut guard);
        self.store_in(store, key, response, now)
    }

    /// The response that is sent in place of a reply whose body could not
    /// be read within the body limit.
    pub fn body_too_large(&self) -> (response: Response)
        ensures
            response@ == too_large_response(self.settings().limit),
    {
        (BodyTooLarge { limit: self.settings.limit }).into_response()
    }
}

impl<S: Clone, C, K> Clone for CacheService<S, C, K> {
    /// A second handle on the same service: a clone of the handler, with
    /// the same store, keyer, clock and options.
    fn clone(&self) -> (copy: Self)
        ensures
            cloned(self.inner(), copy.inner()),
            copy.settings() == self.settings(),
            copy.keyer() == self.keyer(),
            copy.store_handle() == self.store_handle(),
            copy.clock() == self.clock(),
    {
        CacheService {
            inner: self.inner.clone(),
            cache: Arc::clone(&self.cache),
            settings: self.settings,
            keyer: Arc::clone(&self.keyer),
            clock: self.clock.share(),
        }
    }
}

} // verus!
