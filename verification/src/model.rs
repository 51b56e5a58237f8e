//! The caching rules as mathematics: what one exchange does to the store
//! and which response it yields.

use crate::clock::age_seconds;
use crate::entry::{age_header_name, served, CachedView};
use crate::keyer::KeyView;
use crate::message::{
    contains_name, is_success, with_header, HeaderSeq, RequestView, ResponseView,
};
use crate::store::Entries;
use crate::text::{decimal, literal};
use vstd::prelude::*;

verus! {

/// The body limit of a layer that was given none: 128 MiB.
pub const DEFAULT_BODY_LIMIT: usize = 134_217_728;

/// The status of the response that stands in for a body over the limit.
pub const TOO_LARGE_STATUS: u16 = 500;

/// The options of a cache layer, fixed when the layer is built.
#[derive(Clone, Copy, Debug)]
pub struct Settings {
    /// Serve the expired value when the handler fails to replace it.
    pub use_stale: bool,
    /// The largest body, in bytes, that is stored.
    pub limit: usize,
    /// Honour the invalidation header of a request.
    pub allow_invalidation: bool,
    /// Annotate served responses with their age.
    pub add_response_headers: bool,
}

/// The settings of a layer on which no option was changed.
pub open spec fn default_settings() -> Settings {
    Settings {
        use_stale: false,
        limit: DEFAULT_BODY_LIMIT,
        allow_invalidation: false,
        add_response_headers: false,
    }
}

/// The name of the request header that asks for invalidation.
pub open spec fn invalidation_header_name() -> Seq<u8> {
    literal("X-Invalidate-Cache")
}

/// The request makes the cache drop its entry before the lookup: manual
/// invalidation is allowed and the request carries the invalidation header,
/// whatever the header's value.
pub open spec fn asks_invalidation(settings: Settings, request: RequestView) -> bool {
    settings.allow_invalidation && contains_name(request.headers, invalidation_header_name())
}

/// The entries that the lookup of a request sees.
pub open spec fn visible_entries(entries: Entries, key: KeyView, invalidate: bool) -> Entries {
    if invalidate {
        entries.remove(key)
    } else {
        entries
    }
}

/// The value under a key, if the entries hold one.
pub open spec fn entry_of(entries: Entries, key: KeyView) -> Option<CachedView> {
    if entries.contains_key(key) {
        Some(entries[key])
    } else {
        None
    }
}

/// The value stored for a successful reply received at clock reading
/// `now`: the reply as it is, with the reading if ages are to be shown.
pub open spec fn snapshot(reply: ResponseView, add_response_headers: bool, now: u128) -> CachedView {
    CachedView {
        status: reply.status,
        headers: reply.headers,
        body: reply.body,
        timestamp: if add_response_headers {
            Some(now)
        } else {
            None
        },
    }
}

/// The response that goes out when a successful reply is stored: the
/// reply, with an age of zero seconds if ages are shown.
pub open spec fn first_response(reply: ResponseView, add_response_headers: bool) -> ResponseView {
    ResponseView {
        status: reply.status,
        headers: if add_response_headers {
            with_header(reply.headers, age_header_name(), decimal(0))
        } else {
            reply.headers
        },
        body: reply.body,
    }
}

/// A value served at the reading at which it was stored is served as
/// `first_response` says.
pub proof fn lemma_served_at_once(reply: ResponseView, add_response_headers: bool, now: u128)
    ensures
        served(snapshot(reply, add_response_headers, now), now) == first_response(
            reply,
            add_response_headers,
        ),
{
    assert(age_seconds(now, now) == 0);
}

/// The headers of the response that stands in for a body over the limit.
pub open spec fn too_large_headers() -> HeaderSeq {
    seq![(literal("content-type"), literal("text/plain; charset=utf-8"))]
}

/// The body of that response: a message that names the limit.
pub open spec fn too_large_message(limit: usize) -> Seq<u8> {
    literal("File too big, over ") + decimal(limit as nat) + literal(" bytes")
}

/// The response that stands in for a reply whose body exceeds the limit.
pub open spec fn too_large_response(limit: usize) -> ResponseView {
    ResponseView {
        status: TOO_LARGE_STATUS,
        headers: too_large_headers(),
        body: too_large_message(limit),
    }
}

/// What an exchange leaves behind: the store's entries, the response that
/// went out, and whether the wrapped handler was invoked.
pub struct Outcome {
    pub entries: Entries,
    pub response: ResponseView,
    pub invoked: bool,
}

/// The response that goes out for a reply handed to the cache with its
/// body materialized. A body over the limit is answered with the stand-in
/// response. Otherwise a reply in the success class is served as it is
/// stored, and any other reply goes out as it is.
pub open spec fn reply_response(limit: usize, add_response_headers: bool, reply: ResponseView) -> ResponseView {
    if reply.body.len() > limit {
        too_large_response(limit)
    } else if is_success(reply.status) {
        first_response(reply, add_response_headers)
    } else {
        reply
    }
}

/// The entries after a reply was handed to the cache at clock reading
/// `now`: a reply in the success class whose body is within the limit is
/// stored under the key; for any other reply nothing changes.
pub open spec fn entries_after_reply(
    limit: usize,
    add_response_headers: bool,
    key: KeyView,
    entries: Entries,
    reply: ResponseView,
    now: u128,
) -> Entries {
    if reply.body.len() <= limit && is_success(reply.status) {
        entries.insert(key, snapshot(reply, add_response_headers, now))
    } else {
        entries
    }
}

/// The outcome of an exchange in which the handler was invoked and its
/// reply was handed to the cache.
pub open spec fn update_outcome(
    settings: Settings,
    key: KeyView,
    entries: Entries,
    reply: ResponseView,
    now: u128,
) -> Outcome {
    Outcome {
        entries: entries_after_reply(
            settings.limit,
            settings.add_response_headers,
            key,
            entries,
            reply,
            now,
        ),
        response: reply_response(settings.limit, settings.add_response_headers, reply),
        invoked: true,
    }
}

/// The response that replaces a failed reply: the expired value that the
/// lookup found, if it found one and stale values may be served.
pub open spec fn stale_fallback(settings: Settings, stale: Option<CachedView>, now: u128) -> Option<
    ResponseView,
> {
    match stale {
        Some(value) => if settings.use_stale {
            Some(served(value, now))
        } else {
            None
        },
        None => None,
    }
}

/// The entries after a failed reply: an expired value that may not be
/// served is removed.
pub open spec fn entries_after_failure(
    settings: Settings,
    key: KeyView,
    stale: Option<CachedView>,
    entries: Entries,
) -> Entries {
    if stale is Some && !settings.use_stale {
        entries.remove(key)
    } else {
        entries
    }
}

/// The outcome of an exchange in which the handler was invoked and replied
/// with a status outside the success class. `stale` is the expired value
/// that the lookup found, if it found one.
pub open spec fn failure_outcome(
    settings: Settings,
    key: KeyView,
    stale: Option<CachedView>,
    entries: Entries,
    reply: ResponseView,
    now: u128,
) -> Outcome {
    Outcome {
        entries: entries_after_failure(settings, key, stale, entries),
        response: match stale_fallback(settings, stale, now) {
            Some(response) => response,
            None => reply,
        },
        invoked: true,
    }
}

/// One request and everything around it that the cache does not decide:
/// the key that the keyer gives the request, the store's verdict on the
/// age of the entry (read only if there is an entry), the reply that the
/// handler gives (read only if the handler is invoked), and the clock.
pub struct Exchange {
    pub key: KeyView,
    pub request: RequestView,
    pub expired: bool,
    pub reply: ResponseView,
    pub now: u128,
}

/// The outcome of one exchange on a store that holds `entries`.
pub open spec fn exchange(settings: Settings, entries: Entries, x: Exchange) -> Outcome {
    let visible = visible_entries(entries, x.key, asks_invalidation(settings, x.request));
    if visible.contains_key(x.key) && !x.expired {
        Outcome { entries: visible, response: served(visible[x.key], x.now), invoked: false }
    } else if is_success(x.reply.status) {
        update_outcome(settings, x.key, visible, x.reply, x.now)
    } else {
        failure_outcome(settings, x.key, entry_of(visible, x.key), visible, x.reply, x.now)
    }
}

/// The entries after a sequence of exchanges, one after the other.
pub open spec fn entries_after(settings: Settings, entries: Entries, xs: Seq<Exchange>) -> Entries
    decreases xs.len(),
{
    if xs.len() == 0 {
        entries
    } else {
        exchange(settings, entries_after(settings, entries, xs.drop_last()), xs.last()).entries
    }
}

/// The outcome of the exchange at position `i` of a sequence.
pub open spec fn outcome_at(settings: Settings, entries: Entries, xs: Seq<Exchange>, i: int) -> Outcome {
    exchange(settings, entries_after(settings, entries, xs.take(i)), xs[i])
}

} // verus!
