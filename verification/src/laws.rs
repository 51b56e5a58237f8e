//! What the caching rules guarantee, proved of the model that the service's
//! functions are specified by.

use crate::clock::{age_seconds, NANOS_PER_SECOND};
use crate::entry::{age_header_name, served, CachedView};
use crate::keyer::{basic_key, KeyView};
use crate::message::{
    contains_name, is_success, lemma_without_name, with_header, without_name, HeaderSeq,
    RequestView, ResponseView,
};
use crate::model::{
    asks_invalidation, entries_after, entries_after_reply, entry_of, exchange,
    invalidation_header_name, outcome_at, reply_response, snapshot, too_large_message,
    too_large_response, visible_entries, Exchange, Outcome, Settings, TOO_LARGE_STATUS,
};
use crate::service::{
    answers_plan, entries_after_answer, plan_result, verdict_result, Plan, Verdict,
};
use crate::store::Entries;
use crate::text::decimal;
use vstd::prelude::*;

verus! {

/// Every stored value has a status in the success class.
pub open spec fn all_success(entries: Entries) -> bool {
    forall|key: KeyView| entries.contains_key(key) ==> is_success(#[trigger] entries[key].status)
}

/// Every stored body is within the limit.
pub open spec fn all_within(entries: Entries, limit: usize) -> bool {
    forall|key: KeyView| entries.contains_key(key) ==> (#[trigger] entries[key]).body.len() <= limit
}

/// The entries after the first `i + 1` exchanges of a sequence are those
/// that the exchange at position `i` leaves.
pub proof fn lemma_entries_after_step(settings: Settings, entries: Entries, xs: Seq<Exchange>, i: int)
    requires
        0 <= i < xs.len(),
    ensures
        entries_after(settings, entries, xs.take(i + 1)) == outcome_at(
            settings,
            entries,
            xs,
            i,
        ).entries,
{
    assert(xs.take(i + 1).drop_last() =~= xs.take(i));
    assert(xs.take(i + 1).last() == xs[i]);
}

/// The steps of the service carry out one exchange of the model, with the
/// store's report on the value's age as the model's `expired`.
///
/// Let the store answer the lookup of a request's key with the value
/// `found` that it holds for the key after any invalidation, and with the
/// report `expired`. Let the plan be the one that the answer calls for at
/// clock reading `planned_at`. If the handler has to be asked, let its
/// reply be settled at `settled_at`, and, if the reply is to be stored, let
/// it be handed to the cache at `stored_at`. Then a stored response is
/// sent exactly when the store holds a value and reports it as not
/// expired, and the entries that are left and the response that goes out
/// are those of `exchange`, taken at the reading of the step that built
/// the response.
pub proof fn law_steps_carry_out_exchange(
    settings: Settings,
    key: KeyView,
    request: RequestView,
    reply: ResponseView,
    before: Entries,
    found: Option<CachedView>,
    expired: bool,
    planned_at: u128,
    planned: Entries,
    plan: Plan,
    settled_at: u128,
    settled: Entries,
    verdict: Verdict,
    stored_at: u128,
)
    requires
        planned == visible_entries(before, key, asks_invalidation(settings, request)),
        found == entry_of(planned, key),
        answers_plan(key, found, expired, planned_at, plan),
        plan matches Plan::Invoke(pending) ==> verdict_result(
            settings,
            key,
            pending.stale_view(),
            reply.status,
            planned,
            settled_at,
            settled,
            verdict,
        ),
    ensures
        plan is Respond <==> found is Some && !expired,
        plan_result(settings, key, request, before, planned_at, planned, plan),
        plan matches Plan::Respond(response) ==> exchange(
            settings,
            before,
            (Exchange { key, request, expired, reply, now: planned_at }),
        ) == (Outcome { entries: planned, response: response@, invoked: false }),
        plan is Invoke ==> (verdict matches Verdict::ServeStale(response) ==> exchange(
            settings,
            before,
            (Exchange { key, request, expired, reply, now: settled_at }),
        ) == (Outcome { entries: settled, response: response@, invoked: true })),
        plan is Invoke ==> (verdict is Forward ==> exchange(
            settings,
            before,
            (Exchange { key, request, expired, reply, now: settled_at }),
        ) == (Outcome { entries: settled, response: reply, invoked: true })),
        plan is Invoke ==> (verdict is Store ==> exchange(
            settings,
            before,
            (Exchange { key, request, expired, reply, now: stored_at }),
        ) == (Outcome {
            entries: entries_after_reply(
                settings.limit,
                settings.add_response_headers,
                key,
                settled,
                reply,
                stored_at,
            ),
            response: reply_response(settings.limit, settings.add_response_headers, reply),
            invoked: true,
        })),
{
}

/// Acting on the store's answer leaves the store as the lookup found it:
/// whether the store kept an expired value or dropped it with its report,
/// once the value is written back the entries are what they were.
pub proof fn law_write_back_restores_entries(
    entries: Entries,
    key: KeyView,
    expired: bool,
    after_lookup: Entries,
)
    requires
        after_lookup == entries || (expired && after_lookup == entries.remove(key)),
    ensures
        entries_after_answer(after_lookup, key, entry_of(entries, key), expired) == entries,
{
    assert(entries_after_answer(after_lookup, key, entry_of(entries, key), expired) =~= entries);
}

/// A value within its time to live is served without the handler: while
/// no invalidation is asked, the response has the stored status and body,
/// and the store is left as it was.
pub proof fn law_live_hit_skips_handler(settings: Settings, entries: Entries, x: Exchange)
    requires
        entries.contains_key(x.key),
        !x.expired,
        !asks_invalidation(settings, x.request),
    ensures
        !exchange(settings, entries, x).invoked,
        exchange(settings, entries, x).entries == entries,
        exchange(settings, entries, x).response == served(entries[x.key], x.now),
        exchange(settings, entries, x).response.status == entries[x.key].status,
        exchange(settings, entries, x).response.body == entries[x.key].body,
{
}

/// The exchange leaves its own response in the store: afterwards the key
/// has an entry with the status and the body of the response that went out.
pub open spec fn leaves_response_cached(settings: Settings, entries: Entries, x: Exchange) -> bool {
    let after = exchange(settings, entries, x);
    &&& after.entries.contains_key(x.key)
    &&& after.entries[x.key].status == after.response.status
    &&& after.entries[x.key].body == after.response.body
}

/// The three ways in which an exchange leaves its response in the store:
/// it was served from the store; or the handler replied with a success
/// within the body limit; or the handler failed and a stale value was
/// served in its place.
pub open spec fn caches_response(settings: Settings, entries: Entries, x: Exchange) -> bool {
    let visible = visible_entries(entries, x.key, asks_invalidation(settings, x.request));
    ||| !exchange(settings, entries, x).invoked
    ||| is_success(x.reply.status) && x.reply.body.len() <= settings.limit
    ||| !is_success(x.reply.status) && settings.use_stale && visible.contains_key(x.key)
}

/// An exchange leaves its response in the store in those three ways and in
/// no other, provided that the store holds only successes.
pub proof fn law_response_is_cached_when(settings: Settings, entries: Entries, x: Exchange)
    requires
        all_success(entries),
    ensures
        leaves_response_cached(settings, entries, x) == caches_response(settings, entries, x),
{
    let visible = visible_entries(entries, x.key, asks_invalidation(settings, x.request));
    if visible.contains_key(x.key) {
        assert(entries.contains_key(x.key));
        assert(is_success(entries[x.key].status));
    }
}

/// Within one unexpired window the handler is asked at most once, and all
/// later responses repeat the first.
///
/// Take a sequence of exchanges that share a key and ask no invalidation,
/// in which the store reports no expiry after the first exchange, and let
/// the first exchange leave its response in the store. Then no exchange
/// after the first asks the handler, and each has the status and the body
/// of the first response.
pub proof fn law_window_repeats_first_response(
    settings: Settings,
    entries: Entries,
    xs: Seq<Exchange>,
    i: int,
)
    requires
        1 <= i < xs.len(),
        forall|j: int| 0 <= j < xs.len() ==> (#[trigger] xs[j]).key == xs[0].key,
        forall|j: int| 0 <= j < xs.len() ==> !asks_invalidation(settings, (#[trigger] xs[j]).request),
        forall|j: int| 1 <= j < xs.len() ==> !(#[trigger] xs[j]).expired,
        leaves_response_cached(settings, entries, xs[0]),
    ensures
        !outcome_at(settings, entries, xs, i).invoked,
        outcome_at(settings, entries, xs, i).response.status == outcome_at(
            settings,
            entries,
            xs,
            0,
        ).response.status,
        outcome_at(settings, entries, xs, i).response.body == outcome_at(
            settings,
            entries,
            xs,
            0,
        ).response.body,
        entries_after(settings, entries, xs.take(i + 1)) == entries_after(
            settings,
            entries,
            xs.take(1),
        ),
    decreases i,
{
    let key = xs[0].key;
    let first = outcome_at(settings, entries, xs, 0);
    assert(xs.take(0) =~= Seq::<Exchange>::empty());
    lemma_entries_after_step(settings, entries, xs, 0);
    let held = entries_after(settings, entries, xs.take(1));
    assert(held.contains_key(key));
    assert(held[key].status == first.response.status);
    assert(held[key].body == first.response.body);
    if i > 1 {
        law_window_repeats_first_response(settings, entries, xs, i - 1);
    }
    assert(entries_after(settings, entries, xs.take(i)) == held);
    assert(xs[i].key == key);
    lemma_entries_after_step(settings, entries, xs, i);
}

/// Only successes are stored, and only within the limit: a store whose
/// values all have a status in the success class and a body within the
/// limit is still such a store after any exchange.
pub proof fn law_store_holds_only_successes(settings: Settings, entries: Entries, x: Exchange)
    ensures
        all_success(entries) ==> all_success(exchange(settings, entries, x).entries),
        all_within(entries, settings.limit) ==> all_within(
            exchange(settings, entries, x).entries,
            settings.limit,
        ),
{
}

/// An exchange whose reply is a failure stores nothing: every key that has
/// an entry afterwards had it before, with the same value.
pub proof fn law_failure_stores_nothing(settings: Settings, entries: Entries, x: Exchange)
    requires
        !is_success(x.reply.status),
    ensures
        exchange(settings, entries, x).entries.submap_of(entries),
{
}

/// A sequence of exchanges whose replies are all failures leaves a key
/// without an entry if it had none before.
pub proof fn law_failures_leave_store_empty(
    settings: Settings,
    entries: Entries,
    xs: Seq<Exchange>,
    key: KeyView,
)
    requires
        !entries.contains_key(key),
        forall|j: int| 0 <= j < xs.len() ==> !is_success((#[trigger] xs[j]).reply.status),
    ensures
        !entries_after(settings, entries, xs).contains_key(key),
    decreases xs.len(),
{
    if xs.len() > 0 {
        let front = xs.drop_last();
        assert forall|j: int| 0 <= j < front.len() implies !is_success(
            (#[trigger] front[j]).reply.status,
        ) by {
            assert(front[j] == xs[j]);
        }
        law_failures_leave_store_empty(settings, entries, front, key);
        law_failure_stores_nothing(settings, entries_after(settings, entries, front), xs.last());
    }
}

/// A successful reply within the body limit is stored and served as it
/// came: whenever the handler is asked and gives such a reply, the store
/// then holds the reply's status, headers and body under the key, and the
/// response has the reply's status and body.
pub proof fn law_success_is_stored(settings: Settings, entries: Entries, x: Exchange)
    requires
        exchange(settings, entries, x).invoked,
        is_success(x.reply.status),
        x.reply.body.len() <= settings.limit,
    ensures
        exchange(settings, entries, x).entries.contains_key(x.key),
        exchange(settings, entries, x).entries[x.key] == snapshot(
            x.reply,
            settings.add_response_headers,
            x.now,
        ),
        exchange(settings, entries, x).response.status == x.reply.status,
        exchange(settings, entries, x).response.body == x.reply.body,
{
}

/// With stale values allowed, a stored value outlives the handler's
/// failures.
///
/// Take a store that holds a value under a key, and a sequence of
/// exchanges for that key that ask no invalidation and whose replies are
/// all failures. Then every response has the status and the body of the
/// stored value, whether the store reports the value as expired or not,
/// and the store ends as it began.
pub proof fn law_stale_value_outlives_failures(
    settings: Settings,
    entries: Entries,
    xs: Seq<Exchange>,
    key: KeyView,
    i: int,
)
    requires
        settings.use_stale,
        entries.contains_key(key),
        0 <= i < xs.len(),
        forall|j: int| 0 <= j < xs.len() ==> (#[trigger] xs[j]).key == key,
        forall|j: int| 0 <= j < xs.len() ==> !asks_invalidation(settings, (#[trigger] xs[j]).request),
        forall|j: int| 0 <= j < xs.len() ==> !is_success((#[trigger] xs[j]).reply.status),
    ensures
        outcome_at(settings, entries, xs, i).response.status == entries[key].status,
        outcome_at(settings, entries, xs, i).response.body == entries[key].body,
        entries_after(settings, entries, xs.take(i + 1)) == entries,
    decreases i,
{
    if i > 0 {
        law_stale_value_outlives_failures(settings, entries, xs, key, i - 1);
    } else {
        assert(xs.take(0) =~= Seq::<Exchange>::empty());
    }
    assert(entries_after(settings, entries, xs.take(i)) == entries);
    assert(xs[i].key == key);
    lemma_entries_after_step(settings, entries, xs, i);
}

/// With stale values allowed, one success followed by failures keeps
/// being served.
///
/// Take a sequence of exchanges that share a key and ask no invalidation.
/// Let the handler be asked in the first and reply with a success within
/// the body limit, and let every later reply be a failure. Then every
/// later response has the status and the body of that first reply.
pub proof fn law_stale_on_failure(settings: Settings, entries: Entries, xs: Seq<Exchange>, i: int)
    requires
        settings.use_stale,
        1 <= i < xs.len(),
        forall|j: int| 0 <= j < xs.len() ==> (#[trigger] xs[j]).key == xs[0].key,
        forall|j: int| 0 <= j < xs.len() ==> !asks_invalidation(settings, (#[trigger] xs[j]).request),
        outcome_at(settings, entries, xs, 0).invoked,
        is_success(xs[0].reply.status),
        xs[0].reply.body.len() <= settings.limit,
        forall|j: int| 1 <= j < xs.len() ==> !is_success((#[trigger] xs[j]).reply.status),
    ensures
        outcome_at(settings, entries, xs, i).response.status == xs[0].reply.status,
        outcome_at(settings, entries, xs, i).response.body == xs[0].reply.body,
        entries_after(settings, entries, xs.take(i + 1)) == entries_after(
            settings,
            entries,
            xs.take(1),
        ),
    decreases i,
{
    let key = xs[0].key;
    assert(xs.take(0) =~= Seq::<Exchange>::empty());
    lemma_entries_after_step(settings, entries, xs, 0);
    law_success_is_stored(settings, entries, xs[0]);
    let held = entries_after(settings, entries, xs.take(1));
    if i > 1 {
        law_stale_on_failure(settings, entries, xs, i - 1);
    }
    assert(entries_after(settings, entries, xs.take(i)) == held);
    assert(xs[i].key == key);
    lemma_entries_after_step(settings, entries, xs, i);
}

/// With stale values not allowed, failures after expiry are sent on and
/// the entry is removed.
///
/// Take a sequence of exchanges for one key, in each of which the store
/// reports expiry and the reply is a failure. Then every response is the
/// handler's reply, unchanged, and after each exchange the key has no
/// entry.
pub proof fn law_failures_forwarded_without_stale(
    settings: Settings,
    entries: Entries,
    xs: Seq<Exchange>,
    key: KeyView,
    i: int,
)
    requires
        !settings.use_stale,
        0 <= i < xs.len(),
        forall|j: int| 0 <= j < xs.len() ==> (#[trigger] xs[j]).key == key,
        forall|j: int| 0 <= j < xs.len() ==> (#[trigger] xs[j]).expired,
        forall|j: int| 0 <= j < xs.len() ==> !is_success((#[trigger] xs[j]).reply.status),
    ensures
        outcome_at(settings, entries, xs, i).invoked,
        outcome_at(settings, entries, xs, i).response == xs[i].reply,
        !entries_after(settings, entries, xs.take(i + 1)).contains_key(key),
{
    assert(xs[i].key == key);
    lemma_entries_after_step(settings, entries, xs, i);
}

/// After such failures, the next success fills the store again: an
/// exchange for a key without an entry, whose reply is a success within
/// the body limit, asks the handler and leaves the reply stored.
pub proof fn law_success_repopulates(settings: Settings, entries: Entries, x: Exchange)
    requires
        !entries.contains_key(x.key),
        is_success(x.reply.status),
        x.reply.body.len() <= settings.limit,
    ensures
        exchange(settings, entries, x).invoked,
        exchange(settings, entries, x).entries == entries.insert(
            x.key,
            snapshot(x.reply, settings.add_response_headers, x.now),
        ),
        exchange(settings, entries, x).response.status == x.reply.status,
        exchange(settings, entries, x).response.body == x.reply.body,
{
    assert(visible_entries(entries, x.key, asks_invalidation(settings, x.request)) =~= entries);
}

/// A body over the limit is never stored and is answered by a server
/// error that names the limit; a body within the limit is stored and
/// served byte for byte.
pub proof fn law_body_limit(settings: Settings, entries: Entries, x: Exchange)
    requires
        exchange(settings, entries, x).invoked,
        is_success(x.reply.status),
    ensures
        x.reply.body.len() > settings.limit ==> exchange(settings, entries, x).response
            == too_large_response(settings.limit),
        x.reply.body.len() > settings.limit ==> exchange(settings, entries, x).response.status
            == TOO_LARGE_STATUS,
        x.reply.body.len() > settings.limit ==> exchange(settings, entries, x).response.body
            == too_large_message(settings.limit),
        x.reply.body.len() > settings.limit ==> exchange(settings, entries, x).entries
            == visible_entries(entries, x.key, asks_invalidation(settings, x.request)),
        x.reply.body.len() > settings.limit ==> exchange(settings, entries, x).entries.submap_of(
            entries,
        ),
        x.reply.body.len() <= settings.limit ==> exchange(settings, entries, x).response.body
            == x.reply.body,
        x.reply.body.len() <= settings.limit ==> exchange(settings, entries, x).entries.contains_key(
            x.key,
        ),
        x.reply.body.len() <= settings.limit ==> exchange(settings, entries, x).entries[x.key].body
            == x.reply.body,
{
}

/// With invalidation allowed, a request that carries the invalidation
/// header always reaches the handler, whatever the store holds and
/// however fresh it is; the entry it finds is gone before the lookup.
pub proof fn law_invalidation_reaches_handler(settings: Settings, entries: Entries, x: Exchange)
    requires
        settings.allow_invalidation,
        contains_name(x.request.headers, invalidation_header_name()),
    ensures
        exchange(settings, entries, x).invoked,
        !is_success(x.reply.status) ==> !exchange(settings, entries, x).entries.contains_key(x.key),
{
}

/// With invalidation not allowed, the invalidation header changes
/// nothing: two exchanges that differ only in their requests, and are
/// given the same key, have the same outcome.
pub proof fn law_invalidation_ignored_when_disabled(
    settings: Settings,
    entries: Entries,
    x: Exchange,
    request: RequestView,
)
    requires
        !settings.allow_invalidation,
    ensures
        exchange(settings, entries, x) == exchange(settings, entries, (Exchange { request, ..x })),
{
}

/// Setting a header leaves exactly one header of that name, the last of
/// the list, with the value that was set.
pub proof fn law_set_header_is_unique(headers: HeaderSeq, name: Seq<u8>, value: Seq<u8>)
    ensures
        with_header(headers, name, value).last() == (name, value),
        !contains_name(with_header(headers, name, value).drop_last(), name),
{
    lemma_without_name(headers, name);
    assert(with_header(headers, name, value).drop_last() =~= without_name(headers, name));
}

/// With ages shown, a response that is stored goes out with an age of
/// zero, and a later response served from that value carries the whole
/// seconds that lie between the two readings of the clock, rounded down.
pub proof fn law_age_is_shown(settings: Settings, entries: Entries, x: Exchange, later: Exchange)
    requires
        settings.add_response_headers,
        exchange(settings, entries, x).invoked,
        is_success(x.reply.status),
        x.reply.body.len() <= settings.limit,
        later.key == x.key,
        !later.expired,
        !asks_invalidation(settings, later.request),
    ensures
        exchange(settings, entries, x).response.headers == with_header(
            x.reply.headers,
            age_header_name(),
            decimal(0),
        ),
        exchange(settings, exchange(settings, entries, x).entries, later).response.headers
            == with_header(
            x.reply.headers,
            age_header_name(),
            decimal(age_seconds(x.now, later.now)),
        ),
        later.now >= x.now ==> age_seconds(x.now, later.now) == (later.now - x.now)
            / NANOS_PER_SECOND as int,
{
}

/// With ages not shown, no age header is added: a response that is
/// stored, and a later response served from that value, carry the
/// handler's headers and no others.
pub proof fn law_age_is_absent_when_disabled(
    settings: Settings,
    entries: Entries,
    x: Exchange,
    later: Exchange,
)
    requires
        !settings.add_response_headers,
        exchange(settings, entries, x).invoked,
        is_success(x.reply.status),
        x.reply.body.len() <= settings.limit,
        later.key == x.key,
        !later.expired,
        !asks_invalidation(settings, later.request),
    ensures
        exchange(settings, entries, x).response.headers == x.reply.headers,
        exchange(settings, exchange(settings, entries, x).entries, later).response.headers
            == x.reply.headers,
{
}

/// Requests with the same key are served from the same entry: once an
/// exchange has stored a reply, an exchange with the same key, while the
/// value is within its time to live and no invalidation is asked, is
/// served that reply's status and body without the handler, whatever else
/// differs between the two requests.
pub proof fn law_same_key_same_entry(settings: Settings, entries: Entries, x: Exchange, y: Exchange)
    requires
        exchange(settings, entries, x).invoked,
        is_success(x.reply.status),
        x.reply.body.len() <= settings.limit,
        y.key == x.key,
        !y.expired,
        !asks_invalidation(settings, y.request),
    ensures
        !exchange(settings, exchange(settings, entries, x).entries, y).invoked,
        exchange(settings, exchange(settings, entries, x).entries, y).response.status
            == x.reply.status,
        exchange(settings, exchange(settings, entries, x).entries, y).response.body == x.reply.body,
{
}

/// Requests with different keys have different entries: an exchange
/// touches no entry but that of its own key.
pub proof fn law_other_keys_untouched(settings: Settings, entries: Entries, x: Exchange, other: KeyView)
    requires
        other != x.key,
    ensures
        entry_of(exchange(settings, entries, x).entries, other) == entry_of(entries, other),
{
}

/// Two requests with different keys fill two entries: after both
/// handlers were asked and replied with successes within the body limit,
/// the store holds each reply under its own key.
pub proof fn law_distinct_keys_distinct_entries(
    settings: Settings,
    entries: Entries,
    x: Exchange,
    y: Exchange,
)
    requires
        x.key != y.key,
        exchange(settings, entries, x).invoked,
        exchange(settings, exchange(settings, entries, x).entries, y).invoked,
        is_success(x.reply.status),
        is_success(y.reply.status),
        x.reply.body.len() <= settings.limit,
        y.reply.body.len() <= settings.limit,
    ensures
        entry_of(exchange(settings, exchange(settings, entries, x).entries, y).entries, x.key)
            == Some(snapshot(x.reply, settings.add_response_headers, x.now)),
        entry_of(exchange(settings, exchange(settings, entries, x).entries, y).entries, y.key)
            == Some(snapshot(y.reply, settings.add_response_headers, y.now)),
{
}

/// The default keyer tells requests apart by method and URI, and by
/// nothing else.
pub proof fn law_basic_key_is_method_and_uri(a: RequestView, b: RequestView)
    ensures
        basic_key(a) == basic_key(b) <==> (a.method == b.method && a.uri == b.uri),
{
    if basic_key(a) == basic_key(b) {
        assert(basic_key(a)[0] == a.method);
        assert(basic_key(b)[0] == b.method);
        assert(basic_key(a)[1] == a.uri);
        assert(basic_key(b)[1] == b.uri);
    }
}

} // verus!
