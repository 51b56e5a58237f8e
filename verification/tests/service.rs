use axum_response_cache::keyer::{CacheKey, FnKeyer, Keyer};
use axum_response_cache::layer::CacheLayer;
use axum_response_cache::message::{Request, Response};
use axum_response_cache::service::{CacheService, Plan, Verdict};
use axum_response_cache::store::CacheStore;
use std::cell::Cell;
use std::time::{Duration, Instant};

fn get(uri: &str) -> Request {
    Request { method: b"GET".to_vec(), uri: uri.as_bytes().to_vec(), headers: Vec::new() }
}

fn get_with_header(uri: &str, name: &str, value: &str) -> Request {
    Request {
        method: b"GET".to_vec(),
        uri: uri.as_bytes().to_vec(),
        headers: vec![(name.as_bytes().to_vec(), value.as_bytes().to_vec())],
    }
}

fn reply(status: u16) -> Response {
    Response { status, headers: Vec::new(), body: Vec::new() }
}

fn is_success(status: u16) -> bool {
    (200..300).contains(&status)
}

fn header<'a>(response: &'a Response, name: &str) -> Option<&'a [u8]> {
    response
        .headers
        .iter()
        .find(|h| h.0.eq_ignore_ascii_case(name.as_bytes()))
        .map(|h| h.1.as_slice())
}

fn wait(millis: u64) {
    let start = Instant::now();
    while start.elapsed() < Duration::from_millis(millis) {
        std::hint::spin_loop();
    }
}

/// Runs one request through the service, asking `handler` when the service
/// says so.
fn call<S, C: CacheStore, K: Keyer>(
    service: &CacheService<S, C, K>,
    request: Request,
    handler: &dyn Fn() -> Response,
) -> Response {
    match service.call(&request) {
        Plan::Respond(response) => response,
        Plan::Invoke(pending) => {
            let response = handler();
            match service.settle(pending, response.status) {
                Verdict::Store(key) => service.store(key, response),
                Verdict::ServeStale(stale) => stale,
                Verdict::Forward => response,
            }
        }
    }
}

const FAILURES: [u16; 3] = [400, 500, 404];

#[test]
fn should_use_cached_value() {
    let counter = Cell::new(0isize);
    let handler = || {
        counter.set(counter.get() + 1);
        reply(200)
    };

    let cache = CacheLayer::with_lifespan(Duration::from_secs(60)).use_stale_on_failure();
    let service = cache.layer(());

    for _ in 0..10 {
        let status = call(&service, get("/"), &handler).status;
        assert!(is_success(status), "handler should return success");
    }

    assert_eq!(1, counter.get(), "handler should’ve been called only once");
}

#[test]
fn should_not_cache_unsuccessful_responses() {
    let counter = Cell::new(0isize);
    let handler = || {
        counter.set(counter.get() + 1);
        reply(FAILURES[counter.get() as usize % FAILURES.len()])
    };

    let cache = CacheLayer::with_lifespan(Duration::from_secs(60)).use_stale_on_failure();
    let service = cache.layer(());

    for _ in 0..10 {
        let status = call(&service, get("/"), &handler).status;
        assert!(!is_success(status), "handler should never return success");
    }

    assert_eq!(10, counter.get(), "handler should’ve been called for all requests");
}

#[test]
fn should_use_last_correct_stale_value() {
    let counter = Cell::new(0isize);
    let handler = || {
        let prev = counter.get();
        counter.set(prev + 1);
        // first response successful, later failed
        if prev == 0 {
            reply(200)
        } else {
            reply(FAILURES[prev as usize % FAILURES.len()])
        }
    };

    let cache = CacheLayer::with_lifespan(Duration::from_millis(100)).use_stale_on_failure();
    let service = cache.layer(());

    // feed the cache
    let status = call(&service, get("/"), &handler).status;
    assert!(is_success(status), "handler should return success");

    // wait over 100 ms for cache eviction
    wait(105);

    for _ in 1..10 {
        let status = call(&service, get("/"), &handler).status;
        assert!(is_success(status), "cache should return stale successful value");
    }
}

#[test]
fn should_not_use_stale_values() {
    let counter = Cell::new(0isize);
    let handler = || {
        let prev = counter.get();
        counter.set(prev + 1);
        // first response successful, later failed
        if prev == 0 {
            reply(200)
        } else {
            reply(FAILURES[prev as usize % FAILURES.len()])
        }
    };

    let cache = CacheLayer::with_lifespan(Duration::from_millis(100));
    let service = cache.layer(());

    // feed the cache
    let status = call(&service, get("/"), &handler).status;
    assert!(is_success(status), "handler should return success");

    // wait over 100 ms for cache eviction
    wait(105);

    for _ in 1..10 {
        let status = call(&service, get("/"), &handler).status;
        assert!(!is_success(status), "cache should forward unsuccessful values");
    }

    assert_eq!(10, counter.get(), "handler should’ve been called for all requests");
}

#[test]
fn should_not_invalidate_cache_when_disabled() {
    let counter = Cell::new(0isize);
    let handler = || {
        counter.set(counter.get() + 1);
        reply(200)
    };

    let cache = CacheLayer::with_lifespan(Duration::from_secs(60));
    let service = cache.layer(());

    // First request to cache the response
    let status = call(&service, get("/"), &handler).status;
    assert!(is_success(status), "handler should return success");

    // Second request should return the cached response - no increment
    let status = call(&service, get("/"), &handler).status;
    assert!(is_success(status), "handler should return success");

    // Third request with X-Invalidate-Cache header should not invalidate the cache - no increment
    let status =
        call(&service, get_with_header("/", "X-Invalidate-Cache", "true"), &handler).status;
    assert!(is_success(status), "handler should return success");

    // Fourth request should still return the cached response - no increment
    let status = call(&service, get("/"), &handler).status;
    assert!(is_success(status), "handler should return success");

    assert_eq!(1, counter.get(), "handler should’ve been called only once");
}

#[test]
fn should_invalidate_cache_when_enabled() {
    let counter = Cell::new(0isize);
    let handler = || {
        counter.set(counter.get() + 1);
        reply(200)
    };

    let cache = CacheLayer::with_lifespan(Duration::from_secs(60)).allow_invalidation();
    let service = cache.layer(());

    // First request to cache the response
    let status = call(&service, get("/"), &handler).status;
    assert!(is_success(status), "handler should return success");

    // Second request should return the cached response - no increment
    let status = call(&service, get("/"), &handler).status;
    assert!(is_success(status), "handler should return success");

    // Third request with X-Invalidate-Cache header to invalidate the cache
    let status =
        call(&service, get_with_header("/", "X-Invalidate-Cache", "true"), &handler).status;
    assert!(is_success(status), "handler should return success");

    // Fourth request to verify that the handler is called again
    let status = call(&service, get("/"), &handler).status;
    assert!(is_success(status), "handler should return success");

    assert_eq!(2, counter.get(), "handler should’ve been called twice");
}

#[test]
fn should_not_include_age_header_when_disabled() {
    let counter = Cell::new(0isize);
    let handler = || {
        counter.set(counter.get() + 1);
        reply(200)
    };

    let cache = CacheLayer::with_lifespan(Duration::from_secs(60));
    let service = cache.layer(());

    // First request to cache the response
    let response = call(&service, get("/"), &handler);
    assert!(is_success(response.status), "handler should return success");

    // Second request should return the cached response
    let response = call(&service, get("/"), &handler);
    assert!(is_success(response.status), "handler should return success");
    assert!(header(&response, "X-Cache-Age").is_none(), "Age header should not be present");

    assert_eq!(1, counter.get(), "handler should’ve been called only once");
}

#[test]
fn should_include_age_header_when_enabled() {
    let counter = Cell::new(0isize);
    let handler = || {
        counter.set(counter.get() + 1);
        reply(200)
    };

    let cache = CacheLayer::with_lifespan(Duration::from_secs(60)).add_response_headers();
    let service = cache.layer(());

    // First request to cache the response
    let response = call(&service, get("/"), &handler);
    assert!(is_success(response.status), "handler should return success");

    // Age should be 0
    assert_eq!(
        header(&response, "X-Cache-Age").unwrap_or(b""),
        b"0",
        "Age header should be present and equal to 0"
    );
    // wait over 2s to age the cache
    wait(2100);
    // Second request should return the cached response
    let response = call(&service, get("/"), &handler);

    assert_eq!(
        header(&response, "X-Cache-Age").unwrap_or(b""),
        b"2",
        "Age header should be present and equal to 2"
    );

    assert_eq!(1, counter.get(), "handler should’ve been called only once");
}

#[test]
fn should_cache_by_custom_keys() {
    let counter = Cell::new(0isize);
    let handler = || {
        counter.set(counter.get() + 1);
        reply(200)
    };

    let keyer = FnKeyer::new(|request: &Request| -> CacheKey {
        vec![
            request.method.clone(),
            request
                .headers
                .iter()
                .find(|h| h.0.eq_ignore_ascii_case(b"accept"))
                .map(|h| h.1.clone())
                .unwrap_or_default(),
            request.uri.clone(),
        ]
    });
    let cache =
        CacheLayer::with_lifespan_and_keyer(Duration::from_secs(60), keyer).add_response_headers();
    let service = cache.layer(());

    // First request to cache the response
    let response = call(&service, get("/"), &handler);
    assert!(is_success(response.status), "handler should return success");

    // Age should be 0
    assert_eq!(
        header(&response, "X-Cache-Age").unwrap_or(b""),
        b"0",
        "Age header should be present and equal to 0"
    );

    // wait over 2s to age the cache
    wait(2100);
    // Second request should return the cached response
    let response = call(&service, get("/"), &handler);

    assert_eq!(
        header(&response, "X-Cache-Age").unwrap_or(b""),
        b"2",
        "Age header should be present and equal to 2"
    );

    // Request with a different accept header should return a new response
    let response =
        call(&service, get_with_header("/", "accept", "application/json"), &handler);

    assert_eq!(
        header(&response, "X-Cache-Age").unwrap_or(b""),
        b"0",
        "Age header should be present and equal to 0"
    );

    // wait over 2s to age the cache
    wait(2100);
    // Second request should return the newly cached response
    let response =
        call(&service, get_with_header("/", "accept", "application/json"), &handler);

    assert_eq!(
        header(&response, "X-Cache-Age").unwrap_or(b""),
        b"2",
        "Age header should be present and equal to 2"
    );

    assert_eq!(2, counter.get(), "handler should’ve been called only twice");
}

fn reply_with_body(status: u16, body: &[u8]) -> Response {
    Response { status, headers: Vec::new(), body: body.to_vec() }
}

#[test]
fn rapid_requests_get_the_same_body() {
    let counter = Cell::new(0isize);
    let handler = || {
        counter.set(counter.get() + 1);
        reply_with_body(200, b"a fixed body")
    };
    let service = CacheLayer::with_lifespan(Duration::from_secs(60)).layer(());
    for _ in 0..10 {
        let response = call(&service, get("/"), &handler);
        assert_eq!(response.status, 200);
        assert_eq!(response.body, b"a fixed body".to_vec());
    }
    assert_eq!(1, counter.get());
}

#[test]
fn stale_value_is_served_nine_times_after_expiry() {
    let counter = Cell::new(0isize);
    let handler = || {
        let prev = counter.get();
        counter.set(prev + 1);
        if prev == 0 {
            reply_with_body(200, b"the first success")
        } else {
            reply_with_body(500, b"down")
        }
    };
    let service =
        CacheLayer::with_lifespan(Duration::from_millis(100)).use_stale_on_failure().layer(());
    assert_eq!(call(&service, get("/"), &handler).status, 200);
    wait(105);
    for _ in 0..9 {
        let response = call(&service, get("/"), &handler);
        assert_eq!(response.status, 200);
        assert_eq!(response.body, b"the first success".to_vec());
    }
    // the first request after expiry asked the handler
    assert!(counter.get() >= 2);
}

#[test]
fn expired_entry_is_removed_on_failure_and_filled_again_on_success() {
    let counter = Cell::new(0isize);
    let handler = || {
        let prev = counter.get();
        counter.set(prev + 1);
        match prev {
            0 => reply_with_body(200, b"first"),
            1 => reply_with_body(500, b"failed"),
            _ => reply_with_body(200, b"second"),
        }
    };
    let service = CacheLayer::with_lifespan(Duration::from_millis(400)).layer(());
    assert_eq!(call(&service, get("/"), &handler).body, b"first".to_vec());
    wait(405);
    let response = call(&service, get("/"), &handler);
    assert_eq!((response.status, response.body), (500, b"failed".to_vec()));
    // the entry is gone: the next request reaches the handler at once
    let response = call(&service, get("/"), &handler);
    assert_eq!((response.status, response.body), (200, b"second".to_vec()));
    assert_eq!(3, counter.get());
    // and its success is served from the store
    let response = call(&service, get("/"), &handler);
    assert_eq!((response.status, response.body), (200, b"second".to_vec()));
    assert_eq!(3, counter.get());
}

#[test]
fn sixteen_byte_limit_refuses_a_56_byte_body() {
    let counter = Cell::new(0isize);
    let too_long_handler = || {
        counter.set(counter.get() + 1);
        reply_with_body(200, b"a response that is well beyond the limit of the cache!!!")
    };
    let ok_handler = || reply_with_body(200, b"ok");
    let service = CacheLayer::with_lifespan(Duration::from_secs(60)).body_limit(16).layer(());

    let response = call(&service, get("/ok"), &ok_handler);
    assert_eq!((response.status, response.body), (200, b"ok".to_vec()));

    let response = call(&service, get("/too_long"), &too_long_handler);
    assert_eq!(response.status, 500);
    assert_eq!(response.body, b"File too big, over 16 bytes".to_vec());
    // nothing was stored: the handler is asked again
    let response = call(&service, get("/too_long"), &too_long_handler);
    assert_eq!(response.status, 500);
    assert_eq!(2, counter.get());

    let refused = service.body_too_large();
    assert_eq!(refused.status, 500);
    assert_eq!(refused.body, b"File too big, over 16 bytes".to_vec());
}

#[test]
fn invalidation_sequence_counts_one_one_two_two() {
    let counter = Cell::new(0isize);
    let handler = || {
        counter.set(counter.get() + 1);
        reply(200)
    };
    let service = CacheLayer::with_lifespan(Duration::from_secs(60)).allow_invalidation().layer(());
    let requests = [
        get("/"),
        get("/"),
        get_with_header("/", "X-Invalidate-Cache", "true"),
        get("/"),
    ];
    let mut observed = Vec::new();
    for request in requests {
        assert!(is_success(call(&service, request, &handler).status));
        observed.push(counter.get());
    }
    assert_eq!(observed, vec![1, 1, 2, 2]);
}

#[test]
fn services_of_one_layer_share_the_store() {
    let counter = Cell::new(0isize);
    let handler = || {
        counter.set(counter.get() + 1);
        reply_with_body(200, b"shared")
    };
    let layer = CacheLayer::with_lifespan(Duration::from_secs(60));
    let first = layer.layer("one");
    let second = layer.clone().layer("two");
    let third = second.clone();
    assert_eq!(call(&first, get("/"), &handler).body, b"shared".to_vec());
    assert_eq!(call(&second, get("/"), &handler).body, b"shared".to_vec());
    assert_eq!(call(&third, get("/"), &handler).body, b"shared".to_vec());
    assert_eq!(1, counter.get());
    assert_eq!((*first.handler(), *second.handler(), *third.handler()), ("one", "two", "two"));

    let other = CacheLayer::with_lifespan(Duration::from_secs(60)).layer(());
    assert_eq!(call(&other, get("/"), &handler).body, b"shared".to_vec());
    assert_eq!(2, counter.get());
}

#[test]
fn handler_can_be_changed_in_place() {
    let mut service = CacheLayer::with_lifespan(Duration::from_secs(60)).body_limit(3).layer(1u8);
    *service.handler_mut() += 1;
    assert_eq!(*service.handler(), 2);
    assert_eq!(service.options().limit, 3);
}
