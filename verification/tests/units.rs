use axum_response_cache::body::{materialize, BodyTooLarge};
use axum_response_cache::clock::seconds_between;
use axum_response_cache::keyer::{copy_key, BasicKeyer, FnKeyer, Keyer};
use axum_response_cache::message::{
    copy_headers, has_header, set_header, status_is_success, Request,
};
use axum_response_cache::text::{literal_bytes, lower_byte, names_match, to_decimal};

fn header(name: &str, value: &str) -> (Vec<u8>, Vec<u8>) {
    (name.as_bytes().to_vec(), value.as_bytes().to_vec())
}

#[test]
fn decimal_renders_without_leading_zeros() {
    assert_eq!(to_decimal(0), b"0".to_vec());
    assert_eq!(to_decimal(7), b"7".to_vec());
    assert_eq!(to_decimal(9), b"9".to_vec());
    assert_eq!(to_decimal(10), b"10".to_vec());
    assert_eq!(to_decimal(16), b"16".to_vec());
    assert_eq!(to_decimal(1_000_000), b"1000000".to_vec());
    assert_eq!(to_decimal(134_217_728), b"134217728".to_vec());
    assert_eq!(to_decimal(u64::MAX as u128), u64::MAX.to_string().into_bytes());
    assert_eq!(to_decimal(u128::MAX), u128::MAX.to_string().into_bytes());
}

#[test]
fn lower_byte_folds_only_upper_case_letters() {
    for b in 0..=255u8 {
        assert_eq!(lower_byte(b), b.to_ascii_lowercase());
    }
}

#[test]
fn names_match_ignores_ascii_case_only() {
    assert!(names_match(b"X-Cache-Age", b"x-cache-age"));
    assert!(names_match(b"ACCEPT", b"accept"));
    assert!(names_match(b"", b""));
    assert!(!names_match(b"accept", b"accept "));
    assert!(!names_match(b"accept", b"accep"));
    assert!(!names_match(b"a-b", b"a_b"));
    assert!(!names_match(b"[", b"{"));
    assert!(!names_match(b"@", b"`"));
    assert!(!names_match(&[0xC9], &[0xE9]));
}

#[test]
fn literal_bytes_are_the_bytes_of_the_text() {
    assert_eq!(literal_bytes("X-Cache-Age"), b"X-Cache-Age".to_vec());
    assert_eq!(literal_bytes(""), Vec::<u8>::new());
    assert_eq!(literal_bytes("é"), vec![0xC3, 0xA9]);
}

#[test]
fn status_classes() {
    for status in 0..=1000u16 {
        assert_eq!(status_is_success(status), (200..=299).contains(&status));
    }
    assert!(!status_is_success(u16::MAX));
}

#[test]
fn has_header_finds_names_in_any_case() {
    let headers = vec![header("Accept", "a"), header("x-invalidate-cache", "")];
    assert!(has_header(&headers, b"accept"));
    assert!(has_header(&headers, b"X-Invalidate-Cache"));
    assert!(!has_header(&headers, b"x-cache-age"));
    assert!(!has_header(&Vec::new(), b"accept"));
}

#[test]
fn set_header_drops_every_header_of_that_name() {
    let headers = vec![
        header("Age", "1"),
        header("etag", "x"),
        header("AGE", "2"),
        header("vary", "accept"),
        header("age", "3"),
    ];
    let updated = set_header(headers, b"age".to_vec(), b"4".to_vec());
    assert_eq!(updated, vec![header("etag", "x"), header("vary", "accept"), header("age", "4")]);
    assert_eq!(set_header(Vec::new(), b"a".to_vec(), b"b".to_vec()), vec![header("a", "b")]);
    let untouched = set_header(vec![header("etag", "x")], b"age".to_vec(), Vec::new());
    assert_eq!(untouched, vec![header("etag", "x"), header("age", "")]);
}

#[test]
fn copies_are_equal() {
    let headers = vec![header("a", "1"), header("b", ""), header("", "3")];
    assert_eq!(copy_headers(&headers), headers);
    assert_eq!(copy_headers(&Vec::new()), Vec::new());
    let key = vec![b"GET".to_vec(), Vec::new(), b"/".to_vec()];
    assert_eq!(copy_key(&key), key);
    assert_eq!(copy_key(&Vec::new()), Vec::<Vec<u8>>::new());
}

#[test]
fn materialize_admits_up_to_the_limit() {
    assert_eq!(materialize(b"1234".to_vec(), 4), Ok(b"1234".to_vec()));
    assert_eq!(materialize(Vec::new(), 0), Ok(Vec::new()));
    assert_eq!(materialize(b"12345".to_vec(), 4), Err(BodyTooLarge { limit: 4 }));
    assert_eq!(materialize(b"1".to_vec(), 0), Err(BodyTooLarge { limit: 0 }));
    assert_eq!(materialize(vec![0; 1000], usize::MAX), Ok(vec![0; 1000]));
}

#[test]
fn body_too_large_names_the_limit() {
    let response = (BodyTooLarge { limit: 16 }).into_response();
    assert_eq!(response.status, 500);
    assert_eq!(response.headers, vec![header("content-type", "text/plain; charset=utf-8")]);
    assert_eq!(response.body, b"File too big, over 16 bytes".to_vec());
    let response = (BodyTooLarge { limit: 0 }).into_response();
    assert_eq!(response.body, b"File too big, over 0 bytes".to_vec());
    let response = (BodyTooLarge { limit: 134_217_728 }).into_response();
    assert_eq!(response.body, b"File too big, over 134217728 bytes".to_vec());
}

#[test]
fn seconds_between_floors_and_saturates() {
    assert_eq!(seconds_between(0, 0), 0);
    assert_eq!(seconds_between(5, 1_000_000_004), 0);
    assert_eq!(seconds_between(5, 1_000_000_005), 1);
    assert_eq!(seconds_between(0, 2_100_000_000), 2);
    assert_eq!(seconds_between(10, 3), 0);
    assert_eq!(seconds_between(0, u128::MAX), u128::MAX / 1_000_000_000);
}

#[test]
fn basic_keyer_keys_by_method_and_uri() {
    let request = Request {
        method: b"GET".to_vec(),
        uri: b"/hello?x=1".to_vec(),
        headers: vec![header("accept", "text/html")],
    };
    assert_eq!(BasicKeyer.get_key(&request), vec![b"GET".to_vec(), b"/hello?x=1".to_vec()]);
    let other = Request { headers: Vec::new(), ..request };
    assert_eq!(BasicKeyer.get_key(&other), vec![b"GET".to_vec(), b"/hello?x=1".to_vec()]);
    let shifted = Request { method: b"GET/".to_vec(), uri: b"hello".to_vec(), headers: Vec::new() };
    let plain = Request { method: b"GET".to_vec(), uri: b"/hello".to_vec(), headers: Vec::new() };
    assert_ne!(BasicKeyer.get_key(&shifted), BasicKeyer.get_key(&plain));
}

#[test]
fn function_keyer_applies_the_function() {
    let keyer = FnKeyer::new(|request: &Request| vec![request.uri.clone()]);
    let request = Request { method: b"PUT".to_vec(), uri: b"/x".to_vec(), headers: Vec::new() };
    assert_eq!(keyer.get_key(&request), vec![b"/x".to_vec()]);
    let keyer = FnKeyer::new(|request: &Request| {
        vec![request.method.clone(), Vec::new(), request.uri.clone(), request.method.clone()]
    });
    assert_eq!(
        keyer.get_key(&request),
        vec![b"PUT".to_vec(), Vec::new(), b"/x".to_vec(), b"PUT".to_vec()]
    );
}
