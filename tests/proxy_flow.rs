use caching_proxy::proxy::{
    begin_request, error_response, finish_fetch, hit_response, miss_response, not_found_response,
    CacheStatus, Step, CACHE_HEADER,
};
use caching_proxy::resolver::{is_reserved, resolve_key, target_url};
use caching_proxy::store::CacheStore;

const ORIGIN: &str = "http://example.test";

fn expect_fetch(step: Step) -> String {
    match step {
        Step::Fetch(url) => url,
        Step::Respond(r) => panic!("expected a fetch, got status {}", r.status),
    }
}

fn expect_respond(step: Step) -> caching_proxy::proxy::ProxyResponse {
    match step {
        Step::Respond(r) => r,
        Step::Fetch(url) => panic!("expected a response, got a fetch of {}", url),
    }
}

#[test]
fn widgets_miss_then_hit() {
    let mut store = CacheStore::new();
    let url = expect_fetch(begin_request(&store, ORIGIN, "widgets/1"));
    assert_eq!(url, "http://example.test/widgets/1");
    let body = "{\"id\":1}".to_string();
    let first = finish_fetch(&mut store, url.clone(), Ok(body.clone()));
    assert_eq!(first.status, 200);
    assert_eq!(first.body, "{\"id\":1}");
    assert_eq!(first.cache, Some(CacheStatus::Miss));
    let second = expect_respond(begin_request(&store, ORIGIN, "widgets/1"));
    assert_eq!(second.status, 200);
    assert_eq!(second.body, "{\"id\":1}");
    assert_eq!(second.cache, Some(CacheStatus::Hit));
}

#[test]
fn favicon_is_not_found() {
    let store = CacheStore::new();
    let r = expect_respond(begin_request(&store, ORIGIN, "favicon.ico"));
    assert_eq!(r.status, 404);
    assert_eq!(r.body, "");
    assert_eq!(r.cache, None);
    assert!(!store.contains_key(&"http://example.test/favicon.ico".to_string()));
    assert_eq!(resolve_key(ORIGIN, "favicon.ico"), None);
}

#[test]
fn unreachable_upstream_is_server_error() {
    let mut store = CacheStore::new();
    let url = expect_fetch(begin_request(&store, ORIGIN, "broken"));
    let r = finish_fetch(&mut store, url.clone(), Err("connection refused".to_string()));
    assert_eq!(r.status, 500);
    assert_eq!(r.body, "Error: connection refused");
    assert!(!r.body.is_empty());
    assert_eq!(r.cache, None);
    assert!(!store.contains_key(&url));
    assert_eq!(store.get(&url), None);
}

#[test]
fn failure_is_not_cached_and_retried() {
    let mut store = CacheStore::new();
    let url = expect_fetch(begin_request(&store, ORIGIN, "flaky"));
    finish_fetch(&mut store, url, Err("timed out".to_string()));
    let again = expect_fetch(begin_request(&store, ORIGIN, "flaky"));
    assert_eq!(again, "http://example.test/flaky");
    let ok = finish_fetch(&mut store, again, Ok("up".to_string()));
    assert_eq!(ok.cache, Some(CacheStatus::Miss));
    let hit = expect_respond(begin_request(&store, ORIGIN, "flaky"));
    assert_eq!(hit.body, "up");
    assert_eq!(hit.cache, Some(CacheStatus::Hit));
}

#[test]
fn failure_keeps_prior_entry() {
    let mut store = CacheStore::new();
    let url = target_url(ORIGIN, "a");
    finish_fetch(&mut store, url.clone(), Ok("old".to_string()));
    let r = finish_fetch(&mut store, url.clone(), Err("reset".to_string()));
    assert_eq!(r.status, 500);
    assert_eq!(store.get(&url), Some("old".to_string()));
    let hit = expect_respond(begin_request(&store, ORIGIN, "a"));
    assert_eq!(hit.body, "old");
    assert_eq!(hit.cache, Some(CacheStatus::Hit));
}

#[test]
fn racing_first_requests_last_writer_wins() {
    let mut store = CacheStore::new();
    let a = expect_fetch(begin_request(&store, ORIGIN, "race"));
    let b = expect_fetch(begin_request(&store, ORIGIN, "race"));
    assert_eq!(a, b);
    let ra = finish_fetch(&mut store, a, Ok("first".to_string()));
    assert_eq!(ra.cache, Some(CacheStatus::Miss));
    let between = expect_respond(begin_request(&store, ORIGIN, "race"));
    assert_eq!(between.body, "first");
    assert_eq!(between.cache, Some(CacheStatus::Hit));
    let rb = finish_fetch(&mut store, b, Ok("second".to_string()));
    assert_eq!(rb.body, "second");
    assert_eq!(rb.cache, Some(CacheStatus::Miss));
    let after = expect_respond(begin_request(&store, ORIGIN, "race"));
    assert_eq!(after.body, "second");
}

#[test]
fn other_keys_do_not_disturb_a_hit() {
    let mut store = CacheStore::new();
    finish_fetch(&mut store, target_url(ORIGIN, "x"), Ok("x-body".to_string()));
    finish_fetch(&mut store, target_url(ORIGIN, "y"), Ok("y-body".to_string()));
    let x = expect_respond(begin_request(&store, ORIGIN, "x"));
    assert_eq!(x.body, "x-body");
    let y = expect_respond(begin_request(&store, ORIGIN, "y"));
    assert_eq!(y.body, "y-body");
}

#[test]
fn keys_join_with_one_slash() {
    assert_eq!(target_url("http://o", "a/b/c"), "http://o/a/b/c");
    assert_eq!(target_url("http://o", ""), "http://o/");
    assert_eq!(target_url("http://o/", "x"), "http://o//x");
    assert_eq!(resolve_key("http://o", "p"), Some("http://o/p".to_string()));
    assert_ne!(resolve_key("http://o", "a/b"), resolve_key("http://o", "a"));
}

#[test]
fn reserved_path_only_exact() {
    assert!(is_reserved("favicon.ico"));
    assert!(!is_reserved("favicon.ico2"));
    assert!(!is_reserved("/favicon.ico"));
    assert!(!is_reserved("img/favicon.ico"));
    assert!(!is_reserved(""));
    assert_eq!(resolve_key("http://o", "img/favicon.ico"), Some("http://o/img/favicon.ico".to_string()));
}

#[test]
fn empty_path_is_a_key() {
    let store = CacheStore::new();
    let url = expect_fetch(begin_request(&store, ORIGIN, ""));
    assert_eq!(url, "http://example.test/");
}

#[test]
fn store_insert_overwrites() {
    let mut store = CacheStore::new();
    let k = "k".to_string();
    assert!(!store.contains_key(&k));
    store.insert(k.clone(), "1".to_string());
    assert_eq!(store.get(&k), Some("1".to_string()));
    store.insert(k.clone(), "2".to_string());
    assert_eq!(store.get(&k), Some("2".to_string()));
    assert_eq!(store.get(&"other".to_string()), None);
}

#[test]
fn response_builders() {
    let nf = not_found_response();
    assert_eq!((nf.status, nf.body.as_str(), nf.cache), (404, "", None));
    let h = hit_response("b".to_string());
    assert_eq!((h.status, h.body.as_str(), h.cache), (200, "b", Some(CacheStatus::Hit)));
    let m = miss_response("b".to_string());
    assert_eq!((m.status, m.body.as_str(), m.cache), (200, "b", Some(CacheStatus::Miss)));
    let e = error_response("");
    assert_eq!((e.status, e.body.as_str(), e.cache), (500, "Error: ", None));
}

#[test]
fn cache_header_values() {
    assert_eq!(CACHE_HEADER, "X-Cache");
    assert_eq!(CacheStatus::Hit.header_value(), "HIT");
    assert_eq!(CacheStatus::Miss.header_value(), "MISS");
}
