use surf::cache::cache_key;
use surf::cache::has_cond_header;
use surf::cache::is_stale_warning;
use surf::cache::strip_warnings;
use surf::cache::Cacache;
use surf::cache::CacheEntry;
use surf::cache::CacheMode;
use surf::cache::CachePlan;
use surf::error::Error;
use surf::headers::HeaderError;
use surf::headers::Headers;
use surf::message::Body;
use surf::message::Method;
use surf::message::StatusCode;
use surf::request::Request;
use surf::response::Response;
use surf::url::Url;

const DATE: &[u8] = b"Sun, 06 Nov 1994 08:49:37 GMT";
const AT: u64 = 784111777;
const U: &str = "http://example.org/resource";

fn cache(mode: CacheMode) -> Cacache {
    Cacache::new(mode, "/tmp/cache".to_string())
}

fn get(url: &str) -> Request<u8> {
    Request::new(Method::Get, Url::parse(url).unwrap())
}

fn ok_response(warnings: &[&[u8]]) -> Response {
    let mut res = Response::new(StatusCode::new(200));
    res.insert_header("date", DATE).unwrap();
    res.insert_header("cache-control", b"max-age=100").unwrap();
    res.insert_header("etag", b"\"v1\"").unwrap();
    res.insert_header("last-modified", b"Sat, 05 Nov 1994 08:49:37 GMT").unwrap();
    for w in warnings {
        res.append_header("warning", w).unwrap();
    }
    res.set_body(Body::from_bytes(b"hello".to_vec()));
    res
}

fn copy(res: &Response) -> Response {
    let mut c = res.clone_without_body();
    c.set_body(res.body().clone());
    c
}

#[test]
fn conditional_headers() {
    assert!(!has_cond_header(&Headers::new()));
    for name in ["If-Modified-Since", "if-none-match", "IF-UNMODIFIED-SINCE", "If-Match", "if-range"] {
        let mut headers = Headers::new();
        headers.insert("accept", b"*/*").unwrap();
        assert!(!has_cond_header(&headers));
        headers.insert(name, b"x").unwrap();
        assert!(has_cond_header(&headers), "{}", name);
    }
    let mut headers = Headers::new();
    headers.insert("if", b"x").unwrap();
    headers.insert("if-none", b"x").unwrap();
    headers.insert("x-if-match", b"x").unwrap();
    assert!(!has_cond_header(&headers));
}

#[test]
fn the_key_is_made_of_the_method_and_the_url() {
    assert_eq!(cache_key(&get(U)), "surf:req:v1:GET:http://example.org/resource");
    assert_eq!(cache_key(&get("HTTP://Example.ORG")), "surf:req:v1:GET:http://example.org/");
    let mut head: Request<u8> = Request::new(Method::Head, Url::parse(U).unwrap());
    head.set_header("accept", b"*/*").unwrap();
    assert_eq!(cache_key(&head), "surf:req:v1:HEAD:http://example.org/resource");
    assert_ne!(cache_key(&head), cache_key(&get(U)));
    let mut again = get(U);
    again.set_header("accept", b"text/html").unwrap();
    again.body_bytes(vec![1]);
    assert_eq!(cache_key(&again), cache_key(&get(U)));
    let mut keys: Vec<String> = [
        Method::Get,
        Method::Head,
        Method::Post,
        Method::Put,
        Method::Delete,
        Method::Connect,
        Method::Options,
        Method::Trace,
        Method::Patch,
    ]
    .iter()
    .map(|m| cache_key(&Request::<u8>::new(*m, Url::parse(U).unwrap())))
    .collect();
    keys.sort();
    keys.dedup();
    assert_eq!(keys.len(), 9);
    assert_ne!(cache_key(&get("http://example.org/a")), cache_key(&get("http://example.org/b")));
}

#[test]
fn a_stored_head_is_not_served_to_a_get() {
    let c = cache(CacheMode::Default);
    let head: Request<u8> = Request::new(Method::Head, Url::parse(U).unwrap());
    let stored_under = c.fetched(&head, ok_response(&[])).store.unwrap();
    assert_eq!(stored_under, "surf:req:v1:HEAD:http://example.org/resource");
    assert_ne!(c.handle(&get(U)), Some(stored_under.clone()));
    assert_eq!(c.handle(&head), Some(stored_under));
}

#[test]
fn the_request_for_the_network_takes_the_body() {
    let mut req = get(U);
    req.set_header("accept", b"text/html").unwrap();
    req.body_bytes(vec![1, 2, 3]);
    req.middleware(4);
    req.set_ext("marker", vec![5]);
    let mut remote = Cacache::remote_request(&mut req);
    assert_eq!(remote.method(), Method::Get);
    assert_eq!(remote.url().as_str(), U);
    assert_eq!(remote.header("accept"), Some(b"text/html".to_vec()));
    assert_eq!(remote.take_body().into_bytes(), vec![1, 2, 3]);
    assert!(remote.take_middleware().is_empty());
    assert_eq!(remote.ext("marker"), None);
    assert_eq!(req.len(), Some(0));
    assert_eq!(req.take_middleware(), vec![4]);
    assert_eq!(req.ext("marker"), Some(vec![5]));
    assert_eq!(req.header("accept"), Some(b"text/html".to_vec()));
}

#[test]
fn delete_names_the_key() {
    let c = cache(CacheMode::NoStore);
    assert_eq!(c.delete(&get(U)), format!("surf:req:v1:GET:{}", U));
}

#[test]
fn accessors() {
    let c = cache(CacheMode::NoCache);
    assert_eq!(c.mode(), CacheMode::NoCache);
    assert_eq!(c.path(), "/tmp/cache");
}

#[test]
fn a_stored_response_is_served_without_the_network() {
    let c = cache(CacheMode::Default);
    let first = get(U);
    assert_eq!(c.handle(&first), Some(format!("surf:req:v1:GET:{}", U)));
    assert!(matches!(c.send(&first, None, AT), Ok(CachePlan::Fetch)));
    let outcome = c.fetched(&first, ok_response(&[]));
    assert_eq!(outcome.store, Some(format!("surf:req:v1:GET:{}", U)));
    assert_eq!(outcome.response.body().as_bytes(), &b"hello".to_vec());
    let (key, entry) = c.put(&first, &outcome.response);
    assert_eq!(Some(key.clone()), outcome.store);

    let second = get(U);
    assert_eq!(c.handle(&second), Some(key));
    let found = c.matched(entry).unwrap();
    match c.send(&second, Some(found), AT + 50) {
        Ok(CachePlan::Serve(res)) => {
            assert_eq!(res.status().as_u16(), 200);
            assert_eq!(res.body().as_bytes(), &b"hello".to_vec());
            assert_eq!(res.header("etag"), Some(b"\"v1\"".to_vec()));
            assert_eq!(res.header("warning"), None);
        }
        _ => panic!("the stored response is to be served"),
    }
}

#[test]
fn reload_always_goes_to_the_network() {
    let c = cache(CacheMode::Reload);
    let req = get(U);
    assert_eq!(c.handle(&req), None);
    assert!(!c.request_cacheable(&req));
    assert!(matches!(c.send(&req, Some(ok_response(&[])), AT), Ok(CachePlan::Fetch)));
    assert!(matches!(c.send(&req, None, AT), Ok(CachePlan::Fetch)));
    let outcome = c.fetched(&req, ok_response(&[]));
    assert_eq!(outcome.store, Some(format!("surf:req:v1:GET:{}", U)));
}

#[test]
fn no_store_neither_reads_nor_writes() {
    let c = cache(CacheMode::NoStore);
    let req = get(U);
    assert_eq!(c.handle(&req), None);
    assert!(matches!(c.send(&req, Some(ok_response(&[])), AT), Ok(CachePlan::Fetch)));
    assert_eq!(c.fetched(&req, ok_response(&[])).store, None);
}

#[test]
fn only_if_cached_without_an_entry_is_an_error() {
    let c = cache(CacheMode::OnlyIfCached);
    let req = get(U);
    assert!(c.handle(&req).is_some());
    assert!(matches!(c.send(&req, None, AT), Err(Error::OnlyIfCached)));
    let mut head: Request<u8> = Request::new(Method::Head, Url::parse(U).unwrap());
    head.set_header("accept", b"*/*").unwrap();
    assert!(matches!(c.send(&head, None, 0), Err(Error::OnlyIfCached)));
}

#[test]
fn only_if_cached_does_not_concern_other_methods() {
    let c = cache(CacheMode::OnlyIfCached);
    let post: Request<u8> = Request::new(Method::Post, Url::parse(U).unwrap());
    assert_eq!(c.handle(&post), None);
    assert!(matches!(c.send(&post, None, AT), Ok(CachePlan::Fetch)));
}

#[test]
fn force_cache_and_only_if_cached_serve_stale_entries_with_a_warning() {
    for mode in [CacheMode::ForceCache, CacheMode::OnlyIfCached] {
        let c = cache(mode);
        match c.send(&get(U), Some(ok_response(&[b"214 - \"Transformation applied\""])), AT + 1000) {
            Ok(CachePlan::Serve(res)) => {
                assert_eq!(
                    res.headers().get_all("warning"),
                    vec![
                        b"214 - \"Transformation applied\"".to_vec(),
                        b"112 - \"Disconnected operation\"".to_vec()
                    ]
                );
                assert_eq!(res.body().as_bytes(), &b"hello".to_vec());
            }
            _ => panic!("the stored response is to be served"),
        }
    }
    let c = cache(CacheMode::ForceCache);
    assert!(matches!(c.send(&get(U), None, AT), Ok(CachePlan::Fetch)));
}

#[test]
fn a_stale_entry_is_checked_with_its_validators() {
    for (mode, now) in [(CacheMode::Default, AT + 100), (CacheMode::NoCache, AT)] {
        let c = cache(mode);
        let mut req = get(U);
        req.set_header("accept", b"text/plain").unwrap();
        req.body_bytes(vec![1]);
        match c.send(&req, Some(ok_response(&[])), now) {
            Ok(CachePlan::Revalidate { conditional, cached }) => {
                assert_eq!(conditional.method(), Method::Get);
                assert_eq!(conditional.url().as_str(), U);
                assert_eq!(conditional.header("accept"), Some(b"text/plain".to_vec()));
                assert_eq!(conditional.header("if-none-match"), Some(b"\"v1\"".to_vec()));
                assert_eq!(
                    conditional.header("if-modified-since"),
                    Some(b"Sat, 05 Nov 1994 08:49:37 GMT".to_vec())
                );
                assert_eq!(conditional.len(), Some(0));
                assert_eq!(cached.body().as_bytes(), &b"hello".to_vec());
                assert_eq!(req.header("if-none-match"), None);
            }
            _ => panic!("the stored response is to be checked"),
        }
    }
}

#[test]
fn an_entry_without_validators_is_checked_by_a_plain_request() {
    let c = cache(CacheMode::NoCache);
    let mut stored = Response::new(StatusCode::new(200));
    stored.set_body(Body::from_bytes(vec![1]));
    match c.send(&get(U), Some(stored), AT) {
        Ok(CachePlan::Revalidate { conditional, .. }) => {
            assert!(conditional.header_names().is_empty());
        }
        _ => panic!("the stored response is to be checked"),
    }
}

#[test]
fn a_revalidated_entry_loses_its_stale_warnings() {
    let c = cache(CacheMode::Default);
    let req = get(U);
    let stored = ok_response(&[
        b"110 - \"Response is Stale\" \"Sun, 06 Nov 1994 08:49:37 GMT\"",
        b"214 - \"Transformation applied\"",
        b"199 - \"Miscellaneous\"",
    ]);
    let cached = match c.send(&req, Some(stored), AT + 1000) {
        Ok(CachePlan::Revalidate { cached, .. }) => cached,
        _ => panic!("the stored response is to be checked"),
    };
    let mut not_modified = Response::new(StatusCode::new(304));
    not_modified.insert_header("date", b"Sun, 06 Nov 1994 09:49:37 GMT").unwrap();
    not_modified.insert_header("etag", b"\"v2\"").unwrap();
    let outcome = c.revalidated(&req, cached, not_modified).unwrap();
    assert_eq!(outcome.store, Some(format!("surf:req:v1:GET:{}", U)));
    let res = outcome.response;
    assert_eq!(res.status().as_u16(), 200);
    assert_eq!(res.body().as_bytes(), &b"hello".to_vec());
    assert_eq!(res.headers().get_all("warning"), vec![b"214 - \"Transformation applied\"".to_vec()]);
    assert_eq!(res.header("date"), Some(b"Sun, 06 Nov 1994 09:49:37 GMT".to_vec()));
    assert_eq!(res.header("etag"), Some(b"\"v2\"".to_vec()));
    assert_eq!(res.header("cache-control"), Some(b"max-age=100".to_vec()));
}

#[test]
fn a_new_response_replaces_the_entry() {
    let c = cache(CacheMode::Default);
    let req = get(U);
    let mut fresh = Response::new(StatusCode::new(200));
    fresh.insert_header("etag", b"\"v3\"").unwrap();
    fresh.set_body(Body::from_bytes(b"new".to_vec()));
    let outcome = c.revalidated(&req, ok_response(&[]), fresh).unwrap();
    assert_eq!(outcome.store, Some(format!("surf:req:v1:GET:{}", U)));
    assert_eq!(outcome.response.body().as_bytes(), &b"new".to_vec());
    assert_eq!(outcome.response.header("etag"), Some(b"\"v3\"".to_vec()));
    assert_eq!(outcome.response.header("cache-control"), None);

    let outcome = c.revalidated(&req, ok_response(&[]), Response::new(StatusCode::new(500))).unwrap();
    assert_eq!(outcome.store, None);
    assert_eq!(outcome.response.status().as_u16(), 500);
}

#[test]
fn a_conditional_request_is_left_to_the_caller() {
    for mode in [CacheMode::Default, CacheMode::NoCache, CacheMode::ForceCache, CacheMode::OnlyIfCached] {
        let c = cache(mode);
        let mut req = get(U);
        req.set_header("If-None-Match", b"\"v1\"").unwrap();
        assert_eq!(c.effective_mode(&req), CacheMode::NoStore);
        assert_eq!(c.handle(&req), None);
        assert!(matches!(c.send(&req, None, AT), Ok(CachePlan::Fetch)));
        assert!(matches!(c.send(&req, Some(ok_response(&[])), AT), Ok(CachePlan::Fetch)));
        assert_eq!(c.fetched(&req, ok_response(&[])).store, None);
    }
    assert_eq!(cache(CacheMode::ForceCache).effective_mode(&get(U)), CacheMode::ForceCache);
}

#[test]
fn what_may_be_stored() {
    let c = cache(CacheMode::Default);
    let req = get(U);
    assert!(c.response_cacheable(&req, &ok_response(&[])));
    for status in [200u16, 201, 204, 299] {
        let mut res = ok_response(&[]);
        res.set_status(StatusCode::new(status));
        assert_eq!(c.fetched(&req, res).store, Some(format!("surf:req:v1:GET:{}", U)));
    }
    for status in [100u16, 199, 300, 301, 304, 404, 500] {
        let mut res = ok_response(&[]);
        res.set_status(StatusCode::new(status));
        assert_eq!(c.fetched(&req, res).store, None);
    }
    let mut res = ok_response(&[]);
    res.insert_header("cache-control", b"max-age=100, No-Store").unwrap();
    assert!(!c.response_cacheable(&req, &res));
    assert_eq!(c.fetched(&req, res).store, None);
    for method in [Method::Post, Method::Put, Method::Delete, Method::Connect, Method::Options, Method::Trace, Method::Patch] {
        let other: Request<u8> = Request::new(method, Url::parse(U).unwrap());
        assert_eq!(c.fetched(&other, ok_response(&[])).store, None);
        assert!(!c.request_cacheable(&other));
    }
    let head: Request<u8> = Request::new(Method::Head, Url::parse(U).unwrap());
    assert!(c.fetched(&head, ok_response(&[])).store.is_some());
}

#[test]
fn staleness() {
    let c = cache(CacheMode::Default);
    assert!(!c.is_stale(&ok_response(&[]), AT + 99));
    assert!(c.is_stale(&ok_response(&[]), AT + 100));
    assert!(c.is_stale(&Response::new(StatusCode::new(200)), 0));
}

#[test]
fn stale_warnings_have_a_code_1xx() {
    assert!(is_stale_warning(b"110 - \"Response is Stale\""));
    assert!(is_stale_warning(b"199"));
    assert!(is_stale_warning(b"100 x"));
    assert!(!is_stale_warning(b"214 - \"Transformation applied\""));
    assert!(!is_stale_warning(b"299 - \"x\""));
    assert!(!is_stale_warning(b"1100 - \"x\""));
    assert!(!is_stale_warning(b"11"));
    assert!(!is_stale_warning(b"1a0 - \"x\""));
    assert!(!is_stale_warning(b" 110 - \"x\""));
    assert!(!is_stale_warning(b""));
}

#[test]
fn stripping_keeps_the_other_warnings_in_order() {
    let mut res = ok_response(&[b"299 - \"a\"", b"110 - \"b\"", b"214 - \"c\"", b"111 - \"d\""]);
    assert_eq!(strip_warnings(&mut res), Ok(()));
    assert_eq!(res.headers().get_all("warning"), vec![b"299 - \"a\"".to_vec(), b"214 - \"c\"".to_vec()]);
    assert_eq!(res.body().as_bytes(), &b"hello".to_vec());
    assert_eq!(res.header("etag"), Some(b"\"v1\"".to_vec()));

    let mut res = ok_response(&[b"110 - \"b\"", b"113 - \"e\""]);
    assert_eq!(strip_warnings(&mut res), Ok(()));
    assert!(!res.headers().contains("warning"));
    assert_eq!(res.body().as_bytes(), &b"hello".to_vec());

    let mut res = ok_response(&[]);
    assert_eq!(strip_warnings(&mut res), Ok(()));
    assert!(!res.headers().contains("warning"));
}

#[test]
fn set_warning_writes_code_agent_and_text() {
    let c = cache(CacheMode::Default);
    let mut res = ok_response(&[b"214 - \"x\""]);
    assert_eq!(c.set_warning(&mut res, 112, "Disconnected operation"), Ok(()));
    assert_eq!(c.set_warning(&mut res, 999, ""), Ok(()));
    assert_eq!(c.set_warning(&mut res, 100, "a b"), Ok(()));
    assert_eq!(
        res.headers().get_all("warning"),
        vec![
            b"214 - \"x\"".to_vec(),
            b"112 - \"Disconnected operation\"".to_vec(),
            b"999 - \"\"".to_vec(),
            b"100 - \"a b\"".to_vec()
        ]
    );
    assert_eq!(c.set_warning(&mut res, 99, "x"), Err(HeaderError::InvalidValue));
    assert_eq!(c.set_warning(&mut res, 1000, "x"), Err(HeaderError::InvalidValue));
    assert_eq!(c.set_warning(&mut res, 112, "line\nbreak"), Err(HeaderError::InvalidValue));
    assert_eq!(res.headers().get_all("warning").len(), 4);
}

#[test]
fn entries_stand_for_responses() {
    let c = cache(CacheMode::Default);
    let mut res = ok_response(&[b"214 - \"x\"", b"299 - \"y\""]);
    res.set_status(StatusCode::new(203));
    let (key, entry) = c.put(&get(U), &res);
    assert_eq!(key, format!("surf:req:v1:GET:{}", U));
    assert_eq!(entry.status, 203);
    assert_eq!(entry.body, b"hello".to_vec());
    assert_eq!(entry.headers.len(), 6);
    assert_eq!(res.body().as_bytes(), &b"hello".to_vec());
    let back = c.matched(entry).unwrap();
    assert_eq!(back.status().as_u16(), 203);
    assert_eq!(back.body().as_bytes(), &b"hello".to_vec());
    let mut names = back.headers().names();
    names.sort();
    let mut expected = res.headers().names();
    expected.sort();
    assert_eq!(names, expected);
    for name in names {
        assert_eq!(back.headers().get_all(&name), res.headers().get_all(&name));
    }
}

#[test]
fn corrupt_entries_are_errors() {
    let c = cache(CacheMode::Default);
    let entry = CacheEntry { status: 65536, headers: Vec::new(), body: Vec::new() };
    assert!(matches!(c.matched(entry), Err(Error::CorruptCacheEntry)));
    let entry = CacheEntry { status: 200, headers: vec![("bad name".to_string(), b"v".to_vec())], body: Vec::new() };
    assert!(matches!(c.matched(entry), Err(Error::Header(HeaderError::InvalidName))));
    let entry = CacheEntry { status: 200, headers: vec![("name".to_string(), b"\r\n".to_vec())], body: Vec::new() };
    assert!(matches!(c.matched(entry), Err(Error::Header(HeaderError::InvalidValue))));
    let entry = CacheEntry { status: 65535, headers: Vec::new(), body: vec![1] };
    let res = c.matched(entry).unwrap();
    assert_eq!(res.status().as_u16(), 65535);
    assert_eq!(res.body().as_bytes(), &vec![1]);
}

#[test]
fn a_full_entry_cannot_take_the_warning() {
    let c = cache(CacheMode::ForceCache);
    let mut stored = ok_response(&[]);
    let mut i = 0;
    while stored.insert_header(&format!("x-{}", i), b"v").is_ok() {
        i += 1;
        assert!(i < 40000);
    }
    assert!(matches!(
        c.send(&get(U), Some(copy(&stored)), AT),
        Err(Error::Header(HeaderError::TooManyHeaders))
    ));
    let d = cache(CacheMode::Default);
    assert!(matches!(d.send(&get(U), Some(stored), AT), Ok(CachePlan::Serve(_))));
}

#[test]
fn extensions_of_a_stored_response_survive_the_stripping() {
    let mut res = ok_response(&[b"110 - \"stale\""]);
    res.insert_ext("k", vec![1]);
    assert_eq!(strip_warnings(&mut res), Ok(()));
    assert_eq!(res.ext("k"), Some(vec![1]));
    assert!(!res.headers().contains("warning"));
}

#[test]
fn a_response_with_many_values_comes_back_from_its_entry() {
    let c = cache(CacheMode::Default);
    let mut res = ok_response(&[]);
    for i in 0..7000 {
        res.append_header("set-cookie", format!("c{}=v", i).as_bytes()).unwrap();
    }
    let (_, entry) = c.put(&get(U), &res);
    assert_eq!(entry.headers.len(), 7004);
    let back = c.matched(entry).unwrap();
    assert_eq!(back.headers().get_all("set-cookie"), res.headers().get_all("set-cookie"));
    assert_eq!(back.headers().names().len(), 5);
}

#[test]
fn a_warning_whose_text_is_no_header_value_is_refused() {
    let c = cache(CacheMode::Default);
    let mut res = ok_response(&[]);
    assert_eq!(c.set_warning(&mut res, 199, "caf\u{7f}"), Err(HeaderError::InvalidValue));
    assert_eq!(c.set_warning(&mut res, 199, "tab\tand \u{e9}"), Ok(()));
    assert_eq!(res.header("warning"), Some("199 - \"tab\tand \u{e9}\"".as_bytes().to_vec()));
}

#[test]
fn a_forced_hit_and_a_revalidation_are_planned_for_ordinary_messages() {
    let mut req = get(U);
    for i in 0..100 {
        req.set_header(&format!("x-{}", i), b"v").unwrap();
    }
    let mut stored = ok_response(&[b"110 - \"stale\"", b"214 - \"kept\""]);
    for i in 0..100 {
        stored.insert_header(&format!("y-{}", i), b"v").unwrap();
    }
    match cache(CacheMode::OnlyIfCached).send(&req, Some(copy(&stored)), AT + 1000) {
        Ok(CachePlan::Serve(res)) => {
            assert_eq!(
                res.headers().get_all("warning"),
                vec![b"214 - \"kept\"".to_vec(), b"112 - \"Disconnected operation\"".to_vec()]
            );
            assert_eq!(res.headers().names().len(), stored.headers().names().len());
        }
        _ => panic!("the stored response is to be served"),
    }
    match cache(CacheMode::NoCache).send(&req, Some(copy(&stored)), AT) {
        Ok(CachePlan::Revalidate { conditional, cached }) => {
            assert_eq!(conditional.header_names().len(), 102);
            assert_eq!(cached.headers().get_all("warning"), vec![b"214 - \"kept\"".to_vec()]);
            let mut answer = Response::new(StatusCode::new(304));
            for i in 0..100 {
                answer.insert_header(&format!("z-{}", i), b"v").unwrap();
            }
            let outcome = cache(CacheMode::NoCache).revalidated(&req, cached, answer).unwrap();
            assert_eq!(outcome.response.headers().names().len(), 205);
            assert_eq!(outcome.response.body().as_bytes(), &b"hello".to_vec());
        }
        _ => panic!("the stored response is to be checked"),
    }
}
