use caching_proxy::cache::ResponseCache;
use caching_proxy::error::ProxyError;
use caching_proxy::message::{CacheKey, CachedResponse, Header, Method, Request};
use caching_proxy::origin::FetchOutcome;
use caching_proxy::proxy::{cache_key, complete_fetch, proxy_request, Decision};

const FRONT: &str = "slow-server.akshive.test";

fn request(method: Method, authority: &str, path: &str) -> Request {
    Request {
        method,
        authority: authority.to_string(),
        path: path.to_string(),
        headers: vec![Header { name: "host".to_string(), value: authority.as_bytes().to_vec() }],
        body: Vec::new(),
    }
}

fn answer(status: u16, body: &[u8]) -> FetchOutcome {
    FetchOutcome::Received {
        status,
        headers: vec![Header { name: "content-type".to_string(), value: b"text/plain".to_vec() }],
        body: body.to_vec(),
    }
}

/// Runs one request against a cache; `origin` is what a fetch would end in.
/// Returns the downstream result and whether the origin was contacted.
fn serve(
    cache: &mut ResponseCache,
    req: Request,
    origin: FetchOutcome,
) -> (Result<CachedResponse, ProxyError>, bool) {
    match proxy_request(cache, req) {
        Decision::Reject(e) => (Err(e), false),
        Decision::Serve(r) => (Ok(r), false),
        Decision::Fetch(key, _) => (complete_fetch(cache, key, origin), true),
    }
}

#[test]
fn host_mismatch_is_rejected_without_fetch() {
    let mut cache = ResponseCache::new();
    let req = request(Method::Get, "evil.example", "/whatever");
    let (result, contacted) = serve(&mut cache, req, answer(200, b"HELLO"));
    assert!(!contacted);
    let err = result.unwrap_err();
    assert_eq!(err, ProxyError::UnsupportedHost("evil.example".to_string()));
    assert!(err.message().contains("Unsupported host evil.example"));
    let key = CacheKey { method: Method::Get, path: "/whatever".to_string() };
    assert!(!cache.contains(&key));
}

#[test]
fn first_hit_populates_cache() {
    let mut cache = ResponseCache::new();
    let req = request(Method::Get, FRONT, "/");
    let (result, contacted) = serve(&mut cache, req, answer(200, b"HELLO"));
    assert!(contacted);
    let response = result.unwrap();
    assert_eq!(response.status, 200);
    assert_eq!(response.body, b"HELLO".to_vec());
    assert!(cache.contains(&CacheKey { method: Method::Get, path: "/".to_string() }));
}

#[test]
fn second_hit_is_served_from_cache() {
    let mut cache = ResponseCache::new();
    let (first, _) = serve(&mut cache, request(Method::Get, FRONT, "/"), answer(200, b"HELLO"));
    let (second, contacted) =
        serve(&mut cache, request(Method::Get, FRONT, "/"), FetchOutcome::RequestFailed);
    assert!(!contacted);
    let second = second.unwrap();
    assert_eq!(second.status, 200);
    assert_eq!(second.body, b"HELLO".to_vec());
    assert_eq!(second, first.unwrap());
    let (third, contacted) =
        serve(&mut cache, request(Method::Get, FRONT, "/"), FetchOutcome::RequestFailed);
    assert!(!contacted);
    assert_eq!(third.unwrap(), second);
}

#[test]
fn method_differentiates() {
    let mut cache = ResponseCache::new();
    serve(&mut cache, request(Method::Get, FRONT, "/"), answer(200, b"HELLO")).0.unwrap();
    let (posted, contacted) =
        serve(&mut cache, request(Method::Post, FRONT, "/"), answer(200, b"POSTED"));
    assert!(contacted);
    assert_eq!(posted.unwrap().body, b"POSTED".to_vec());
    let (got, contacted) =
        serve(&mut cache, request(Method::Get, FRONT, "/"), answer(200, b"CHANGED"));
    assert!(!contacted);
    assert_eq!(got.unwrap().body, b"HELLO".to_vec());
}

#[test]
fn path_with_query_differentiates() {
    let mut cache = ResponseCache::new();
    let (one, c1) = serve(&mut cache, request(Method::Get, FRONT, "/x?a=1"), answer(200, b"a=1"));
    let (two, c2) = serve(&mut cache, request(Method::Get, FRONT, "/x?a=2"), answer(200, b"a=2"));
    assert!(c1 && c2);
    assert_eq!(one.unwrap().body, b"a=1".to_vec());
    assert_eq!(two.unwrap().body, b"a=2".to_vec());
    let (one, c1) =
        serve(&mut cache, request(Method::Get, FRONT, "/x?a=1"), FetchOutcome::RequestFailed);
    let (two, c2) =
        serve(&mut cache, request(Method::Get, FRONT, "/x?a=2"), FetchOutcome::RequestFailed);
    assert!(!c1 && !c2);
    assert_eq!(one.unwrap().body, b"a=1".to_vec());
    assert_eq!(two.unwrap().body, b"a=2".to_vec());
}

#[test]
fn origin_failure_is_not_cached() {
    let mut cache = ResponseCache::new();
    let (failed, contacted) =
        serve(&mut cache, request(Method::Get, FRONT, "/err"), FetchOutcome::RequestFailed);
    assert!(contacted);
    assert_eq!(failed.unwrap_err(), ProxyError::OriginRequestFailed);
    assert!(!cache.contains(&CacheKey { method: Method::Get, path: "/err".to_string() }));
    let (ok, contacted) = serve(&mut cache, request(Method::Get, FRONT, "/err"), answer(200, b"OK"));
    assert!(contacted);
    assert_eq!(ok.unwrap().body, b"OK".to_vec());
}

#[test]
fn body_read_failure_is_not_cached() {
    let mut cache = ResponseCache::new();
    let (failed, contacted) =
        serve(&mut cache, request(Method::Get, FRONT, "/b"), FetchOutcome::BodyReadFailed);
    assert!(contacted);
    assert_eq!(failed.unwrap_err(), ProxyError::OriginBodyReadFailed);
    assert!(!cache.contains(&CacheKey { method: Method::Get, path: "/b".to_string() }));
}

#[test]
fn unassemblable_response_is_not_cached() {
    let mut cache = ResponseCache::new();
    let (failed, contacted) = serve(&mut cache, request(Method::Get, FRONT, "/s"), answer(99, b"x"));
    assert!(contacted);
    assert_eq!(failed.unwrap_err(), ProxyError::ResponseBuildFailed);
    assert!(!cache.contains(&CacheKey { method: Method::Get, path: "/s".to_string() }));
}

#[test]
fn key_ignores_headers_and_body() {
    let mut cache = ResponseCache::new();
    let mut first = request(Method::Put, FRONT, "/thing");
    first.body = b"one".to_vec();
    let (stored, _) = serve(&mut cache, first, answer(201, b"CREATED"));
    let mut second = request(Method::Put, FRONT, "/thing");
    second.headers.push(Header { name: "x-extra".to_string(), value: b"1".to_vec() });
    second.body = b"two".to_vec();
    assert_eq!(cache_key(&second), CacheKey { method: Method::Put, path: "/thing".to_string() });
    let (served, contacted) = serve(&mut cache, second, answer(500, b"NO"));
    assert!(!contacted);
    assert_eq!(served.unwrap(), stored.unwrap());
}

#[test]
fn key_ignores_port_of_authority() {
    let mut cache = ResponseCache::new();
    serve(&mut cache, request(Method::Get, FRONT, "/p"), answer(200, b"P")).0.unwrap();
    let with_port = request(Method::Get, "slow-server.akshive.test:3001", "/p");
    let (served, contacted) = serve(&mut cache, with_port, FetchOutcome::RequestFailed);
    assert!(!contacted);
    assert_eq!(served.unwrap().body, b"P".to_vec());
}

#[test]
fn absent_path_is_the_root() {
    let mut cache = ResponseCache::new();
    let req = request(Method::Get, FRONT, "");
    assert_eq!(cache_key(&req), CacheKey { method: Method::Get, path: "/".to_string() });
    match proxy_request(&cache, req) {
        Decision::Fetch(key, origin) => {
            assert_eq!(key.path, "/");
            assert_eq!(origin.url, "https://www.google.com/");
        },
        other => panic!("expected a fetch, got {:?}", other),
    }
    serve(&mut cache, request(Method::Get, FRONT, ""), answer(200, b"ROOT")).0.unwrap();
    let (served, contacted) =
        serve(&mut cache, request(Method::Get, FRONT, "/"), FetchOutcome::RequestFailed);
    assert!(!contacted);
    assert_eq!(served.unwrap().body, b"ROOT".to_vec());
}

#[test]
fn fetch_forwards_method_headers_and_body() {
    let cache = ResponseCache::new();
    let mut req = request(Method::Post, FRONT, "/submit?x=1");
    req.headers.push(Header { name: "accept".to_string(), value: b"a".to_vec() });
    req.headers.push(Header { name: "accept".to_string(), value: b"b".to_vec() });
    req.body = vec![0, 1, 2, 255];
    let expected_headers = req.headers.clone();
    match proxy_request(&cache, req) {
        Decision::Fetch(key, origin) => {
            assert_eq!(key, CacheKey { method: Method::Post, path: "/submit?x=1".to_string() });
            assert_eq!(origin.method, Method::Post);
            assert_eq!(origin.url, "https://www.google.com/submit?x=1");
            assert_eq!(origin.headers, expected_headers);
            assert_eq!(origin.body, vec![0, 1, 2, 255]);
        },
        other => panic!("expected a fetch, got {:?}", other),
    }
}

#[test]
fn unbuildable_url_is_a_failed_origin_request() {
    let cache = ResponseCache::new();
    let req = request(Method::Get, FRONT, "/a b");
    assert_eq!(proxy_request(&cache, req), Decision::Reject(ProxyError::OriginRequestFailed));
}

#[test]
fn body_passes_through_unchanged() {
    let big: Vec<u8> = (0..(1usize << 20) + 17).map(|i| (i % 251) as u8).collect();
    let bodies: Vec<Vec<u8>> = vec![Vec::new(), vec![0, 255, 128, 10, 13, 0], big];
    for (i, body) in bodies.into_iter().enumerate() {
        let mut cache = ResponseCache::new();
        let path = format!("/body/{}", i);
        let (first, _) = serve(&mut cache, request(Method::Get, FRONT, &path), answer(200, &body));
        assert_eq!(first.unwrap().body, body);
        let (again, contacted) =
            serve(&mut cache, request(Method::Get, FRONT, &path), FetchOutcome::RequestFailed);
        assert!(!contacted);
        assert_eq!(again.unwrap().body, body);
    }
}

#[test]
fn headers_keep_order_and_duplicates() {
    let mut cache = ResponseCache::new();
    let headers = vec![
        Header { name: "set-cookie".to_string(), value: b"a=1".to_vec() },
        Header { name: "content-type".to_string(), value: b"text/html".to_vec() },
        Header { name: "set-cookie".to_string(), value: b"b=2".to_vec() },
        Header { name: "x-bin".to_string(), value: vec![0xff, 0xfe] },
    ];
    let outcome = FetchOutcome::Received { status: 404, headers: headers.clone(), body: b"nf".to_vec() };
    let (first, _) = serve(&mut cache, request(Method::Get, FRONT, "/h"), outcome);
    let first = first.unwrap();
    assert_eq!(first.status, 404);
    assert_eq!(first.headers, headers);
    let (again, _) = serve(&mut cache, request(Method::Get, FRONT, "/h"), FetchOutcome::RequestFailed);
    assert_eq!(again.unwrap().headers, headers);
}
