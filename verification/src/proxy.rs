//! The per-request decisions: gate, cache lookup, origin fetch, store.
//!
//! A server runs each request in two non-suspending steps around its one
//! suspension: [`proxy_request`] decides what to do, the server performs
//! the fetch where one is asked for, and [`complete_fetch`] stores and
//! returns what came back. The cache is only touched inside the two steps,
//! so whatever guards it is never held across the fetch.
use vstd::prelude::*;
use crate::cache::ResponseCache;
use crate::error::ErrorView;
use crate::error::ProxyError;
use crate::host_gate::check_host;
use crate::host_gate::host_accepted;
use crate::host_gate::host_part;
use crate::message::CacheKey;
use crate::message::CachedResponse;
use crate::message::KeyView;
use crate::message::OriginRequest;
use crate::message::OriginRequestView;
use crate::message::Request;
use crate::message::RequestView;
use crate::message::ResponseView;
use crate::origin::origin_url;
use crate::origin::origin_url_of;
use crate::origin::request_for;
use crate::origin::request_of;
use crate::origin::response_result_is;
use crate::origin::settle;
use crate::origin::settled;
use crate::origin::target_of;
use crate::origin::target_path;
use crate::origin::FetchOutcome;
use crate::origin::OutcomeView;

verus! {

/// What to do with an inbound request.
#[derive(Clone, Debug, PartialEq, Eq)]
pub enum Decision {
    /// Answer with the failure; the origin is not contacted.
    Reject(ProxyError),
    /// Answer with this response from the cache; the origin is not
    /// contacted.
    Serve(CachedResponse),
    /// Send this request to the origin and store the answer under the key.
    Fetch(CacheKey, OriginRequest),
}

/// The mathematical content of a [`Decision`].
pub ghost enum DecisionView {
    Reject(ErrorView),
    Serve(ResponseView),
    Fetch(KeyView, OriginRequestView),
}

impl View for Decision {
    type V = DecisionView;

    open spec fn view(&self) -> DecisionView {
        match self {
            Decision::Reject(e) => DecisionView::Reject(e@),
            Decision::Serve(response) => DecisionView::Serve(response@),
            Decision::Fetch(key, request) => DecisionView::Fetch(key@, request@),
        }
    }
}

/// The cache key of a request: its method and its target path with query.
/// Authority, headers and body are not part of it.
pub open spec fn key_of(request: RequestView) -> KeyView {
    KeyView { method: request.method, path: target_of(request.path) }
}

/// What a cache miss leads to: the fetch of the origin request, or the
/// failure where none can be made.
pub open spec fn on_miss(key: KeyView, request: Result<OriginRequestView, ErrorView>) -> DecisionView {
    match request {
        Ok(r) => DecisionView::Fetch(key, r),
        Err(e) => DecisionView::Reject(e),
    }
}

/// The decision for a request under a given cache content: reject a
/// foreign host, else serve what the cache holds for the key, else fetch.
pub open spec fn decide(cache: Map<KeyView, ResponseView>, request: RequestView) -> DecisionView {
    if !host_accepted(request.authority) {
        DecisionView::Reject(ErrorView::UnsupportedHost(host_part(request.authority)))
    } else if cache.contains_key(key_of(request)) {
        DecisionView::Serve(cache[key_of(request)])
    } else {
        on_miss(
            key_of(request),
            request_of(
                origin_url_of(request.path),
                request.method,
                request.headers,
                request.body,
            ),
        )
    }
}

/// The cache content after an origin fetch for `key` ended in `outcome`:
/// a response is stored under the key, a failure changes nothing.
pub open spec fn cache_after(
    cache: Map<KeyView, ResponseView>,
    key: KeyView,
    outcome: OutcomeView,
) -> Map<KeyView, ResponseView> {
    match settled(outcome) {
        Ok(response) => cache.insert(key, response),
        Err(_) => cache,
    }
}

/// One request handled from start to finish, `outcome` being what its
/// origin fetch ends in where it makes one: the cache content afterwards
/// and what goes downstream.
pub open spec fn handled(
    cache: Map<KeyView, ResponseView>,
    request: RequestView,
    outcome: OutcomeView,
) -> (Map<KeyView, ResponseView>, Result<ResponseView, ErrorView>) {
    match decide(cache, request) {
        DecisionView::Reject(e) => (cache, Err(e)),
        DecisionView::Serve(response) => (cache, Ok(response)),
        DecisionView::Fetch(key, _) => (cache_after(cache, key, outcome), settled(outcome)),
    }
}

/// The cache content after a run of requests handled one after another.
pub open spec fn handled_all(
    cache: Map<KeyView, ResponseView>,
    run: Seq<(RequestView, OutcomeView)>,
) -> Map<KeyView, ResponseView>
    decreases run.len(),
{
    if run.len() == 0 {
        cache
    } else {
        handled(handled_all(cache, run.drop_last()), run.last().0, run.last().1).0
    }
}

/// The cache key of a request.
pub fn cache_key(request: &Request) -> (key: CacheKey)
    ensures
        key@ == key_of(request@),
{
    CacheKey { method: request.method, path: target_path(request.path.as_str()) }
}

/// A copy of the response cached under `key`, equal to the stored one in
/// status, headers and body, or `None` on a miss.
pub fn try_get_cached_response(cache: &ResponseCache, key: &CacheKey) -> (found: Option<
    CachedResponse,
>)
    ensures
        match found {
            Some(response) => cache@.contains_key(key@) && response@ == cache@[key@]
                && response.wf(),
            None => !cache@.contains_key(key@),
        },
{
    cache.lookup(key)
}

/// Decides what to do with an inbound request. The cache is read, never
/// changed.
pub fn proxy_request(cache: &ResponseCache, request: Request) -> (decision: Decision)
    ensures
        decision@ == decide(cache@, request@),
        decision matches Decision::Serve(response) ==> response.wf(),
{
    match check_host(request.authority.as_str()) {
        Err(e) => Decision::Reject(e),
        Ok(_) => {
            let key = cache_key(&request);
            match try_get_cached_response(cache, &key) {
                Some(response) => Decision::Serve(response),
                None => {
                    let url = origin_url(request.path.as_str());
                    match request_for(url, request.method, request.headers, request.body) {
                        Ok(origin_request) => Decision::Fetch(key, origin_request),
                        Err(e) => Decision::Reject(e),
                    }
                },
            }
        },
    }
}

/// Finishes a request after its origin fetch: a response is stored under
/// `key`, replacing what was there, and returned as it came from the
/// origin; a failure is returned and leaves the cache as it was.
pub fn complete_fetch(cache: &mut ResponseCache, key: CacheKey, outcome: FetchOutcome) -> (r:
    Result<CachedResponse, ProxyError>)
    ensures
        response_result_is(r, settled(outcome@)),
        r matches Ok(response) ==> response.wf(),
        final(cache)@ == cache_after(old(cache)@, key@, outcome@),
{
    match settle(outcome) {
        Ok(response) => {
            let stored = response.duplicate();
            cache.insert(key, stored);
            Ok(response)
        },
        Err(e) => Err(e),
    }
}

} // verus!
