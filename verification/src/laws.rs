//! What holds of the proxy across requests, stated over the decision and
//! cache models and proved from them.
use vstd::prelude::*;
use crate::error::ErrorView;
use crate::host_gate::host_accepted;
use crate::host_gate::host_part;
use crate::message::HeaderView;
use crate::message::KeyView;
use crate::message::OriginRequestView;
use crate::message::RequestView;
use crate::message::ResponseView;
use crate::message::valid_status;
use crate::origin::builds_verbatim;
use crate::origin::settled;
use crate::origin::verbatim_url;
use crate::origin::OutcomeView;
use crate::proxy::cache_after;
use crate::proxy::decide;
use crate::proxy::handled;
use crate::proxy::handled_all;
use crate::proxy::key_of;
use crate::proxy::DecisionView;

verus! {

/// Host isolation: a request whose hostname is not the front-end hostname
/// is rejected with that hostname, whatever the cache holds and whatever
/// else the request carries. It is neither served nor fetched, the
/// rejection is what goes downstream, and the cache stays as it was.
pub proof fn lemma_host_isolation(
    cache: Map<KeyView, ResponseView>,
    request: RequestView,
    outcome: OutcomeView,
)
    requires
        !host_accepted(request.authority),
    ensures
        decide(cache, request) == DecisionView::Reject(
            ErrorView::UnsupportedHost(host_part(request.authority)),
        ),
        !(decide(cache, request) is Fetch),
        !(decide(cache, request) is Serve),
        handled(cache, request, outcome) == (
            cache,
            Err::<ResponseView, ErrorView>(
                ErrorView::UnsupportedHost(host_part(request.authority)),
            ),
        ),
{
}

/// Verbatim forwarding: a fetch goes to the origin under `https` with the
/// target path unchanged, and carries the method, the headers and the
/// body of the request as they came in, under the request's own key.
pub proof fn lemma_fetch_forwards_verbatim(
    cache: Map<KeyView, ResponseView>,
    request: RequestView,
    key: KeyView,
    origin: OriginRequestView,
)
    requires
        decide(cache, request) == DecisionView::Fetch(key, origin),
    ensures
        host_accepted(request.authority),
        !cache.contains_key(key),
        key == key_of(request),
        origin.url == verbatim_url(request.path),
        origin.method == request.method,
        origin.headers == request.headers,
        origin.body == request.body,
{
}

/// Cache determinism: once a fetch for a request's key has settled to a
/// response, the same request is served exactly that response, and being
/// served changes nothing, so every later one is served it too.
pub proof fn lemma_cache_determinism(
    cache: Map<KeyView, ResponseView>,
    request: RequestView,
    outcome: OutcomeView,
    response: ResponseView,
)
    requires
        host_accepted(request.authority),
        settled(outcome) == Ok::<ResponseView, ErrorView>(response),
    ensures
        decide(cache_after(cache, key_of(request), outcome), request) == DecisionView::Serve(
            response,
        ),
{
}

/// A stored response stays what it is while fetches for other keys are
/// stored.
pub proof fn lemma_other_keys_do_not_disturb(
    cache: Map<KeyView, ResponseView>,
    request: RequestView,
    other: KeyView,
    outcome: OutcomeView,
)
    requires
        host_accepted(request.authority),
        cache.contains_key(key_of(request)),
        other != key_of(request),
    ensures
        decide(cache_after(cache, other, outcome), request) == decide(cache, request),
        decide(cache, request) == DecisionView::Serve(cache[key_of(request)]),
{
}

/// Key independence: after a request's fetch has settled to a response,
/// any request with the same method and path is served that response,
/// whatever its headers and body are.
pub proof fn lemma_key_ignores_headers_and_body(
    cache: Map<KeyView, ResponseView>,
    first: RequestView,
    second: RequestView,
    outcome: OutcomeView,
    response: ResponseView,
)
    requires
        host_accepted(first.authority),
        host_accepted(second.authority),
        first.method == second.method,
        first.path == second.path,
        settled(outcome) == Ok::<ResponseView, ErrorView>(response),
    ensures
        key_of(first) == key_of(second),
        decide(cache_after(cache, key_of(first), outcome), second) == DecisionView::Serve(
            response,
        ),
{
}

/// The decision for a request depends on its headers and body only in
/// the origin request it asks for: with other headers and another body
/// the request is rejected, served or fetched alike, and served the same.
pub proof fn lemma_decision_kind_ignores_headers_and_body(
    cache: Map<KeyView, ResponseView>,
    request: RequestView,
    headers: Seq<HeaderView>,
    body: Seq<u8>,
)
    ensures
        ({
            let other = RequestView { headers, body, ..request };
            match decide(cache, request) {
                DecisionView::Reject(e) => decide(cache, other) == DecisionView::Reject(e),
                DecisionView::Serve(r) => decide(cache, other) == DecisionView::Serve(r),
                DecisionView::Fetch(key, _) => decide(cache, other) matches DecisionView::Fetch(
                    k,
                    _,
                ) && k == key,
            }
        }),
{
}

/// A response, once stored, stays: requests handled one after another
/// never replace or remove what the cache holds for a key.
pub proof fn lemma_stored_response_stays(
    cache: Map<KeyView, ResponseView>,
    run: Seq<(RequestView, OutcomeView)>,
    key: KeyView,
)
    requires
        cache.contains_key(key),
    ensures
        handled_all(cache, run).contains_key(key),
        handled_all(cache, run)[key] == cache[key],
    decreases run.len(),
{
    if run.len() > 0 {
        lemma_stored_response_stays(cache, run.drop_last(), key);
    }
}

/// Later responses equal the first: once a request has been answered with
/// a response, every later request with the same method and path is
/// answered with exactly that response, whatever its headers and body
/// are, whatever was handled in between, and whatever the origin would
/// answer by then.
pub proof fn lemma_later_responses_equal_first(
    cache: Map<KeyView, ResponseView>,
    first: RequestView,
    outcome: OutcomeView,
    response: ResponseView,
    between: Seq<(RequestView, OutcomeView)>,
    later: RequestView,
    later_outcome: OutcomeView,
)
    requires
        handled(cache, first, outcome).1 == Ok::<ResponseView, ErrorView>(response),
        host_accepted(later.authority),
        later.method == first.method,
        later.path == first.path,
    ensures
        handled(handled_all(handled(cache, first, outcome).0, between), later, later_outcome).1
            == Ok::<ResponseView, ErrorView>(response),
{
    let key = key_of(first);
    let stored = handled(cache, first, outcome).0;
    assert(stored.contains_key(key) && stored[key] == response);
    lemma_stored_response_stays(stored, between, key);
}

/// Key sensitivity: storing the answer to one request does not answer a
/// request that differs in method or target path. If the second was not
/// cached before, it is not served afterwards either: addressed to the
/// front-end hostname and with a target the origin URL can carry, it makes
/// its own fetch, under its own key.
pub proof fn lemma_key_sensitivity(
    cache: Map<KeyView, ResponseView>,
    first: RequestView,
    second: RequestView,
    outcome: OutcomeView,
)
    requires
        key_of(first) != key_of(second),
        !cache.contains_key(key_of(second)),
    ensures
        decide(cache_after(cache, key_of(first), outcome), second) == decide(cache, second),
        !(decide(cache, second) is Serve),
        decide(cache, second) matches DecisionView::Fetch(key, _) ==> key == key_of(second),
        host_accepted(second.authority) && builds_verbatim(second.path) ==> decide(
            cache_after(cache, key_of(first), outcome),
            second,
        ) is Fetch,
{
}

/// Body passthrough: whatever body the origin sent, with a status that a
/// record may carry, the response settled to carries that body, those
/// headers and that status, and so does what is served for the key
/// afterwards.
pub proof fn lemma_body_passthrough(
    cache: Map<KeyView, ResponseView>,
    request: RequestView,
    status: u16,
    headers: Seq<HeaderView>,
    body: Seq<u8>,
)
    requires
        host_accepted(request.authority),
        valid_status(status),
    ensures
        ({
            let outcome = OutcomeView::Received { status, headers, body };
            let response = ResponseView { status, headers, body };
            &&& settled(outcome) == Ok::<ResponseView, ErrorView>(response)
            &&& decide(cache_after(cache, key_of(request), outcome), request)
                == DecisionView::Serve(response)
        }),
{
}

/// The second store wins: where two fetches for one key both settle to a
/// response, as two concurrent misses do, the cache ends up holding the
/// one stored last, and every other key is as after the first.
pub proof fn lemma_second_store_wins(
    cache: Map<KeyView, ResponseView>,
    key: KeyView,
    first: OutcomeView,
    second: OutcomeView,
    response: ResponseView,
)
    requires
        settled(second) == Ok::<ResponseView, ErrorView>(response),
    ensures
        cache_after(cache_after(cache, key, first), key, second) == cache.insert(key, response),
{
    assert(cache_after(cache_after(cache, key, first), key, second) =~= cache.insert(
        key,
        response,
    ));
}

/// A failed fetch is not cached: the cache is what it was, and the
/// request is decided as before.
pub proof fn lemma_failure_not_cached(
    cache: Map<KeyView, ResponseView>,
    request: RequestView,
    key: KeyView,
    outcome: OutcomeView,
)
    requires
        settled(outcome) is Err,
    ensures
        cache_after(cache, key, outcome) == cache,
        decide(cache_after(cache, key, outcome), request) == decide(cache, request),
{
}

} // verus!
