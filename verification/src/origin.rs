//! The origin client's pure half: which request goes to the origin, and
//! what becomes of what came back.
use vstd::prelude::*;
use vstd::string::StringExecFns;
use crate::config::ORIGIN_AUTHORITY;
use crate::error::ErrorView;
use crate::error::ProxyError;
use crate::message::headers_view;
use crate::message::valid_status;
use crate::message::CachedResponse;
use crate::message::Header;
use crate::message::HeaderView;
use crate::message::Method;
use crate::message::OriginRequest;
use crate::message::OriginRequestView;
use crate::message::ResponseView;

verus! {

/// The text of the URI that `http::uri::Builder` builds from a scheme, an
/// authority and a path with query, or `None` where it refuses them.
pub uninterp spec fn uri_text(
    scheme: Seq<char>,
    authority: Seq<char>,
    path_and_query: Seq<char>,
) -> Option<Seq<char>>;

/// Calls `http::Uri::builder()`, as axum re-exports it, with the three
/// parts, then `build()`, and renders the URI with its `Display` impl.
/// Nothing is proved of it: the contract only gives the outcome its name,
/// [`uri_text`]. The builder parses each part and reports a refusal as an
/// error, which becomes `None`; it does not panic.
#[verifier::external_body]
fn build_uri(scheme: &str, authority: &str, path_and_query: &str) -> (text: Option<String>)
    ensures
        match text {
            Some(t) => uri_text(scheme@, authority@, path_and_query@) == Some(t@),
            None => uri_text(scheme@, authority@, path_and_query@) is None,
        },
{
    let built = axum::http::Uri::builder()
        .scheme(scheme)
        .authority(authority)
        .path_and_query(path_and_query)
        .build();
    match built {
        Ok(uri) => Some(uri.to_string()),
        Err(_) => None,
    }
}

/// The path and query sent to the origin: the inbound one, or `/` where
/// the inbound target carried none.
pub open spec fn target_of(path: Seq<char>) -> Seq<char> {
    if path.len() == 0 {
        "/"@
    } else {
        path
    }
}

/// The URL of the origin request for an inbound path: scheme `https`, the
/// configured origin as authority, and the target path, letter for letter.
pub open spec fn verbatim_url(path: Seq<char>) -> Seq<char> {
    "https://"@ + ORIGIN_AUTHORITY@ + target_of(path)
}

/// Whether the URI builder, given the three parts, builds exactly the
/// verbatim URL.
pub open spec fn builds_verbatim(path: Seq<char>) -> bool {
    uri_text("https"@, ORIGIN_AUTHORITY@, target_of(path)) == Some(verbatim_url(path))
}

/// The URL an origin request for `path` goes to: the verbatim URL where the
/// URI builder builds it, and none where the builder refuses the parts or
/// would change them.
pub open spec fn origin_url_of(path: Seq<char>) -> Option<Seq<char>> {
    if builds_verbatim(path) {
        Some(verbatim_url(path))
    } else {
        None
    }
}

/// The path and query to forward for an inbound path.
pub fn target_path(path: &str) -> (target: String)
    ensures
        target@ == target_of(path@),
{
    if path.is_empty() {
        String::from_str("/")
    } else {
        String::from_str(path)
    }
}

/// Keeps a built URL only where it is the verbatim URL for `path`.
pub fn accept_url(built: Option<String>, path: &str) -> (url: Option<String>)
    ensures
        match url {
            Some(u) => built == Some(u) && u@ == verbatim_url(path@),
            None => match built {
                Some(b) => b@ != verbatim_url(path@),
                None => true,
            },
        },
{
    match built {
        Some(b) => {
            let target = target_path(path);
            let expected = String::from_str("https://").concat(ORIGIN_AUTHORITY).concat(
                target.as_str(),
            );
            if b == expected {
                Some(b)
            } else {
                None
            }
        },
        None => None,
    }
}

/// The origin URL for an inbound path, where the URI builder builds it
/// unchanged.
pub fn origin_url(path: &str) -> (url: Option<String>)
    ensures
        match url {
            Some(u) => origin_url_of(path@) == Some(u@),
            None => origin_url_of(path@) is None,
        },
{
    let target = target_path(path);
    let built = build_uri("https", ORIGIN_AUTHORITY, target.as_str());
    accept_url(built, path)
}

/// The origin request for a built URL, or the failure for a missing one.
pub open spec fn request_of(
    url: Option<Seq<char>>,
    method: Method,
    headers: Seq<HeaderView>,
    body: Seq<u8>,
) -> Result<OriginRequestView, ErrorView> {
    match url {
        Some(u) => Ok(OriginRequestView { method, url: u, headers, body }),
        None => Err(ErrorView::OriginRequestFailed),
    }
}

/// Puts the origin request together: method, headers and body go out as
/// they came in, under the given URL. Without a URL no request can be
/// made, which is a failed origin request.
pub fn request_for(url: Option<String>, method: Method, headers: Vec<Header>, body: Vec<u8>) -> (r:
    Result<OriginRequest, ProxyError>)
    ensures
        match r {
            Ok(request) => request_of(
                match url {
                    Some(u) => Some(u@),
                    None => None,
                },
                method,
                headers_view(headers@),
                body@,
            ) == Ok::<OriginRequestView, ErrorView>(request@),
            Err(e) => url is None && e@ == ErrorView::OriginRequestFailed,
        },
{
    match url {
        Some(u) => Ok(OriginRequest { method, url: u, headers, body }),
        None => Err(ProxyError::OriginRequestFailed),
    }
}

/// What an origin fetch ended in.
#[derive(Clone, Debug, PartialEq, Eq)]
pub enum FetchOutcome {
    /// The origin answered and its body was read to the end.
    Received { status: u16, headers: Vec<Header>, body: Vec<u8> },
    /// The request did not get through.
    RequestFailed,
    /// The origin answered but reading its body failed.
    BodyReadFailed,
}

/// The mathematical content of a [`FetchOutcome`].
pub ghost enum OutcomeView {
    Received { status: u16, headers: Seq<HeaderView>, body: Seq<u8> },
    RequestFailed,
    BodyReadFailed,
}

impl View for FetchOutcome {
    type V = OutcomeView;

    open spec fn view(&self) -> OutcomeView {
        match self {
            FetchOutcome::Received { status, headers, body } => OutcomeView::Received {
                status: *status,
                headers: headers_view(headers@),
                body: body@,
            },
            FetchOutcome::RequestFailed => OutcomeView::RequestFailed,
            FetchOutcome::BodyReadFailed => OutcomeView::BodyReadFailed,
        }
    }
}

/// The response record for the parts of an origin response, where the
/// status is one a record may carry.
pub open spec fn assembled(status: u16, headers: Seq<HeaderView>, body: Seq<u8>) -> Result<
    ResponseView,
    ErrorView,
> {
    if valid_status(status) {
        Ok(ResponseView { status, headers, body })
    } else {
        Err(ErrorView::ResponseBuildFailed)
    }
}

/// The response or failure an origin fetch settles to.
pub open spec fn settled(outcome: OutcomeView) -> Result<ResponseView, ErrorView> {
    match outcome {
        OutcomeView::Received { status, headers, body } => assembled(status, headers, body),
        OutcomeView::RequestFailed => Err(ErrorView::OriginRequestFailed),
        OutcomeView::BodyReadFailed => Err(ErrorView::OriginBodyReadFailed),
    }
}

/// Whether a result and its model say the same.
pub open spec fn response_result_is(
    r: Result<CachedResponse, ProxyError>,
    model: Result<ResponseView, ErrorView>,
) -> bool {
    match r {
        Ok(response) => model == Ok::<ResponseView, ErrorView>(response@),
        Err(e) => model == Err::<ResponseView, ErrorView>(e@),
    }
}

/// Assembles the response record from status, headers and body, all kept
/// as they are. A status outside 100 to 599 cannot be assembled.
pub fn assemble_response(status: u16, headers: Vec<Header>, body: Vec<u8>) -> (r: Result<
    CachedResponse,
    ProxyError,
>)
    ensures
        response_result_is(r, assembled(status, headers_view(headers@), body@)),
{
    if 100 <= status && status <= 599 {
        Ok(CachedResponse { status, headers, body })
    } else {
        Err(ProxyError::ResponseBuildFailed)
    }
}

/// Turns the outcome of an origin fetch into the response to cache and
/// serve, or into the failure to report.
pub fn settle(outcome: FetchOutcome) -> (r: Result<CachedResponse, ProxyError>)
    ensures
        response_result_is(r, settled(outcome@)),
{
    match outcome {
        FetchOutcome::Received { status, headers, body } => assemble_response(
            status,
            headers,
            body,
        ),
        FetchOutcome::RequestFailed => Err(ProxyError::OriginRequestFailed),
        FetchOutcome::BodyReadFailed => Err(ProxyError::OriginBodyReadFailed),
    }
}

} // verus!
