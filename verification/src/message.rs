//! Plain-value descriptions of requests and responses, with their views.
use vstd::prelude::*;

verus! {

/// The standard HTTP request methods.
#[derive(Clone, Copy, Debug, PartialEq, Eq, Structural, Hash)]
pub enum Method {
    Get,
    Head,
    Post,
    Put,
    Delete,
    Connect,
    Options,
    Trace,
    Patch,
}

/// One header line: a name and an opaque value.
#[derive(Clone, Debug, PartialEq, Eq)]
pub struct Header {
    pub name: String,
    pub value: Vec<u8>,
}

/// The mathematical content of a [`Header`].
pub ghost struct HeaderView {
    pub name: Seq<char>,
    pub value: Seq<u8>,
}

impl View for Header {
    type V = HeaderView;

    open spec fn view(&self) -> HeaderView {
        HeaderView { name: self.name@, value: self.value@ }
    }
}

/// The content of a header list: order and duplicates are kept.
pub open spec fn headers_view(hs: Seq<Header>) -> Seq<HeaderView> {
    Seq::new(hs.len(), |i: int| hs[i]@)
}

/// Copies a byte buffer.
pub fn copy_bytes(src: &Vec<u8>) -> (out: Vec<u8>)
    ensures
        out@ == src@,
{
    let mut out: Vec<u8> = Vec::new();
    let mut i: usize = 0;
    while i < src.len()
        invariant
            i <= src.len(),
            out@ == src@.subrange(0, i as int),
        decreases src.len() - i,
    {
        out.push(src[i]);
        i += 1;
        assert(out@ =~= src@.subrange(0, i as int));
    }
    assert(src@.subrange(0, src@.len() as int) =~= src@);
    out
}

impl Header {
    /// A copy with the same name and value.
    pub fn duplicate(&self) -> (out: Header)
        ensures
            out@ == self@,
    {
        Header { name: self.name.clone(), value: copy_bytes(&self.value) }
    }
}

/// Copies a header list, keeping order and duplicates.
pub fn copy_headers(src: &Vec<Header>) -> (out: Vec<Header>)
    ensures
        headers_view(out@) == headers_view(src@),
{
    let mut out: Vec<Header> = Vec::new();
    let mut i: usize = 0;
    while i < src.len()
        invariant
            i <= src.len(),
            out@.len() == i,
            forall|j: int| 0 <= j < i ==> out@[j]@ == src@[j]@,
        decreases src.len() - i,
    {
        out.push(src[i].duplicate());
        i += 1;
    }
    assert(headers_view(out@) =~= headers_view(src@));
    out
}

/// What identifies a cacheable response: the method and the path with query.
#[derive(Clone, Debug, PartialEq, Eq)]
pub struct CacheKey {
    pub method: Method,
    pub path: String,
}

/// The mathematical content of a [`CacheKey`].
pub ghost struct KeyView {
    pub method: Method,
    pub path: Seq<char>,
}

impl View for CacheKey {
    type V = KeyView;

    open spec fn view(&self) -> KeyView {
        KeyView { method: self.method, path: self.path@ }
    }
}

impl CacheKey {
    /// Whether two keys have the same method and exactly the same path.
    pub fn same_as(&self, other: &CacheKey) -> (r: bool)
        ensures
            r == (self@ == other@),
    {
        self.method == other.method && self.path == other.path
    }

    /// A copy of the key.
    pub fn duplicate(&self) -> (out: CacheKey)
        ensures
            out@ == self@,
    {
        CacheKey { method: self.method, path: self.path.clone() }
    }
}

/// A fully buffered response: status, headers in captured order, body.
#[derive(Clone, Debug, PartialEq, Eq)]
pub struct CachedResponse {
    pub status: u16,
    pub headers: Vec<Header>,
    pub body: Vec<u8>,
}

/// The mathematical content of a [`CachedResponse`].
pub ghost struct ResponseView {
    pub status: u16,
    pub headers: Seq<HeaderView>,
    pub body: Seq<u8>,
}

/// The status codes a response record may carry.
pub open spec fn valid_status(status: u16) -> bool {
    100 <= status <= 599
}

impl View for CachedResponse {
    type V = ResponseView;

    open spec fn view(&self) -> ResponseView {
        ResponseView {
            status: self.status,
            headers: headers_view(self.headers@),
            body: self.body@,
        }
    }
}

impl CachedResponse {
    /// A response record is well formed where its status is a valid one.
    pub open spec fn wf(&self) -> bool {
        valid_status(self.status)
    }

    /// A deep copy: same status, same headers in the same order, same body.
    pub fn duplicate(&self) -> (out: CachedResponse)
        ensures
            out@ == self@,
    {
        CachedResponse {
            status: self.status,
            headers: copy_headers(&self.headers),
            body: copy_bytes(&self.body),
        }
    }
}

/// An inbound request as the server captured it.
#[derive(Clone, Debug, PartialEq, Eq)]
pub struct Request {
    pub method: Method,
    /// The authority the client addressed: `host` or `host:port`.
    pub authority: String,
    /// The path with its query; empty where the target carried none.
    pub path: String,
    pub headers: Vec<Header>,
    pub body: Vec<u8>,
}

/// The mathematical content of a [`Request`].
pub ghost struct RequestView {
    pub method: Method,
    pub authority: Seq<char>,
    pub path: Seq<char>,
    pub headers: Seq<HeaderView>,
    pub body: Seq<u8>,
}

impl View for Request {
    type V = RequestView;

    open spec fn view(&self) -> RequestView {
        RequestView {
            method: self.method,
            authority: self.authority@,
            path: self.path@,
            headers: headers_view(self.headers@),
            body: self.body@,
        }
    }
}

/// The request to send to the origin.
#[derive(Clone, Debug, PartialEq, Eq)]
pub struct OriginRequest {
    pub method: Method,
    pub url: String,
    pub headers: Vec<Header>,
    pub body: Vec<u8>,
}

/// The mathematical content of an [`OriginRequest`].
pub ghost struct OriginRequestView {
    pub method: Method,
    pub url: Seq<char>,
    pub headers: Seq<HeaderView>,
    pub body: Seq<u8>,
}

impl View for OriginRequest {
    type V = OriginRequestView;

    open spec fn view(&self) -> OriginRequestView {
        OriginRequestView {
            method: self.method,
            url: self.url@,
            headers: headers_view(self.headers@),
            body: self.body@,
        }
    }
}

} // verus!
