//! The decision the HTTP boundary makes for a request: which status to send,
//! whether the stream headers go out and whether a capture session starts.
use vstd::prelude::*;
use vstd::string::*;

verus! {

/// The one resource path that serves the stream.
pub const HTTP_STREAM_PATH: &'static str = "/stream.flac";

/// The content type of the stream.
pub const CONTENT_TYPE: &'static str = "application/ogg";

/// The cache policy of the stream.
pub const CACHE_CONTROL: &'static str = "no-cache, no-store";

/// The request methods the boundary tells apart.
#[derive(Clone, Copy, Debug, PartialEq, Eq, Structural)]
pub enum HttpMethod {
    Get,
    Head,
    Other,
}

/// How a request is answered.
#[derive(Clone, Copy, Debug, PartialEq, Eq, Structural)]
pub enum Route {
    /// `200` with the stream headers and a live stream as the body.
    Stream,
    /// `200` with the stream headers and an empty body.
    HeadersOnly,
    /// `405`: the stream path with another method.
    MethodNotAllowed,
    /// `404`: any other path.
    NotFound,
}

/// The route of a request.
pub open spec fn spec_route(method: HttpMethod, path: Seq<char>) -> Route {
    if path != HTTP_STREAM_PATH@ {
        Route::NotFound
    } else {
        match method {
            HttpMethod::Get => Route::Stream,
            HttpMethod::Head => Route::HeadersOnly,
            HttpMethod::Other => Route::MethodNotAllowed,
        }
    }
}

/// Whether two strings hold the same characters.
pub fn same_text(a: &str, b: &str) -> (r: bool)
    ensures
        r == (a@ == b@),
{
    let n = a.unicode_len();
    if n != b.unicode_len() {
        return false;
    }
    let mut i: usize = 0;
    while i < n
        invariant
            n == a@.len(),
            n == b@.len(),
            i <= n,
            a@.subrange(0, i as int) == b@.subrange(0, i as int),
        decreases n - i,
    {
        if a.get_char(i) != b.get_char(i) {
            assert(a@[i as int] != b@[i as int]);
            return false;
        }
        assert(a@.subrange(0, i + 1) =~= a@.subrange(0, i as int).push(a@[i as int]));
        assert(b@.subrange(0, i + 1) =~= b@.subrange(0, i as int).push(b@[i as int]));
        i = i + 1;
    }
    assert(a@ =~= a@.subrange(0, n as int));
    assert(b@ =~= b@.subrange(0, n as int));
    true
}

/// Routes a request by its method and path.
pub fn route(method: HttpMethod, path: &str) -> (r: Route)
    ensures
        r == spec_route(method, path@),
{
    if !same_text(path, HTTP_STREAM_PATH) {
        return Route::NotFound;
    }
    match method {
        HttpMethod::Get => Route::Stream,
        HttpMethod::Head => Route::HeadersOnly,
        HttpMethod::Other => Route::MethodNotAllowed,
    }
}

impl Route {
    /// The status code sent for this route.
    pub fn status(&self) -> (r: u16)
        ensures
            r == (match *self {
                Route::Stream => 200u16,
                Route::HeadersOnly => 200u16,
                Route::MethodNotAllowed => 405u16,
                Route::NotFound => 404u16,
            }),
    {
        match self {
            Route::Stream => 200,
            Route::HeadersOnly => 200,
            Route::MethodNotAllowed => 405,
            Route::NotFound => 404,
        }
    }

    /// Whether the response carries `Content-Type` and `Cache-Control`.
    pub fn has_stream_headers(&self) -> (r: bool)
        ensures
            r == (*self == Route::Stream || *self == Route::HeadersOnly),
    {
        match self {
            Route::Stream => true,
            Route::HeadersOnly => true,
            _ => false,
        }
    }

    /// Whether answering starts a capture session.
    pub fn starts_session(&self) -> (r: bool)
        ensures
            r == (*self == Route::Stream),
    {
        match self {
            Route::Stream => true,
            _ => false,
        }
    }
}

} // verus!
