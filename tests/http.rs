use simple_http_radio::http::{
    route, same_text, HttpMethod, Route, CACHE_CONTROL, CONTENT_TYPE, HTTP_STREAM_PATH,
};

#[test]
fn get_stream_path_streams() {
    let r = route(HttpMethod::Get, "/stream.flac");
    assert_eq!(r, Route::Stream);
    assert_eq!(r.status(), 200);
    assert!(r.has_stream_headers());
    assert!(r.starts_session());
    assert_eq!(CONTENT_TYPE, "application/ogg");
    assert_eq!(CACHE_CONTROL, "no-cache, no-store");
}

#[test]
fn head_stream_path_sends_headers_only() {
    let r = route(HttpMethod::Head, HTTP_STREAM_PATH);
    assert_eq!(r, Route::HeadersOnly);
    assert_eq!(r.status(), 200);
    assert!(r.has_stream_headers());
    assert!(!r.starts_session());
}

#[test]
fn other_path_is_not_found() {
    let r = route(HttpMethod::Get, "/other-path");
    assert_eq!(r, Route::NotFound);
    assert_eq!(r.status(), 404);
    assert!(!r.has_stream_headers());
    assert!(!r.starts_session());
    assert_eq!(route(HttpMethod::Get, "/stream.flac/").status(), 404);
    assert_eq!(route(HttpMethod::Get, "").status(), 404);
}

#[test]
fn other_method_is_not_allowed() {
    let r = route(HttpMethod::Other, "/stream.flac");
    assert_eq!(r, Route::MethodNotAllowed);
    assert_eq!(r.status(), 405);
    assert!(!r.has_stream_headers());
    assert!(!r.starts_session());
}

#[test]
fn text_comparison() {
    assert!(same_text("abc", "abc"));
    assert!(!same_text("abc", "abd"));
    assert!(!same_text("abc", "ab"));
    assert!(same_text("", ""));
}
