use http_core::HeaderMap;
use http_core::Method;
use http_core::Request;
use http_core::Response;
use http_core::StatusCode;
use http_core::Uri;
use http_core::Version;

#[test]
fn test_request_round_trips_fields() {
    let uri = Uri::parse("http://example.com/submit").unwrap();
    let request = Request::new(
        Method::Post,
        uri,
        Version::Http11,
        HeaderMap::new(),
        "X".to_string(),
    );
    let moved = request;
    assert_eq!(moved.method, Method::Post);
    assert_eq!(moved.uri.as_text(), "http://example.com/submit");
    assert_eq!(moved.version, Version::Http11);
    assert_eq!(moved.headers.len(), 0);
    assert_eq!(moved.body, "X");
}

#[test]
fn test_request_clone_keeps_fields() {
    let uri = Uri::parse("http://example.com/").unwrap();
    let mut headers = HeaderMap::new();
    headers.insert("Host".to_string(), "example.com".to_string());
    let request = Request::new(Method::Get, uri, Version::H2, headers, vec![1u8, 2, 3]);
    let copy = request.clone();
    assert_eq!(copy.method, request.method);
    assert_eq!(copy.uri.as_text(), request.uri.as_text());
    assert_eq!(copy.version, request.version);
    assert_eq!(copy.headers.len(), 1);
    assert_eq!(copy.body, request.body);
}

#[test]
fn test_request_default() {
    let request: Request<Vec<u8>> = Request::default();
    assert_eq!(request.method, Method::Get);
    assert_eq!(request.uri.as_text(), "/");
    assert_eq!(request.version, Version::Http11);
    assert_eq!(request.headers.len(), 0);
    assert!(request.body.is_empty());
}

#[test]
fn test_response_round_trips_fields() {
    let status = StatusCode::from_u16(204).unwrap();
    let response = Response::new(status, Version::H3, HeaderMap::new(), ());
    let moved = response;
    assert_eq!(moved.status.as_u16(), 204);
    assert_eq!(moved.version, Version::H3);
    assert_eq!(moved.headers.len(), 0);
}
