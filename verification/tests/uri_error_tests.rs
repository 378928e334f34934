use http_core::Error;
use http_core::Uri;

#[test]
fn test_uri_parse_accepts_visible_ascii() {
    let uri = Uri::parse("http://example.com/a?b=c").unwrap();
    assert_eq!(uri.as_text(), "http://example.com/a?b=c");
}

#[test]
fn test_uri_parse_rejects_bad_text() {
    assert!(Uri::parse("").is_err());
    assert!(Uri::parse("has space").is_err());
    assert!(Uri::parse("tab\there").is_err());
    let err = Uri::parse("").unwrap_err();
    assert_eq!(err.message(), "invalid uri");
}

#[test]
fn test_uri_from_parts() {
    let uri = Uri::from_parts("http", "example.com", "/index.html").unwrap();
    assert_eq!(uri.as_text(), "http://example.com/index.html");
    let bare = Uri::from_parts("https", "example.com", "").unwrap();
    assert_eq!(bare.as_text(), "https://example.com");

    assert!(Uri::from_parts("", "example.com", "/x").is_err());
    assert!(Uri::from_parts("http", "", "/x").is_err());
    assert!(Uri::from_parts("http", "example.com", "no-slash").is_err());
    let err = Uri::from_parts("", "", "").unwrap_err();
    assert_eq!(err.message(), "invalid uri parts");
}

#[test]
fn test_error_wraps_uri_error_verbatim() {
    let source = Uri::parse("not a uri").unwrap_err();
    let original_message = source.message().to_string();
    let unified = Error::from(source);
    assert!(matches!(unified, Error::Uri(_)));
    assert_eq!(unified.message(), original_message);
}

#[test]
fn test_error_wraps_uri_parts_error_verbatim() {
    let source = Uri::from_parts("", "", "").unwrap_err();
    let original_message = source.message().to_string();
    let unified: Error = source.into();
    assert!(matches!(unified, Error::UriParts(_)));
    assert_eq!(unified.message(), original_message);
}

#[test]
fn test_wrapped_error_detail_stays_inspectable() {
    let source = Uri::parse("bad uri").unwrap_err();
    let unified = Error::from(source);
    match unified {
        Error::Uri(inner) => assert_eq!(inner.message(), "invalid uri"),
        _ => panic!("expected the Uri variant"),
    }
}
