use http_core::Version;

#[test]
fn test_version_order_pairwise() {
    assert!(Version::Http09 < Version::Http10);
    assert!(Version::Http09 < Version::Http11);
    assert!(Version::Http09 < Version::H2);
    assert!(Version::Http09 < Version::H3);
    assert!(Version::Http10 < Version::Http11);
    assert!(Version::Http10 < Version::H2);
    assert!(Version::Http10 < Version::H3);
    assert!(Version::Http11 < Version::H2);
    assert!(Version::Http11 < Version::H3);
    assert!(Version::H2 < Version::H3);

    assert!(!(Version::H3 < Version::Http09));
    assert!(!(Version::Http11 < Version::Http11));
    assert!(Version::H2 >= Version::Http11);
    assert!(Version::H2 <= Version::H2);
}

#[test]
fn test_version_to_text() {
    assert_eq!(Version::Http09.to_text(), "HTTP/0.9");
    assert_eq!(Version::Http10.to_text(), "HTTP/1.0");
    assert_eq!(Version::Http11.to_text(), "HTTP/1.1");
    assert_eq!(Version::H2.to_text(), "HTTP/2.0");
    assert_eq!(Version::H3.to_text(), "HTTP/3.0");
}

#[test]
fn test_version_default() {
    assert_eq!(Version::default(), Version::Http11);
}
