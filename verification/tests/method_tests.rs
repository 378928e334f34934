use http_core::Method;

#[test]
fn test_enum_string() {
    for method in Method::all() {
        let text = method.to_text();
        assert_eq!(Method::parse(text).unwrap(), method);
    }
}

#[test]
fn test_is_idempotent() {
    assert!(Method::Options.is_idempotent());
    assert!(Method::Get.is_idempotent());
    assert!(Method::Put.is_idempotent());
    assert!(Method::Delete.is_idempotent());
    assert!(Method::Head.is_idempotent());
    assert!(Method::Trace.is_idempotent());

    assert!(!Method::Post.is_idempotent());
    assert!(!Method::Connect.is_idempotent());
    assert!(!Method::Patch.is_idempotent());
}

#[test]
fn test_is_safe() {
    assert!(Method::Get.is_safe());
    assert!(Method::Head.is_safe());
    assert!(Method::Options.is_safe());
    assert!(Method::Trace.is_safe());

    assert!(!Method::Post.is_safe());
    assert!(!Method::Put.is_safe());
    assert!(!Method::Delete.is_safe());
    assert!(!Method::Connect.is_safe());
    assert!(!Method::Patch.is_safe());
}

#[test]
fn test_parse_case_insensitive() {
    assert_eq!(Method::parse("get").unwrap(), Method::Get);
    assert_eq!(Method::parse("gEt").unwrap(), Method::Get);
    assert_eq!(Method::parse("patch").unwrap(), Method::Patch);
    assert_eq!(Method::parse("DELETE").unwrap(), Method::Delete);
}

#[test]
fn test_parse_rejects_unknown() {
    assert!(Method::parse("").is_none());
    assert!(Method::parse("GETS").is_none());
    assert!(Method::parse("FETCH").is_none());
    assert!(Method::parse("GE T").is_none());
}

#[test]
fn test_method_to_text() {
    assert_eq!(Method::Options.to_text(), "OPTIONS");
    assert_eq!(Method::Get.to_text(), "GET");
    assert_eq!(Method::Post.to_text(), "POST");
    assert_eq!(Method::Put.to_text(), "PUT");
    assert_eq!(Method::Delete.to_text(), "DELETE");
    assert_eq!(Method::Head.to_text(), "HEAD");
    assert_eq!(Method::Trace.to_text(), "TRACE");
    assert_eq!(Method::Connect.to_text(), "CONNECT");
    assert_eq!(Method::Patch.to_text(), "PATCH");
}

#[test]
fn test_method_default() {
    assert_eq!(Method::default(), Method::Get);
}
