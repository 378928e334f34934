use http_core::Error;
use http_core::StatusCode;

#[test]
fn test_status_range() {
    assert!(StatusCode::from_u16(100).is_ok());
    assert!(StatusCode::from_u16(200).is_ok());
    assert!(StatusCode::from_u16(599).is_ok());

    assert!(matches!(StatusCode::from_u16(99), Err(Error::InvalidStatusCode)));
    assert!(matches!(StatusCode::from_u16(600), Err(Error::InvalidStatusCode)));
    assert!(matches!(StatusCode::from_u16(0), Err(Error::InvalidStatusCode)));
    assert!(matches!(StatusCode::from_u16(1000), Err(Error::InvalidStatusCode)));
}

#[test]
fn test_status_value() {
    assert_eq!(StatusCode::from_u16(404).unwrap().as_u16(), 404);
    assert_eq!(StatusCode::from_u16(100).unwrap().as_u16(), 100);
    assert_eq!(StatusCode::from_u16(599).unwrap().as_u16(), 599);
}

#[test]
fn test_status_to_text() {
    assert_eq!(StatusCode::from_u16(404).unwrap().to_text(), "404");
    assert_eq!(StatusCode::from_u16(100).unwrap().to_text(), "100");
    assert_eq!(StatusCode::from_u16(200).unwrap().to_text(), "200");
    assert_eq!(StatusCode::from_u16(301).unwrap().to_text(), "301");
    assert_eq!(StatusCode::from_u16(599).unwrap().to_text(), "599");
}

#[test]
fn test_status_comparison() {
    let low = StatusCode::from_u16(200).unwrap();
    let high = StatusCode::from_u16(404).unwrap();
    assert!(low < high);
    assert!(!(high < low));
    assert_eq!(low, StatusCode::from_u16(200).unwrap());
    assert_ne!(low, high);
}

#[test]
fn test_invalid_status_message() {
    let err = StatusCode::from_u16(600).unwrap_err();
    assert_eq!(err.message(), "invalid status code");
}
