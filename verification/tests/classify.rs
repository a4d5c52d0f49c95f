//! Error classification from message text, including through the
//! native error type.

use cosmos_client::client::map_error;
use cosmos_client::errors::{classify_message, extract_status_code, str_contains, ErrorKind};

#[test]
fn status_404_classifies_not_found() {
    let e = classify_message("operation failed: StatusCode: 404, body missing".to_string());
    assert_eq!(e.kind, ErrorKind::NotFound);
    assert_eq!(e.status, Some(404));
}

#[test]
fn status_409_classifies_already_exists() {
    let e = classify_message("create failed, StatusCode: 409".to_string());
    assert_eq!(e.kind, ErrorKind::AlreadyExists);
    assert_eq!(e.status, Some(409));
}

#[test]
fn status_412_classifies_precondition_failed() {
    let e = classify_message("etag mismatch StatusCode: 412 detail".to_string());
    assert_eq!(e.kind, ErrorKind::PreconditionFailed);
    assert_eq!(e.status, Some(412));
}

#[test]
fn body_code_markers_classify_too() {
    let e = classify_message("{\"code\":\"Conflict\",\"message\":\"already there\"}".to_string());
    assert_eq!(e.kind, ErrorKind::AlreadyExists);
    assert_eq!(e.status, Some(409));

    let e = classify_message("{\"code\":\"NotFound\"}".to_string());
    assert_eq!(e.kind, ErrorKind::NotFound);
    assert_eq!(e.status, Some(404));

    let e = classify_message("{\"code\":\"PreconditionFailed\"}".to_string());
    assert_eq!(e.kind, ErrorKind::PreconditionFailed);
    assert_eq!(e.status, Some(412));
}

#[test]
fn unrecognized_text_is_generic_http_error() {
    let e = classify_message("connection reset by peer".to_string());
    assert_eq!(e.kind, ErrorKind::Http);
    assert_eq!(e.status, None);
    assert_eq!(e.message, "connection reset by peer");
}

#[test]
fn conflict_marker_is_checked_before_not_found() {
    // The fixed marker order resolves a message holding two markers.
    let e = classify_message("StatusCode: 404 after retry of StatusCode: 409".to_string());
    assert_eq!(e.kind, ErrorKind::AlreadyExists);
    assert_eq!(e.status, Some(409));
}

#[test]
fn extract_status_code_finds_markers() {
    assert_eq!(extract_status_code("x StatusCode: 409 y"), Some(409));
    assert_eq!(extract_status_code("x StatusCode: 404 y"), Some(404));
    assert_eq!(extract_status_code("x StatusCode: 412 y"), Some(412));
    assert_eq!(extract_status_code("StatusCode: 500"), None);
    assert_eq!(extract_status_code(""), None);
}

#[test]
fn substring_search_is_exact() {
    assert!(str_contains("abcdef", "cde"));
    assert!(str_contains("abcdef", ""));
    assert!(str_contains("", ""));
    assert!(!str_contains("", "a"));
    assert!(!str_contains("abcdef", "cdf"));
    assert!(str_contains("aaab", "aab"));
    assert!(!str_contains("StatusCode: 40", "StatusCode: 404"));
}

#[test]
fn native_error_is_rendered_and_classified() {
    let err = typespec::error::Error::message(
        typespec::error::ErrorKind::Other,
        "service refused: StatusCode: 404",
    );
    let e = map_error(err);
    assert_eq!(e.kind, ErrorKind::NotFound);
    assert_eq!(e.status, Some(404));
    assert_eq!(e.message, "service refused: StatusCode: 404");
}

#[test]
fn native_error_without_marker_is_http() {
    let err = typespec::error::Error::message(typespec::error::ErrorKind::Io, "socket closed");
    let e = map_error(err);
    assert_eq!(e.kind, ErrorKind::Http);
    assert_eq!(e.status, None);
}
