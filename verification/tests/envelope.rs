//! Response envelopes and their finishing.

use cosmos_client::errors::ErrorKind;
use cosmos_client::json::DocValue;
use cosmos_client::requests::{finish_item_response, ResponseEnvelope};

#[test]
fn envelope_with_body_splits_into_body_and_headers() {
    let env = ResponseEnvelope {
        status: 200,
        headers: vec![("etag".to_string(), "\"abc\"".to_string())],
        body: Some(DocValue::Text("doc".to_string())),
    };
    let (body, headers) = finish_item_response(env).unwrap();
    assert_eq!(body, DocValue::Text("doc".to_string()));
    assert_eq!(headers, vec![("etag".to_string(), "\"abc\"".to_string())]);
}

#[test]
fn envelope_without_body_is_a_value_error() {
    let env = ResponseEnvelope {
        status: 201,
        headers: Vec::new(),
        body: None,
    };
    let e = finish_item_response(env).unwrap_err();
    assert_eq!(e.kind, ErrorKind::ValueError);
    assert_eq!(e.message, "Failed to deserialize response");
}
