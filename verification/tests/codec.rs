//! Partition-key codec behaviour: encoding, decoding, derivation.

use cosmos_client::errors::ErrorKind;
use cosmos_client::json::DocValue;
use cosmos_client::keys::{derive_partition_key, require_explicit_key, PartitionKey};

fn obj(fields: Vec<(&str, DocValue)>) -> DocValue {
    DocValue::Object(fields.into_iter().map(|(k, v)| (k.to_string(), v)).collect())
}

#[test]
fn string_key_round_trips() {
    let v = DocValue::Text("tenant-42".to_string());
    let k = PartitionKey::from_scalar(&v).unwrap();
    assert_eq!(k, PartitionKey::Text("tenant-42".to_string()));
    assert_eq!(k.to_scalar(), v);
}

#[test]
fn integer_key_round_trips() {
    let v = DocValue::Int(-7);
    let k = PartitionKey::from_scalar(&v).unwrap();
    assert_eq!(k, PartitionKey::Int(-7));
    assert_eq!(k.to_scalar(), v);
}

#[test]
fn float_key_round_trips() {
    let bits = (3.5f64).to_bits();
    let v = DocValue::Float(bits);
    let k = PartitionKey::from_scalar(&v).unwrap();
    assert_eq!(k, PartitionKey::Float(bits));
    assert_eq!(k.to_scalar(), v);
    assert_eq!(f64::from_bits(bits), 3.5);
}

#[test]
fn unsupported_scalar_is_type_error() {
    for v in [
        DocValue::Null,
        DocValue::Bool(true),
        DocValue::Array(vec![DocValue::Int(1)]),
        obj(vec![("x", DocValue::Int(1))]),
    ] {
        let e = PartitionKey::from_scalar(&v).unwrap_err();
        assert_eq!(e.kind, ErrorKind::TypeError);
        assert_eq!(e.message, "Partition key must be string, int, or float");
    }
}

#[test]
fn declared_path_wins_over_candidates() {
    let body = obj(vec![
        ("id", DocValue::Text("doc-1".to_string())),
        ("pk", DocValue::Text("fallback".to_string())),
        ("region", DocValue::Text("west".to_string())),
    ]);
    let k = derive_partition_key(&body, Some("/region"), None).unwrap();
    assert_eq!(k, PartitionKey::Text("west".to_string()));
}

#[test]
fn declared_path_missing_falls_back() {
    let body = obj(vec![
        ("id", DocValue::Text("doc-1".to_string())),
        ("category", DocValue::Text("books".to_string())),
    ]);
    let k = derive_partition_key(&body, Some("/region"), None).unwrap();
    assert_eq!(k, PartitionKey::Text("books".to_string()));
}

#[test]
fn explicit_override_wins_over_everything() {
    let body = obj(vec![
        ("pk", DocValue::Text("body-key".to_string())),
        ("region", DocValue::Text("west".to_string())),
    ]);
    let k = derive_partition_key(
        &body,
        Some("/region"),
        Some(PartitionKey::Int(9)),
    )
    .unwrap();
    assert_eq!(k, PartitionKey::Int(9));
}

#[test]
fn fallback_order_prefers_pk_over_id() {
    let body = obj(vec![
        ("id", DocValue::Text("doc-1".to_string())),
        ("pk", DocValue::Text("part-7".to_string())),
    ]);
    // Deterministic: the fixed order picks "pk" on every invocation.
    for _ in 0..3 {
        let k = derive_partition_key(&body, None, None).unwrap();
        assert_eq!(k, PartitionKey::Text("part-7".to_string()));
    }
}

#[test]
fn fallback_order_walks_the_fixed_list() {
    let body = obj(vec![
        ("tenantId", DocValue::Int(3)),
        ("id", DocValue::Text("doc-1".to_string())),
    ]);
    let k = derive_partition_key(&body, None, None).unwrap();
    assert_eq!(k, PartitionKey::Int(3));

    let body = obj(vec![("id", DocValue::Text("doc-1".to_string()))]);
    let k = derive_partition_key(&body, None, None).unwrap();
    assert_eq!(k, PartitionKey::Text("doc-1".to_string()));
}

#[test]
fn no_candidate_field_is_value_error() {
    let body = obj(vec![("name", DocValue::Text("x".to_string()))]);
    let e = derive_partition_key(&body, None, None).unwrap_err();
    assert_eq!(e.kind, ErrorKind::ValueError);
    assert_eq!(e.message, "Partition key not found in body or kwargs");
}

#[test]
fn non_object_body_without_override_is_value_error() {
    let e = derive_partition_key(&DocValue::Text("raw".to_string()), None, None).unwrap_err();
    assert_eq!(e.kind, ErrorKind::ValueError);
}

#[test]
fn candidate_of_unsupported_shape_is_type_error() {
    let body = obj(vec![("pk", DocValue::Bool(false))]);
    let e = derive_partition_key(&body, None, None).unwrap_err();
    assert_eq!(e.kind, ErrorKind::TypeError);
}

#[test]
fn opaque_body_requires_explicit_key() {
    let k = require_explicit_key(Some(PartitionKey::Text("p".to_string()))).unwrap();
    assert_eq!(k, PartitionKey::Text("p".to_string()));
    let e = require_explicit_key(None).unwrap_err();
    assert_eq!(e.kind, ErrorKind::ValueError);
    assert_eq!(
        e.message,
        "Partition key must be provided in kwargs when body is a JSON string"
    );
}

#[test]
fn first_matching_field_wins_in_objects() {
    let body = DocValue::Object(vec![
        ("pk".to_string(), DocValue::Int(1)),
        ("pk".to_string(), DocValue::Int(2)),
    ]);
    assert_eq!(body.get_field("pk"), Some(&DocValue::Int(1)));
    assert_eq!(body.get_field("absent"), None);
}
