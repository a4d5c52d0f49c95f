//! The reference model of the store's visible semantics.

use cosmos_client::errors::ErrorKind;
use cosmos_client::json::DocValue;
use cosmos_client::keys::PartitionKey;
use cosmos_client::store::StoreModel;

fn body(tag: i64) -> DocValue {
    DocValue::Object(vec![
        ("id".to_string(), DocValue::Text("doc-1".to_string())),
        ("value".to_string(), DocValue::Int(tag)),
    ])
}

fn key() -> PartitionKey {
    PartitionKey::Text("p1".to_string())
}

#[test]
fn create_then_read_returns_the_created_body() {
    let mut store = StoreModel::new();
    store
        .create("doc-1".to_string(), key(), body(1))
        .unwrap();
    let read = store.read("doc-1", &key()).unwrap();
    assert_eq!(read, &body(1));
}

#[test]
fn create_of_existing_identifier_is_already_exists() {
    let mut store = StoreModel::new();
    store
        .create("doc-1".to_string(), key(), body(1))
        .unwrap();
    let e = store
        .create("doc-1".to_string(), key(), body(2))
        .unwrap_err();
    assert_eq!(e.kind, ErrorKind::AlreadyExists);
    assert_eq!(e.status, Some(409));
    // The conflicting create left the stored body unchanged.
    assert_eq!(store.read("doc-1", &key()).unwrap(), &body(1));
}

#[test]
fn same_identifier_under_another_partition_is_distinct() {
    let mut store = StoreModel::new();
    store
        .create("doc-1".to_string(), key(), body(1))
        .unwrap();
    store
        .create(
            "doc-1".to_string(),
            PartitionKey::Text("p2".to_string()),
            body(2),
        )
        .unwrap();
    assert_eq!(store.len(), 2);
    assert_eq!(
        store
            .read("doc-1", &PartitionKey::Text("p2".to_string()))
            .unwrap(),
        &body(2)
    );
}

#[test]
fn delete_of_nonexistent_item_is_not_found() {
    let mut store = StoreModel::new();
    let e = store.delete("ghost", &key()).unwrap_err();
    assert_eq!(e.kind, ErrorKind::NotFound);
    assert_eq!(e.status, Some(404));
}

#[test]
fn delete_removes_exactly_the_named_item() {
    let mut store = StoreModel::new();
    store
        .create("doc-1".to_string(), key(), body(1))
        .unwrap();
    store
        .create("doc-2".to_string(), key(), body(2))
        .unwrap();
    store.delete("doc-1", &key()).unwrap();
    assert_eq!(store.len(), 1);
    assert_eq!(
        store.read("doc-1", &key()).unwrap_err().kind,
        ErrorKind::NotFound
    );
    assert_eq!(store.read("doc-2", &key()).unwrap(), &body(2));
}

#[test]
fn replace_of_missing_item_is_not_found() {
    let mut store = StoreModel::new();
    let e = store
        .replace("ghost".to_string(), key(), body(1))
        .unwrap_err();
    assert_eq!(e.kind, ErrorKind::NotFound);
    assert_eq!(e.status, Some(404));
}

#[test]
fn replace_swaps_the_body_in_place() {
    let mut store = StoreModel::new();
    store
        .create("doc-1".to_string(), key(), body(1))
        .unwrap();
    store
        .replace("doc-1".to_string(), key(), body(7))
        .unwrap();
    assert_eq!(store.read("doc-1", &key()).unwrap(), &body(7));
    assert_eq!(store.len(), 1);
}

#[test]
fn upsert_never_conflicts() {
    let mut store = StoreModel::new();
    store.upsert("doc-1".to_string(), key(), body(1));
    store.upsert("doc-1".to_string(), key(), body(2));
    assert_eq!(store.len(), 1);
    assert_eq!(store.read("doc-1", &key()).unwrap(), &body(2));
}

#[test]
fn integer_and_float_keys_address_items() {
    let mut store = StoreModel::new();
    store
        .create("doc-1".to_string(), PartitionKey::Int(5), body(1))
        .unwrap();
    let bits = (2.25f64).to_bits();
    store
        .create("doc-1".to_string(), PartitionKey::Float(bits), body(2))
        .unwrap();
    assert_eq!(
        store.read("doc-1", &PartitionKey::Int(5)).unwrap(),
        &body(1)
    );
    assert_eq!(
        store.read("doc-1", &PartitionKey::Float(bits)).unwrap(),
        &body(2)
    );
    assert_eq!(
        store
            .read("doc-1", &PartitionKey::Int(6))
            .unwrap_err()
            .kind,
        ErrorKind::NotFound
    );
}
