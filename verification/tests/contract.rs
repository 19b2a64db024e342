//! The storage contract exercised against its in-memory reference store.

use storage_client::memory::MemoryStore;
use storage_client::{ClientBucket, ClientObject};

fn store_with_bucket(name: &str) -> MemoryStore {
    let mut store = MemoryStore::new();
    let created = store.create_bucket(name.to_string());
    assert!(created.is_some());
    store
}

#[test]
fn round_trip_returns_payload() {
    let mut store = store_with_bucket("b");
    let payload: Vec<u8> = b"hello, storage".to_vec();
    let up = store.static_upload_object(&"b".to_string(), "k".to_string(), payload.clone());
    assert!(up.is_some());
    let down = store.static_download_object(&"b".to_string(), &"k".to_string(), None, None);
    assert_eq!(down, Some(payload));
}

#[test]
fn round_trip_empty_payload() {
    let mut store = store_with_bucket("b");
    let up = store.static_upload_object(&"b".to_string(), "k".to_string(), Vec::new());
    assert!(up.is_some());
    let down = store.static_download_object(&"b".to_string(), &"k".to_string(), None, None);
    assert_eq!(down, Some(Vec::new()));
}

#[test]
fn upload_overwrites_namesake() {
    let mut store = store_with_bucket("b");
    store.static_upload_object(&"b".to_string(), "k".to_string(), b"one".to_vec());
    store.static_upload_object(&"b".to_string(), "k".to_string(), b"two".to_vec());
    let down = store.static_download_object(&"b".to_string(), &"k".to_string(), None, None);
    assert_eq!(down, Some(b"two".to_vec()));
}

#[test]
fn upload_to_missing_bucket_fails() {
    let mut store = MemoryStore::new();
    let up = store.static_upload_object(&"nope".to_string(), "k".to_string(), b"x".to_vec());
    assert!(up.is_none());
}

#[test]
fn inclusive_range_of_fixture_object() {
    // A 100-byte object of known content: range (10, 19) is 10 bytes,
    // equal to bytes 10..=19 of the source.
    let mut store = store_with_bucket("b");
    let payload: Vec<u8> = (0u8..100).collect();
    store.static_upload_object(&"b".to_string(), "data".to_string(), payload.clone());
    let down = store
        .static_download_object(&"b".to_string(), &"data".to_string(), Some(10), Some(19))
        .unwrap();
    assert_eq!(down.len(), 10);
    assert_eq!(down, payload[10..=19].to_vec());
}

#[test]
fn open_ended_and_suffix_ranges() {
    let mut store = store_with_bucket("b");
    let payload: Vec<u8> = (0u8..100).collect();
    store.static_upload_object(&"b".to_string(), "data".to_string(), payload.clone());
    let tail = store
        .static_download_object(&"b".to_string(), &"data".to_string(), Some(90), None)
        .unwrap();
    assert_eq!(tail, payload[90..].to_vec());
    let suffix = store
        .static_download_object(&"b".to_string(), &"data".to_string(), None, Some(10))
        .unwrap();
    assert_eq!(suffix, payload[90..].to_vec());
}

#[test]
fn unsatisfiable_range_is_refused() {
    let mut store = store_with_bucket("b");
    store.static_upload_object(&"b".to_string(), "data".to_string(), b"abc".to_vec());
    let bad = store.static_download_object(&"b".to_string(), &"data".to_string(), Some(7), Some(9));
    assert!(bad.is_none());
}

#[test]
fn download_missing_object_fails() {
    let store = store_with_bucket("b");
    let down = store.static_download_object(&"b".to_string(), &"k".to_string(), None, None);
    assert!(down.is_none());
}

#[test]
fn remove_object_twice_keeps_listing_clean() {
    let mut store = store_with_bucket("b");
    store.static_upload_object(&"b".to_string(), "gone".to_string(), b"x".to_vec());
    store.static_upload_object(&"b".to_string(), "kept".to_string(), b"y".to_vec());
    assert!(store.remove_object(&"b".to_string(), &"gone".to_string()));
    assert!(!store.remove_object(&"b".to_string(), &"gone".to_string()));
    let listed = store.list_objects(&"b".to_string(), None).unwrap();
    assert_eq!(listed.len(), 1);
    assert_eq!(listed[0].name(), "kept".to_string());
    assert!(listed.iter().all(|o| o.name() != "gone".to_string()));
}

#[test]
fn get_object_reports_the_asked_pair() {
    let mut store = store_with_bucket("photos");
    store.static_upload_object(&"photos".to_string(), "cat.png".to_string(), b"meow".to_vec());
    let got = store.get_object(&"photos".to_string(), &"cat.png".to_string()).unwrap();
    assert_eq!(got.bucket_name(), "photos".to_string());
    assert!(!got.name().is_empty());
    assert!(!got.id().is_empty());
    assert_eq!(got.name(), "cat.png".to_string());
    assert_eq!(got.size(), 4);
    assert_eq!(got.content_type(), None);
}

#[test]
fn get_missing_object_fails() {
    let store = store_with_bucket("b");
    assert!(store.get_object(&"b".to_string(), &"nope".to_string()).is_none());
    assert!(store.get_object(&"other".to_string(), &"nope".to_string()).is_none());
}

#[test]
fn listing_respects_max_results() {
    let mut store = store_with_bucket("b");
    for i in 0..5 {
        store.static_upload_object(&"b".to_string(), format!("k{}", i), vec![i as u8]);
    }
    let page = store.list_objects(&"b".to_string(), Some(3)).unwrap();
    assert_eq!(page.len(), 3);
    let all = store.list_objects(&"b".to_string(), None).unwrap();
    assert_eq!(all.len(), 5);
    let none = store.list_objects(&"b".to_string(), Some(0)).unwrap();
    assert_eq!(none.len(), 0);
}

#[test]
fn bucket_listing_respects_max_results() {
    let mut store = MemoryStore::new();
    for i in 0..4 {
        store.create_bucket(format!("b{}", i));
    }
    let page = store.list_buckets(Some(2));
    assert_eq!(page.len(), 2);
    let all = store.list_buckets(None);
    assert_eq!(all.len(), 4);
    assert_eq!(all[0].name(), "b0".to_string());
    assert_eq!(all[0].id(), "b0".to_string());
    assert_eq!(all[0].location(), None);
}

#[test]
fn create_bucket_collision_is_reported() {
    let mut store = MemoryStore::new();
    assert!(store.create_bucket("b".to_string()).is_some());
    assert!(store.create_bucket("b".to_string()).is_none());
    assert_eq!(store.list_buckets(None).len(), 1);
}

#[test]
fn remove_bucket_reports_presence() {
    let mut store = store_with_bucket("b");
    assert!(store.remove_bucket(&"b".to_string()));
    assert!(!store.remove_bucket(&"b".to_string()));
    assert!(store.get_bucket(&"b".to_string()).is_none());
}

#[test]
fn get_bucket_finds_existing() {
    let store = store_with_bucket("b");
    let got = store.get_bucket(&"b".to_string()).unwrap();
    assert_eq!(got.name(), "b".to_string());
}

#[test]
fn copy_object_across_buckets() {
    let mut store = store_with_bucket("src");
    store.create_bucket("dst".to_string());
    store.static_upload_object(&"src".to_string(), "k".to_string(), b"payload".to_vec());
    let copied = store
        .copy_object(&"src".to_string(), &"k".to_string(), &"dst".to_string(), "k2".to_string())
        .unwrap();
    assert_eq!(copied.bucket_name(), "dst".to_string());
    assert_eq!(copied.name(), "k2".to_string());
    assert_eq!(copied.size(), 7);
    let down = store.static_download_object(&"dst".to_string(), &"k2".to_string(), None, None);
    assert_eq!(down, Some(b"payload".to_vec()));
    // The source is untouched.
    let src = store.static_download_object(&"src".to_string(), &"k".to_string(), None, None);
    assert_eq!(src, Some(b"payload".to_vec()));
}

#[test]
fn copy_with_missing_source_fails() {
    let mut store = store_with_bucket("src");
    store.create_bucket("dst".to_string());
    let copied = store.copy_object(
        &"src".to_string(),
        &"nope".to_string(),
        &"dst".to_string(),
        "k".to_string(),
    );
    assert!(copied.is_none());
}
