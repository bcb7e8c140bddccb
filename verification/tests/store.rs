use bytes::Bytes;
use content::{ContentError, InMemoryObjectStore, ObjectStore, UploadParams};

fn params(key: &str, mime: Option<&str>) -> UploadParams {
    UploadParams {
        object_key: key.to_owned(),
        mime_type: mime.map(str::to_owned),
        file_name: None,
    }
}

#[test]
fn in_memory_store_round_trip() {
    let mut store = InMemoryObjectStore::new();
    let key = "c/o";
    store
        .upload(
            UploadParams {
                object_key: key.to_owned(),
                mime_type: Some("text/plain".to_owned()),
                file_name: Some("hi.txt".to_owned()),
            },
            Bytes::from_static(b"hello world"),
        )
        .unwrap();

    let meta = store.object_meta(key).unwrap();
    assert_eq!(meta.size, 11);
    assert_eq!(meta.content_type.as_deref(), Some("text/plain"));

    let got = store.download(key).unwrap();
    assert_eq!(&got[..], b"hello world");

    store.delete(key).unwrap();
    assert!(store.download(key).is_err());
    assert!(store.delete(key).is_ok());
}

#[test]
fn a_described_blob_has_its_key_and_no_etag() {
    let mut store = InMemoryObjectStore::default();
    store.upload(params("k", None), Bytes::from_static(b"")).unwrap();
    let meta = store.object_meta("k").unwrap();
    assert_eq!(meta.key, "k");
    assert_eq!(meta.size, 0);
    assert_eq!(meta.content_type, None);
    assert_eq!(meta.etag, None);
    assert_eq!(meta.updated_at, None);
}

#[test]
fn a_missing_blob_is_a_storage_error() {
    let store = InMemoryObjectStore::new();
    for e in [
        store.download("nope").unwrap_err(),
        store.object_meta("nope").unwrap_err(),
    ] {
        match e {
            ContentError::Storage(detail) => assert_eq!(detail, "object not found in store"),
            other => panic!("unexpected: {:?}", other),
        }
    }
}

#[test]
fn a_blob_that_is_stored_again_is_the_later_one() {
    let mut store = InMemoryObjectStore::new();
    store.upload(params("k", Some("a/b")), Bytes::from_static(b"one")).unwrap();
    store.upload(params("k", None), Bytes::from_static(b"three")).unwrap();
    assert_eq!(&store.download("k").unwrap()[..], b"three");
    let meta = store.object_meta("k").unwrap();
    assert_eq!(meta.size, 5);
    assert_eq!(meta.content_type, None);
}

#[test]
fn keys_of_the_store_are_independent() {
    let mut store = InMemoryObjectStore::new();
    store.upload(params("a", None), Bytes::from_static(b"1")).unwrap();
    store.upload(params("b", None), Bytes::from_static(b"2")).unwrap();
    store.delete("a").unwrap();
    assert!(store.download("a").is_err());
    assert_eq!(&store.download("b").unwrap()[..], b"2");
}
