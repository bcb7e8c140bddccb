use bytes::Bytes;
use content::service::mint_key;
use content::{
    Clock, ContentError, ContentService, ContentStatus, CreateContentInput, InMemoryContentRepo,
    InMemoryObjectRepo, InMemoryObjectStore, ObjectMeta, ObjectStatus, ObjectStore,
    SetContentMetadataInput, SystemClock, UpdateContentInput, UploadContentInput, UploadParams,
};
use serde_json::Value;
use time::OffsetDateTime;
use uuid::Uuid;

type Service =
    ContentService<InMemoryContentRepo, InMemoryObjectRepo, InMemoryObjectStore, SystemClock>;

fn svc() -> Service {
    ContentService::new(
        InMemoryContentRepo::new(),
        InMemoryObjectRepo::new(),
        InMemoryObjectStore::new(),
        "memory",
    )
}

fn mint() -> u128 {
    Uuid::now_v7().as_u128()
}

fn upload_input(data: &'static [u8]) -> UploadContentInput {
    UploadContentInput {
        tenant_id: mint(),
        owner_id: mint(),
        owner_type: None,
        name: Some("doc".to_owned()),
        description: None,
        document_type: None,
        object_key: None,
        file_name: Some("doc.txt".to_owned()),
        mime_type: Some("text/plain".to_owned()),
        tags: vec!["a".to_owned()],
        custom_metadata: None,
        data: Bytes::from_static(data),
    }
}

#[test]
#[should_panic(expected = "store")]
fn builder_without_store_panics() {
    let builder: content::ContentServiceBuilder<_, _, InMemoryObjectStore, _> =
        ContentService::builder(InMemoryContentRepo::new(), InMemoryObjectRepo::new());
    let _ = builder.build();
}

#[test]
fn upload_then_download_round_trip() {
    let mut svc = svc();
    let out = svc
        .upload_content(upload_input(b"hello content"), Some("sys".into()))
        .unwrap();
    assert_eq!(out.content.status, ContentStatus::Uploaded);
    assert_eq!(out.object.status, ObjectStatus::Uploaded);

    let bytes = svc.download_content(out.content.id).unwrap();
    assert_eq!(&bytes[..], b"hello content");

    let meta = svc.get_content_metadata(out.content.id).unwrap();
    assert_eq!(meta.file_size, Some(13));
    assert_eq!(meta.tags, vec!["a".to_string()]);
}

#[test]
fn download_before_upload_is_not_ready() {
    let mut svc = svc();
    let c = svc
        .create_content(
            CreateContentInput {
                tenant_id: mint(),
                owner_id: mint(),
                owner_type: None,
                name: None,
                description: None,
                document_type: None,
                derivation_type: None,
            },
            None,
        )
        .unwrap();
    assert!(matches!(
        svc.download_content(c.id),
        Err(ContentError::NotReady(_))
    ));
}

/// A clock that stands still.
struct Stopped(OffsetDateTime);

impl Clock for Stopped {
    fn now(&self) -> OffsetDateTime {
        self.0
    }
}

/// A store whose backend is down.
struct Broken;

impl ObjectStore for Broken {
    fn upload(&mut self, _: UploadParams, _: Bytes) -> Result<(), ContentError> {
        Err(ContentError::Storage("down".to_owned()))
    }

    fn download(&self, _: &str) -> Result<Bytes, ContentError> {
        Err(ContentError::Storage("down".to_owned()))
    }

    fn delete(&mut self, _: &str) -> Result<(), ContentError> {
        Err(ContentError::Storage("down".to_owned()))
    }

    fn object_meta(&self, _: &str) -> Result<ObjectMeta, ContentError> {
        Err(ContentError::Storage("down".to_owned()))
    }
}

/// A store that keeps bytes and describes none of them.
struct Mute(InMemoryObjectStore);

impl ObjectStore for Mute {
    fn upload(&mut self, params: UploadParams, data: Bytes) -> Result<(), ContentError> {
        self.0.upload(params, data)
    }

    fn download(&self, key: &str) -> Result<Bytes, ContentError> {
        self.0.download(key)
    }

    fn delete(&mut self, key: &str) -> Result<(), ContentError> {
        self.0.delete(key)
    }

    fn object_meta(&self, _: &str) -> Result<ObjectMeta, ContentError> {
        Err(ContentError::Storage("no metadata".to_owned()))
    }
}

fn create_input(owner: u128, tenant: u128) -> CreateContentInput {
    CreateContentInput {
        tenant_id: tenant,
        owner_id: owner,
        owner_type: Some("user".to_owned()),
        name: Some("n".to_owned()),
        description: Some("d".to_owned()),
        document_type: Some("pdf".to_owned()),
        derivation_type: None,
    }
}

fn metadata_input(content_id: u128, size: i64) -> SetContentMetadataInput {
    SetContentMetadataInput {
        content_id,
        tags: vec!["x".to_owned(), "y".to_owned()],
        file_size: Some(size),
        file_name: Some("f".to_owned()),
        mime_type: None,
        checksum: Some("c".to_owned()),
        checksum_algorithm: Some("md5".to_owned()),
        metadata: Value::from(7),
    }
}

#[test]
fn a_created_content_is_original_unless_said_otherwise() {
    let mut svc = svc();
    let c = svc.create_content(create_input(1, 2), None).unwrap();
    assert_eq!(c.derivation_type.as_deref(), Some("original"));
    assert_eq!(c.status, ContentStatus::Created);
    assert_eq!(c.document_type.as_deref(), Some("pdf"));
    let d = svc
        .create_content(
            CreateContentInput {
                derivation_type: Some("derived".to_owned()),
                ..create_input(1, 2)
            },
            None,
        )
        .unwrap();
    assert_eq!(d.derivation_type.as_deref(), Some("derived"));
    assert_eq!(svc.get_content(c.id).unwrap().name.as_deref(), Some("n"));
    let listed = svc.list_content(1, 2).unwrap();
    assert_eq!(listed.len(), 2);
    assert!(svc.list_content(2, 1).unwrap().is_empty());
}

#[test]
fn an_update_replaces_the_editable_fields() {
    let mut svc = svc();
    let c = svc.create_content(create_input(1, 2), None).unwrap();
    let input = UpdateContentInput {
        owner_type: None,
        name: Some("new".to_owned()),
        description: None,
        document_type: None,
    };
    let u = svc.update_content(c.id, input.clone(), Some("me".to_owned())).unwrap();
    assert_eq!(u.name.as_deref(), Some("new"));
    assert_eq!(u.owner_type, None);
    assert_eq!(u.owner_id, 1);
    assert_eq!(u.derivation_type.as_deref(), Some("original"));
    assert!(matches!(
        svc.update_content(mint(), input, None),
        Err(ContentError::NotFound)
    ));
}

#[test]
fn a_deleted_content_is_gone_and_its_objects_stay() {
    let mut svc = svc();
    let out = svc.upload_content(upload_input(b"x"), None).unwrap();
    let id = out.content.id;
    svc.delete_content(id, None).unwrap();
    assert!(matches!(svc.get_content(id), Err(ContentError::NotFound)));
    assert!(matches!(svc.download_content(id), Err(ContentError::NotFound)));
    assert!(matches!(svc.delete_content(id, None), Err(ContentError::NotFound)));
    assert!(matches!(
        svc.set_content_metadata(metadata_input(id, 1)),
        Err(ContentError::NotFound)
    ));
    assert_eq!(svc.get_objects(id).unwrap().len(), 1);
}

#[test]
fn a_minted_key_is_the_content_and_a_fresh_id() {
    let mut svc = svc();
    let out = svc.upload_content(upload_input(b"x"), None).unwrap();
    let key = out.object.object_key.clone();
    let (first, second) = key.split_once('/').unwrap();
    assert_eq!(first, Uuid::from_u128(out.content.id).to_string());
    assert_eq!(Uuid::parse_str(second).unwrap().get_version_num(), 7);
    assert_eq!(out.object.storage_backend_name, "memory");
    assert_eq!(out.object.file_name.as_deref(), Some("doc.txt"));
    assert_eq!(out.object.version, 1);
    assert_eq!(out.object.content_id, out.content.id);
}

#[test]
fn a_key_is_written_in_hexadecimal_groups() {
    assert_eq!(
        mint_key(0x0123456789abcdef_fedcba9876543210, 0x1),
        "01234567-89ab-cdef-fedc-ba9876543210/00000000-0000-0000-0000-000000000001"
    );
}

#[test]
fn a_given_key_is_kept_and_taken_once() {
    let mut svc = svc();
    let with_key = || UploadContentInput {
        object_key: Some("k".to_owned()),
        ..upload_input(b"first")
    };
    let out = svc.upload_content(with_key(), None).unwrap();
    assert_eq!(out.object.object_key, "k");
    let owner = 5;
    let again = UploadContentInput {
        owner_id: owner,
        tenant_id: 6,
        ..with_key()
    };
    assert!(matches!(
        svc.upload_content(again, None),
        Err(ContentError::Conflict(_))
    ));
    // The row of the second content stays, without an object.
    let left = svc.list_content(owner, 6).unwrap();
    assert_eq!(left.len(), 1);
    assert_eq!(left[0].status, ContentStatus::Created);
    assert!(svc.get_objects(left[0].id).unwrap().is_empty());
    assert_eq!(&svc.download_content(out.content.id).unwrap()[..], b"first");
}

#[test]
fn an_upload_records_its_metadata() {
    let mut svc = svc();
    let input = UploadContentInput {
        custom_metadata: Some(Value::from("free")),
        ..upload_input(b"12345")
    };
    let out = svc.upload_content(input, None).unwrap();
    let m = svc.get_content_metadata(out.content.id).unwrap();
    assert_eq!(m.file_size, Some(5));
    assert_eq!(m.file_name.as_deref(), Some("doc.txt"));
    assert_eq!(m.mime_type.as_deref(), Some("text/plain"));
    assert_eq!(m.checksum, None);
    assert_eq!(m.checksum_algorithm, None);
    assert_eq!(m.metadata, Value::from("free"));
    let plain = svc.upload_content(upload_input(b""), None).unwrap();
    let m = svc.get_content_metadata(plain.content.id).unwrap();
    assert_eq!(m.file_size, Some(0));
    assert_eq!(m.metadata, Value::Object(serde_json::Map::new()));
}

#[test]
fn uploads_do_not_disturb_each_other() {
    let mut svc = svc();
    let a = svc.upload_content(upload_input(b"aaa"), None).unwrap();
    let b = svc.upload_content(upload_input(b"bb"), None).unwrap();
    assert!(a.content.id < b.content.id && a.object.id < b.object.id);
    assert_ne!(a.object.object_key, b.object.object_key);
    assert_eq!(svc.get_objects(a.content.id).unwrap().len(), 1);
    assert_eq!(&svc.download_content(a.content.id).unwrap()[..], b"aaa");
    assert_eq!(&svc.download_content(b.content.id).unwrap()[..], b"bb");
}

#[test]
fn a_store_that_is_down_leaves_the_rows() {
    let mut svc = ContentService::new(
        InMemoryContentRepo::new(),
        InMemoryObjectRepo::new(),
        Broken,
        "s3",
    );
    let input = UploadContentInput {
        owner_id: 1,
        tenant_id: 2,
        ..upload_input(b"x")
    };
    assert!(matches!(
        svc.upload_content(input, None),
        Err(ContentError::Storage(_))
    ));
    let left = svc.list_content(1, 2).unwrap();
    assert_eq!(left.len(), 1);
    assert_eq!(left[0].status, ContentStatus::Created);
    let objects = svc.get_objects(left[0].id).unwrap();
    assert_eq!(objects.len(), 1);
    assert_eq!(objects[0].status, ObjectStatus::Created);
    assert_eq!(objects[0].storage_backend_name, "s3");
    assert!(matches!(
        svc.get_content_metadata(left[0].id),
        Err(ContentError::NotFound)
    ));
}

#[test]
fn a_store_that_says_nothing_spoils_no_upload() {
    let mut svc = ContentService::new(
        InMemoryContentRepo::new(),
        InMemoryObjectRepo::new(),
        Mute(InMemoryObjectStore::new()),
        "mute",
    );
    let out = svc.upload_content(upload_input(b"four"), None).unwrap();
    assert_eq!(out.content.status, ContentStatus::Uploaded);
    let m = svc.get_content_metadata(out.content.id).unwrap();
    assert_eq!(m.file_size, Some(4));
    assert_eq!(m.mime_type.as_deref(), Some("text/plain"));
    assert_eq!(&svc.download_content(out.content.id).unwrap()[..], b"four");
}

#[test]
fn the_guard_follows_the_state() {
    let mut svc = svc();
    let out = svc.upload_content(upload_input(b"x"), None).unwrap();
    let id = out.content.id;
    svc.set_content_status(id, ContentStatus::Archived, None).unwrap();
    assert!(svc.download_content(id).is_ok());
    svc.set_content_status(id, ContentStatus::Processing, None).unwrap();
    match svc.download_content(id) {
        Err(ContentError::NotReady(detail)) => {
            assert_eq!(detail, "content not downloadable (status: processing)")
        }
        other => panic!("unexpected: {:?}", other),
    }
    assert!(matches!(
        svc.set_content_status(mint(), ContentStatus::Failed, None),
        Err(ContentError::NotFound)
    ));
}

#[test]
fn a_content_without_an_uploaded_object_has_nothing_to_download() {
    let mut svc = svc();
    let out = svc.upload_content(upload_input(b"x"), None).unwrap();
    svc.set_object_status(out.object.id, ObjectStatus::Processed, None).unwrap();
    assert!(matches!(
        svc.download_content(out.content.id),
        Err(ContentError::NotFound)
    ));
    assert!(matches!(
        svc.set_object_status(mint(), ObjectStatus::Failed, None),
        Err(ContentError::NotFound)
    ));
}

#[test]
fn metadata_is_set_on_what_is_there() {
    let mut svc = svc();
    let c = svc.create_content(create_input(1, 2), None).unwrap();
    svc.set_content_metadata(metadata_input(c.id, 9)).unwrap();
    let m = svc.get_content_metadata(c.id).unwrap();
    assert_eq!(m.file_size, Some(9));
    assert_eq!(m.tags, vec!["x".to_string(), "y".to_string()]);
    assert_eq!(m.checksum_algorithm.as_deref(), Some("md5"));
    assert_eq!(m.metadata, Value::from(7));
    svc.set_content_metadata(metadata_input(c.id, 10)).unwrap();
    let later = svc.get_content_metadata(c.id).unwrap();
    assert_eq!(later.file_size, Some(10));
    assert_eq!(later.created_at, m.created_at);
    assert!(matches!(
        svc.set_content_metadata(metadata_input(mint(), 1)),
        Err(ContentError::NotFound)
    ));
}

#[test]
fn the_builder_takes_every_port() {
    let mut svc = ContentService::builder(InMemoryContentRepo::new(), InMemoryObjectRepo::new())
        .store(InMemoryObjectStore::new())
        .backend_name("s3")
        .clock(Stopped(OffsetDateTime::UNIX_EPOCH))
        .build();
    let out = svc.upload_content(upload_input(b"x"), None).unwrap();
    assert_eq!(out.object.storage_backend_name, "s3");
    let mut plain = ContentService::builder(InMemoryContentRepo::new(), InMemoryObjectRepo::new())
        .store(InMemoryObjectStore::new())
        .build();
    let out = plain.upload_content(upload_input(b"x"), None).unwrap();
    assert_eq!(out.object.storage_backend_name, "memory");
}

#[test]
fn the_system_clock_moves_with_the_system() {
    let before = OffsetDateTime::now_utc();
    let now = SystemClock.now();
    assert!(before <= now && now <= OffsetDateTime::now_utc());
    assert_eq!(now.offset(), time::UtcOffset::UTC);
}
