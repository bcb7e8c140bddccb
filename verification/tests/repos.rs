use content::{
    Content, ContentError, ContentMetadata, ContentRepo, ContentStatus, InMemoryContentRepo,
    InMemoryObjectRepo, NewContent, NewObject, ObjectMetadata, ObjectRepo, ObjectStatus,
};
use serde_json::Value;
use time::{Duration, OffsetDateTime};

fn at(seconds: i64) -> OffsetDateTime {
    OffsetDateTime::UNIX_EPOCH + Duration::seconds(seconds)
}

fn new_content(owner: u128, tenant: u128, name: &str) -> NewContent {
    NewContent {
        tenant_id: tenant,
        owner_id: owner,
        owner_type: Some("user".to_owned()),
        name: Some(name.to_owned()),
        description: None,
        document_type: None,
        derivation_type: Some("derived".to_owned()),
    }
}

fn new_object(content_id: u128, backend: &str, key: &str) -> NewObject {
    NewObject {
        content_id,
        storage_backend_name: backend.to_owned(),
        storage_class: Some("cold".to_owned()),
        object_key: key.to_owned(),
        file_name: None,
        object_type: Some("thumb".to_owned()),
    }
}

fn content_metadata(content_id: u128, size: i64, t: OffsetDateTime) -> ContentMetadata {
    ContentMetadata {
        content_id,
        tags: vec!["t".to_owned()],
        file_size: Some(size),
        file_name: None,
        mime_type: None,
        checksum: Some("c".to_owned()),
        checksum_algorithm: Some("sha256".to_owned()),
        metadata: Value::Null,
        created_at: t,
        updated_at: t,
    }
}

fn object_metadata(object_id: u128, size: i64, t: OffsetDateTime) -> ObjectMetadata {
    ObjectMetadata {
        object_id,
        size_bytes: Some(size),
        mime_type: None,
        etag: None,
        metadata: Value::Null,
        created_at: t,
        updated_at: t,
    }
}

#[test]
fn a_content_is_created_as_given() {
    let mut repo = InMemoryContentRepo::new();
    let c = repo.create_at(new_content(1, 2, "n"), 9, at(5));
    assert_eq!(c.id, 9);
    assert_eq!(c.owner_id, 1);
    assert_eq!(c.tenant_id, 2);
    assert_eq!(c.owner_type.as_deref(), Some("user"));
    assert_eq!(c.name.as_deref(), Some("n"));
    assert_eq!(c.derivation_type.as_deref(), Some("derived"));
    assert_eq!(c.status, ContentStatus::Created);
    assert_eq!(c.created_at, at(5));
    assert_eq!(c.updated_at, at(5));
}

#[test]
fn a_created_content_has_a_version_7_id() {
    let mut repo = InMemoryContentRepo::default();
    let c = repo.create(new_content(1, 2, "n"), None).unwrap();
    assert_eq!(uuid::Uuid::from_u128(c.id).get_version_num(), 7);
    assert_eq!(repo.get(c.id).unwrap().name.as_deref(), Some("n"));
}

#[test]
fn a_list_is_one_owner_and_tenant_largest_id_first() {
    let mut repo = InMemoryContentRepo::new();
    repo.create_at(new_content(1, 1, "a"), 30, at(0));
    repo.create_at(new_content(1, 1, "b"), 10, at(0));
    repo.create_at(new_content(1, 1, "c"), 20, at(0));
    repo.create_at(new_content(1, 2, "d"), 25, at(0));
    repo.create_at(new_content(2, 1, "e"), 26, at(0));
    repo.create_at(new_content(1, 1, "f"), 27, at(0));
    repo.soft_delete_at(27, at(1)).unwrap();
    let ids: Vec<u128> = repo.list(1, 1).unwrap().iter().map(|c| c.id).collect();
    assert_eq!(ids, vec![30, 20, 10]);
}

#[test]
fn get_many_follows_the_ids() {
    let mut repo = InMemoryContentRepo::new();
    repo.create_at(new_content(1, 1, "a"), 1, at(0));
    repo.create_at(new_content(1, 1, "b"), 2, at(0));
    let ids: Vec<u128> = repo
        .get_many(&[2, 7, 1, 2])
        .unwrap()
        .iter()
        .map(|c| c.id)
        .collect();
    assert_eq!(ids, vec![2, 1, 2]);
}

#[test]
fn an_update_keeps_what_is_not_editable() {
    let mut repo = InMemoryContentRepo::new();
    let before = repo.create_at(new_content(1, 2, "a"), 3, at(0));
    repo.set_status_at(3, ContentStatus::Archived, at(1)).unwrap();
    let edit = Content {
        owner_type: None,
        name: Some("new".to_owned()),
        description: Some("d".to_owned()),
        document_type: Some("pdf".to_owned()),
        tenant_id: 77,
        owner_id: 78,
        status: ContentStatus::Failed,
        derivation_type: None,
        ..before.clone()
    };
    let after = repo.update_at(&edit, at(9)).unwrap();
    assert_eq!(after.name.as_deref(), Some("new"));
    assert_eq!(after.owner_type, None);
    assert_eq!(after.description.as_deref(), Some("d"));
    assert_eq!(after.document_type.as_deref(), Some("pdf"));
    assert_eq!(after.tenant_id, 2);
    assert_eq!(after.owner_id, 1);
    assert_eq!(after.status, ContentStatus::Archived);
    assert_eq!(after.derivation_type.as_deref(), Some("derived"));
    assert_eq!(after.created_at, at(0));
    assert_eq!(after.updated_at, at(9));
    assert_eq!(repo.get(3).unwrap().name.as_deref(), Some("new"));
}

#[test]
fn a_hidden_content_takes_no_writes() {
    let mut repo = InMemoryContentRepo::new();
    let c = repo.create_at(new_content(1, 2, "a"), 3, at(0));
    repo.soft_delete_at(3, at(1)).unwrap();
    assert!(matches!(repo.get(3), Err(ContentError::NotFound)));
    assert!(matches!(repo.update(&c, None), Err(ContentError::NotFound)));
    assert!(matches!(
        repo.set_status(3, ContentStatus::Failed, None),
        Err(ContentError::NotFound)
    ));
    assert!(matches!(
        repo.soft_delete(3, None),
        Err(ContentError::NotFound)
    ));
    assert!(repo.list(1, 2).unwrap().is_empty());
}

#[test]
fn an_absent_content_takes_no_writes() {
    let mut repo = InMemoryContentRepo::new();
    assert!(matches!(
        repo.set_status(3, ContentStatus::Failed, None),
        Err(ContentError::NotFound)
    ));
    assert!(matches!(
        repo.soft_delete(3, None),
        Err(ContentError::NotFound)
    ));
}

#[test]
fn content_metadata_keeps_its_first_instant() {
    let mut repo = InMemoryContentRepo::new();
    repo.set_metadata_at(content_metadata(1, 10, at(100)), at(1));
    repo.set_metadata_at(content_metadata(1, 20, at(100)), at(2));
    let m = repo.get_metadata(1).unwrap();
    assert_eq!(m.file_size, Some(20));
    assert_eq!(m.created_at, at(1));
    assert_eq!(m.updated_at, at(2));
    assert_eq!(m.checksum.as_deref(), Some("c"));
    assert_eq!(m.checksum_algorithm.as_deref(), Some("sha256"));
    assert_eq!(m.metadata, Value::Null);
}

#[test]
fn object_metadata_keeps_its_first_instant() {
    let mut repo = InMemoryObjectRepo::new();
    repo.set_metadata_at(object_metadata(1, 10, at(100)), at(1));
    repo.set_metadata_at(object_metadata(1, 20, at(100)), at(2));
    let m = repo.get_metadata(1).unwrap();
    assert_eq!(m.size_bytes, Some(20));
    assert_eq!(m.created_at, at(1));
    assert_eq!(m.updated_at, at(2));
}

#[test]
fn objects_of_a_content_come_smallest_id_first() {
    let mut repo = InMemoryObjectRepo::default();
    repo.create_at(new_object(1, "m", "a"), 30, at(0)).unwrap();
    repo.create_at(new_object(1, "m", "b"), 10, at(0)).unwrap();
    repo.create_at(new_object(2, "m", "c"), 15, at(0)).unwrap();
    repo.create_at(new_object(1, "m", "d"), 20, at(0)).unwrap();
    repo.soft_delete_at(20, at(1)).unwrap();
    let ids: Vec<u128> = repo
        .list_by_content(1)
        .unwrap()
        .iter()
        .map(|o| o.id)
        .collect();
    assert_eq!(ids, vec![10, 30]);
}

#[test]
fn a_key_is_taken_in_its_backend_alone() {
    let mut repo = InMemoryObjectRepo::new();
    let o = repo.create_at(new_object(1, "m", "k"), 1, at(3)).unwrap();
    assert_eq!(o.version, 1);
    assert_eq!(o.status, ObjectStatus::Created);
    assert_eq!(o.storage_class.as_deref(), Some("cold"));
    assert_eq!(o.object_type.as_deref(), Some("thumb"));
    assert_eq!(o.created_at, at(3));
    match repo.create_at(new_object(2, "m", "k"), 2, at(4)) {
        Err(ContentError::Conflict(detail)) => {
            assert_eq!(detail, "object_key already exists for storage backend")
        }
        other => panic!("unexpected: {:?}", other),
    }
    repo.create_at(new_object(2, "s3", "k"), 3, at(4)).unwrap();
    assert_eq!(repo.get_by_key("k", "m").unwrap().id, 1);
    assert_eq!(repo.get_by_key("k", "s3").unwrap().id, 3);
    repo.soft_delete_at(1, at(5)).unwrap();
    assert!(matches!(
        repo.get_by_key("k", "m"),
        Err(ContentError::NotFound)
    ));
    repo.create_at(new_object(2, "m", "k"), 4, at(6)).unwrap();
    assert_eq!(repo.get_by_key("k", "m").unwrap().id, 4);
}

#[test]
fn a_hidden_object_takes_no_writes() {
    let mut repo = InMemoryObjectRepo::new();
    repo.create_at(new_object(1, "m", "k"), 1, at(0)).unwrap();
    repo.set_status_at(1, ObjectStatus::Failed, at(1)).unwrap();
    assert_eq!(repo.get(1).unwrap().updated_at, at(1));
    repo.soft_delete(1, None).unwrap();
    assert!(matches!(
        repo.set_status(1, ObjectStatus::Uploaded, None),
        Err(ContentError::NotFound)
    ));
    assert!(matches!(
        repo.soft_delete(1, None),
        Err(ContentError::NotFound)
    ));
    assert!(repo.list_by_content(1).unwrap().is_empty());
}

#[test]
fn metadata_of_many_leaves_out_what_is_not_there() {
    let mut repo = InMemoryContentRepo::new();
    repo.set_metadata_at(content_metadata(1, 10, at(0)), at(1));
    repo.set_metadata_at(content_metadata(2, 20, at(0)), at(1));
    let m = repo.get_metadata_many(&[2, 3, 2]).unwrap();
    assert_eq!(m.len(), 1);
    assert_eq!(m[&2].file_size, Some(20));
    assert!(repo.get_metadata_many(&[]).unwrap().is_empty());
}

#[test]
fn ids_grow_in_the_order_of_creation() {
    let mut contents = InMemoryContentRepo::new();
    let mut objects = InMemoryObjectRepo::new();
    let mut content_ids: Vec<u128> = Vec::new();
    let mut object_ids: Vec<u128> = Vec::new();
    for i in 0..50 {
        let c = contents.create(new_content(1, 2, "n"), None).unwrap();
        let o = objects
            .create(new_object(7, "m", &format!("k{}", i)), None)
            .unwrap();
        content_ids.push(c.id);
        object_ids.push(o.id);
    }
    assert!(content_ids.windows(2).all(|w| w[0] < w[1]));
    assert!(object_ids.windows(2).all(|w| w[0] < w[1]));
    let newest = content_ids[49];
    assert_eq!(contents.list(1, 2).unwrap()[0].id, newest);
    let listed: Vec<u128> = objects
        .list_by_content(7)
        .unwrap()
        .iter()
        .map(|o| o.id)
        .collect();
    assert_eq!(listed, object_ids);
    // A refused object leaves the order as it is.
    assert!(objects.create(new_object(7, "m", "k0"), None).is_err());
    let later = objects.create(new_object(7, "m", "k50"), None).unwrap();
    assert!(later.id > object_ids[49]);
}

#[test]
fn instants_are_stamped_in_utc_and_not_taken_over() {
    let given = at(100).to_offset(time::UtcOffset::from_hms(3, 0, 0).unwrap());
    let utc = time::UtcOffset::UTC;
    let mut contents = InMemoryContentRepo::new();
    let c = contents.create(new_content(1, 2, "n"), None).unwrap();
    assert_eq!(c.created_at.offset(), utc);
    let edit = Content {
        updated_at: given,
        ..c.clone()
    };
    let u = contents.update(&edit, None).unwrap();
    assert_eq!(u.updated_at.offset(), utc);
    assert!(u.updated_at >= c.updated_at);
    contents.set_metadata(content_metadata(c.id, 1, given)).unwrap();
    let m = contents.get_metadata(c.id).unwrap();
    assert_eq!(m.updated_at.offset(), utc);
    assert_eq!(m.created_at.offset(), utc);
    assert!(m.created_at >= c.created_at);
    contents.set_status(c.id, ContentStatus::Failed, None).unwrap();
    assert_eq!(contents.get(c.id).unwrap().updated_at.offset(), utc);

    let mut objects = InMemoryObjectRepo::new();
    let o = objects.create(new_object(1, "m", "k"), None).unwrap();
    assert_eq!(o.created_at.offset(), utc);
    objects.set_metadata(object_metadata(o.id, 1, given)).unwrap();
    assert_eq!(objects.get_metadata(o.id).unwrap().updated_at.offset(), utc);
}
