use content::{
    Content, ContentError, ContentMetadata, ContentRepo, ContentStatus, InMemoryContentRepo,
    InMemoryObjectRepo, NewContent, NewObject, ObjectMetadata, ObjectRepo, ObjectStatus,
};
use serde_json::Value;
use time::OffsetDateTime;
use uuid::Uuid;

fn mint() -> u128 {
    Uuid::now_v7().as_u128()
}

fn json_object(key: &str, value: Value) -> Value {
    let mut map = serde_json::Map::new();
    map.insert(key.to_owned(), value);
    Value::Object(map)
}

fn content_repo_contract<C: ContentRepo, O: ObjectRepo>(contents: &mut C, objects: &mut O) {
    let tenant = mint();
    let owner = mint();
    let now = OffsetDateTime::now_utc();

    let c = contents
        .create(
            NewContent {
                tenant_id: tenant,
                owner_id: owner,
                owner_type: Some("user".into()),
                name: Some("doc".into()),
                description: Some("d".into()),
                document_type: Some("pdf".into()),
                derivation_type: Some("original".into()),
            },
            Some("sys".into()),
        )
        .unwrap();
    assert_eq!(c.status, ContentStatus::Created);
    let got = contents.get(c.id).unwrap();
    assert_eq!(got.name.as_deref(), Some("doc"));
    assert_eq!(got.tenant_id, tenant);
    assert_eq!(got.derivation_type.as_deref(), Some("original"));

    assert!(matches!(contents.get(mint()), Err(ContentError::NotFound)));

    let c2 = contents
        .create(
            NewContent {
                tenant_id: tenant,
                owner_id: owner,
                owner_type: None,
                name: Some("two".into()),
                description: None,
                document_type: None,
                derivation_type: None,
            },
            None,
        )
        .unwrap();
    assert_eq!(contents.get_many(&[c.id, c2.id]).unwrap().len(), 2);
    assert_eq!(contents.get_many(&[c.id, mint()]).unwrap().len(), 1);
    assert!(contents.get_many(&[]).unwrap().is_empty());

    let listed = contents.list(owner, tenant).unwrap();
    assert_eq!(listed.len(), 2);
    assert_eq!(listed[0].id, c2.id);
    assert!(contents.list(mint(), tenant).unwrap().is_empty());

    let updated = Content {
        name: Some("doc2".into()),
        description: None,
        ..got.clone()
    };
    let u = contents.update(&updated, Some("sys".into())).unwrap();
    assert_eq!(u.name.as_deref(), Some("doc2"));
    assert_eq!(u.description, None);

    contents
        .set_metadata(ContentMetadata {
            content_id: c.id,
            tags: vec!["x".into()],
            file_size: Some(10),
            file_name: Some("f".into()),
            mime_type: Some("text/plain".into()),
            checksum: None,
            checksum_algorithm: None,
            metadata: json_object("k", Value::from("v")),
            created_at: now,
            updated_at: now,
        })
        .unwrap();
    contents
        .set_metadata(ContentMetadata {
            content_id: c.id,
            tags: vec!["y".into(), "z".into()],
            file_size: Some(20),
            file_name: Some("f2".into()),
            mime_type: None,
            checksum: None,
            checksum_algorithm: None,
            metadata: json_object("k", Value::from("v2")),
            created_at: now,
            updated_at: now,
        })
        .unwrap();
    let m = contents.get_metadata(c.id).unwrap();
    assert_eq!(m.file_size, Some(20));
    assert_eq!(m.tags, vec!["y".to_string(), "z".to_string()]);
    assert_eq!(m.mime_type, None);
    assert_eq!(m.metadata, json_object("k", Value::from("v2")));
    assert!(matches!(
        contents.get_metadata(c2.id),
        Err(ContentError::NotFound)
    ));
    let mm = contents.get_metadata_many(&[c.id, c2.id]).unwrap();
    assert_eq!(mm.len(), 1);
    assert!(mm.contains_key(&c.id));

    let key_a = format!("{}/a", Uuid::from_u128(c.id));
    let key_b = format!("{}/b", Uuid::from_u128(c.id));
    let o1 = objects
        .create(
            NewObject {
                content_id: c.id,
                storage_backend_name: "memory".into(),
                storage_class: None,
                object_key: key_a.clone(),
                file_name: Some("a".into()),
                object_type: None,
            },
            Some("sys".into()),
        )
        .unwrap();
    assert_eq!(o1.status, ObjectStatus::Created);
    assert_eq!(o1.version, 1);
    let o2 = objects
        .create(
            NewObject {
                content_id: c.id,
                storage_backend_name: "memory".into(),
                storage_class: None,
                object_key: key_b,
                file_name: None,
                object_type: None,
            },
            None,
        )
        .unwrap();
    assert_eq!(objects.get(o1.id).unwrap().object_key, key_a);
    assert!(matches!(objects.get(mint()), Err(ContentError::NotFound)));

    assert!(matches!(
        objects.create(
            NewObject {
                content_id: c.id,
                storage_backend_name: "memory".into(),
                storage_class: None,
                object_key: key_a.clone(),
                file_name: None,
                object_type: None,
            },
            None,
        ),
        Err(ContentError::Conflict(_))
    ));

    let objs = objects.list_by_content(c.id).unwrap();
    assert_eq!(objs.len(), 2);
    assert_eq!(objs[0].id, o1.id);
    assert_eq!(objs[1].id, o2.id);

    assert_eq!(objects.get_by_key(&key_a, "memory").unwrap().id, o1.id);
    assert!(matches!(
        objects.get_by_key("nope", "memory"),
        Err(ContentError::NotFound)
    ));

    objects
        .set_status(o1.id, ObjectStatus::Uploaded, Some("sys".into()))
        .unwrap();
    assert_eq!(objects.get(o1.id).unwrap().status, ObjectStatus::Uploaded);

    objects
        .set_metadata(ObjectMetadata {
            object_id: o1.id,
            size_bytes: Some(5),
            mime_type: Some("text/plain".into()),
            etag: Some("e1".into()),
            metadata: Value::Object(serde_json::Map::new()),
            created_at: now,
            updated_at: now,
        })
        .unwrap();
    objects
        .set_metadata(ObjectMetadata {
            object_id: o1.id,
            size_bytes: Some(7),
            mime_type: None,
            etag: Some("e2".into()),
            metadata: json_object("a", Value::from(1)),
            created_at: now,
            updated_at: now,
        })
        .unwrap();
    let om = objects.get_metadata(o1.id).unwrap();
    assert_eq!(om.size_bytes, Some(7));
    assert_eq!(om.etag.as_deref(), Some("e2"));
    assert!(matches!(
        objects.get_metadata(o2.id),
        Err(ContentError::NotFound)
    ));

    contents
        .set_status(c.id, ContentStatus::Uploaded, None)
        .unwrap();
    assert_eq!(contents.get(c.id).unwrap().status, ContentStatus::Uploaded);

    objects.soft_delete(o1.id, None).unwrap();
    assert!(matches!(objects.get(o1.id), Err(ContentError::NotFound)));
    let o3 = objects
        .create(
            NewObject {
                content_id: c.id,
                storage_backend_name: "memory".into(),
                storage_class: None,
                object_key: key_a,
                file_name: None,
                object_type: None,
            },
            None,
        )
        .unwrap();
    assert_ne!(o3.id, o1.id);
    assert!(matches!(
        objects.soft_delete(o1.id, None),
        Err(ContentError::NotFound)
    ));

    contents.soft_delete(c.id, Some("sys".into())).unwrap();
    assert!(matches!(contents.get(c.id), Err(ContentError::NotFound)));
    assert_eq!(contents.get_many(&[c.id, c2.id]).unwrap().len(), 1);
    assert!(matches!(
        contents.soft_delete(c.id, None),
        Err(ContentError::NotFound)
    ));
}

#[test]
fn memory_satisfies_content_contract() {
    content_repo_contract(
        &mut InMemoryContentRepo::new(),
        &mut InMemoryObjectRepo::new(),
    );
}
