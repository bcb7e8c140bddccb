use content::repo::postgres::{
    contents_of, created_content, created_object, found_content, found_metadata, found_object,
    hit_a_row, map_unique, metadata_by_content, objects_of, wrote_metadata, ContentDbRow,
    ContentStatements, DbFailure, ObjectDbRow, ObjectStatements,
};
use content::sql::SqlStatement;
use content::{
    Content, ContentError, ContentMetadata, ContentStatus, NewContent, NewObject, ObjectMetadata,
    ObjectStatus,
};
use sea_query::Value as Bound;
use serde_json::Value;
use time::{Duration, OffsetDateTime};
use uuid::Uuid;

fn at(seconds: i64) -> OffsetDateTime {
    OffsetDateTime::UNIX_EPOCH + Duration::seconds(seconds)
}

fn id(n: u128) -> Bound {
    Bound::from(Uuid::from_u128(n))
}

fn text(s: &str) -> Bound {
    Bound::from(s)
}

fn null() -> Bound {
    Bound::String(None)
}

fn bound(st: &SqlStatement) -> Vec<Bound> {
    st.values.0 .0.clone()
}

const CONTENT_COLS: &str = "\"id\", \"tenant_id\", \"owner_id\", \"owner_type\", \"name\", \
\"description\", \"document_type\", \"status\", \"derivation_type\", \"created_at\", \
\"updated_at\"";

const OBJECT_COLS: &str = "\"id\", \"content_id\", \"storage_backend_name\", \"storage_class\", \
\"object_key\", \"file_name\", \"version\", \"object_type\", \"status\", \"created_at\", \
\"updated_at\"";

const META_COLS: &str = "\"content_id\", \"tags\", \"file_size\", \"file_name\", \"mime_type\", \
\"checksum\", \"checksum_algorithm\", \"metadata\", \"created_at\", \"updated_at\"";

fn new_content() -> NewContent {
    NewContent {
        tenant_id: 2,
        owner_id: 3,
        owner_type: Some("user".to_owned()),
        name: Some("n'; drop table content".to_owned()),
        description: None,
        document_type: None,
        derivation_type: Some("original".to_owned()),
    }
}

fn new_object() -> NewObject {
    NewObject {
        content_id: 2,
        storage_backend_name: "s3".to_owned(),
        storage_class: None,
        object_key: "k".to_owned(),
        file_name: Some("f".to_owned()),
        object_type: None,
    }
}

fn content() -> Content {
    Content {
        id: 1,
        tenant_id: 2,
        owner_id: 3,
        owner_type: None,
        name: Some("n".to_owned()),
        description: Some("d".to_owned()),
        document_type: None,
        status: ContentStatus::Uploaded,
        derivation_type: None,
        created_at: at(0),
        updated_at: at(1),
    }
}

fn metadata(content_id: u128, size: i64) -> ContentMetadata {
    ContentMetadata {
        content_id,
        tags: vec!["a".to_owned(), "b".to_owned()],
        file_size: Some(size),
        file_name: None,
        mime_type: Some("text/plain".to_owned()),
        checksum: None,
        checksum_algorithm: None,
        metadata: Value::from(true),
        created_at: at(0),
        updated_at: at(0),
    }
}

fn content_row(status: &str) -> ContentDbRow {
    ContentDbRow {
        id: 1,
        tenant_id: 2,
        owner_id: 3,
        owner_type: Some("user".to_owned()),
        name: None,
        description: None,
        document_type: None,
        status: status.to_owned(),
        derivation_type: None,
        created_at: at(4),
        updated_at: at(5),
    }
}

fn object_row(status: &str) -> ObjectDbRow {
    ObjectDbRow {
        id: 1,
        content_id: 2,
        storage_backend_name: "s3".to_owned(),
        storage_class: None,
        object_key: "k".to_owned(),
        file_name: None,
        version: 3,
        object_type: None,
        status: status.to_owned(),
        created_at: at(4),
        updated_at: at(5),
    }
}

#[test]
fn creating_a_content_inserts_a_row() {
    let st = ContentStatements::create_as(1, new_content(), Some("me".to_owned()));
    assert_eq!(
        st.sql,
        format!(
            "INSERT INTO \"content\" (\"id\", \"tenant_id\", \"owner_id\", \"owner_type\", \
             \"name\", \"description\", \"document_type\", \"status\", \"derivation_type\", \
             \"created_by\", \"updated_by\") VALUES ($1, $2, $3, $4, $5, $6, $7, $8, $9, $10, $11) \
             RETURNING {}",
            CONTENT_COLS
        )
    );
    assert_eq!(
        bound(&st),
        vec![
            id(1),
            id(2),
            id(3),
            text("user"),
            text("n'; drop table content"),
            null(),
            null(),
            text("created"),
            text("original"),
            text("me"),
            text("me"),
        ]
    );
}

#[test]
fn a_created_row_gets_a_fresh_id() {
    let (a, first) = ContentStatements::create_after(&None, new_content(), None);
    let first_id = first.get();
    let (b, second) = ContentStatements::create_after(&Some(first), new_content(), None);
    assert!(first_id < second.get());
    assert_eq!(bound(&a)[0], id(first_id));
    assert_eq!(bound(&b)[0], id(second.get()));
    assert_eq!(a.sql, b.sql);
    assert_ne!(bound(&a)[0], bound(&b)[0]);
    assert_eq!(bound(&a)[1..], bound(&b)[1..]);
    match &bound(&a)[0] {
        Bound::Uuid(Some(u)) => assert_eq!(u.get_version_num(), 7),
        other => panic!("unexpected: {:?}", other),
    }
    let (o, o_minted) = ObjectStatements::create_after(&None, new_object(), None);
    let o_id = o_minted.get();
    let (p, p_minted) = ObjectStatements::create_after(&Some(o_minted), new_object(), None);
    assert!(o_id < p_minted.get());
    assert_eq!(bound(&p)[0], id(p_minted.get()));
    match &bound(&o)[0] {
        Bound::Uuid(Some(u)) => assert_eq!(u.get_version_num(), 7),
        other => panic!("unexpected: {:?}", other),
    }
}

#[test]
fn reading_contents() {
    let st = ContentStatements::get(7);
    assert_eq!(
        st.sql,
        format!(
            "SELECT {} FROM \"content\" WHERE \"id\" = $1 AND \"deleted_at\" IS NULL",
            CONTENT_COLS
        )
    );
    assert_eq!(bound(&st), vec![id(7)]);

    let st = ContentStatements::get_many(&[7, 8, 7]).unwrap();
    assert_eq!(
        st.sql,
        format!(
            "SELECT {} FROM \"content\" WHERE \"id\" IN ($1, $2, $3) AND \"deleted_at\" IS NULL",
            CONTENT_COLS
        )
    );
    assert_eq!(bound(&st), vec![id(7), id(8), id(7)]);
    assert!(ContentStatements::get_many(&[]).is_none());

    let st = ContentStatements::list(3, 2);
    assert_eq!(
        st.sql,
        format!(
            "SELECT {} FROM \"content\" WHERE \"owner_id\" = $1 AND \"tenant_id\" = $2 AND \
             \"deleted_at\" IS NULL ORDER BY \"id\" DESC",
            CONTENT_COLS
        )
    );
    assert_eq!(bound(&st), vec![id(3), id(2)]);
}

#[test]
fn writing_contents() {
    let st = ContentStatements::update(&content(), Some("me".to_owned()));
    assert_eq!(
        st.sql,
        format!(
            "UPDATE \"content\" SET \"owner_type\" = $1, \"name\" = $2, \"description\" = $3, \
             \"document_type\" = $4, \"updated_by\" = $5 WHERE \"id\" = $6 AND \
             \"deleted_at\" IS NULL RETURNING {}",
            CONTENT_COLS
        )
    );
    assert_eq!(
        bound(&st),
        vec![null(), text("n"), text("d"), null(), text("me"), id(1)]
    );

    let st = ContentStatements::set_status(9, ContentStatus::Archived, None);
    assert_eq!(
        st.sql,
        "UPDATE \"content\" SET \"status\" = $1, \"updated_by\" = $2 WHERE \"id\" = $3 AND \
         \"deleted_at\" IS NULL"
    );
    assert_eq!(bound(&st), vec![text("archived"), null(), id(9)]);

    let st = ContentStatements::soft_delete_at(9, Some("me".to_owned()), at(3));
    assert_eq!(
        st.sql,
        "UPDATE \"content\" SET \"deleted_at\" = $1, \"updated_by\" = $2 WHERE \"id\" = $3 AND \
         \"deleted_at\" IS NULL"
    );
    assert_eq!(bound(&st), vec![Bound::from(at(3)), text("me"), id(9)]);
}

#[test]
fn content_metadata_is_written_over_what_is_there() {
    let st = ContentStatements::set_metadata(metadata(4, 12));
    assert_eq!(
        st.sql,
        "INSERT INTO \"content_metadata\" (\"content_id\", \"tags\", \"file_size\", \
         \"file_name\", \"mime_type\", \"checksum\", \"checksum_algorithm\", \"metadata\") VALUES \
         ($1, $2, $3, $4, $5, $6, $7, $8) ON CONFLICT (\"content_id\") DO UPDATE SET \
         \"tags\" = \"excluded\".\"tags\", \"file_size\" = \"excluded\".\"file_size\", \
         \"file_name\" = \"excluded\".\"file_name\", \"mime_type\" = \"excluded\".\"mime_type\", \
         \"checksum\" = \"excluded\".\"checksum\", \"checksum_algorithm\" = \
         \"excluded\".\"checksum_algorithm\", \"metadata\" = \"excluded\".\"metadata\""
    );
    assert_eq!(
        bound(&st),
        vec![
            id(4),
            Bound::from(vec!["a".to_owned(), "b".to_owned()]),
            Bound::from(12i64),
            null(),
            text("text/plain"),
            null(),
            null(),
            Bound::from(Value::from(true)),
        ]
    );
}

#[test]
fn reading_content_metadata() {
    let st = ContentStatements::get_metadata(4);
    assert_eq!(
        st.sql,
        format!(
            "SELECT {} FROM \"content_metadata\" WHERE \"content_id\" = $1",
            META_COLS
        )
    );
    assert_eq!(bound(&st), vec![id(4)]);
    let st = ContentStatements::get_metadata_many(&[5, 4]).unwrap();
    assert_eq!(
        st.sql,
        format!(
            "SELECT {} FROM \"content_metadata\" WHERE \"content_id\" IN ($1, $2)",
            META_COLS
        )
    );
    assert_eq!(bound(&st), vec![id(5), id(4)]);
    assert!(ContentStatements::get_metadata_many(&[]).is_none());
}

#[test]
fn creating_an_object_inserts_a_row() {
    let st = ObjectStatements::create_as(1, new_object(), None);
    assert_eq!(
        st.sql,
        format!(
            "INSERT INTO \"object\" (\"id\", \"content_id\", \"storage_backend_name\", \
             \"storage_class\", \"object_key\", \"file_name\", \"version\", \"object_type\", \
             \"status\", \"created_by\", \"updated_by\") VALUES ($1, $2, $3, $4, $5, $6, $7, $8, \
             $9, $10, $11) RETURNING {}",
            OBJECT_COLS
        )
    );
    assert_eq!(
        bound(&st),
        vec![
            id(1),
            id(2),
            text("s3"),
            null(),
            text("k"),
            text("f"),
            Bound::from(1i32),
            null(),
            text("created"),
            null(),
            null(),
        ]
    );
}

#[test]
fn reading_objects() {
    let st = ObjectStatements::get(7);
    assert_eq!(
        st.sql,
        format!(
            "SELECT {} FROM \"object\" WHERE \"id\" = $1 AND \"deleted_at\" IS NULL",
            OBJECT_COLS
        )
    );
    assert_eq!(bound(&st), vec![id(7)]);

    let st = ObjectStatements::list_by_content(2);
    assert_eq!(
        st.sql,
        format!(
            "SELECT {} FROM \"object\" WHERE \"content_id\" = $1 AND \"deleted_at\" IS NULL \
             ORDER BY \"id\" ASC",
            OBJECT_COLS
        )
    );
    assert_eq!(bound(&st), vec![id(2)]);

    let st = ObjectStatements::get_by_key("k", "s3");
    assert_eq!(
        st.sql,
        format!(
            "SELECT {} FROM \"object\" WHERE \"object_key\" = $1 AND \
             \"storage_backend_name\" = $2 AND \"deleted_at\" IS NULL",
            OBJECT_COLS
        )
    );
    assert_eq!(bound(&st), vec![text("k"), text("s3")]);
}

#[test]
fn writing_objects() {
    let st = ObjectStatements::set_status(9, ObjectStatus::Uploaded, Some("me".to_owned()));
    assert_eq!(
        st.sql,
        "UPDATE \"object\" SET \"status\" = $1, \"updated_by\" = $2 WHERE \"id\" = $3 AND \
         \"deleted_at\" IS NULL"
    );
    assert_eq!(bound(&st), vec![text("uploaded"), text("me"), id(9)]);

    let st = ObjectStatements::soft_delete_at(9, None, at(3));
    assert_eq!(
        st.sql,
        "UPDATE \"object\" SET \"deleted_at\" = $1, \"updated_by\" = $2 WHERE \"id\" = $3 AND \
         \"deleted_at\" IS NULL"
    );
    assert_eq!(bound(&st), vec![Bound::from(at(3)), null(), id(9)]);
}

#[test]
fn a_soft_delete_notes_the_present_instant() {
    let before = OffsetDateTime::now_utc();
    for st in [
        ContentStatements::soft_delete(1, None),
        ObjectStatements::soft_delete(1, None),
    ] {
        match &bound(&st)[0] {
            Bound::TimeDateTimeWithTimeZone(Some(t)) => {
                assert!(before <= *t && *t <= OffsetDateTime::now_utc())
            }
            other => panic!("unexpected: {:?}", other),
        }
    }
}

#[test]
fn object_metadata_is_written_over_what_is_there() {
    let st = ObjectStatements::set_metadata(ObjectMetadata {
        object_id: 4,
        size_bytes: None,
        mime_type: None,
        etag: Some("e".to_owned()),
        metadata: Value::Null,
        created_at: at(0),
        updated_at: at(0),
    });
    assert_eq!(
        st.sql,
        "INSERT INTO \"object_metadata\" (\"object_id\", \"size_bytes\", \"mime_type\", \"etag\", \
         \"metadata\") VALUES ($1, $2, $3, $4, $5) ON CONFLICT (\"object_id\") DO UPDATE SET \
         \"size_bytes\" = \"excluded\".\"size_bytes\", \"mime_type\" = \"excluded\".\"mime_type\", \
         \"etag\" = \"excluded\".\"etag\", \"metadata\" = \"excluded\".\"metadata\""
    );
    assert_eq!(
        bound(&st),
        vec![
            id(4),
            Bound::BigInt(None),
            null(),
            text("e"),
            Bound::from(Value::Null),
        ]
    );
    let st = ObjectStatements::get_metadata(4);
    assert_eq!(
        st.sql,
        "SELECT \"object_id\", \"size_bytes\", \"mime_type\", \"etag\", \"metadata\", \
         \"created_at\", \"updated_at\" FROM \"object_metadata\" WHERE \"object_id\" = $1"
    );
    assert_eq!(bound(&st), vec![id(4)]);
}

fn failure(unique_violation: bool) -> DbFailure {
    DbFailure {
        unique_violation,
        detail: "raw".to_owned(),
    }
}

fn is_internal<T>(r: Result<T, ContentError>) -> bool {
    match r {
        Err(ContentError::Internal(detail)) => detail == "raw",
        _ => false,
    }
}

#[test]
fn rows_become_entities() {
    let c = found_content(Ok(Some(content_row("processed")))).unwrap();
    assert_eq!(c.status, ContentStatus::Processed);
    assert_eq!(c.owner_type.as_deref(), Some("user"));
    assert_eq!(c.created_at, at(4));
    let o = found_object(Ok(Some(object_row("failed")))).unwrap();
    assert_eq!(o.status, ObjectStatus::Failed);
    assert_eq!(o.version, 3);
    assert!(matches!(found_content(Ok(None)), Err(ContentError::NotFound)));
    assert!(matches!(found_object(Ok(None)), Err(ContentError::NotFound)));
    assert!(matches!(
        object_row("archived").into_entity(),
        Err(ContentError::InvalidStatus(_))
    ));
    assert_eq!(
        created_content(Ok(content_row("created"))).unwrap().status,
        ContentStatus::Created
    );
    assert_eq!(created_object(Ok(object_row("created"))).unwrap().id, 1);
}

#[test]
fn the_first_bad_row_refuses_the_answer() {
    assert_eq!(contents_of(Ok(Vec::new())).unwrap().len(), 0);
    let two = contents_of(Ok(vec![content_row("created"), content_row("archived")])).unwrap();
    assert_eq!(two[1].status, ContentStatus::Archived);
    match contents_of(Ok(vec![
        content_row("created"),
        content_row("x"),
        content_row("y"),
    ])) {
        Err(ContentError::InvalidStatus(name)) => assert_eq!(name, "x"),
        other => panic!("unexpected: {:?}", other),
    }
    match objects_of(Ok(vec![object_row("archived"), object_row("created")])) {
        Err(ContentError::InvalidStatus(name)) => assert_eq!(name, "archived"),
        other => panic!("unexpected: {:?}", other),
    }
    assert_eq!(objects_of(Ok(vec![object_row("created")])).unwrap().len(), 1);
}

#[test]
fn metadata_rows_are_found_by_content() {
    let rows = vec![metadata(1, 10), metadata(2, 20), metadata(1, 30)];
    let m = metadata_by_content(Ok(rows)).unwrap();
    assert_eq!(m.len(), 2);
    assert_eq!(m[&1].file_size, Some(30));
    assert_eq!(m[&2].file_size, Some(20));
    assert_eq!(
        found_metadata(Ok(Some(metadata(1, 5)))).unwrap().file_size,
        Some(5)
    );
    assert!(matches!(
        found_metadata::<ContentMetadata>(Ok(None)),
        Err(ContentError::NotFound)
    ));
}

#[test]
fn a_write_that_hits_nothing_found_nothing() {
    assert!(matches!(hit_a_row(Ok(0)), Err(ContentError::NotFound)));
    assert!(hit_a_row(Ok(1)).is_ok());
    assert!(wrote_metadata(Ok(1)).is_ok());
}

#[test]
fn a_violated_index_is_a_conflict() {
    match created_object(Err(failure(true))) {
        Err(ContentError::Conflict(detail)) => {
            assert_eq!(detail, "object_key already exists for storage backend")
        }
        other => panic!("unexpected: {:?}", other),
    }
    match map_unique(failure(true), "taken") {
        ContentError::Conflict(detail) => assert_eq!(detail, "taken"),
        other => panic!("unexpected: {:?}", other),
    }
    assert!(is_internal(created_object(Err(failure(false)))));
}

#[test]
fn any_other_failure_is_internal() {
    assert!(is_internal(created_content(Err(failure(true)))));
    assert!(is_internal(found_content(Err(failure(false)))));
    assert!(is_internal(found_object(Err(failure(false)))));
    assert!(is_internal(contents_of(Err(failure(false)))));
    assert!(is_internal(objects_of(Err(failure(false)))));
    assert!(is_internal(hit_a_row(Err(failure(false)))));
    assert!(is_internal(wrote_metadata(Err(failure(false)))));
    assert!(is_internal(metadata_by_content(Err(failure(false)))));
    assert!(is_internal(found_metadata::<ContentMetadata>(Err(failure(
        false
    )))));
}
