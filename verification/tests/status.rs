use content::status::{
    can_download_content, can_download_object, can_upload_content, can_upload_object,
};
use content::{ContentError, ContentStatus, ObjectStatus};

const CONTENT: [(ContentStatus, &str); 7] = [
    (ContentStatus::Created, "created"),
    (ContentStatus::Uploading, "uploading"),
    (ContentStatus::Uploaded, "uploaded"),
    (ContentStatus::Processing, "processing"),
    (ContentStatus::Processed, "processed"),
    (ContentStatus::Failed, "failed"),
    (ContentStatus::Archived, "archived"),
];

const OBJECT: [(ObjectStatus, &str); 6] = [
    (ObjectStatus::Created, "created"),
    (ObjectStatus::Uploading, "uploading"),
    (ObjectStatus::Uploaded, "uploaded"),
    (ObjectStatus::Processing, "processing"),
    (ObjectStatus::Processed, "processed"),
    (ObjectStatus::Failed, "failed"),
];

#[test]
fn statuses_have_names_both_ways() {
    for (status, name) in CONTENT {
        assert_eq!(status.as_str(), name);
        assert_eq!(ContentStatus::from_db(name).unwrap(), status);
    }
    for (status, name) in OBJECT {
        assert_eq!(status.as_str(), name);
        assert_eq!(ObjectStatus::from_db(name).unwrap(), status);
    }
}

#[test]
fn a_name_of_no_status_is_refused() {
    match ContentStatus::from_db("Created") {
        Err(ContentError::InvalidStatus(name)) => assert_eq!(name, "Created"),
        other => panic!("unexpected: {:?}", other),
    }
    match ObjectStatus::from_db("archived") {
        Err(ContentError::InvalidStatus(name)) => assert_eq!(name, "archived"),
        other => panic!("unexpected: {:?}", other),
    }
    assert!(ObjectStatus::from_db("").is_err());
}

#[test]
fn only_some_states_allow_a_download() {
    for (status, _) in CONTENT {
        let allowed = matches!(
            status,
            ContentStatus::Uploaded | ContentStatus::Processed | ContentStatus::Archived
        );
        assert_eq!(can_download_content(status).is_ok(), allowed);
    }
    for (status, _) in OBJECT {
        let allowed = matches!(status, ObjectStatus::Uploaded | ObjectStatus::Processed);
        assert_eq!(can_download_object(status).is_ok(), allowed);
    }
}

#[test]
fn only_some_states_allow_an_upload() {
    for (status, _) in CONTENT {
        let allowed = matches!(status, ContentStatus::Created | ContentStatus::Failed);
        assert_eq!(can_upload_content(status).is_ok(), allowed);
    }
    for (status, _) in OBJECT {
        let allowed = matches!(status, ObjectStatus::Created | ObjectStatus::Failed);
        assert_eq!(can_upload_object(status).is_ok(), allowed);
    }
}

#[test]
fn refusals_name_the_state() {
    assert_eq!(
        can_download_content(ContentStatus::Created).unwrap_err().message(),
        "not ready: content not downloadable (status: created)"
    );
    assert_eq!(
        can_download_object(ObjectStatus::Failed).unwrap_err().message(),
        "not ready: object not downloadable (status: failed)"
    );
    assert_eq!(
        can_upload_content(ContentStatus::Uploaded).unwrap_err().message(),
        "invalid state: content not in an uploadable state (status: uploaded)"
    );
    assert_eq!(
        can_upload_object(ObjectStatus::Processing).unwrap_err().message(),
        "invalid state: object not in an uploadable state (status: processing)"
    );
}

#[test]
fn errors_in_words() {
    let cases = [
        (ContentError::NotFound, "resource not found"),
        (ContentError::NotReady("x".to_owned()), "not ready: x"),
        (ContentError::InvalidState("x".to_owned()), "invalid state: x"),
        (ContentError::InvalidStatus("x".to_owned()), "invalid status: x"),
        (ContentError::Conflict("x".to_owned()), "conflict: x"),
        (ContentError::Storage("x".to_owned()), "storage backend error"),
        (ContentError::Internal("x".to_owned()), "x"),
    ];
    for (e, text) in cases {
        assert_eq!(e.message(), text);
    }
}
