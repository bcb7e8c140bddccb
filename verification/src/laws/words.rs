//! The words of the library: the names of the states, what a refusal says, what
//! an error says.

use vstd::prelude::*;

use crate::error::ContentError;
use crate::status::{
    can_download_content, can_download_object, can_upload_content, can_upload_object,
    ContentStatus, ObjectStatus,
};

verus! {

/// The word for a state of a content.
pub open spec fn content_word(status: ContentStatus) -> Seq<char> {
    match status {
        ContentStatus::Created => "created"@,
        ContentStatus::Uploading => "uploading"@,
        ContentStatus::Uploaded => "uploaded"@,
        ContentStatus::Processing => "processing"@,
        ContentStatus::Processed => "processed"@,
        ContentStatus::Failed => "failed"@,
        ContentStatus::Archived => "archived"@,
    }
}

/// The word for a state of an object.
pub open spec fn object_word(status: ObjectStatus) -> Seq<char> {
    match status {
        ObjectStatus::Created => "created"@,
        ObjectStatus::Uploading => "uploading"@,
        ObjectStatus::Uploaded => "uploaded"@,
        ObjectStatus::Processing => "processing"@,
        ObjectStatus::Processed => "processed"@,
        ObjectStatus::Failed => "failed"@,
    }
}

/// A state of a content is named by its word.
pub proof fn law_content_states_are_named(status: ContentStatus, s: &'static str)
    requires
        call_ensures(ContentStatus::as_str, (status,), s),
    ensures
        s@ == content_word(status),
        status.name() == content_word(status),
{
}

/// A state of an object is named by its word.
pub proof fn law_object_states_are_named(status: ObjectStatus, s: &'static str)
    requires
        call_ensures(ObjectStatus::as_str, (status,), s),
    ensures
        s@ == object_word(status),
        status.name() == object_word(status),
{
}

/// A word is read as the state of a content that it names, and refused, with the
/// word itself, where it names none.
pub proof fn law_content_states_are_read(s: &str, r: Result<ContentStatus, ContentError>)
    requires
        call_ensures(ContentStatus::from_db, (s,), r),
    ensures
        r matches Ok(status) ==> s@ == content_word(status),
        forall|status: ContentStatus|
            s@ == #[trigger] content_word(status)
                ==> r == Ok::<ContentStatus, ContentError>(status),
        r matches Err(e) ==> e is InvalidStatus && e->InvalidStatus_0@ == s@,
{
    crate::status::law_content_status_names();
    assert forall|status: ContentStatus| s@ == #[trigger] content_word(status) implies r == Ok::<
        ContentStatus,
        ContentError,
    >(status) by {
        assert(s@ == status.name());
    }
    if r is Ok {
        assert(exists|status: ContentStatus| #[trigger] status.name() == s@);
    }
}

/// A word is read as the state of an object that it names, and refused, with the
/// word itself, where it names none.
pub proof fn law_object_states_are_read(s: &str, r: Result<ObjectStatus, ContentError>)
    requires
        call_ensures(ObjectStatus::from_db, (s,), r),
    ensures
        r matches Ok(status) ==> s@ == object_word(status),
        forall|status: ObjectStatus|
            s@ == #[trigger] object_word(status) ==> r == Ok::<ObjectStatus, ContentError>(status),
        r matches Err(e) ==> e is InvalidStatus && e->InvalidStatus_0@ == s@,
{
    crate::status::law_object_status_names();
    assert forall|status: ObjectStatus| s@ == #[trigger] object_word(status) implies r == Ok::<
        ObjectStatus,
        ContentError,
    >(status) by {
        assert(s@ == status.name());
    }
    if r is Ok {
        assert(exists|status: ObjectStatus| #[trigger] status.name() == s@);
    }
}

/// A content is downloaded from `Uploaded`, `Processed` and `Archived` alone; the
/// refusal names the state.
pub proof fn law_content_download_guard(status: ContentStatus, r: Result<(), ContentError>)
    requires
        call_ensures(can_download_content, (status,), r),
    ensures
        r is Ok <==> status is Uploaded || status is Processed || status is Archived,
        r is Err ==> r->Err_0 is NotReady,
        status is Created ==> r->Err_0->NotReady_0@
            == "content not downloadable (status: created)"@,
        status is Uploading ==> r->Err_0->NotReady_0@
            == "content not downloadable (status: uploading)"@,
        status is Processing ==> r->Err_0->NotReady_0@
            == "content not downloadable (status: processing)"@,
        status is Failed ==> r->Err_0->NotReady_0@ == "content not downloadable (status: failed)"@,
{
    reveal_strlit("content not downloadable");
    reveal_strlit(" (status: ");
    reveal_strlit(")");
    reveal_strlit("created");
    reveal_strlit("content not downloadable (status: created)");
    reveal_strlit("uploading");
    reveal_strlit("content not downloadable (status: uploading)");
    reveal_strlit("processing");
    reveal_strlit("content not downloadable (status: processing)");
    reveal_strlit("failed");
    reveal_strlit("content not downloadable (status: failed)");
    if status is Created {
        assert(r->Err_0->NotReady_0@ =~= "content not downloadable (status: created)"@);
    }
    if status is Uploading {
        assert(r->Err_0->NotReady_0@ =~= "content not downloadable (status: uploading)"@);
    }
    if status is Processing {
        assert(r->Err_0->NotReady_0@ =~= "content not downloadable (status: processing)"@);
    }
    if status is Failed {
        assert(r->Err_0->NotReady_0@ =~= "content not downloadable (status: failed)"@);
    }
}

/// An object is downloaded from `Uploaded` and `Processed` alone; the refusal
/// names the state.
pub proof fn law_object_download_guard(status: ObjectStatus, r: Result<(), ContentError>)
    requires
        call_ensures(can_download_object, (status,), r),
    ensures
        r is Ok <==> status is Uploaded || status is Processed,
        r is Err ==> r->Err_0 is NotReady,
        status is Created ==> r->Err_0->NotReady_0@ == "object not downloadable (status: created)"@,
        status is Uploading ==> r->Err_0->NotReady_0@
            == "object not downloadable (status: uploading)"@,
        status is Processing ==> r->Err_0->NotReady_0@
            == "object not downloadable (status: processing)"@,
        status is Failed ==> r->Err_0->NotReady_0@ == "object not downloadable (status: failed)"@,
{
    reveal_strlit("object not downloadable");
    reveal_strlit(" (status: ");
    reveal_strlit(")");
    reveal_strlit("created");
    reveal_strlit("object not downloadable (status: created)");
    reveal_strlit("uploading");
    reveal_strlit("object not downloadable (status: uploading)");
    reveal_strlit("processing");
    reveal_strlit("object not downloadable (status: processing)");
    reveal_strlit("failed");
    reveal_strlit("object not downloadable (status: failed)");
    if status is Created {
        assert(r->Err_0->NotReady_0@ =~= "object not downloadable (status: created)"@);
    }
    if status is Uploading {
        assert(r->Err_0->NotReady_0@ =~= "object not downloadable (status: uploading)"@);
    }
    if status is Processing {
        assert(r->Err_0->NotReady_0@ =~= "object not downloadable (status: processing)"@);
    }
    if status is Failed {
        assert(r->Err_0->NotReady_0@ =~= "object not downloadable (status: failed)"@);
    }
}

/// A content is uploaded from `Created` and `Failed` alone; the refusal names the
/// state.
pub proof fn law_content_upload_guard(status: ContentStatus, r: Result<(), ContentError>)
    requires
        call_ensures(can_upload_content, (status,), r),
    ensures
        r is Ok <==> status is Created || status is Failed,
        r is Err ==> r->Err_0 is InvalidState,
        status is Uploading ==> r->Err_0->InvalidState_0@
            == "content not in an uploadable state (status: uploading)"@,
        status is Uploaded ==> r->Err_0->InvalidState_0@
            == "content not in an uploadable state (status: uploaded)"@,
        status is Processing ==> r->Err_0->InvalidState_0@
            == "content not in an uploadable state (status: processing)"@,
        status is Processed ==> r->Err_0->InvalidState_0@
            == "content not in an uploadable state (status: processed)"@,
        status is Archived ==> r->Err_0->InvalidState_0@
            == "content not in an uploadable state (status: archived)"@,
{
    reveal_strlit("content not in an uploadable state");
    reveal_strlit(" (status: ");
    reveal_strlit(")");
    reveal_strlit("uploading");
    reveal_strlit("content not in an uploadable state (status: uploading)");
    reveal_strlit("uploaded");
    reveal_strlit("content not in an uploadable state (status: uploaded)");
    reveal_strlit("processing");
    reveal_strlit("content not in an uploadable state (status: processing)");
    reveal_strlit("processed");
    reveal_strlit("content not in an uploadable state (status: processed)");
    reveal_strlit("archived");
    reveal_strlit("content not in an uploadable state (status: archived)");
    if status is Uploading {
        assert(r->Err_0->InvalidState_0@
            =~= "content not in an uploadable state (status: uploading)"@);
    }
    if status is Uploaded {
        assert(r->Err_0->InvalidState_0@
            =~= "content not in an uploadable state (status: uploaded)"@);
    }
    if status is Processing {
        assert(r->Err_0->InvalidState_0@
            =~= "content not in an uploadable state (status: processing)"@);
    }
    if status is Processed {
        assert(r->Err_0->InvalidState_0@
            =~= "content not in an uploadable state (status: processed)"@);
    }
    if status is Archived {
        assert(r->Err_0->InvalidState_0@
            =~= "content not in an uploadable state (status: archived)"@);
    }
}

/// An object is uploaded from `Created` and `Failed` alone; the refusal names the
/// state.
pub proof fn law_object_upload_guard(status: ObjectStatus, r: Result<(), ContentError>)
    requires
        call_ensures(can_upload_object, (status,), r),
    ensures
        r is Ok <==> status is Created || status is Failed,
        r is Err ==> r->Err_0 is InvalidState,
        status is Uploading ==> r->Err_0->InvalidState_0@
            == "object not in an uploadable state (status: uploading)"@,
        status is Uploaded ==> r->Err_0->InvalidState_0@
            == "object not in an uploadable state (status: uploaded)"@,
        status is Processing ==> r->Err_0->InvalidState_0@
            == "object not in an uploadable state (status: processing)"@,
        status is Processed ==> r->Err_0->InvalidState_0@
            == "object not in an uploadable state (status: processed)"@,
{
    reveal_strlit("object not in an uploadable state");
    reveal_strlit(" (status: ");
    reveal_strlit(")");
    reveal_strlit("uploading");
    reveal_strlit("object not in an uploadable state (status: uploading)");
    reveal_strlit("uploaded");
    reveal_strlit("object not in an uploadable state (status: uploaded)");
    reveal_strlit("processing");
    reveal_strlit("object not in an uploadable state (status: processing)");
    reveal_strlit("processed");
    reveal_strlit("object not in an uploadable state (status: processed)");
    if status is Uploading {
        assert(r->Err_0->InvalidState_0@
            =~= "object not in an uploadable state (status: uploading)"@);
    }
    if status is Uploaded {
        assert(r->Err_0->InvalidState_0@
            =~= "object not in an uploadable state (status: uploaded)"@);
    }
    if status is Processing {
        assert(r->Err_0->InvalidState_0@
            =~= "object not in an uploadable state (status: processing)"@);
    }
    if status is Processed {
        assert(r->Err_0->InvalidState_0@
            =~= "object not in an uploadable state (status: processed)"@);
    }
}

/// What an error says: its kind and its detail, but for the detail of a failing
/// store, which stays out of it; an internal error says its detail alone.
pub proof fn law_error_messages(e: ContentError, s: String)
    requires
        call_ensures(ContentError::message, (&e,), s),
    ensures
        match e {
            ContentError::NotFound => s@ == "resource not found"@,
            ContentError::NotReady(detail) => s@ == "not ready: "@ + detail@,
            ContentError::InvalidState(detail) => s@ == "invalid state: "@ + detail@,
            ContentError::InvalidStatus(detail) => s@ == "invalid status: "@ + detail@,
            ContentError::Conflict(detail) => s@ == "conflict: "@ + detail@,
            ContentError::Storage(_) => s@ == "storage backend error"@,
            ContentError::Internal(detail) => s@ == detail@,
        },
{
}

/// Whatever a failing store says, the error says the same.
pub proof fn law_storage_detail_stays_out(a: String, b: String, s: String, t: String)
    requires
        call_ensures(ContentError::message, (&ContentError::Storage(a),), s),
        call_ensures(ContentError::message, (&ContentError::Storage(b),), t),
    ensures
        s@ == t@,
{
}

} // verus!
