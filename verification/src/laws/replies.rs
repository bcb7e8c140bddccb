//! What is made of the replies of the database.
//!
//! A law speaks of whatever a function may answer: it supposes that `r` is an
//! answer of the function on the given reply.

use std::collections::HashMap;

use vstd::prelude::*;

use crate::error::ContentError;
use crate::ext::Uuid;
use crate::laws::postgres::law_metadata_by_content;
use crate::repo::postgres::{
    contents_of, created_content, created_object, found_content, found_metadata, found_object,
    hit_a_row, map_unique, metadata_by_content, objects_of, wrote_metadata, ContentDbRow,
    DbFailure, ObjectDbRow,
};
use crate::status::{
    law_content_status_names, law_object_status_names, ContentStatus, ObjectStatus,
};
use crate::types::{Content, ContentMetadata, Object};

verus! {

/// Whether the content of the row is `e`: the fields are those of the row, and
/// the state is the one that the row names.
pub open spec fn content_is_of_row(e: Content, row: ContentDbRow) -> bool {
    &&& e.id == row.id
    &&& e.tenant_id == row.tenant_id
    &&& e.owner_id == row.owner_id
    &&& e.owner_type == row.owner_type
    &&& e.name == row.name
    &&& e.description == row.description
    &&& e.document_type == row.document_type
    &&& e.derivation_type == row.derivation_type
    &&& e.created_at == row.created_at
    &&& e.updated_at == row.updated_at
    &&& e.status.name() == row.status@
}

/// Whether the row names a state of a content.
pub open spec fn names_content_state(row: ContentDbRow) -> bool {
    exists|status: ContentStatus| #[trigger] status.name() == row.status@
}

/// A row becomes the content that it holds; a row that names no state is refused
/// with what it names instead.
pub proof fn law_content_of_row(row: ContentDbRow, r: Result<Content, ContentError>)
    requires
        call_ensures(ContentDbRow::into_entity, (row,), r),
    ensures
        names_content_state(row) ==> (r matches Ok(e) && content_is_of_row(e, row)),
        !names_content_state(row) ==> (r matches Err(ContentError::InvalidStatus(name)) && name@
            == row.status@),
{
    law_content_status_names();
}

/// The reply to the insert of a content.
pub proof fn law_created_content_reply(
    reply: Result<ContentDbRow, DbFailure>,
    r: Result<Content, ContentError>,
)
    requires
        call_ensures(created_content, (reply,), r),
    ensures
        match reply {
            Ok(row) => {
                &&& names_content_state(row) ==> (r matches Ok(e) && content_is_of_row(e, row))
                &&& !names_content_state(row) ==> (r matches Err(ContentError::InvalidStatus(name))
                    && name@ == row.status@)
            },
            Err(f) => r matches Err(ContentError::Internal(detail)) && detail == f.detail,
        },
{
    law_content_status_names();
}

/// The reply to a read, or an update, of one content.
pub proof fn law_found_content_reply(
    reply: Result<Option<ContentDbRow>, DbFailure>,
    r: Result<Content, ContentError>,
)
    requires
        call_ensures(found_content, (reply,), r),
    ensures
        match reply {
            Ok(Some(row)) => {
                &&& names_content_state(row) ==> (r matches Ok(e) && content_is_of_row(e, row))
                &&& !names_content_state(row) ==> (r matches Err(ContentError::InvalidStatus(name))
                    && name@ == row.status@)
            },
            Ok(None) => r == Err::<Content, ContentError>(ContentError::NotFound),
            Err(f) => r matches Err(ContentError::Internal(detail)) && detail == f.detail,
        },
{
    law_content_status_names();
}

/// The reply to a read of many: where every row names a state, the answer has
/// as many contents as the reply has rows, each at the place of its row, so that
/// the order of the ids stays. Else the first row that names none is refused.
pub proof fn law_contents_reply(rows: Vec<ContentDbRow>, r: Result<Vec<Content>, ContentError>)
    requires
        call_ensures(contents_of, (Ok::<Vec<ContentDbRow>, DbFailure>(rows),), r),
    ensures
        r is Ok <==> forall|i: int|
            0 <= i < rows@.len() ==> names_content_state(#[trigger] rows@[i]),
        r matches Ok(out) ==> {
            &&& out@.len() == rows@.len()
            &&& forall|i: int|
                0 <= i < rows@.len() ==> content_is_of_row(#[trigger] out@[i], rows@[i])
            &&& (forall|i: int, j: int|
                0 <= i < j < rows@.len() ==> (#[trigger] rows@[i]).id < (#[trigger] rows@[j]).id)
                ==> (forall|i: int, j: int|
                0 <= i < j < out@.len() ==> (#[trigger] out@[i]).id < (#[trigger] out@[j]).id)
            &&& (forall|i: int, j: int|
                0 <= i < j < rows@.len() ==> (#[trigger] rows@[i]).id > (#[trigger] rows@[j]).id)
                ==> (forall|i: int, j: int|
                0 <= i < j < out@.len() ==> (#[trigger] out@[i]).id > (#[trigger] out@[j]).id)
        },
        r matches Err(e) ==> exists|k: int|
            {
                &&& 0 <= k < rows@.len()
                &&& !names_content_state(#[trigger] rows@[k])
                &&& (forall|i: int| 0 <= i < k ==> names_content_state(#[trigger] rows@[i]))
                &&& e matches ContentError::InvalidStatus(name)
                &&& name@ == rows@[k].status@
            },
{
    law_content_status_names();
    if r is Ok {
        let out = r->Ok_0@;
        assert forall|i: int| 0 <= i < rows@.len() implies content_is_of_row(
            #[trigger] out[i],
            rows@[i],
        ) by {
            assert(rows@[i].entity() == Some(out[i]));
        }
        assert forall|i: int| 0 <= i < rows@.len() implies names_content_state(
            #[trigger] rows@[i],
        ) by {
            assert(content_is_of_row(out[i], rows@[i]));
        }
    } else {
        let e = r->Err_0;
        let k = choose|k: int|
            {
                &&& 0 <= k < rows@.len()
                &&& (#[trigger] rows@[k]).entity() is None
                &&& rows@[k].converts(Err(e))
                &&& forall|i: int| 0 <= i < k ==> (#[trigger] rows@[i]).entity() is Some
            };
        assert(!names_content_state(rows@[k]));
        assert forall|i: int| 0 <= i < k implies names_content_state(#[trigger] rows@[i]) by {
            assert(rows@[i].entity() is Some);
        }
    }
}

/// A failing read of many contents is internal.
pub proof fn law_contents_failure(f: DbFailure, r: Result<Vec<Content>, ContentError>)
    requires
        call_ensures(contents_of, (Err::<Vec<ContentDbRow>, DbFailure>(f),), r),
    ensures
        r matches Err(ContentError::Internal(detail)) && detail == f.detail,
{
}

/// Whether the object of the row is `e`: the fields are those of the row, and
/// the state is the one that the row names.
pub open spec fn object_is_of_row(e: Object, row: ObjectDbRow) -> bool {
    &&& e.id == row.id
    &&& e.content_id == row.content_id
    &&& e.storage_backend_name == row.storage_backend_name
    &&& e.storage_class == row.storage_class
    &&& e.object_key == row.object_key
    &&& e.file_name == row.file_name
    &&& e.version == row.version
    &&& e.object_type == row.object_type
    &&& e.created_at == row.created_at
    &&& e.updated_at == row.updated_at
    &&& e.status.name() == row.status@
}

/// Whether the row names a state of an object.
pub open spec fn names_object_state(row: ObjectDbRow) -> bool {
    exists|status: ObjectStatus| #[trigger] status.name() == row.status@
}

/// A row becomes the object that it holds; a row that names no state is refused
/// with what it names instead.
pub proof fn law_object_of_row(row: ObjectDbRow, r: Result<Object, ContentError>)
    requires
        call_ensures(ObjectDbRow::into_entity, (row,), r),
    ensures
        names_object_state(row) ==> (r matches Ok(e) && object_is_of_row(e, row)),
        !names_object_state(row) ==> (r matches Err(ContentError::InvalidStatus(name)) && name@
            == row.status@),
{
    law_object_status_names();
}

/// The reply to the insert of an object.
pub proof fn law_created_object_reply(
    reply: Result<ObjectDbRow, DbFailure>,
    r: Result<Object, ContentError>,
)
    requires
        call_ensures(created_object, (reply,), r),
    ensures
        match reply {
            Ok(row) => {
                &&& names_object_state(row) ==> (r matches Ok(e) && object_is_of_row(e, row))
                &&& !names_object_state(row) ==> (r matches Err(ContentError::InvalidStatus(name))
                    && name@ == row.status@)
            },
            Err(f) => if f.unique_violation {
                r matches Err(ContentError::Conflict(detail)) && detail@
                    == "object_key already exists for storage backend"@
            } else {
                r matches Err(ContentError::Internal(detail)) && detail == f.detail
            },
        },
{
    law_object_status_names();
}

/// The reply to a read, or an update, of one object.
pub proof fn law_found_object_reply(
    reply: Result<Option<ObjectDbRow>, DbFailure>,
    r: Result<Object, ContentError>,
)
    requires
        call_ensures(found_object, (reply,), r),
    ensures
        match reply {
            Ok(Some(row)) => {
                &&& names_object_state(row) ==> (r matches Ok(e) && object_is_of_row(e, row))
                &&& !names_object_state(row) ==> (r matches Err(ContentError::InvalidStatus(name))
                    && name@ == row.status@)
            },
            Ok(None) => r == Err::<Object, ContentError>(ContentError::NotFound),
            Err(f) => r matches Err(ContentError::Internal(detail)) && detail == f.detail,
        },
{
    law_object_status_names();
}

/// The reply to a read of many: where every row names a state, the answer has
/// as many objects as the reply has rows, each at the place of its row, so that
/// the order of the ids stays. Else the first row that names none is refused.
pub proof fn law_objects_reply(rows: Vec<ObjectDbRow>, r: Result<Vec<Object>, ContentError>)
    requires
        call_ensures(objects_of, (Ok::<Vec<ObjectDbRow>, DbFailure>(rows),), r),
    ensures
        r is Ok <==> forall|i: int|
            0 <= i < rows@.len() ==> names_object_state(#[trigger] rows@[i]),
        r matches Ok(out) ==> {
            &&& out@.len() == rows@.len()
            &&& forall|i: int|
                0 <= i < rows@.len() ==> object_is_of_row(#[trigger] out@[i], rows@[i])
            &&& (forall|i: int, j: int|
                0 <= i < j < rows@.len() ==> (#[trigger] rows@[i]).id < (#[trigger] rows@[j]).id)
                ==> (forall|i: int, j: int|
                0 <= i < j < out@.len() ==> (#[trigger] out@[i]).id < (#[trigger] out@[j]).id)
            &&& (forall|i: int, j: int|
                0 <= i < j < rows@.len() ==> (#[trigger] rows@[i]).id > (#[trigger] rows@[j]).id)
                ==> (forall|i: int, j: int|
                0 <= i < j < out@.len() ==> (#[trigger] out@[i]).id > (#[trigger] out@[j]).id)
        },
        r matches Err(e) ==> exists|k: int|
            {
                &&& 0 <= k < rows@.len()
                &&& !names_object_state(#[trigger] rows@[k])
                &&& (forall|i: int| 0 <= i < k ==> names_object_state(#[trigger] rows@[i]))
                &&& e matches ContentError::InvalidStatus(name)
                &&& name@ == rows@[k].status@
            },
{
    law_object_status_names();
    if r is Ok {
        let out = r->Ok_0@;
        assert forall|i: int| 0 <= i < rows@.len() implies object_is_of_row(
            #[trigger] out[i],
            rows@[i],
        ) by {
            assert(rows@[i].entity() == Some(out[i]));
        }
        assert forall|i: int| 0 <= i < rows@.len() implies names_object_state(
            #[trigger] rows@[i],
        ) by {
            assert(object_is_of_row(out[i], rows@[i]));
        }
    } else {
        let e = r->Err_0;
        let k = choose|k: int|
            {
                &&& 0 <= k < rows@.len()
                &&& (#[trigger] rows@[k]).entity() is None
                &&& rows@[k].converts(Err(e))
                &&& forall|i: int| 0 <= i < k ==> (#[trigger] rows@[i]).entity() is Some
            };
        assert(!names_object_state(rows@[k]));
        assert forall|i: int| 0 <= i < k implies names_object_state(#[trigger] rows@[i]) by {
            assert(rows@[i].entity() is Some);
        }
    }
}

/// A failing read of many objects is internal.
pub proof fn law_objects_failure(f: DbFailure, r: Result<Vec<Object>, ContentError>)
    requires
        call_ensures(objects_of, (Err::<Vec<ObjectDbRow>, DbFailure>(f),), r),
    ensures
        r matches Err(ContentError::Internal(detail)) && detail == f.detail,
{
}

/// The reply to a read of metadata.
pub proof fn law_found_metadata_reply<M>(
    reply: Result<Option<M>, DbFailure>,
    r: Result<M, ContentError>,
)
    requires
        call_ensures(found_metadata::<M>, (reply,), r),
    ensures
        match reply {
            Ok(Some(m)) => r == Ok::<M, ContentError>(m),
            Ok(None) => r == Err::<M, ContentError>(ContentError::NotFound),
            Err(f) => r matches Err(ContentError::Internal(detail)) && detail == f.detail,
        },
{
}

/// The reply to a write that is to hit one row.
pub proof fn law_hit_reply(reply: Result<u64, DbFailure>, r: Result<(), ContentError>)
    requires
        call_ensures(hit_a_row, (reply,), r),
    ensures
        r is Ok <==> reply is Ok && reply->Ok_0 > 0,
        reply matches Ok(n) && n == 0 ==> r == Err::<(), ContentError>(ContentError::NotFound),
        reply matches Err(f) ==> (r matches Err(ContentError::Internal(detail)) && detail
            == f.detail),
{
}

/// The reply to a write of metadata.
pub proof fn law_wrote_metadata_reply(reply: Result<u64, DbFailure>, r: Result<(), ContentError>)
    requires
        call_ensures(wrote_metadata, (reply,), r),
    ensures
        r is Ok <==> reply is Ok,
        reply matches Err(f) ==> (r matches Err(ContentError::Internal(detail)) && detail
            == f.detail),
{
}

/// A violated unique index is a conflict with the text given, anything else is
/// internal with what the database said.
pub proof fn law_unique_violation(f: DbFailure, msg: &str, e: ContentError)
    requires
        call_ensures(map_unique, (f, msg), e),
    ensures
        e is Conflict <==> f.unique_violation,
        e matches ContentError::Conflict(detail) ==> detail@ == msg@,
        !f.unique_violation ==> (e matches ContentError::Internal(detail) && detail == f.detail),
{
}

/// The reply to a read of the metadata of many: under each content its last row
/// as it came, and nothing else.
pub proof fn law_metadata_reply(
    rows: Vec<ContentMetadata>,
    r: Result<HashMap<Uuid, ContentMetadata>, ContentError>,
    k: int,
)
    requires
        call_ensures(
            metadata_by_content,
            (Ok::<Vec<ContentMetadata>, DbFailure>(rows),),
            r,
        ),
    ensures
        r is Ok,
        rows@.len() == 0 ==> r->Ok_0@ == Map::<Uuid, ContentMetadata>::empty(),
        0 <= k < rows@.len() && (forall|i: int|
            k < i < rows@.len() ==> (#[trigger] rows@[i]).content_id != rows@[k].content_id)
            ==> r->Ok_0@.contains_key(rows@[k].content_id) && r->Ok_0@[rows@[k].content_id]
            == rows@[k],
        forall|id: Uuid| #[trigger]
            r->Ok_0@.contains_key(id) ==> exists|i: int|
                0 <= i < rows@.len() && (#[trigger] rows@[i]).content_id == id,
{
    let last: int = rows@.len() - 1;
    if rows@.len() > 0 {
        law_metadata_by_content(rows@, last);
        if 0 <= k < rows@.len() && (forall|i: int|
            k < i < rows@.len() ==> (#[trigger] rows@[i]).content_id != rows@[k].content_id) {
            law_metadata_by_content(rows@, k);
        }
    }
}

/// A failing read of the metadata of many is internal.
pub proof fn law_metadata_failure(
    f: DbFailure,
    r: Result<HashMap<Uuid, ContentMetadata>, ContentError>,
)
    requires
        call_ensures(metadata_by_content, (Err::<Vec<ContentMetadata>, DbFailure>(f),), r),
    ensures
        r matches Err(ContentError::Internal(detail)) && detail == f.detail,
{
}

} // verus!
