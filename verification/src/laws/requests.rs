//! What the service asks of its ports, whatever they are, field by field.
//!
//! A law speaks of whatever a call may answer. A service that a call changes is
//! `old(s)` before the call and `final(s)` after it. What a port may do is what
//! it states of itself.

use bytes::Bytes;
use time::OffsetDateTime;
use vstd::prelude::*;

use crate::clock::Clock;
use crate::error::ContentError;
use crate::ext::{bytes_view, hyphenated, is_v7, json_keys, last_id, Minted, Uuid};
use crate::input::{
    CreateContentInput, SetContentMetadataInput, UpdateContentInput, UploadContentInput,
};
use crate::laws::download::{lemma_filter_of_none, lemma_first_of_filter};
use crate::laws::report::is_key_of;
use crate::laws::words::content_word;
use crate::repo::{ContentRepo, NewContent, NewObject, ObjectRepo};
use crate::service::{
    content_metadata_to_record, find_uploaded, first_uploaded, group_ports,
    object_metadata_to_record, payload_of, row_to_upload, ContentService, UploadOutcome,
};
use crate::status::{ContentStatus, ObjectStatus};
use crate::store::{ObjectMeta, ObjectStore, UploadParams};
use crate::types::{Content, ContentMetadata, Object, ObjectMetadata};

verus! {

/// Whether two services agree in all but the contents port.
pub open spec fn contents_apart<C, O, S, K>(
    a: ContentService<C, O, S, K>,
    b: ContentService<C, O, S, K>,
) -> bool {
    &&& a.objects() == b.objects()
    &&& a.store() == b.store()
    &&& a.clock() == b.clock()
    &&& a.backend_name() == b.backend_name()
    &&& a.last_suffix() == b.last_suffix()
}

/// Whether a new content has the fields that were asked for.
pub open spec fn asks_for(
    new: NewContent,
    tenant_id: Uuid,
    owner_id: Uuid,
    owner_type: Option<String>,
    name: Option<String>,
    description: Option<String>,
    document_type: Option<String>,
) -> bool {
    &&& new.tenant_id == tenant_id
    &&& new.owner_id == owner_id
    &&& new.owner_type == owner_type
    &&& new.name == name
    &&& new.description == description
    &&& new.document_type == document_type
    &&& new.derivation_type is Some
}

/// Creating a content asks the repository for one with the fields of the input,
/// "original" unless it says otherwise, on behalf of the caller, and answers what
/// the repository answers. The other ports stay as they are.
pub proof fn law_create_content_asks<C: ContentRepo, O: ObjectRepo, S: ObjectStore, K: Clock>(
    s: &mut ContentService<C, O, S, K>,
    input: CreateContentInput,
    by: Option<String>,
    r: Result<Content, ContentError>,
)
    requires
        call_ensures(ContentService::<C, O, S, K>::create_content, (s, input, by), r),
    ensures
        exists|new: NewContent|
            {
                &&& asks_for(
                    new,
                    input.tenant_id,
                    input.owner_id,
                    input.owner_type,
                    input.name,
                    input.description,
                    input.document_type,
                )
                &&& (input.derivation_type is Some ==> new.derivation_type
                    == input.derivation_type)
                &&& (input.derivation_type is None ==> new.derivation_type->Some_0@
                    == "original"@)
                &&& #[trigger] C::creates(old(s).contents(), new, by, final(s).contents(), r)
            },
        contents_apart(*old(s), *final(s)),
{
    broadcast use group_ports;

}

/// Updating a content reads it, and writes it back with the four editable fields
/// of the input and all others as they were read, on behalf of the caller. Where
/// it cannot be read, that is the answer and nothing is written.
pub proof fn law_update_content_asks<C: ContentRepo, O: ObjectRepo, S: ObjectStore, K: Clock>(
    s: &mut ContentService<C, O, S, K>,
    id: Uuid,
    input: UpdateContentInput,
    by: Option<String>,
    r: Result<Content, ContentError>,
)
    requires
        call_ensures(ContentService::<C, O, S, K>::update_content, (s, id, input, by), r),
    ensures
        exists|found: Result<Content, ContentError>|
            {
                &&& #[trigger] old(s).contents().gets(id, found)
                &&& (found matches Err(e) ==> r == Err::<Content, ContentError>(e) && *final(s)
                    == *old(s))
                &&& (found matches Ok(b) ==> exists|c: Content|
                    {
                        &&& #[trigger] C::updates(
                            old(s).contents(),
                            c,
                            by,
                            final(s).contents(),
                            r,
                        )
                        &&& c.owner_type == input.owner_type
                        &&& c.name == input.name
                        &&& c.description == input.description
                        &&& c.document_type == input.document_type
                        &&& c.id == b.id
                        &&& c.tenant_id == b.tenant_id
                        &&& c.owner_id == b.owner_id
                        &&& c.status == b.status
                        &&& c.derivation_type == b.derivation_type
                        &&& c.created_at == b.created_at
                        &&& c.updated_at == b.updated_at
                    })
            },
        contents_apart(*old(s), *final(s)),
{
    broadcast use group_ports;

}

/// Setting metadata asks for the content first; where it cannot be read, that is
/// the answer and nothing is written. Else the metadata of the input is set as
/// it is, stamped at one instant that the clock may read.
pub proof fn law_set_content_metadata_asks<
    C: ContentRepo,
    O: ObjectRepo,
    S: ObjectStore,
    K: Clock,
>(
    s: &mut ContentService<C, O, S, K>,
    input: SetContentMetadataInput,
    r: Result<(), ContentError>,
)
    requires
        call_ensures(ContentService::<C, O, S, K>::set_content_metadata, (s, input), r),
    ensures
        exists|found: Result<Content, ContentError>|
            {
                &&& #[trigger] old(s).contents().gets(input.content_id, found)
                &&& (found matches Err(e) ==> r == Err::<(), ContentError>(e) && *final(s)
                    == *old(s))
                &&& (found is Ok ==> exists|m: ContentMetadata|
                    {
                        &&& #[trigger] C::sets_metadata(
                            old(s).contents(),
                            m,
                            final(s).contents(),
                            r,
                        )
                        &&& m.content_id == input.content_id
                        &&& m.tags == input.tags
                        &&& m.file_size == input.file_size
                        &&& m.file_name == input.file_name
                        &&& m.mime_type == input.mime_type
                        &&& m.checksum == input.checksum
                        &&& m.checksum_algorithm == input.checksum_algorithm
                        &&& m.metadata == input.metadata
                        &&& m.created_at == m.updated_at
                        &&& old(s).clock().may_read(m.updated_at)
                    })
            },
        contents_apart(*old(s), *final(s)),
{
    broadcast use group_ports;

}

/// Deleting a content is one request to the contents port, on behalf of the
/// caller.
pub proof fn law_delete_content_asks<C: ContentRepo, O: ObjectRepo, S: ObjectStore, K: Clock>(
    s: &mut ContentService<C, O, S, K>,
    id: Uuid,
    by: Option<String>,
    r: Result<(), ContentError>,
)
    requires
        call_ensures(ContentService::<C, O, S, K>::delete_content, (s, id, by), r),
    ensures
        C::soft_deletes(old(s).contents(), id, by, final(s).contents(), r),
        contents_apart(*old(s), *final(s)),
{
    broadcast use group_ports;

}

/// Setting the state of a content is one request to the contents port, on behalf
/// of the caller.
pub proof fn law_set_content_status_asks<C: ContentRepo, O: ObjectRepo, S: ObjectStore, K: Clock>(
    s: &mut ContentService<C, O, S, K>,
    id: Uuid,
    status: ContentStatus,
    by: Option<String>,
    r: Result<(), ContentError>,
)
    requires
        call_ensures(ContentService::<C, O, S, K>::set_content_status, (s, id, status, by), r),
    ensures
        C::sets_status(old(s).contents(), id, status, by, final(s).contents(), r),
        contents_apart(*old(s), *final(s)),
{
    broadcast use group_ports;

}

/// Setting the state of an object is one request to the objects port, on behalf
/// of the caller.
pub proof fn law_set_object_status_asks<C: ContentRepo, O: ObjectRepo, S: ObjectStore, K: Clock>(
    s: &mut ContentService<C, O, S, K>,
    id: Uuid,
    status: ObjectStatus,
    by: Option<String>,
    r: Result<(), ContentError>,
)
    requires
        call_ensures(ContentService::<C, O, S, K>::set_object_status, (s, id, status, by), r),
    ensures
        O::sets_status(old(s).objects(), id, status, by, final(s).objects(), r),
        final(s).contents() == old(s).contents(),
        final(s).store() == old(s).store(),
        final(s).clock() == old(s).clock(),
        final(s).backend_name() == old(s).backend_name(),
        final(s).last_suffix() == old(s).last_suffix(),
{
    broadcast use group_ports;

}

/// What is read through the service is what the repositories answer.
pub proof fn law_reads_ask<C: ContentRepo, O: ObjectRepo, S: ObjectStore, K: Clock>(
    s: ContentService<C, O, S, K>,
    id: Uuid,
    tenant: Uuid,
    c: Result<Content, ContentError>,
    l: Result<Vec<Content>, ContentError>,
    m: Result<ContentMetadata, ContentError>,
    o: Result<Vec<Object>, ContentError>,
)
    requires
        call_ensures(ContentService::<C, O, S, K>::get_content, (&s, id), c),
        call_ensures(ContentService::<C, O, S, K>::list_content, (&s, id, tenant), l),
        call_ensures(ContentService::<C, O, S, K>::get_content_metadata, (&s, id), m),
        call_ensures(ContentService::<C, O, S, K>::get_objects, (&s, id), o),
    ensures
        s.contents().gets(id, c),
        s.contents().lists(id, tenant, l),
        s.contents().gets_metadata(id, m),
        s.objects().lists_by_content(id, o),
{
}

/// Whether `k` is the place of the first uploaded object.
pub open spec fn first_uploaded_at(objects: Seq<Object>, k: int) -> bool {
    &&& 0 <= k < objects.len()
    &&& objects[k].status is Uploaded
    &&& forall|j: int| 0 <= j < k ==> !((#[trigger] objects[j]).status is Uploaded)
}

/// Whether no object is uploaded.
pub open spec fn none_uploaded(objects: Seq<Object>) -> bool {
    forall|j: int| 0 <= j < objects.len() ==> !((#[trigger] objects[j]).status is Uploaded)
}

/// Where an object of a sequence is uploaded, one is the first.
proof fn lemma_some_first(objects: Seq<Object>, n: int) -> (k: int)
    requires
        0 <= n < objects.len(),
        objects[n].status is Uploaded,
    ensures
        first_uploaded_at(objects, k),
    decreases n,
{
    if exists|j: int| 0 <= j < n && (#[trigger] objects[j]).status is Uploaded {
        let j = choose|j: int| 0 <= j < n && (#[trigger] objects[j]).status is Uploaded;
        lemma_some_first(objects, j)
    } else {
        n
    }
}

/// The first uploaded object of a sequence, by its place.
proof fn lemma_first_uploaded(objects: Seq<Object>)
    ensures
        match first_uploaded(objects) {
            Some(o) => exists|k: int| #[trigger] first_uploaded_at(objects, k) && objects[k] == o,
            None => none_uploaded(objects),
        },
        none_uploaded(objects) ==> first_uploaded(objects) is None,
{
    let uploaded = |o: Object| o.status is Uploaded;
    if none_uploaded(objects) {
        lemma_filter_of_none(objects, uploaded);
    } else {
        let n = choose|n: int|
            0 <= n < objects.len() && (#[trigger] objects[n]).status is Uploaded;
        let k = lemma_some_first(objects, n);
        lemma_first_of_filter(objects, uploaded, k);
        assert(first_uploaded_at(objects, k));
    }
}

/// The object that is picked is the first uploaded one; none is picked where none
/// is uploaded.
pub proof fn law_first_uploaded_is_picked(objects: Vec<Object>, r: Option<Object>)
    requires
        call_ensures(find_uploaded, (objects,), r),
    ensures
        r matches Some(o) ==> exists|k: int| #[trigger]
            first_uploaded_at(objects@, k) && objects@[k] == o,
        r is None <==> none_uploaded(objects@),
{
    lemma_first_uploaded(objects@);
}

/// A download reads the content first; where it cannot be read, that is the
/// answer. A state but `Uploaded`, `Processed` and `Archived` is refused, by its
/// name. Else the objects of the content are listed, and the answer is what the
/// store answers under the key of the first uploaded one, or `NotFound` where
/// there is none.
pub proof fn law_download_content_asks<C: ContentRepo, O: ObjectRepo, S: ObjectStore, K: Clock>(
    s: ContentService<C, O, S, K>,
    id: Uuid,
    r: Result<Bytes, ContentError>,
)
    requires
        call_ensures(ContentService::<C, O, S, K>::download_content, (&s, id), r),
    ensures
        exists|found: Result<Content, ContentError>|
            {
                &&& #[trigger] s.contents().gets(id, found)
                &&& (found matches Err(e) ==> r == Err::<Bytes, ContentError>(e))
                &&& (found matches Ok(c) ==> if c.status is Uploaded || c.status is Processed
                    || c.status is Archived {
                    exists|listed: Result<Vec<Object>, ContentError>|
                        {
                            &&& #[trigger] s.objects().lists_by_content(id, listed)
                            &&& (listed matches Err(e) ==> r == Err::<Bytes, ContentError>(e))
                            &&& (listed matches Ok(objects) ==> if none_uploaded(objects@) {
                                r == Err::<Bytes, ContentError>(ContentError::NotFound)
                            } else {
                                exists|k: int| #[trigger]
                                    first_uploaded_at(objects@, k) && s.store().downloads(
                                        objects@[k].object_key@,
                                        r,
                                    )
                            })
                        }
                } else {
                    &&& r is Err
                    &&& r->Err_0 is NotReady
                    &&& r->Err_0->NotReady_0@ == "content not downloadable (status: "@
                        + content_word(c.status) + ")"@
                })
            },
{
    let found = choose|found: Result<Content, ContentError>| #[trigger]
        s.contents().gets(id, found) && match found {
            Err(e) => r == Err::<Bytes, ContentError>(e),
            Ok(content) => if content.status.downloadable() {
                s.downloads_first(id, r)
            } else {
                r matches Err(ContentError::NotReady(detail)) && detail@
                    == crate::status::refusal("content not downloadable"@, content.status.name())
            },
        };
    if found is Ok {
        let c = found->Ok_0;
        if c.status is Uploaded || c.status is Processed || c.status is Archived {
            let listed = choose|listed: Result<Vec<Object>, ContentError>| #[trigger]
                s.objects().lists_by_content(id, listed) && match listed {
                    Err(e) => r == Err::<Bytes, ContentError>(e),
                    Ok(objects) => match first_uploaded(objects@) {
                        None => r == Err::<Bytes, ContentError>(ContentError::NotFound),
                        Some(object) => s.store().downloads(object.object_key@, r),
                    },
                };
            if listed is Ok {
                lemma_first_uploaded(listed->Ok_0@);
            }
        } else {
            reveal_strlit("content not downloadable");
            reveal_strlit(" (status: ");
            reveal_strlit("content not downloadable (status: ");
            assert(r->Err_0->NotReady_0@ =~= "content not downloadable (status: "@
                + content_word(c.status) + ")"@);
        }
    }
}

/// Whether `new` is the object that an upload asks for: of the new content, in
/// the backend of the service, under the given key or one that begins with the
/// id of the content.
pub open spec fn asks_for_object(
    new: NewObject,
    content_id: Uuid,
    backend: Seq<char>,
    input: UploadContentInput,
) -> bool {
    &&& new.content_id == content_id
    &&& new.storage_backend_name@ == backend
    &&& new.storage_class is None
    &&& new.file_name == input.file_name
    &&& new.object_type is None
    &&& (input.object_key matches Some(key) ==> new.object_key@ == key@)
    &&& (input.object_key is None ==> exists|suffix: Uuid|
        is_v7(suffix) && #[trigger] is_key_of(new.object_key@, content_id, suffix))
}

/// Whether the store is handed the bytes of an upload and what it is told of them.
pub open spec fn hands_over(
    params: UploadParams,
    data: Bytes,
    key: Seq<char>,
    input: UploadContentInput,
) -> bool {
    &&& params.object_key@ == key
    &&& params.mime_type == input.mime_type
    &&& params.file_name == input.file_name
    &&& bytes_view(data) == bytes_view(input.data)
}

/// Whether `om` is the object metadata of an upload of which the store says `seen`.
pub open spec fn object_record(
    om: ObjectMetadata,
    object_id: Uuid,
    seen: Result<ObjectMeta, ContentError>,
    input: UploadContentInput,
    now: OffsetDateTime,
) -> bool {
    &&& om.object_id == object_id
    &&& (seen matches Ok(meta) ==> om.size_bytes == Some(meta.size) && om.etag == meta.etag)
    &&& (seen is Err ==> om.size_bytes == Some(bytes_view(input.data).len() as i64) && om.etag
        is None)
    &&& om.mime_type == (if seen is Ok && seen->Ok_0.content_type is Some {
        seen->Ok_0.content_type
    } else {
        input.mime_type
    })
    &&& json_keys(om.metadata) == Some(Set::<Seq<char>>::empty())
    &&& om.created_at == now
    &&& om.updated_at == now
}

/// Whether `cm` is the content metadata of an upload of which the store says `seen`.
pub open spec fn content_record(
    cm: ContentMetadata,
    content_id: Uuid,
    seen: Result<ObjectMeta, ContentError>,
    input: UploadContentInput,
    now: OffsetDateTime,
) -> bool {
    &&& cm.content_id == content_id
    &&& cm.tags == input.tags
    &&& (seen matches Ok(meta) ==> cm.file_size == Some(meta.size))
    &&& (seen is Err ==> cm.file_size == Some(bytes_view(input.data).len() as i64))
    &&& cm.file_name == input.file_name
    &&& cm.mime_type == (if seen is Ok && seen->Ok_0.content_type is Some {
        seen->Ok_0.content_type
    } else {
        input.mime_type
    })
    &&& cm.checksum is None
    &&& cm.checksum_algorithm is None
    &&& (input.custom_metadata matches Some(json) ==> cm.metadata == json)
    &&& (input.custom_metadata is None ==> json_keys(cm.metadata) == Some(
        Set::<Seq<char>>::empty(),
    ))
    &&& cm.created_at == now
    &&& cm.updated_at == now
}

/// The last requests of an upload: the content is marked `Uploaded`, then both
/// rows are read; the first failure is the answer, else the two rows are.
pub open spec fn upload_closes<C: ContentRepo, O: ObjectRepo, S: ObjectStore, K: Clock>(
    contents: C,
    content_id: Uuid,
    object_id: Uuid,
    by: Option<String>,
    post: ContentService<C, O, S, K>,
    r: Result<UploadOutcome, ContentError>,
) -> bool {
    exists|marked: Result<(), ContentError>|
        {
            &&& #[trigger] C::sets_status(
                contents,
                content_id,
                ContentStatus::Uploaded,
                by,
                post.contents(),
                marked,
            )
            &&& (marked matches Err(e) ==> r == Err::<UploadOutcome, ContentError>(e))
            &&& (marked is Ok ==> exists|found: Result<Content, ContentError>|
                {
                    &&& #[trigger] post.contents().gets(content_id, found)
                    &&& (found matches Err(e) ==> r == Err::<UploadOutcome, ContentError>(e))
                    &&& (found is Ok ==> exists|held: Result<Object, ContentError>|
                        {
                            &&& #[trigger] post.objects().gets(object_id, held)
                            &&& (held matches Err(e) ==> r == Err::<UploadOutcome, ContentError>(e))
                            &&& (held is Ok ==> r is Ok && r->Ok_0.content == found->Ok_0
                                && r->Ok_0.object == held->Ok_0)
                        })
                })
        }
}

/// The requests of an upload once the object is marked: the store describes the
/// new blob, the clock is read, and both metadata are set, whether or not these
/// succeed.
pub open spec fn upload_records<C: ContentRepo, O: ObjectRepo, S: ObjectStore, K: Clock>(
    contents: C,
    objects: O,
    content_id: Uuid,
    object_id: Uuid,
    key: Seq<char>,
    input: UploadContentInput,
    by: Option<String>,
    post: ContentService<C, O, S, K>,
    r: Result<UploadOutcome, ContentError>,
) -> bool {
    exists|
        seen: Result<ObjectMeta, ContentError>,
        now: OffsetDateTime,
        om: ObjectMetadata,
        om_set: Result<(), ContentError>,
        cm: ContentMetadata,
        with_record: C,
        cm_set: Result<(), ContentError>,
    |
        {
            &&& #[trigger] post.store().describes(key, seen)
            &&& #[trigger] post.clock().may_read(now)
            &&& object_record(om, object_id, seen, input, now)
            &&& #[trigger] O::sets_metadata(objects, om, post.objects(), om_set)
            &&& content_record(cm, content_id, seen, input, now)
            &&& #[trigger] C::sets_metadata(contents, cm, with_record, cm_set)
            &&& upload_closes(with_record, content_id, object_id, by, post, r)
        }
}

/// The requests of an upload once both rows are there: the store is handed the
/// bytes, then the object is marked `Uploaded`. A failure of either is the
/// answer, and no request follows it.
pub open spec fn upload_stores<C: ContentRepo, O: ObjectRepo, S: ObjectStore, K: Clock>(
    contents: C,
    objects: O,
    store: S,
    content_id: Uuid,
    object_id: Uuid,
    key: Seq<char>,
    input: UploadContentInput,
    by: Option<String>,
    post: ContentService<C, O, S, K>,
    r: Result<UploadOutcome, ContentError>,
) -> bool {
    exists|params: UploadParams, data: Bytes, stored: Result<(), ContentError>|
        {
            &&& hands_over(params, data, key, input)
            &&& #[trigger] S::uploads(store, params, data, post.store(), stored)
            &&& (stored matches Err(e) ==> {
                &&& r == Err::<UploadOutcome, ContentError>(e)
                &&& post.contents() == contents
                &&& post.objects() == objects
            })
            &&& (stored is Ok ==> exists|ready: O, marked: Result<(), ContentError>|
                {
                    &&& #[trigger] O::sets_status(
                        objects,
                        object_id,
                        ObjectStatus::Uploaded,
                        by,
                        ready,
                        marked,
                    )
                    &&& (marked matches Err(e) ==> {
                        &&& r == Err::<UploadOutcome, ContentError>(e)
                        &&& post.contents() == contents
                        &&& post.objects() == ready
                    })
                    &&& (marked is Ok ==> upload_records(
                        contents,
                        ready,
                        content_id,
                        object_id,
                        key,
                        input,
                        by,
                        post,
                        r,
                    ))
                })
        }
}

/// The last requests are those that the service makes.
proof fn lemma_closes<C: ContentRepo, O: ObjectRepo, S: ObjectStore, K: Clock>(
    pre: ContentService<C, O, S, K>,
    content_id: Uuid,
    object_id: Uuid,
    by: Option<String>,
    post: ContentService<C, O, S, K>,
    r: Result<UploadOutcome, ContentError>,
)
    requires
        ContentService::<C, O, S, K>::uploads_end(pre, content_id, object_id, by, post, r),
    ensures
        upload_closes(pre.contents(), content_id, object_id, by, post, r),
        contents_apart(pre, post),
{
    broadcast use group_ports;

    let (contents, marked) = choose|contents: C, marked: Result<(), ContentError>|
        {
            &&& #[trigger] C::sets_status(
                pre.contents(),
                content_id,
                ContentStatus::Uploaded,
                by,
                contents,
                marked,
            )
            &&& post == pre.with_contents(contents)
            &&& match marked {
                Err(e) => r == Err::<UploadOutcome, ContentError>(e),
                Ok(_) => post.reads_outcome(content_id, object_id, r),
            }
        };
    if marked is Ok {
        let found = choose|found: Result<Content, ContentError>| #[trigger]
            post.contents().gets(content_id, found) && match found {
                Err(e) => r == Err::<UploadOutcome, ContentError>(e),
                Ok(content) => exists|held: Result<Object, ContentError>| #[trigger]
                    post.objects().gets(object_id, held) && match held {
                        Err(e) => r == Err::<UploadOutcome, ContentError>(e),
                        Ok(object) => r == Ok::<UploadOutcome, ContentError>(
                            UploadOutcome { content, object },
                        ),
                    },
            };
        assert(post.contents().gets(content_id, found));
    }
}

/// The requests for metadata are those that the service makes.
proof fn lemma_records<C: ContentRepo, O: ObjectRepo, S: ObjectStore, K: Clock>(
    pre: ContentService<C, O, S, K>,
    content_id: Uuid,
    object_id: Uuid,
    key: Seq<char>,
    input: UploadContentInput,
    by: Option<String>,
    post: ContentService<C, O, S, K>,
    r: Result<UploadOutcome, ContentError>,
)
    requires
        ContentService::<C, O, S, K>::uploads_metadata(
            pre,
            content_id,
            object_id,
            key,
            payload_of(input),
            by,
            post,
            r,
        ),
    ensures
        upload_records(
            pre.contents(),
            pre.objects(),
            content_id,
            object_id,
            key,
            input,
            by,
            post,
            r,
        ),
        post.store() == pre.store(),
        post.clock() == pre.clock(),
        post.backend_name() == pre.backend_name(),
        post.last_suffix() == pre.last_suffix(),
{
    broadcast use group_ports;

    let payload = payload_of(input);
    let (seen, now, om, objects, om_set, cm, contents, cm_set) = choose|
        seen: Result<ObjectMeta, ContentError>,
        now: OffsetDateTime,
        om: ObjectMetadata,
        objects: O,
        om_set: Result<(), ContentError>,
        cm: ContentMetadata,
        contents: C,
        cm_set: Result<(), ContentError>,
    |
        {
            &&& #[trigger] pre.store().describes(key, seen)
            &&& #[trigger] pre.clock().may_read(now)
            &&& object_metadata_to_record(
                object_id,
                seen.ok(),
                payload.data,
                payload.mime_type,
                now,
                om,
            )
            &&& #[trigger] O::sets_metadata(pre.objects(), om, objects, om_set)
            &&& content_metadata_to_record(content_id, seen.ok(), payload, now, cm)
            &&& #[trigger] C::sets_metadata(pre.contents(), cm, contents, cm_set)
            &&& ContentService::<C, O, S, K>::uploads_end(
                pre.with_objects(objects).with_contents(contents),
                content_id,
                object_id,
                by,
                post,
                r,
            )
        };
    lemma_closes(
        pre.with_objects(objects).with_contents(contents),
        content_id,
        object_id,
        by,
        post,
        r,
    );
    assert(post.store().describes(key, seen));
    assert(post.clock().may_read(now));
    assert(object_record(om, object_id, seen, input, now));
    assert(content_record(cm, content_id, seen, input, now));
}

/// The requests from the store on are those that the service makes.
proof fn lemma_stores<C: ContentRepo, O: ObjectRepo, S: ObjectStore, K: Clock>(
    pre: ContentService<C, O, S, K>,
    content_id: Uuid,
    object_id: Uuid,
    key: Seq<char>,
    input: UploadContentInput,
    by: Option<String>,
    post: ContentService<C, O, S, K>,
    r: Result<UploadOutcome, ContentError>,
)
    requires
        ContentService::<C, O, S, K>::uploads_bytes(
            pre,
            content_id,
            object_id,
            key,
            payload_of(input),
            by,
            post,
            r,
        ),
    ensures
        upload_stores(
            pre.contents(),
            pre.objects(),
            pre.store(),
            content_id,
            object_id,
            key,
            input,
            by,
            post,
            r,
        ),
        post.clock() == pre.clock(),
        post.backend_name() == pre.backend_name(),
        post.last_suffix() == pre.last_suffix(),
{
    broadcast use group_ports;

    let payload = payload_of(input);
    let (params, data, store, stored) = choose|
        params: UploadParams,
        data: Bytes,
        store: S,
        stored: Result<(), ContentError>,
    |
        {
            &&& params.object_key@ == key
            &&& params.mime_type == payload.mime_type
            &&& params.file_name == payload.file_name
            &&& bytes_view(data) == bytes_view(payload.data)
            &&& #[trigger] S::uploads(pre.store(), params, data, store, stored)
            &&& match stored {
                Err(e) => r == Err::<UploadOutcome, ContentError>(e) && post == pre.with_store(
                    store,
                ),
                Ok(_) => ContentService::<C, O, S, K>::uploads_status(
                    pre.with_store(store),
                    content_id,
                    object_id,
                    key,
                    payload,
                    by,
                    post,
                    r,
                ),
            }
        };
    assert(hands_over(params, data, key, input));
    if stored is Ok {
        let mid = pre.with_store(store);
        let (objects, marked) = choose|objects: O, marked: Result<(), ContentError>|
            {
                &&& #[trigger] O::sets_status(
                    mid.objects(),
                    object_id,
                    ObjectStatus::Uploaded,
                    by,
                    objects,
                    marked,
                )
                &&& match marked {
                    Err(e) => r == Err::<UploadOutcome, ContentError>(e) && post
                        == mid.with_objects(objects),
                    Ok(_) => ContentService::<C, O, S, K>::uploads_metadata(
                        mid.with_objects(objects),
                        content_id,
                        object_id,
                        key,
                        payload,
                        by,
                        post,
                        r,
                    ),
                }
            };
        if marked is Ok {
            lemma_records(
                mid.with_objects(objects),
                content_id,
                object_id,
                key,
                input,
                by,
                post,
                r,
            );
        }
        assert(O::sets_status(
            pre.objects(),
            object_id,
            ObjectStatus::Uploaded,
            by,
            objects,
            marked,
        ));
    }
    assert(S::uploads(pre.store(), params, data, post.store(), stored));
}

/// What an upload asks of the ports, in turn, on behalf of the caller: a content
/// with the fields of the input, always "original"; an object of that content;
/// then the store and the rest. A failure of either row is the answer, and no
/// request follows it.
pub proof fn law_upload_content_asks<C: ContentRepo, O: ObjectRepo, S: ObjectStore, K: Clock>(
    s: &mut ContentService<C, O, S, K>,
    input: UploadContentInput,
    by: Option<String>,
    r: Result<UploadOutcome, ContentError>,
)
    requires
        call_ensures(ContentService::<C, O, S, K>::upload_content, (s, input, by), r),
    ensures
        final(s).clock() == old(s).clock(),
        final(s).backend_name() == old(s).backend_name(),
        exists|new: NewContent, contents: C, made: Result<Content, ContentError>|
            {
                &&& asks_for(
                    new,
                    input.tenant_id,
                    input.owner_id,
                    input.owner_type,
                    input.name,
                    input.description,
                    input.document_type,
                )
                &&& new.derivation_type->Some_0@ == "original"@
                &&& #[trigger] C::creates(old(s).contents(), new, by, contents, made)
                &&& (made matches Err(e) ==> {
                    &&& r == Err::<UploadOutcome, ContentError>(e)
                    &&& final(s).contents() == contents
                    &&& final(s).objects() == old(s).objects()
                    &&& final(s).store() == old(s).store()
                })
                &&& (made matches Ok(c) ==> exists|
                    no: NewObject,
                    objects: O,
                    held: Result<Object, ContentError>,
                |
                    {
                        &&& asks_for_object(no, c.id, old(s).backend_name(), input)
                        &&& #[trigger] O::creates(old(s).objects(), no, by, objects, held)
                        &&& (held matches Err(e) ==> {
                            &&& r == Err::<UploadOutcome, ContentError>(e)
                            &&& final(s).contents() == contents
                            &&& final(s).objects() == objects
                            &&& final(s).store() == old(s).store()
                        })
                        &&& (held matches Ok(o) ==> upload_stores(
                            contents,
                            objects,
                            old(s).store(),
                            c.id,
                            o.id,
                            no.object_key@,
                            input,
                            by,
                            *final(s),
                            r,
                        ))
                    })
            },
{
    broadcast use group_ports;

    let pre = *old(s);
    let post = *final(s);
    let payload = payload_of(input);
    let (new, contents, made) = choose|
        new: NewContent,
        contents: C,
        made: Result<Content, ContentError>,
    |
        {
            &&& row_to_upload(input, new)
            &&& #[trigger] C::creates(pre.contents(), new, by, contents, made)
            &&& match made {
                Err(e) => r == Err::<UploadOutcome, ContentError>(e) && post == pre.with_contents(
                    contents,
                ),
                Ok(content) => ContentService::<C, O, S, K>::uploads_object(
                    pre.with_contents(contents),
                    content.id,
                    payload,
                    by,
                    post,
                    r,
                ),
            }
        };
    if made is Ok {
        let cid = made->Ok_0.id;
        let mid = pre.with_contents(contents);
        let (no, last, objects, held) = choose|
            no: NewObject,
            last: Option<Minted>,
            objects: O,
            held: Result<Object, ContentError>,
        |
            {
                &&& no.content_id == cid
                &&& no.storage_backend_name@ == mid.backend_name()
                &&& no.storage_class is None
                &&& #[trigger] mid.picks_key(payload.object_key, cid, no.object_key@, last)
                &&& no.file_name == payload.file_name
                &&& no.object_type is None
                &&& #[trigger] O::creates(mid.objects(), no, by, objects, held)
                &&& match held {
                    Err(e) => r == Err::<UploadOutcome, ContentError>(e) && post
                        == mid.with_suffix(last).with_objects(objects),
                    Ok(object) => ContentService::<C, O, S, K>::uploads_bytes(
                        mid.with_suffix(last).with_objects(objects),
                        cid,
                        object.id,
                        no.object_key@,
                        payload,
                        by,
                        post,
                        r,
                    ),
                }
            };
        assert(asks_for_object(no, cid, pre.backend_name(), input)) by {
            if input.object_key is None {
                let suffix = last_id(last)->Some_0;
                let key = no.object_key@;
                reveal_strlit("/");
                assert(key.take(36) =~= hyphenated(cid));
                assert(key.skip(37) =~= hyphenated(suffix));
                assert(is_key_of(key, cid, suffix));
            }
        }
        if held is Ok {
            lemma_stores(
                mid.with_suffix(last).with_objects(objects),
                cid,
                held->Ok_0.id,
                no.object_key@,
                input,
                by,
                post,
                r,
            );
        }
        assert(O::creates(pre.objects(), no, by, objects, held));
    }
    assert(C::creates(pre.contents(), new, by, contents, made));
}

} // verus!
