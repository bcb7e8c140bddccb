//! What an upload puts on record, field by field, whatever the store is.
//!
//! The laws speak of whatever the calls may answer. A service that a call
//! changes is `old(s)` before the call and `final(s)` after it.

use bytes::Bytes;
use time::OffsetDateTime;
use vstd::prelude::*;

use crate::clock::{Clock, SystemClock};
use crate::error::ContentError;
use crate::ext::{bytes_view, hyphenated, is_v7, json_keys, utc_offset, Uuid};
use crate::input::{CreateContentInput, UploadContentInput};
use crate::laws::MemoryService;
use crate::laws::upload::{law_upload_outcomes, records, upload_leaves};
use crate::repo::memory::{InMemoryContentRepo, InMemoryObjectRepo};
use crate::repo::{ContentRepo, NewContent, NewObject, ObjectRepo};
use crate::service::{
    make_content_metadata, make_object_metadata, make_row, mint_key, payload_of, split_upload,
    Payload, UploadOutcome,
};
use crate::store::{ObjectMeta, ObjectStore, UploadParams};
use crate::types::{Content, ContentMetadata, Object, ObjectMetadata};

verus! {

/// The report that the metadata of an upload are made of.
proof fn lemma_report<S: ObjectStore, K: Clock>(
    pre: MemoryService<S, K>,
    input: UploadContentInput,
    by: Option<String>,
    post: MemoryService<S, K>,
    out: UploadOutcome,
) -> (seen: Result<ObjectMeta, ContentError>)
    requires
        MemoryService::<S, K>::uploads(
            pre,
            input,
            by,
            post,
            Ok::<UploadOutcome, ContentError>(out),
        ),
    ensures
        post.store().describes(out.object.object_key@, seen),
        ({
            let om = post.objects().metadata()[out.object.id];
            let cm = post.contents().metadata()[out.content.id];
            &&& post.objects().metadata().contains_key(out.object.id)
            &&& post.contents().metadata().contains_key(out.content.id)
            &&& om.size_bytes == Some(
                if seen is Ok {
                    seen->Ok_0.size
                } else {
                    bytes_view(input.data).len() as i64
                },
            )
            &&& om.etag == (if seen is Ok {
                seen->Ok_0.etag
            } else {
                None
            })
            &&& om.mime_type == (if seen is Ok && seen->Ok_0.content_type is Some {
                seen->Ok_0.content_type
            } else {
                input.mime_type
            })
            &&& cm.file_size == om.size_bytes
            &&& cm.mime_type == om.mime_type
        }),
{
    law_upload_outcomes(pre, input, by, post, Ok(out));
    let (new, cid, cat, no, oid, oat, params, data) = choose|
        new: NewContent,
        cid: Uuid,
        cat: OffsetDateTime,
        no: NewObject,
        oid: Uuid,
        oat: OffsetDateTime,
        params: UploadParams,
        data: Bytes,
    |
        upload_leaves(pre, input, post, Ok(out), new, cid, cat, no, oid, oat, params, data);
    let (seen, now, om, cm) = choose|
        seen: Result<ObjectMeta, ContentError>,
        now: OffsetDateTime,
        om: ObjectMetadata,
        cm: ContentMetadata,
    |
        records(pre, cid, oid, no.object_key@, payload_of(input), post, seen, now, om, cm);
    seen
}

/// What the store reports of the new blob is what goes on record: its size and
/// its etag always, its type where it reports one, else the type that was given.
pub proof fn law_store_report_is_recorded<S: ObjectStore, K: Clock>(
    s: &mut MemoryService<S, K>,
    input: UploadContentInput,
    by: Option<String>,
    out: UploadOutcome,
    meta: ObjectMeta,
    om: Result<ObjectMetadata, ContentError>,
    cm: Result<ContentMetadata, ContentError>,
)
    requires
        call_ensures(
            MemoryService::<S, K>::upload_content,
            (s, input, by),
            Ok::<UploadOutcome, ContentError>(out),
        ),
        forall|seen: Result<ObjectMeta, ContentError>| #[trigger]
            final(s).store().describes(out.object.object_key@, seen) ==> {
                &&& seen matches Ok(m)
                &&& m.size == meta.size
                &&& m.content_type == meta.content_type
                &&& m.etag == meta.etag
            },
        call_ensures(
            InMemoryObjectRepo::get_metadata,
            (&final(s).objects(), out.object.id),
            om,
        ),
        call_ensures(
            InMemoryContentRepo::get_metadata,
            (&final(s).contents(), out.content.id),
            cm,
        ),
    ensures
        om is Ok,
        om->Ok_0.size_bytes == Some(meta.size),
        om->Ok_0.etag == meta.etag,
        meta.content_type is Some ==> om->Ok_0.mime_type == meta.content_type,
        meta.content_type is None ==> om->Ok_0.mime_type == input.mime_type,
        cm is Ok,
        cm->Ok_0.file_size == Some(meta.size),
        meta.content_type is Some ==> cm->Ok_0.mime_type == meta.content_type,
        meta.content_type is None ==> cm->Ok_0.mime_type == input.mime_type,
        final(s).objects().metadata()[out.object.id].etag == meta.etag,
        final(s).objects().metadata()[out.object.id].mime_type == om->Ok_0.mime_type,
        final(s).contents().metadata()[out.content.id].mime_type == cm->Ok_0.mime_type,
{
    let seen = lemma_report(*old(s), input, by, *final(s), out);
    assert(final(s).store().describes(out.object.object_key@, seen));
}

/// Where the store knows nothing of the new blob, the number of bytes sent and
/// the type that was given go on record, and no etag.
pub proof fn law_silent_store_leaves_the_input_on_record<S: ObjectStore, K: Clock>(
    s: &mut MemoryService<S, K>,
    input: UploadContentInput,
    by: Option<String>,
    out: UploadOutcome,
    om: Result<ObjectMetadata, ContentError>,
    cm: Result<ContentMetadata, ContentError>,
)
    requires
        call_ensures(
            MemoryService::<S, K>::upload_content,
            (s, input, by),
            Ok::<UploadOutcome, ContentError>(out),
        ),
        forall|seen: Result<ObjectMeta, ContentError>| #[trigger]
            final(s).store().describes(out.object.object_key@, seen) ==> seen is Err,
        call_ensures(
            InMemoryObjectRepo::get_metadata,
            (&final(s).objects(), out.object.id),
            om,
        ),
        call_ensures(
            InMemoryContentRepo::get_metadata,
            (&final(s).contents(), out.content.id),
            cm,
        ),
    ensures
        om is Ok,
        om->Ok_0.size_bytes == Some(bytes_view(input.data).len() as i64),
        om->Ok_0.etag is None,
        om->Ok_0.mime_type == input.mime_type,
        cm is Ok,
        cm->Ok_0.file_size == Some(bytes_view(input.data).len() as i64),
        cm->Ok_0.mime_type == input.mime_type,
{
    let seen = lemma_report(*old(s), input, by, *final(s), out);
    assert(final(s).store().describes(out.object.object_key@, seen));
}

/// Whatever the store may report of the new blob, both metadata are made of one
/// such report.
pub proof fn law_record_follows_one_report<S: ObjectStore, K: Clock>(
    s: &mut MemoryService<S, K>,
    input: UploadContentInput,
    by: Option<String>,
    out: UploadOutcome,
    om: Result<ObjectMetadata, ContentError>,
    cm: Result<ContentMetadata, ContentError>,
)
    requires
        call_ensures(
            MemoryService::<S, K>::upload_content,
            (s, input, by),
            Ok::<UploadOutcome, ContentError>(out),
        ),
        call_ensures(
            InMemoryObjectRepo::get_metadata,
            (&final(s).objects(), out.object.id),
            om,
        ),
        call_ensures(
            InMemoryContentRepo::get_metadata,
            (&final(s).contents(), out.content.id),
            cm,
        ),
    ensures
        om is Ok,
        cm is Ok,
        exists|seen: Result<ObjectMeta, ContentError>|
            {
                &&& #[trigger] final(s).store().describes(out.object.object_key@, seen)
                &&& om->Ok_0.size_bytes == Some(
                    if seen is Ok {
                        seen->Ok_0.size
                    } else {
                        bytes_view(input.data).len() as i64
                    },
                )
                &&& cm->Ok_0.file_size == om->Ok_0.size_bytes
                &&& om->Ok_0.etag == (if seen is Ok {
                    seen->Ok_0.etag
                } else {
                    None
                })
                &&& om->Ok_0.mime_type == (if seen is Ok && seen->Ok_0.content_type is Some {
                    seen->Ok_0.content_type
                } else {
                    input.mime_type
                })
                &&& cm->Ok_0.mime_type == om->Ok_0.mime_type
            },
{
    let seen = lemma_report(*old(s), input, by, *final(s), out);
    assert(final(s).store().describes(out.object.object_key@, seen));
}

/// What goes on record whatever the store reports: the names of the two rows,
/// the tags, the file name and the free-form part of the input, no checksum, and
/// instants in UTC.
pub proof fn law_rest_of_the_record<S: ObjectStore, K: Clock>(
    s: &mut MemoryService<S, K>,
    input: UploadContentInput,
    by: Option<String>,
    out: UploadOutcome,
    om: Result<ObjectMetadata, ContentError>,
    cm: Result<ContentMetadata, ContentError>,
)
    requires
        call_ensures(
            MemoryService::<S, K>::upload_content,
            (s, input, by),
            Ok::<UploadOutcome, ContentError>(out),
        ),
        call_ensures(
            InMemoryObjectRepo::get_metadata,
            (&final(s).objects(), out.object.id),
            om,
        ),
        call_ensures(
            InMemoryContentRepo::get_metadata,
            (&final(s).contents(), out.content.id),
            cm,
        ),
    ensures
        om is Ok,
        om->Ok_0.object_id == out.object.id,
        json_keys(om->Ok_0.metadata) == Some(Set::<Seq<char>>::empty()),
        utc_offset(om->Ok_0.updated_at) == 0,
        cm is Ok,
        cm->Ok_0.content_id == out.content.id,
        cm->Ok_0.tags@ == input.tags@,
        cm->Ok_0.file_name == input.file_name,
        cm->Ok_0.checksum is None,
        cm->Ok_0.checksum_algorithm is None,
        input.custom_metadata matches Some(json) ==> cm->Ok_0.metadata == json,
        input.custom_metadata is None ==> json_keys(cm->Ok_0.metadata) == Some(
            Set::<Seq<char>>::empty(),
        ),
        utc_offset(cm->Ok_0.updated_at) == 0,
        !old(s).objects().metadata().contains_key(out.object.id) ==> om->Ok_0.created_at
            == om->Ok_0.updated_at,
        !old(s).contents().metadata().contains_key(out.content.id) ==> cm->Ok_0.created_at
            == cm->Ok_0.updated_at,
{
    law_upload_outcomes(*old(s), input, by, *final(s), Ok(out));
}

/// The object metadata to record, of a report and a payload.
pub proof fn law_object_metadata_of_a_report(
    object_id: Uuid,
    seen: Option<ObjectMeta>,
    payload: Payload,
    now: OffsetDateTime,
    m: ObjectMetadata,
)
    requires
        call_ensures(make_object_metadata, (object_id, &seen, &payload, now), m),
    ensures
        m.object_id == object_id,
        seen matches Some(meta) ==> m.size_bytes == Some(meta.size) && m.etag == meta.etag,
        seen is None ==> m.size_bytes == Some(bytes_view(payload.data).len() as i64) && m.etag
            is None,
        seen is Some && seen->Some_0.content_type is Some ==> m.mime_type
            == seen->Some_0.content_type,
        !(seen is Some && seen->Some_0.content_type is Some) ==> m.mime_type == payload.mime_type,
        json_keys(m.metadata) == Some(Set::<Seq<char>>::empty()),
        m.created_at == now,
        m.updated_at == now,
{
}

/// The content metadata to record, of a report and a payload.
pub proof fn law_content_metadata_of_a_report(
    content_id: Uuid,
    seen: Option<ObjectMeta>,
    payload: Payload,
    now: OffsetDateTime,
    m: ContentMetadata,
)
    requires
        call_ensures(make_content_metadata, (content_id, &seen, payload, now), m),
    ensures
        m.content_id == content_id,
        m.tags@ == payload.tags@,
        seen matches Some(meta) ==> m.file_size == Some(meta.size),
        seen is None ==> m.file_size == Some(bytes_view(payload.data).len() as i64),
        seen is Some && seen->Some_0.content_type is Some ==> m.mime_type
            == seen->Some_0.content_type,
        !(seen is Some && seen->Some_0.content_type is Some) ==> m.mime_type == payload.mime_type,
        m.file_name == payload.file_name,
        m.checksum is None,
        m.checksum_algorithm is None,
        payload.custom_metadata matches Some(json) ==> m.metadata == json,
        payload.custom_metadata is None ==> json_keys(m.metadata) == Some(
            Set::<Seq<char>>::empty(),
        ),
        m.created_at == now,
        m.updated_at == now,
{
}

/// The two metadata of one upload agree on the size and the type.
pub proof fn law_metadata_of_one_report_agree(
    object_id: Uuid,
    content_id: Uuid,
    seen: Option<ObjectMeta>,
    payload: Payload,
    now: OffsetDateTime,
    om: ObjectMetadata,
    cm: ContentMetadata,
)
    requires
        call_ensures(make_object_metadata, (object_id, &seen, &payload, now), om),
        call_ensures(make_content_metadata, (content_id, &seen, payload, now), cm),
    ensures
        om.size_bytes == cm.file_size,
        om.mime_type == cm.mime_type,
{
}

/// The row that creating a content asks for has the fields of the input, and
/// is "original" where the input does not say.
pub proof fn law_row_to_create(input: CreateContentInput, new: NewContent)
    requires
        call_ensures(make_row, (input,), new),
    ensures
        new.tenant_id == input.tenant_id,
        new.owner_id == input.owner_id,
        new.owner_type == input.owner_type,
        new.name == input.name,
        new.description == input.description,
        new.document_type == input.document_type,
        new.derivation_type is Some,
        input.derivation_type is Some ==> new.derivation_type == input.derivation_type,
        input.derivation_type is None ==> new.derivation_type->Some_0@ == "original"@,
{
}

/// An upload is split into the row of the content, always "original", and the
/// rest, unchanged.
pub proof fn law_upload_is_split(input: UploadContentInput, r: (NewContent, Payload))
    requires
        call_ensures(split_upload, (input,), r),
    ensures
        r.0.tenant_id == input.tenant_id,
        r.0.owner_id == input.owner_id,
        r.0.owner_type == input.owner_type,
        r.0.name == input.name,
        r.0.description == input.description,
        r.0.document_type == input.document_type,
        r.0.derivation_type is Some,
        r.0.derivation_type->Some_0@ == "original"@,
        r.1.object_key == input.object_key,
        r.1.file_name == input.file_name,
        r.1.mime_type == input.mime_type,
        r.1.tags == input.tags,
        r.1.custom_metadata == input.custom_metadata,
        r.1.data == input.data,
{
}

/// Whether `key` is the id of the content, a slash and another id, both
/// hyphenated.
pub open spec fn is_key_of(key: Seq<char>, content_id: Uuid, suffix: Uuid) -> bool {
    &&& key.len() == 73
    &&& key.take(36) == hyphenated(content_id)
    &&& key[36] == '/'
    &&& key.skip(37) == hyphenated(suffix)
}

/// A minted key begins with the id of its content.
pub proof fn law_minted_key_is_written_out(content_id: Uuid, suffix: Uuid, key: String)
    requires
        call_ensures(mint_key, (content_id, suffix), key),
    ensures
        is_key_of(key@, content_id, suffix),
{
    reveal_strlit("/");
    assert(key@.take(36) =~= hyphenated(content_id));
    assert(key@.skip(37) =~= hyphenated(suffix));
}

/// A successful upload answers both rows as they then stand: `Uploaded`, of the
/// first version, tied to one another, with what the input says. A key that is
/// not given begins with the id of the content.
pub proof fn law_uploaded_rows_are_written_out<S: ObjectStore, K: Clock>(
    s: &mut MemoryService<S, K>,
    input: UploadContentInput,
    by: Option<String>,
    out: UploadOutcome,
    c: Result<Content, ContentError>,
    o: Result<Object, ContentError>,
)
    requires
        call_ensures(
            MemoryService::<S, K>::upload_content,
            (s, input, by),
            Ok::<UploadOutcome, ContentError>(out),
        ),
        call_ensures(InMemoryContentRepo::get, (&final(s).contents(), out.content.id), c),
        call_ensures(InMemoryObjectRepo::get, (&final(s).objects(), out.object.id), o),
    ensures
        c == Ok::<Content, ContentError>(out.content),
        o == Ok::<Object, ContentError>(out.object),
        is_v7(out.content.id),
        out.content.tenant_id == input.tenant_id,
        out.content.owner_id == input.owner_id,
        out.content.owner_type == input.owner_type,
        out.content.name == input.name,
        out.content.description == input.description,
        out.content.document_type == input.document_type,
        out.content.status is Uploaded,
        out.content.derivation_type is Some,
        out.content.derivation_type->Some_0@ == "original"@,
        utc_offset(out.content.created_at) == 0,
        utc_offset(out.content.updated_at) == 0,
        is_v7(out.object.id),
        out.object.content_id == out.content.id,
        out.object.storage_backend_name@ == old(s).backend_name(),
        out.object.storage_class is None,
        input.object_key matches Some(key) ==> out.object.object_key@ == key@,
        input.object_key is None ==> exists|suffix: Uuid|
            is_v7(suffix) && #[trigger] is_key_of(out.object.object_key@, out.content.id, suffix),
        out.object.file_name == input.file_name,
        out.object.version == 1,
        out.object.object_type is None,
        out.object.status is Uploaded,
        utc_offset(out.object.created_at) == 0,
        utc_offset(out.object.updated_at) == 0,
{
    law_upload_outcomes(*old(s), input, by, *final(s), Ok(out));
    if input.object_key is None {
        let suffix = final(s).last_suffix()->Some_0;
        let key = out.object.object_key@;
        reveal_strlit("/");
        assert(key.take(36) =~= hyphenated(out.content.id));
        assert(key.skip(37) =~= hyphenated(suffix));
        assert(is_key_of(key, out.content.id, suffix));
    }
}

/// The rows and the metadata that were there before an upload, whether or not it
/// succeeds, are there after it, as they were.
pub proof fn law_upload_adds_rows_only<S: ObjectStore, K: Clock>(
    s: &mut MemoryService<S, K>,
    input: UploadContentInput,
    by: Option<String>,
    r: Result<UploadOutcome, ContentError>,
    id: Uuid,
    c: Result<Content, ContentError>,
    o: Result<Object, ContentError>,
    c_after: Result<Content, ContentError>,
    o_after: Result<Object, ContentError>,
)
    requires
        call_ensures(MemoryService::<S, K>::upload_content, (s, input, by), r),
        old(s).contents().in_order(),
        old(s).objects().in_order(),
        call_ensures(InMemoryContentRepo::get, (&old(s).contents(), id), c),
        call_ensures(InMemoryContentRepo::get, (&final(s).contents(), id), c_after),
        call_ensures(InMemoryObjectRepo::get, (&old(s).objects(), id), o),
        call_ensures(InMemoryObjectRepo::get, (&final(s).objects(), id), o_after),
    ensures
        c is Ok ==> c_after == c,
        o is Ok ==> o_after == o,
        r matches Ok(out) ==> {
            &&& out.content.id != id ==> c_after == c
            &&& out.object.id != id ==> o_after == o
        },
{
    law_upload_outcomes(*old(s), input, by, *final(s), r);
}

/// The backend name that a service is made with is that of the objects that are
/// uploaded through it.
pub proof fn law_backend_name_goes_into_objects<S: ObjectStore>(
    contents: InMemoryContentRepo,
    objects: InMemoryObjectRepo,
    store: S,
    name: &str,
    s: &mut MemoryService<S, SystemClock>,
    input: UploadContentInput,
    by: Option<String>,
    out: UploadOutcome,
)
    requires
        call_ensures(
            MemoryService::<S, SystemClock>::new,
            (contents, objects, store, name),
            *old(s),
        ),
        call_ensures(
            MemoryService::<S, SystemClock>::upload_content,
            (s, input, by),
            Ok::<UploadOutcome, ContentError>(out),
        ),
    ensures
        out.object.storage_backend_name@ == name@,
        old(s).contents() == contents,
        old(s).objects() == objects,
        old(s).store() == store,
{
    law_upload_outcomes(*old(s), input, by, *final(s), Ok(out));
}

} // verus!
