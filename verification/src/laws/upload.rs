//! What an upload leaves behind, over the repositories in memory.
//!
//! The store and the clock are left open where a law does not depend on them.

use bytes::Bytes;
use time::OffsetDateTime;
use vstd::prelude::*;

use crate::clock::Clock;
use crate::error::ContentError;
use crate::ext::{bytes_view, is_v7, json_keys, last_id, utc_offset, Minted, Uuid};
use crate::input::UploadContentInput;
use crate::laws::MemoryService;
use crate::laws::download::{
    is_first_uploaded, law_download_takes_the_first_uploaded, law_some_uploaded_object_is_first,
};
use crate::repo::memory::{
    key_taken, stamped_content_metadata, stamped_object_metadata, ContentRow, InMemoryContentRepo,
    InMemoryObjectRepo, ObjectRow,
};
use crate::repo::{ContentRepo, NewContent, NewObject, ObjectRepo};
use crate::service::{
    content_metadata_to_record, derivation_or_original, group_ports, key_or_minted,
    minted_key, object_metadata_to_record, payload_of, row_to_upload, Payload, UploadOutcome,
};
use crate::status::{ContentStatus, ObjectStatus};
use crate::store::{
    no_such_blob, InMemoryObjectStore, ObjectMeta, ObjectStore, UploadParams,
};
use crate::types::{Content, ContentMetadata, Object, ObjectMetadata};

verus! {

/// Whether `new` is the object row of an upload.
pub open spec fn object_to_upload(
    content_id: Uuid,
    backend: Seq<char>,
    payload: Payload,
    new: NewObject,
) -> bool {
    &&& new.content_id == content_id
    &&& new.storage_backend_name@ == backend
    &&& new.storage_class is None
    &&& key_or_minted(payload.object_key, content_id, new.object_key@)
    &&& new.file_name == payload.file_name
    &&& new.object_type is None
}

/// Whether the suffix that `post` has minted last is that of the new key, larger
/// than the one before, or still the one before where a key was given.
pub open spec fn suffix_follows<S: ObjectStore, K: Clock>(
    pre: MemoryService<S, K>,
    given: Option<String>,
    content_id: Uuid,
    key: Seq<char>,
    post: MemoryService<S, K>,
) -> bool {
    match given {
        Some(_) => post.last_suffix() == pre.last_suffix(),
        None => {
            &&& post.last_suffix() matches Some(suffix)
            &&& is_v7(suffix)
            &&& (pre.last_suffix() matches Some(before) ==> before < suffix)
            &&& key == minted_key(content_id, suffix)
        },
    }
}

/// Whether `params` and `data` are what the store is handed.
pub open spec fn bytes_to_store(
    key: Seq<char>,
    payload: Payload,
    params: UploadParams,
    data: Bytes,
) -> bool {
    &&& params.object_key@ == key
    &&& params.mime_type == payload.mime_type
    &&& params.file_name == payload.file_name
    &&& bytes_view(data) == bytes_view(payload.data)
}

/// The metadata of an upload: made of what the store answered and of what the
/// clock read, kept with the times of the repositories.
pub open spec fn records<S: ObjectStore, K: Clock>(
    pre: MemoryService<S, K>,
    content_id: Uuid,
    object_id: Uuid,
    key: Seq<char>,
    payload: Payload,
    post: MemoryService<S, K>,
    seen: Result<ObjectMeta, ContentError>,
    now: OffsetDateTime,
    om: ObjectMetadata,
    cm: ContentMetadata,
) -> bool {
    &&& post.store().describes(key, seen)
    &&& post.clock().may_read(now)
    &&& object_metadata_to_record(
        object_id,
        seen.ok(),
        payload.data,
        payload.mime_type,
        now,
        om,
    )
    &&& content_metadata_to_record(content_id, seen.ok(), payload, now, cm)
    &&& utc_offset(post.objects().metadata()[object_id].updated_at) == 0
    &&& post.objects().metadata() == pre.objects().metadata().insert(
        object_id,
        stamped_object_metadata(
            om,
            pre.objects().first_set(object_id, post.objects().metadata()[object_id].updated_at),
            post.objects().metadata()[object_id].updated_at,
        ),
    )
    &&& utc_offset(post.contents().metadata()[content_id].updated_at) == 0
    &&& post.contents().metadata() == pre.contents().metadata().insert(
        content_id,
        stamped_content_metadata(
            cm,
            pre.contents().first_set(
                content_id,
                post.contents().metadata()[content_id].updated_at,
            ),
            post.contents().metadata()[content_id].updated_at,
        ),
    )
}

/// The end of an upload over live rows always succeeds.
proof fn lemma_end<S: ObjectStore, K: Clock>(
    pre: MemoryService<S, K>,
    content_id: Uuid,
    object_id: Uuid,
    by: Option<String>,
    post: MemoryService<S, K>,
    r: Result<UploadOutcome, ContentError>,
)
    requires
        MemoryService::<S, K>::uploads_end(pre, content_id, object_id, by, post, r),
        pre.contents().has(content_id),
        pre.objects().has(object_id),
    ensures
        post.store() == pre.store(),
        post.clock() == pre.clock(),
        post.backend_name() == pre.backend_name(),
        post.last_suffix() == pre.last_suffix(),
        post.objects() == pre.objects(),
        post.contents().last_minted() == pre.contents().last_minted(),
        post.contents().metadata() == pre.contents().metadata(),
        r matches Ok(out) && {
            &&& utc_offset(out.content.updated_at) == 0
            &&& post.contents().rows() == pre.contents().rows().insert(
                content_id,
                ContentRow {
                    status: ContentStatus::Uploaded,
                    updated_at: out.content.updated_at,
                    ..pre.contents().rows()[content_id]
                },
            )
            &&& out.content == post.contents().rows()[content_id].entity(content_id)
            &&& out.object == post.objects().rows()[object_id].entity(object_id)
        },
{
    broadcast use group_ports;

    let (contents, marked) = choose|contents: InMemoryContentRepo, marked: Result<(), ContentError>|
        {
            &&& #[trigger] InMemoryContentRepo::sets_status(
                pre.contents(),
                content_id,
                ContentStatus::Uploaded,
                by,
                contents,
                marked,
            )
            &&& post == pre.with_contents(contents)
            &&& match marked {
                Err(e) => r == Err::<UploadOutcome, ContentError>(e),
                Ok(_) => post.reads_outcome(content_id, object_id, r),
            }
        };
    assert(contents.has(content_id));
    let found = choose|found: Result<Content, ContentError>| #[trigger]
        post.contents().gets(content_id, found) && match found {
            Err(e) => r == Err::<UploadOutcome, ContentError>(e),
            Ok(content) => exists|held: Result<Object, ContentError>| #[trigger]
                post.objects().gets(object_id, held) && match held {
                    Err(e) => r == Err::<UploadOutcome, ContentError>(e),
                    Ok(object) => r == Ok::<UploadOutcome, ContentError>(
                        UploadOutcome { content, object },
                    ),
                },
        };
    assert(found is Ok);
}

/// Once the bytes are in the store and the object is marked, an upload over
/// live rows always succeeds.
proof fn lemma_metadata<S: ObjectStore, K: Clock>(
    pre: MemoryService<S, K>,
    content_id: Uuid,
    object_id: Uuid,
    key: Seq<char>,
    payload: Payload,
    by: Option<String>,
    post: MemoryService<S, K>,
    r: Result<UploadOutcome, ContentError>,
)
    requires
        MemoryService::<S, K>::uploads_metadata(
            pre,
            content_id,
            object_id,
            key,
            payload,
            by,
            post,
            r,
        ),
        pre.contents().has(content_id),
        pre.objects().has(object_id),
    ensures
        post.store() == pre.store(),
        post.clock() == pre.clock(),
        post.backend_name() == pre.backend_name(),
        post.last_suffix() == pre.last_suffix(),
        post.contents().last_minted() == pre.contents().last_minted(),
        post.objects().last_minted() == pre.objects().last_minted(),
        post.objects().rows() == pre.objects().rows(),
        r matches Ok(out) && {
            &&& utc_offset(out.content.updated_at) == 0
            &&& post.contents().rows() == pre.contents().rows().insert(
                content_id,
                ContentRow {
                    status: ContentStatus::Uploaded,
                    updated_at: out.content.updated_at,
                    ..pre.contents().rows()[content_id]
                },
            )
            &&& out.content == post.contents().rows()[content_id].entity(content_id)
            &&& out.object == post.objects().rows()[object_id].entity(object_id)
        },
        exists|
            seen: Result<ObjectMeta, ContentError>,
            now: OffsetDateTime,
            om: ObjectMetadata,
            cm: ContentMetadata,
        |
            records(pre, content_id, object_id, key, payload, post, seen, now, om, cm),
{
    broadcast use group_ports;

    let (seen, now, om, objects, om_set, cm, contents, cm_set) = choose|
        seen: Result<ObjectMeta, ContentError>,
        now: OffsetDateTime,
        om: ObjectMetadata,
        objects: InMemoryObjectRepo,
        om_set: Result<(), ContentError>,
        cm: ContentMetadata,
        contents: InMemoryContentRepo,
        cm_set: Result<(), ContentError>,
    |
        {
            &&& #[trigger] pre.store().describes(key, seen)
            &&& #[trigger] pre.clock().may_read(now)
            &&& object_metadata_to_record(
                object_id,
                seen.ok(),
                payload.data,
                payload.mime_type,
                now,
                om,
            )
            &&& #[trigger] InMemoryObjectRepo::sets_metadata(pre.objects(), om, objects, om_set)
            &&& content_metadata_to_record(content_id, seen.ok(), payload, now, cm)
            &&& #[trigger] InMemoryContentRepo::sets_metadata(pre.contents(), cm, contents, cm_set)
            &&& MemoryService::<S, K>::uploads_end(
                pre.with_objects(objects).with_contents(contents),
                content_id,
                object_id,
                by,
                post,
                r,
            )
        };
    lemma_end(
        pre.with_objects(objects).with_contents(contents),
        content_id,
        object_id,
        by,
        post,
        r,
    );
    assert(records(pre, content_id, object_id, key, payload, post, seen, now, om, cm));
}

/// Once the bytes are in the store, an upload over live rows always succeeds.
proof fn lemma_status<S: ObjectStore, K: Clock>(
    pre: MemoryService<S, K>,
    content_id: Uuid,
    object_id: Uuid,
    key: Seq<char>,
    payload: Payload,
    by: Option<String>,
    post: MemoryService<S, K>,
    r: Result<UploadOutcome, ContentError>,
)
    requires
        MemoryService::<S, K>::uploads_status(
            pre,
            content_id,
            object_id,
            key,
            payload,
            by,
            post,
            r,
        ),
        pre.contents().has(content_id),
        pre.objects().has(object_id),
    ensures
        post.store() == pre.store(),
        post.clock() == pre.clock(),
        post.backend_name() == pre.backend_name(),
        post.last_suffix() == pre.last_suffix(),
        post.contents().last_minted() == pre.contents().last_minted(),
        post.objects().last_minted() == pre.objects().last_minted(),
        r matches Ok(out) && {
            &&& utc_offset(out.content.updated_at) == 0
            &&& utc_offset(out.object.updated_at) == 0
            &&& post.contents().rows() == pre.contents().rows().insert(
                content_id,
                ContentRow {
                    status: ContentStatus::Uploaded,
                    updated_at: out.content.updated_at,
                    ..pre.contents().rows()[content_id]
                },
            )
            &&& post.objects().rows() == pre.objects().rows().insert(
                object_id,
                ObjectRow {
                    status: ObjectStatus::Uploaded,
                    updated_at: out.object.updated_at,
                    ..pre.objects().rows()[object_id]
                },
            )
            &&& out.content == post.contents().rows()[content_id].entity(content_id)
            &&& out.object == post.objects().rows()[object_id].entity(object_id)
        },
        exists|
            seen: Result<ObjectMeta, ContentError>,
            now: OffsetDateTime,
            om: ObjectMetadata,
            cm: ContentMetadata,
        |
            records(pre, content_id, object_id, key, payload, post, seen, now, om, cm),
{
    broadcast use group_ports;

    let (objects, marked) = choose|objects: InMemoryObjectRepo, marked: Result<(), ContentError>|
        {
            &&& #[trigger] InMemoryObjectRepo::sets_status(
                pre.objects(),
                object_id,
                ObjectStatus::Uploaded,
                by,
                objects,
                marked,
            )
            &&& match marked {
                Err(e) => r == Err::<UploadOutcome, ContentError>(e) && post == pre.with_objects(
                    objects,
                ),
                Ok(_) => MemoryService::<S, K>::uploads_metadata(
                    pre.with_objects(objects),
                    content_id,
                    object_id,
                    key,
                    payload,
                    by,
                    post,
                    r,
                ),
            }
        };
    let mid = pre.with_objects(objects);
    lemma_metadata(mid, content_id, object_id, key, payload, by, post, r);
    let (seen, now, om, cm) = choose|
        seen: Result<ObjectMeta, ContentError>,
        now: OffsetDateTime,
        om: ObjectMetadata,
        cm: ContentMetadata,
    |
        records(mid, content_id, object_id, key, payload, post, seen, now, om, cm);
    assert(records(pre, content_id, object_id, key, payload, post, seen, now, om, cm));
}

/// Whether `post` and `r` are what an upload leaves over the repositories in
/// memory, where `new` and `no` are the rows asked for, made under `cid` and
/// `oid` at `cat` and `oat`, and `params` and `data` what the store is handed.
pub open spec fn upload_leaves<S: ObjectStore, K: Clock>(
    pre: MemoryService<S, K>,
    input: UploadContentInput,
    post: MemoryService<S, K>,
    r: Result<UploadOutcome, ContentError>,
    new: NewContent,
    cid: Uuid,
    cat: OffsetDateTime,
    no: NewObject,
    oid: Uuid,
    oat: OffsetDateTime,
    params: UploadParams,
    data: Bytes,
) -> bool {
    let payload = payload_of(input);
    &&& row_to_upload(input, new)
    &&& is_v7(cid)
    &&& (pre.contents().last_minted() matches Some(before) ==> before < cid)
    &&& post.contents().last_minted() == Some(cid)
    &&& utc_offset(cat) == 0
    &&& object_to_upload(cid, pre.backend_name(), payload, no)
    &&& post.clock() == pre.clock()
    &&& post.backend_name() == pre.backend_name()
    &&& suffix_follows(pre, input.object_key, cid, no.object_key@, post)
    &&& if pre.objects().taken(no.object_key@, pre.backend_name()) {
        &&& r matches Err(e)
        &&& key_taken(e)
        &&& post.store() == pre.store()
        &&& post.contents().rows() == pre.contents().rows().insert(cid, ContentRow::fresh(new, cat))
        &&& post.contents().metadata() == pre.contents().metadata()
        &&& post.objects().rows() == pre.objects().rows()
        &&& post.objects().metadata() == pre.objects().metadata()
        &&& post.objects().last_minted() == pre.objects().last_minted()
    } else {
        &&& is_v7(oid)
        &&& (pre.objects().last_minted() matches Some(before) ==> before < oid)
        &&& post.objects().last_minted() == Some(oid)
        &&& utc_offset(oat) == 0
        &&& bytes_to_store(no.object_key@, payload, params, data)
        &&& match r {
            Err(e) => {
                &&& S::uploads(
                    pre.store(),
                    params,
                    data,
                    post.store(),
                    Err::<(), ContentError>(e),
                )
                &&& post.contents().rows() == pre.contents().rows().insert(
                    cid,
                    ContentRow::fresh(new, cat),
                )
                &&& post.contents().metadata() == pre.contents().metadata()
                &&& post.objects().rows() == pre.objects().rows().insert(
                    oid,
                    ObjectRow::fresh(no, oat),
                )
                &&& post.objects().metadata() == pre.objects().metadata()
            },
            Ok(out) => {
                &&& S::uploads(pre.store(), params, data, post.store(), Ok::<(), ContentError>(()))
                &&& utc_offset(out.content.updated_at) == 0
                &&& utc_offset(out.object.updated_at) == 0
                &&& post.contents().rows() == pre.contents().rows().insert(
                    cid,
                    ContentRow {
                        status: ContentStatus::Uploaded,
                        updated_at: out.content.updated_at,
                        ..ContentRow::fresh(new, cat)
                    },
                )
                &&& post.objects().rows() == pre.objects().rows().insert(
                    oid,
                    ObjectRow {
                        status: ObjectStatus::Uploaded,
                        updated_at: out.object.updated_at,
                        ..ObjectRow::fresh(no, oat)
                    },
                )
                &&& out.content == post.contents().rows()[cid].entity(cid)
                &&& out.object == post.objects().rows()[oid].entity(oid)
                &&& exists|
                    seen: Result<ObjectMeta, ContentError>,
                    now: OffsetDateTime,
                    om: ObjectMetadata,
                    cm: ContentMetadata,
                |
                    records(pre, cid, oid, no.object_key@, payload, post, seen, now, om, cm)
            },
        }
    }
}

/// What an upload leaves over the repositories in memory, whatever the store
/// and the clock are. The row of the content always stands. The row of the
/// object stands unless its key is taken. A store that refuses the bytes
/// leaves both rows behind as `Created`; once it has the bytes, the upload
/// succeeds, and both rows are `Uploaded`.
pub proof fn law_upload_outcomes<S: ObjectStore, K: Clock>(
    pre: MemoryService<S, K>,
    input: UploadContentInput,
    by: Option<String>,
    post: MemoryService<S, K>,
    r: Result<UploadOutcome, ContentError>,
)
    requires
        MemoryService::<S, K>::uploads(pre, input, by, post, r),
    ensures
        exists|
            new: NewContent,
            cid: Uuid,
            cat: OffsetDateTime,
            no: NewObject,
            oid: Uuid,
            oat: OffsetDateTime,
            params: UploadParams,
            data: Bytes,
        |
            upload_leaves(pre, input, post, r, new, cid, cat, no, oid, oat, params, data),
{
    broadcast use group_ports;

    let payload = payload_of(input);
    let (new, contents, made) = choose|
        new: NewContent,
        contents: InMemoryContentRepo,
        made: Result<Content, ContentError>,
    |
        {
            &&& row_to_upload(input, new)
            &&& #[trigger] InMemoryContentRepo::creates(pre.contents(), new, by, contents, made)
            &&& match made {
                Err(e) => r == Err::<UploadOutcome, ContentError>(e) && post == pre.with_contents(
                    contents,
                ),
                Ok(content) => MemoryService::<S, K>::uploads_object(
                    pre.with_contents(contents),
                    content.id,
                    payload,
                    by,
                    post,
                    r,
                ),
            }
        };
    let content = made->Ok_0;
    let cid = content.id;
    let cat = content.created_at;
    let s1 = pre.with_contents(contents);
    let (no, last, objects, omade) = choose|
        no: NewObject,
        last: Option<Minted>,
        objects: InMemoryObjectRepo,
        omade: Result<Object, ContentError>,
    |
        {
            &&& no.content_id == cid
            &&& no.storage_backend_name@ == s1.backend_name()
            &&& no.storage_class is None
            &&& #[trigger] s1.picks_key(payload.object_key, cid, no.object_key@, last)
            &&& no.file_name == payload.file_name
            &&& no.object_type is None
            &&& #[trigger] InMemoryObjectRepo::creates(s1.objects(), no, by, objects, omade)
            &&& match omade {
                Err(e) => r == Err::<UploadOutcome, ContentError>(e) && post == s1.with_suffix(
                    last,
                ).with_objects(objects),
                Ok(object) => MemoryService::<S, K>::uploads_bytes(
                    s1.with_suffix(last).with_objects(objects),
                    cid,
                    object.id,
                    no.object_key@,
                    payload,
                    by,
                    post,
                    r,
                ),
            }
        };
    let key = no.object_key@;
    let s2 = s1.with_suffix(last).with_objects(objects);
    assert(key_or_minted(payload.object_key, cid, key)) by {
        if payload.object_key is None {
            assert(key == minted_key(cid, last_id(last)->Some_0));
        }
    }
    if pre.objects().taken(key, pre.backend_name()) {
        let params: UploadParams = arbitrary();
        let data: Bytes = arbitrary();
        assert(upload_leaves(pre, input, post, r, new, cid, cat, no, cid, cat, params, data));
    } else {
        let object = omade->Ok_0;
        let oid = object.id;
        let oat = object.created_at;
        let (params, data, store, stored) = choose|
            params: UploadParams,
            data: Bytes,
            store: S,
            stored: Result<(), ContentError>,
        |
            {
                &&& params.object_key@ == key
                &&& params.mime_type == payload.mime_type
                &&& params.file_name == payload.file_name
                &&& bytes_view(data) == bytes_view(payload.data)
                &&& #[trigger] S::uploads(s2.store(), params, data, store, stored)
                &&& match stored {
                    Err(e) => r == Err::<UploadOutcome, ContentError>(e) && post == s2.with_store(
                        store,
                    ),
                    Ok(_) => MemoryService::<S, K>::uploads_status(
                        s2.with_store(store),
                        cid,
                        oid,
                        key,
                        payload,
                        by,
                        post,
                        r,
                    ),
                }
            };
        if stored is Ok {
            let s3 = s2.with_store(store);
            assert(stored->Ok_0 == ());
            assert(stored == Ok::<(), ContentError>(()));
            lemma_status(s3, cid, oid, key, payload, by, post, r);
            let out = r->Ok_0;
            assert(post.contents().rows() =~= pre.contents().rows().insert(
                cid,
                ContentRow {
                    status: ContentStatus::Uploaded,
                    updated_at: out.content.updated_at,
                    ..ContentRow::fresh(new, cat)
                },
            ));
            assert(post.objects().rows() =~= pre.objects().rows().insert(
                oid,
                ObjectRow {
                    status: ObjectStatus::Uploaded,
                    updated_at: out.object.updated_at,
                    ..ObjectRow::fresh(no, oat)
                },
            ));
            let (seen, now, om, cm) = choose|
                seen: Result<ObjectMeta, ContentError>,
                now: OffsetDateTime,
                om: ObjectMetadata,
                cm: ContentMetadata,
            |
                records(s3, cid, oid, key, payload, post, seen, now, om, cm);
            assert(records(pre, cid, oid, key, payload, post, seen, now, om, cm));
        }
        assert(upload_leaves(pre, input, post, r, new, cid, cat, no, oid, oat, params, data));
    }
}

/// An upload with a given key over a store in memory succeeds exactly where no
/// live object of the backend has the key, and fails with `Conflict` elsewhere.
pub proof fn law_upload_fails_only_on_a_taken_key<K: Clock>(
    pre: MemoryService<InMemoryObjectStore, K>,
    input: UploadContentInput,
    by: Option<String>,
    post: MemoryService<InMemoryObjectStore, K>,
    r: Result<UploadOutcome, ContentError>,
)
    requires
        MemoryService::<InMemoryObjectStore, K>::uploads(pre, input, by, post, r),
    ensures
        r matches Err(e) ==> key_taken(e),
        input.object_key matches Some(key) ==> (r is Err <==> pre.objects().taken(
            key@,
            pre.backend_name(),
        )),
        r matches Ok(out) ==> !pre.objects().taken(out.object.object_key@, pre.backend_name()),
{
    law_upload_outcomes(pre, input, by, post, r);
}

/// A store that takes no bytes makes every upload fail. The row of the content
/// stays behind, and so does the row of the object unless its key was taken:
/// live, and `Created`.
pub proof fn law_refused_bytes_leave_the_rows<S: ObjectStore, K: Clock>(
    pre: MemoryService<S, K>,
    input: UploadContentInput,
    by: Option<String>,
    post: MemoryService<S, K>,
    r: Result<UploadOutcome, ContentError>,
)
    requires
        MemoryService::<S, K>::uploads(pre, input, by, post, r),
        forall|params: UploadParams, data: Bytes, store: S, stored: Result<(), ContentError>|
            S::uploads(pre.store(), params, data, store, stored) ==> stored is Err,
    ensures
        r is Err,
        exists|cid: Uuid| #[trigger]
            post.contents().has(cid) && post.contents().rows()[cid].status is Created && (
            key_taken(r->Err_0) || exists|oid: Uuid| #[trigger]
                post.objects().has_of(oid, cid) && post.objects().rows()[oid].status is Created),
{
    law_upload_outcomes(pre, input, by, post, r);
    let (new, cid, cat, no, oid, oat, params, data) = choose|
        new: NewContent,
        cid: Uuid,
        cat: OffsetDateTime,
        no: NewObject,
        oid: Uuid,
        oat: OffsetDateTime,
        params: UploadParams,
        data: Bytes,
    |
        upload_leaves(pre, input, post, r, new, cid, cat, no, oid, oat, params, data);
    assert(post.contents().has(cid));
    if !pre.objects().taken(no.object_key@, pre.backend_name()) {
        assert(post.objects().has_of(oid, cid));
    }
}

/// A store that takes every byte string but knows nothing of its blobs spoils
/// no upload: it fails on a taken key alone, and what the store does not say is
/// put on record from the input.
pub proof fn law_store_metadata_is_not_needed<S: ObjectStore, K: Clock>(
    pre: MemoryService<S, K>,
    input: UploadContentInput,
    by: Option<String>,
    post: MemoryService<S, K>,
    r: Result<UploadOutcome, ContentError>,
)
    requires
        MemoryService::<S, K>::uploads(pre, input, by, post, r),
        forall|params: UploadParams, data: Bytes, store: S, stored: Result<(), ContentError>|
            S::uploads(pre.store(), params, data, store, stored) ==> stored is Ok,
        forall|key: Seq<char>, seen: Result<ObjectMeta, ContentError>|
            post.store().describes(key, seen) ==> seen is Err,
    ensures
        r matches Err(e) ==> key_taken(e),
        r matches Ok(out) ==> {
            &&& post.objects().metadata().contains_key(out.object.id)
            &&& post.objects().metadata()[out.object.id].size_bytes == Some(
                bytes_view(input.data).len() as i64,
            )
            &&& post.objects().metadata()[out.object.id].mime_type == input.mime_type
            &&& post.contents().metadata().contains_key(out.content.id)
            &&& post.contents().metadata()[out.content.id].file_size == Some(
                bytes_view(input.data).len() as i64,
            )
            &&& post.contents().metadata()[out.content.id].mime_type == input.mime_type
        },
{
    law_upload_outcomes(pre, input, by, post, r);
}

/// A successful upload answers both rows as they stand: `Uploaded`, tied to one
/// another, with what the input says.
pub proof fn law_uploaded_rows<S: ObjectStore, K: Clock>(
    pre: MemoryService<S, K>,
    input: UploadContentInput,
    by: Option<String>,
    post: MemoryService<S, K>,
    out: UploadOutcome,
)
    requires
        MemoryService::<S, K>::uploads(
            pre,
            input,
            by,
            post,
            Ok::<UploadOutcome, ContentError>(out),
        ),
    ensures
        post.contents().gets(out.content.id, Ok::<Content, ContentError>(out.content)),
        post.objects().gets(out.object.id, Ok::<Object, ContentError>(out.object)),
        is_v7(out.content.id),
        is_v7(out.object.id),
        out.content.status is Uploaded,
        out.content.tenant_id == input.tenant_id,
        out.content.owner_id == input.owner_id,
        out.content.owner_type == input.owner_type,
        out.content.name == input.name,
        out.content.description == input.description,
        out.content.document_type == input.document_type,
        derivation_or_original(None, out.content.derivation_type),
        out.object.status is Uploaded,
        out.object.content_id == out.content.id,
        out.object.storage_backend_name@ == pre.backend_name(),
        key_or_minted(input.object_key, out.content.id, out.object.object_key@),
        out.object.file_name == input.file_name,
        out.object.version == 1,
{
    law_upload_outcomes(pre, input, by, post, Ok(out));
}

/// Over a store in memory a successful upload puts on record the size and the
/// type of what was sent, and with the content its tags, its file name and its
/// free-form part.
pub proof fn law_uploaded_metadata<K: Clock>(
    pre: MemoryService<InMemoryObjectStore, K>,
    input: UploadContentInput,
    by: Option<String>,
    post: MemoryService<InMemoryObjectStore, K>,
    out: UploadOutcome,
    m: Result<ContentMetadata, ContentError>,
    om: Result<ObjectMetadata, ContentError>,
)
    requires
        MemoryService::<InMemoryObjectStore, K>::uploads(
            pre,
            input,
            by,
            post,
            Ok::<UploadOutcome, ContentError>(out),
        ),
        post.contents().gets_metadata(out.content.id, m),
        post.objects().gets_metadata(out.object.id, om),
    ensures
        m matches Ok(m) && {
            &&& m.content_id == out.content.id
            &&& m.tags@ == input.tags@
            &&& m.file_size == Some(bytes_view(input.data).len() as i64)
            &&& m.file_name == input.file_name
            &&& m.mime_type == input.mime_type
            &&& m.checksum is None
            &&& m.checksum_algorithm is None
            &&& match input.custom_metadata {
                Some(json) => m.metadata == json,
                None => json_keys(m.metadata) == Some(Set::<Seq<char>>::empty()),
            }
        },
        om matches Ok(om) && {
            &&& om.object_id == out.object.id
            &&& om.size_bytes == Some(bytes_view(input.data).len() as i64)
            &&& om.mime_type == input.mime_type
            &&& om.etag is None
            &&& json_keys(om.metadata) == Some(Set::<Seq<char>>::empty())
        },
{
    law_upload_outcomes(pre, input, by, post, Ok(out));
}

/// An upload leaves the keys of live objects unique.
pub proof fn law_upload_keeps_keys_unique<S: ObjectStore, K: Clock>(
    pre: MemoryService<S, K>,
    input: UploadContentInput,
    by: Option<String>,
    post: MemoryService<S, K>,
    r: Result<UploadOutcome, ContentError>,
)
    requires
        MemoryService::<S, K>::uploads(pre, input, by, post, r),
        pre.objects().well_formed(),
    ensures
        post.objects().well_formed(),
{
    law_upload_outcomes(pre, input, by, post, r);
    let (new, cid, cat, no, oid, oat, params, data) = choose|
        new: NewContent,
        cid: Uuid,
        cat: OffsetDateTime,
        no: NewObject,
        oid: Uuid,
        oat: OffsetDateTime,
        params: UploadParams,
        data: Bytes,
    |
        upload_leaves(pre, input, post, r, new, cid, cat, no, oid, oat, params, data);
    assert forall|a: Uuid, b: Uuid|
        #![trigger post.objects().has(a), post.objects().has(b)]
        post.objects().has(a) && post.objects().has(b) && post.objects().rows()[a].object_key@
            == post.objects().rows()[b].object_key@
            && post.objects().rows()[a].storage_backend_name@
            == post.objects().rows()[b].storage_backend_name@ implies a == b by {
        let taken = pre.objects().taken(no.object_key@, pre.backend_name());
        if taken || a != oid {
            assert(pre.objects().has(a));
            assert(!taken ==> !pre.objects().has_key(a, no.object_key@, pre.backend_name()));
        }
        if taken || b != oid {
            assert(pre.objects().has(b));
            assert(!taken ==> !pre.objects().has_key(b, no.object_key@, pre.backend_name()));
        }
    }
}

/// What was uploaded is what a download gives back.
///
/// The exception are states in which an object names the new id of the content
/// already: if it is uploaded and has a smaller id than the new object, it comes
/// first. The law supposes that such an object, if there is one, has the same
/// bytes. A settled service is in no such state: see
/// `law_settled_download_gives_back_the_upload`.
pub proof fn law_download_gives_back_the_upload<K: Clock>(
    pre: MemoryService<InMemoryObjectStore, K>,
    input: UploadContentInput,
    by: Option<String>,
    post: MemoryService<InMemoryObjectStore, K>,
    out: UploadOutcome,
    r: Result<Bytes, ContentError>,
)
    requires
        MemoryService::<InMemoryObjectStore, K>::uploads(
            pre,
            input,
            by,
            post,
            Ok::<UploadOutcome, ContentError>(out),
        ),
        forall|id: Uuid| #[trigger]
            is_first_uploaded(pre.objects(), out.content.id, id) && id < out.object.id ==> {
                let key = pre.objects().rows()[id].object_key@;
                post.store().blobs().contains_key(key) && bytes_view(
                    post.store().blobs()[key].data,
                ) == bytes_view(input.data)
            },
        post.downloads(out.content.id, r),
    ensures
        r matches Ok(data) && bytes_view(data) == bytes_view(input.data),
{
    law_upload_outcomes(pre, input, by, post, Ok(out));
    law_uploaded_rows(pre, input, by, post, out);
    let cid = out.content.id;
    let oid = out.object.id;
    assert(post.objects().has_of(oid, cid));
    let first = law_some_uploaded_object_is_first(post.objects(), cid, oid);
    if first != oid {
        assert(pre.objects().has_of(first, cid));
        assert forall|other: Uuid| #[trigger]
            pre.objects().has_of(other, cid) && pre.objects().rows()[other].status
                is Uploaded implies first <= other by {
            if other != oid {
                assert(post.objects().has_of(other, cid));
            }
        }
        assert(is_first_uploaded(pre.objects(), cid, first));
    }
    law_download_takes_the_first_uploaded(post, cid, first, r);
}

/// An upload does not disturb what a download of another content answers, if
/// that content has its bytes in the backend of the service and keeps its ids.
pub proof fn law_uploads_do_not_disturb_each_other<K: Clock>(
    pre: MemoryService<InMemoryObjectStore, K>,
    input: UploadContentInput,
    by: Option<String>,
    post: MemoryService<InMemoryObjectStore, K>,
    out: UploadOutcome,
    content_id: Uuid,
    first: Uuid,
    before: Result<Bytes, ContentError>,
    after: Result<Bytes, ContentError>,
)
    requires
        MemoryService::<InMemoryObjectStore, K>::uploads(
            pre,
            input,
            by,
            post,
            Ok::<UploadOutcome, ContentError>(out),
        ),
        pre.contents().has(content_id),
        pre.contents().rows()[content_id].status.downloadable(),
        is_first_uploaded(pre.objects(), content_id, first),
        pre.objects().rows()[first].storage_backend_name@ == pre.backend_name(),
        out.content.id != content_id,
        out.object.id != first,
        pre.downloads(content_id, before),
        post.downloads(content_id, after),
    ensures
        match (before, after) {
            (Ok(x), Ok(y)) => bytes_view(x) == bytes_view(y),
            (Err(x), Err(y)) => no_such_blob(x) && no_such_blob(y),
            _ => false,
        },
{
    law_upload_outcomes(pre, input, by, post, Ok(out));
    law_uploaded_rows(pre, input, by, post, out);
    let key = pre.objects().rows()[first].object_key@;
    assert(pre.objects().has_key(first, key, pre.backend_name()));
    assert(out.object.object_key@ != key);
    assert(post.objects().has_of(first, content_id));
    assert forall|id: Uuid| #[trigger]
        post.objects().has_of(id, content_id) && post.objects().rows()[id].status
            is Uploaded implies first <= id by {
        assert(pre.objects().has_of(id, content_id));
    }
    law_download_takes_the_first_uploaded(pre, content_id, first, before);
    law_download_takes_the_first_uploaded(post, content_id, first, after);
}

} // verus!
