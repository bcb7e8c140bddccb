//! What follows from the order in which ids are minted: a new id is new, and
//! the order of the ids is the order of creation.

use bytes::Bytes;
use time::OffsetDateTime;
use vstd::prelude::*;

use crate::clock::Clock;
use crate::error::ContentError;
use crate::ext::{bytes_view, is_v7, Uuid};
use crate::input::{
    CreateContentInput, SetContentMetadataInput, UpdateContentInput, UploadContentInput,
};
use crate::laws::repos::law_keys_stay_unique;
use crate::laws::upload::{
    law_download_gives_back_the_upload, law_upload_keeps_keys_unique, law_upload_outcomes,
    law_uploaded_rows, upload_leaves,
};
use crate::laws::MemoryService;
use crate::repo::memory::{ContentRow, InMemoryContentRepo, InMemoryObjectRepo, ObjectRow};
use crate::repo::{ContentRepo, NewContent, NewObject, ObjectRepo};
use crate::service::{group_ports, UploadOutcome};
use crate::status::{ContentStatus, ObjectStatus};
use crate::store::{InMemoryObjectStore, ObjectStore, UploadParams};
use crate::types::{Content, ContentMetadata, Object, ObjectMetadata};

verus! {

/// Creating a content never fails. Its id was no row's id before and is the
/// largest; it is `Created`, with the fields that were given; it is read back as
/// it was answered; every other row stays; and who created it makes no
/// difference.
pub proof fn law_created_content_is_new(
    pre: InMemoryContentRepo,
    c: NewContent,
    by: Option<String>,
    post: InMemoryContentRepo,
    r: Result<Content, ContentError>,
)
    requires
        pre.in_order(),
        InMemoryContentRepo::creates(pre, c, by, post, r),
    ensures
        r matches Ok(e) && {
            &&& is_v7(e.id)
            &&& !pre.rows().contains_key(e.id)
            &&& forall|id: Uuid| #[trigger] pre.rows().contains_key(id) ==> id < e.id
            &&& e.status is Created
            &&& e.tenant_id == c.tenant_id
            &&& e.owner_id == c.owner_id
            &&& e.owner_type == c.owner_type
            &&& e.name == c.name
            &&& e.description == c.description
            &&& e.document_type == c.document_type
            &&& e.derivation_type == c.derivation_type
            &&& e.created_at == e.updated_at
            &&& post.gets(e.id, r)
            &&& post.rows().remove(e.id) == pre.rows()
            &&& post.metadata() == pre.metadata()
        },
        post.in_order(),
        forall|other: Option<String>| #[trigger]
            InMemoryContentRepo::creates(pre, c, other, post, r),
{
    let e = r->Ok_0;
    assert(post.rows().remove(e.id) =~= pre.rows());
    assert forall|id: Uuid| #[trigger] post.rows().contains_key(id) implies id <= e.id by {
        if id != e.id {
            assert(pre.rows().contains_key(id));
        }
    }
}

/// An object that is created has an id that was no row's id before and is the
/// largest; it is `Created`, version 1, with the fields that were given; it is
/// read back as it was answered; every other row stays; no two live objects
/// share a key in a backend; and who created it makes no difference.
pub proof fn law_created_object_is_new(
    pre: InMemoryObjectRepo,
    o: NewObject,
    by: Option<String>,
    post: InMemoryObjectRepo,
    r: Result<Object, ContentError>,
)
    requires
        pre.in_order(),
        pre.well_formed(),
        InMemoryObjectRepo::creates(pre, o, by, post, r),
    ensures
        r matches Ok(e) ==> {
            &&& is_v7(e.id)
            &&& !pre.rows().contains_key(e.id)
            &&& forall|id: Uuid| #[trigger] pre.rows().contains_key(id) ==> id < e.id
            &&& e.status is Created
            &&& e.version == 1
            &&& e.content_id == o.content_id
            &&& e.storage_backend_name == o.storage_backend_name
            &&& e.storage_class == o.storage_class
            &&& e.object_key == o.object_key
            &&& e.file_name == o.file_name
            &&& e.object_type == o.object_type
            &&& e.created_at == e.updated_at
            &&& post.gets(e.id, r)
            &&& post.rows().remove(e.id) == pre.rows()
            &&& post.metadata() == pre.metadata()
        },
        r is Err ==> post.rows() == pre.rows(),
        post.in_order(),
        post.well_formed(),
        forall|other: Option<String>| #[trigger]
            InMemoryObjectRepo::creates(pre, o, other, post, r),
{
    law_keys_stay_unique(
        pre,
        post,
        o,
        0,
        ObjectStatus::Created,
        by,
        arbitrary(),
        r,
        Ok(()),
    );
    if r is Ok {
        let e = r->Ok_0;
        assert(post.rows().remove(e.id) =~= pre.rows());
        assert forall|id: Uuid| #[trigger] post.rows().contains_key(id) implies id <= e.id by {
            if id != e.id {
                assert(pre.rows().contains_key(id));
            }
        }
    }
}

/// Of two contents, the one that was created later has the larger id.
pub proof fn law_later_content_has_the_larger_id(
    a: InMemoryContentRepo,
    c1: NewContent,
    by1: Option<String>,
    b: InMemoryContentRepo,
    r1: Result<Content, ContentError>,
    c2: NewContent,
    by2: Option<String>,
    c: InMemoryContentRepo,
    r2: Result<Content, ContentError>,
)
    requires
        InMemoryContentRepo::creates(a, c1, by1, b, r1),
        InMemoryContentRepo::creates(b, c2, by2, c, r2),
    ensures
        r1->Ok_0.id < r2->Ok_0.id,
{
}

/// The content that was created last is listed first.
pub proof fn law_newest_content_is_listed_first(
    pre: InMemoryContentRepo,
    c: NewContent,
    by: Option<String>,
    post: InMemoryContentRepo,
    r: Result<Content, ContentError>,
    l: Result<Vec<Content>, ContentError>,
)
    requires
        pre.in_order(),
        InMemoryContentRepo::creates(pre, c, by, post, r),
        post.lists(c.owner_id, c.tenant_id, l),
    ensures
        l->Ok_0@.len() > 0,
        l->Ok_0@[0] == r->Ok_0,
{
    law_created_content_is_new(pre, c, by, post, r);
    let e = r->Ok_0;
    let out = l->Ok_0@;
    assert(post.has_of(e.id, c.owner_id, c.tenant_id));
    let k = choose|k: int| 0 <= k < out.len() && (#[trigger] out[k]).id == e.id;
    assert(post.rows().contains_key(out[0].id));
    if k != 0 {
        assert(out[0].id > out[k].id);
    }
}

/// The object that was created last is listed last.
pub proof fn law_newest_object_is_listed_last(
    pre: InMemoryObjectRepo,
    o: NewObject,
    by: Option<String>,
    post: InMemoryObjectRepo,
    r: Result<Object, ContentError>,
    l: Result<Vec<Object>, ContentError>,
)
    requires
        pre.in_order(),
        InMemoryObjectRepo::creates(pre, o, by, post, r),
        r is Ok,
        post.lists_by_content(o.content_id, l),
    ensures
        l->Ok_0@.len() > 0,
        l->Ok_0@.last() == r->Ok_0,
{
    let e = r->Ok_0;
    let out = l->Ok_0@;
    assert(post.has_of(e.id, o.content_id));
    let k = choose|k: int| 0 <= k < out.len() && (#[trigger] out[k]).id == e.id;
    let z = out.len() - 1;
    assert(post.has_of(out[z].id, o.content_id));
    if k != z {
        assert(out[k].id < out[z].id);
        assert(pre.rows().contains_key(out[z].id));
    }
}

/// No operation on contents disturbs the order of the ids.
pub proof fn law_content_ids_stay_in_order(
    pre: InMemoryContentRepo,
    post: InMemoryContentRepo,
    n: NewContent,
    c: Content,
    id: Uuid,
    status: ContentStatus,
    by: Option<String>,
    m: ContentMetadata,
    made: Result<Content, ContentError>,
    done: Result<(), ContentError>,
)
    requires
        pre.in_order(),
        InMemoryContentRepo::creates(pre, n, by, post, made) || InMemoryContentRepo::updates(
            pre,
            c,
            by,
            post,
            made,
        ) || InMemoryContentRepo::sets_status(pre, id, status, by, post, done)
            || InMemoryContentRepo::soft_deletes(pre, id, by, post, done)
            || InMemoryContentRepo::sets_metadata(pre, m, post, done),
    ensures
        post.in_order(),
        pre.last_minted() matches Some(before) ==> (post.last_minted() matches Some(last) && before
            <= last),
{
    if InMemoryContentRepo::creates(pre, n, by, post, made) {
        law_created_content_is_new(pre, n, by, post, made);
    } else {
        assert(forall|k: Uuid| #[trigger]
            post.rows().contains_key(k) ==> pre.rows().contains_key(k));
    }
}

/// No operation on objects disturbs the order of the ids.
pub proof fn law_object_ids_stay_in_order(
    pre: InMemoryObjectRepo,
    post: InMemoryObjectRepo,
    o: NewObject,
    id: Uuid,
    status: ObjectStatus,
    by: Option<String>,
    m: ObjectMetadata,
    made: Result<Object, ContentError>,
    done: Result<(), ContentError>,
)
    requires
        pre.in_order(),
        InMemoryObjectRepo::creates(pre, o, by, post, made) || InMemoryObjectRepo::sets_status(
            pre,
            id,
            status,
            by,
            post,
            done,
        ) || InMemoryObjectRepo::soft_deletes(pre, id, by, post, done)
            || InMemoryObjectRepo::sets_metadata(pre, m, post, done),
    ensures
        post.in_order(),
{
    if InMemoryObjectRepo::creates(pre, o, by, post, made) && made is Ok {
        let e = made->Ok_0;
        assert forall|k: Uuid| #[trigger] post.rows().contains_key(k) implies k <= e.id by {
            if k != e.id {
                assert(pre.rows().contains_key(k));
            }
        }
    } else {
        assert(forall|k: Uuid| #[trigger]
            post.rows().contains_key(k) ==> pre.rows().contains_key(k));
    }
}

/// A state that the methods of a service lead to: the ids of both repositories
/// are in order, live keys are unique, and objects belong to contents that have
/// been created.
pub open spec fn settled<S: ObjectStore, K: Clock>(s: MemoryService<S, K>) -> bool {
    &&& s.contents().in_order()
    &&& s.objects().in_order()
    &&& s.objects().well_formed()
    &&& forall|id: Uuid| #[trigger]
        s.objects().rows().contains_key(id) ==> (s.contents().last_minted() matches Some(last)
            && s.objects().rows()[id].content_id <= last)
}

/// A service over repositories without rows is settled.
pub proof fn law_new_service_is_settled<S: ObjectStore, K: Clock>(s: MemoryService<S, K>)
    requires
        s.contents().rows() == Map::<Uuid, ContentRow>::empty(),
        s.objects().rows() == Map::<Uuid, ObjectRow>::empty(),
    ensures
        settled(s),
{
}

/// An upload leaves a settled service settled, whatever its outcome.
pub proof fn law_upload_keeps_the_service_settled<S: ObjectStore, K: Clock>(
    pre: MemoryService<S, K>,
    input: UploadContentInput,
    by: Option<String>,
    post: MemoryService<S, K>,
    r: Result<UploadOutcome, ContentError>,
)
    requires
        settled(pre),
        MemoryService::<S, K>::uploads(pre, input, by, post, r),
    ensures
        settled(post),
{
    law_upload_outcomes(pre, input, by, post, r);
    law_upload_keeps_keys_unique(pre, input, by, post, r);
    let (new, cid, cat, no, oid, oat, params, data) = choose|
        new: NewContent,
        cid: Uuid,
        cat: OffsetDateTime,
        no: NewObject,
        oid: Uuid,
        oat: OffsetDateTime,
        params: UploadParams,
        data: Bytes,
    |
        upload_leaves(pre, input, post, r, new, cid, cat, no, oid, oat, params, data);
    assert forall|id: Uuid| #[trigger] post.contents().rows().contains_key(id) implies id
        <= cid by {
        if id != cid {
            assert(pre.contents().rows().contains_key(id));
        }
    }
    let taken = pre.objects().taken(no.object_key@, pre.backend_name());
    assert forall|id: Uuid| #[trigger] post.objects().rows().contains_key(id) implies (
    post.objects().last_minted() matches Some(last) && id <= last)
        && post.objects().rows()[id].content_id <= cid by {
        if taken || id != oid {
            assert(pre.objects().rows().contains_key(id));
        }
    }
}

/// The other methods that write leave a settled service settled.
pub proof fn law_service_stays_settled<S: ObjectStore, K: Clock>(
    pre: MemoryService<S, K>,
    post: MemoryService<S, K>,
    create: CreateContentInput,
    update: UpdateContentInput,
    metadata: SetContentMetadataInput,
    id: Uuid,
    status: ContentStatus,
    object_status: ObjectStatus,
    by: Option<String>,
    made: Result<Content, ContentError>,
    done: Result<(), ContentError>,
)
    requires
        settled(pre),
        ({
            ||| MemoryService::<S, K>::creates(pre, create, by, post, made)
            ||| MemoryService::<S, K>::updates(pre, id, update, by, post, made)
            ||| MemoryService::<S, K>::sets_metadata(pre, metadata, post, done)
            ||| {
                &&& post == pre.with_contents(post.contents())
                &&& {
                    ||| InMemoryContentRepo::soft_deletes(
                        pre.contents(),
                        id,
                        by,
                        post.contents(),
                        done,
                    )
                    ||| InMemoryContentRepo::sets_status(
                        pre.contents(),
                        id,
                        status,
                        by,
                        post.contents(),
                        done,
                    )
                }
            }
            ||| {
                &&& post == pre.with_objects(post.objects())
                &&& InMemoryObjectRepo::sets_status(
                    pre.objects(),
                    id,
                    object_status,
                    by,
                    post.objects(),
                    done,
                )
            }
        }),
    ensures
        settled(post),
{
    broadcast use group_ports;

    if post.objects() == pre.objects() {
        let a = pre.contents();
        let b = post.contents();
        if MemoryService::<S, K>::creates(pre, create, by, post, made) {
            let e = made->Ok_0;
            assert forall|k: Uuid| #[trigger] b.rows().contains_key(k) implies k <= e.id by {
                if k != e.id {
                    assert(a.rows().contains_key(k));
                }
            }
        } else {
            assert(forall|k: Uuid| #[trigger]
                b.rows().contains_key(k) ==> a.rows().contains_key(k));
        }
    } else {
        law_keys_stay_unique(
            pre.objects(),
            post.objects(),
            arbitrary(),
            id,
            object_status,
            by,
            arbitrary(),
            Err(ContentError::NotFound),
            done,
        );
        assert(forall|k: Uuid| #[trigger]
            post.objects().rows().contains_key(k) ==> pre.objects().rows().contains_key(k));
    }
}

/// The objects of a content that was just uploaded are its object, alone.
pub proof fn law_uploaded_content_has_one_object<S: ObjectStore, K: Clock>(
    pre: MemoryService<S, K>,
    input: UploadContentInput,
    by: Option<String>,
    post: MemoryService<S, K>,
    out: UploadOutcome,
    l: Result<Vec<Object>, ContentError>,
)
    requires
        settled(pre),
        MemoryService::<S, K>::uploads(
            pre,
            input,
            by,
            post,
            Ok::<UploadOutcome, ContentError>(out),
        ),
        post.objects().lists_by_content(out.content.id, l),
    ensures
        l matches Ok(objects) && objects@ == seq![out.object],
        !pre.contents().rows().contains_key(out.content.id),
        !pre.objects().rows().contains_key(out.object.id),
{
    law_upload_outcomes(pre, input, by, post, Ok(out));
    law_uploaded_rows(pre, input, by, post, out);
    let cid = out.content.id;
    let oid = out.object.id;
    let list = l->Ok_0@;
    assert(post.objects().has_of(oid, cid));
    let k = choose|k: int| 0 <= k < list.len() && (#[trigger] list[k]).id == oid;
    assert forall|i: int| 0 <= i < list.len() implies (#[trigger] list[i]).id == oid by {
        assert(post.objects().has_of(list[i].id, cid));
        if list[i].id != oid {
            assert(pre.objects().rows().contains_key(list[i].id));
        }
    }
    if list.len() > 1 {
        assert(list[0].id < list[1].id);
    }
    assert(list =~= seq![out.object]);
}

/// On a settled service, what was uploaded is what a download gives back.
pub proof fn law_settled_download_gives_back_the_upload<K: Clock>(
    pre: MemoryService<InMemoryObjectStore, K>,
    input: UploadContentInput,
    by: Option<String>,
    post: MemoryService<InMemoryObjectStore, K>,
    out: UploadOutcome,
    r: Result<Bytes, ContentError>,
)
    requires
        settled(pre),
        MemoryService::<InMemoryObjectStore, K>::uploads(
            pre,
            input,
            by,
            post,
            Ok::<UploadOutcome, ContentError>(out),
        ),
        post.downloads(out.content.id, r),
    ensures
        r matches Ok(data) && bytes_view(data) == bytes_view(input.data),
{
    law_upload_outcomes(pre, input, by, post, Ok(out));
    assert forall|id: Uuid| #[trigger]
        pre.objects().has_of(id, out.content.id) implies false by {
        assert(pre.objects().rows().contains_key(id));
    }
    law_download_gives_back_the_upload(pre, input, by, post, out, r);
}

} // verus!
