//! What a download answers, over ports in memory.

use bytes::Bytes;
use vstd::prelude::*;

use crate::clock::Clock;
use crate::error::ContentError;
use crate::ext::{bytes_view, Uuid};
use crate::laws::MemoryService;
use crate::repo::memory::InMemoryObjectRepo;
use crate::repo::{ContentRepo, ObjectRepo};
use crate::service::first_uploaded;
use crate::status::refusal;
use crate::store::{no_such_blob, InMemoryObjectStore, ObjectStore};
use crate::types::Object;

verus! {

/// Whether `id` is the smallest id of a live and uploaded object of the content.
pub open spec fn is_first_uploaded(
    objects: InMemoryObjectRepo,
    content_id: Uuid,
    id: Uuid,
) -> bool {
    &&& objects.has_of(id, content_id)
    &&& objects.rows()[id].status is Uploaded
    &&& forall|other: Uuid| #[trigger]
        objects.has_of(other, content_id) && objects.rows()[other].status is Uploaded ==> id
            <= other
}

/// The elements that a filter keeps are elements that it was given.
pub(crate) proof fn lemma_first_of_filter(s: Seq<Object>, keep: spec_fn(Object) -> bool, k: int)
    requires
        0 <= k < s.len(),
        keep(s[k]),
        forall|i: int| 0 <= i < k ==> !keep(#[trigger] s[i]),
    ensures
        s.filter(keep).len() > 0,
        s.filter(keep)[0] == s[k],
    decreases s.len(),
{
    reveal(Seq::filter);
    if k == s.len() - 1 {
        lemma_filter_of_none(s.drop_last(), keep);
    } else {
        lemma_first_of_filter(s.drop_last(), keep, k);
    }
}

/// A filter that fits nothing keeps nothing.
pub(crate) proof fn lemma_filter_of_none(s: Seq<Object>, keep: spec_fn(Object) -> bool)
    requires
        forall|i: int| 0 <= i < s.len() ==> !keep(#[trigger] s[i]),
    ensures
        s.filter(keep).len() == 0,
    decreases s.len(),
{
    reveal(Seq::filter);
    if s.len() > 0 {
        lemma_filter_of_none(s.drop_last(), keep);
    }
}

/// Where some live object of a content is uploaded, one of them is the first.
pub proof fn law_some_uploaded_object_is_first(
    objects: InMemoryObjectRepo,
    content_id: Uuid,
    some: Uuid,
) -> (first: Uuid)
    requires
        objects.has_of(some, content_id),
        objects.rows()[some].status is Uploaded,
    ensures
        first <= some,
        is_first_uploaded(objects, content_id, first),
    decreases some,
{
    if exists|id: Uuid| #[trigger]
        objects.has_of(id, content_id) && objects.rows()[id].status is Uploaded && id < some {
        let id = choose|id: Uuid| #[trigger]
            objects.has_of(id, content_id) && objects.rows()[id].status is Uploaded && id < some;
        law_some_uploaded_object_is_first(objects, content_id, id)
    } else {
        some
    }
}

/// Of the live objects of a content, a download takes the uploaded one with
/// the smallest id.
pub proof fn law_download_takes_the_first_uploaded<S: ObjectStore, K: Clock>(
    s: MemoryService<S, K>,
    content_id: Uuid,
    first: Uuid,
    r: Result<Bytes, ContentError>,
)
    requires
        s.contents().has(content_id),
        s.contents().rows()[content_id].status.downloadable(),
        is_first_uploaded(s.objects(), content_id, first),
        s.downloads(content_id, r),
    ensures
        s.store().downloads(s.objects().rows()[first].object_key@, r),
{
    let uploaded = |o: Object| o.status is Uploaded;
    let listed = choose|listed: Result<Vec<Object>, ContentError>| #[trigger]
        s.objects().lists_by_content(content_id, listed) && match listed {
            Err(e) => r == Err::<Bytes, ContentError>(e),
            Ok(objects) => match first_uploaded(objects@) {
                None => r == Err::<Bytes, ContentError>(ContentError::NotFound),
                Some(object) => s.store().downloads(object.object_key@, r),
            },
        };
    let out = listed->Ok_0@;
    let k = choose|k: int| 0 <= k < out.len() && (#[trigger] out[k]).id == first;
    assert forall|i: int| 0 <= i < k implies !uploaded(#[trigger] out[i]) by {
        assert(s.objects().has_of(out[i].id, content_id));
        assert(out[i].id < out[k].id);
    }
    lemma_first_of_filter(out, uploaded, k);
}

/// What a download answers: `NotFound` for a content that is not there,
/// `NotReady` for one whose state forbids it, `NotFound` for one without an
/// uploaded object, else what the store has under the key of the first one.
pub proof fn law_download_answers<K: Clock>(
    s: MemoryService<InMemoryObjectStore, K>,
    content_id: Uuid,
    r: Result<Bytes, ContentError>,
)
    requires
        s.downloads(content_id, r),
    ensures
        !s.contents().has(content_id) ==> r == Err::<Bytes, ContentError>(ContentError::NotFound),
        s.contents().has(content_id) ==> {
            let status = s.contents().rows()[content_id].status;
            &&& !status.downloadable() ==> (r matches Err(ContentError::NotReady(detail))
                && detail@ == refusal("content not downloadable"@, status.name()))
            &&& status.downloadable() && (forall|id: Uuid| #[trigger]
                s.objects().has_of(id, content_id) ==> !(s.objects().rows()[id].status
                    is Uploaded)) ==> r == Err::<Bytes, ContentError>(ContentError::NotFound)
            &&& forall|id: Uuid| #[trigger]
                is_first_uploaded(s.objects(), content_id, id) && status.downloadable() ==> {
                    let key = s.objects().rows()[id].object_key@;
                    if s.store().blobs().contains_key(key) {
                        r matches Ok(data) && bytes_view(data) == bytes_view(
                            s.store().blobs()[key].data,
                        )
                    } else {
                        r matches Err(e) && no_such_blob(e)
                    }
                }
        },
{
    if s.contents().has(content_id) && s.contents().rows()[content_id].status.downloadable() {
        if forall|id: Uuid| #[trigger]
            s.objects().has_of(id, content_id) ==> !(s.objects().rows()[id].status is Uploaded) {
            let uploaded = |o: Object| o.status is Uploaded;
            let listed = choose|listed: Result<Vec<Object>, ContentError>| #[trigger]
                s.objects().lists_by_content(content_id, listed) && match listed {
                    Err(e) => r == Err::<Bytes, ContentError>(e),
                    Ok(objects) => match first_uploaded(objects@) {
                        None => r == Err::<Bytes, ContentError>(ContentError::NotFound),
                        Some(object) => s.store().downloads(object.object_key@, r),
                    },
                };
            lemma_filter_of_none(listed->Ok_0@, uploaded);
        }
        assert forall|id: Uuid| #[trigger]
            is_first_uploaded(s.objects(), content_id, id) implies s.store().downloads(
            s.objects().rows()[id].object_key@,
            r,
        ) by {
            law_download_takes_the_first_uploaded(s, content_id, id, r);
        }
    }
}

} // verus!
