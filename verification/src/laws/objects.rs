//! What a caller sees of the objects in memory: how the answers of several
//! calls relate.
//!
//! A law speaks of whatever the calls may answer. A repository that a call
//! changes is `old(repo)` before the call and `final(repo)` after it.

use time::OffsetDateTime;
use vstd::prelude::*;

use crate::error::ContentError;
use crate::ext::{is_v7, utc_offset, Uuid};
use crate::repo::memory::{InMemoryObjectRepo, ObjectRow};
use crate::repo::{NewObject, ObjectRepo};
use crate::status::ObjectStatus;
use crate::types::{Object, ObjectMetadata};

verus! {

/// A new repository holds nothing.
pub proof fn law_new_objects_are_empty(
    repo: InMemoryObjectRepo,
    id: Uuid,
    g: Result<Object, ContentError>,
    key: &str,
    backend: &str,
    k: Result<Object, ContentError>,
    m: Result<ObjectMetadata, ContentError>,
)
    requires
        call_ensures(InMemoryObjectRepo::new, (), repo),
        call_ensures(InMemoryObjectRepo::get, (&repo, id), g),
        call_ensures(InMemoryObjectRepo::get_by_key, (&repo, key, backend), k),
        call_ensures(InMemoryObjectRepo::get_metadata, (&repo, id), m),
    ensures
        g == Err::<Object, ContentError>(ContentError::NotFound),
        k == Err::<Object, ContentError>(ContentError::NotFound),
        m == Err::<ObjectMetadata, ContentError>(ContentError::NotFound),
        repo.in_order(),
        repo.well_formed(),
{
}

/// Whether `e` has the fields of `n` and is at the beginning of its life.
pub open spec fn is_made_of(e: Object, n: NewObject) -> bool {
    &&& e.content_id == n.content_id
    &&& e.storage_backend_name == n.storage_backend_name
    &&& e.storage_class == n.storage_class
    &&& e.object_key == n.object_key
    &&& e.file_name == n.file_name
    &&& e.object_type == n.object_type
    &&& e.version == 1
    &&& e.status is Created
    &&& e.updated_at == e.created_at
}

/// Whether `e` reports a key that is taken already.
pub open spec fn says_taken(e: ContentError) -> bool {
    &&& e is Conflict
    &&& e->Conflict_0@ == "object_key already exists for storage backend"@
}

/// An object is created exactly where a read by its key and its backend finds
/// none: with the fields that were given, at an instant in UTC. It is then read
/// as answered, by its id and by its key. Else the answer is `Conflict` and
/// nothing changes. Other objects and all metadata read as before.
pub proof fn law_create_object_call(
    repo: &mut InMemoryObjectRepo,
    n: NewObject,
    by: Option<String>,
    r: Result<Object, ContentError>,
    key: &str,
    backend: &str,
    holder: Result<Object, ContentError>,
    after: Result<Object, ContentError>,
    found: Result<Object, ContentError>,
    other: Uuid,
    other_before: Result<Object, ContentError>,
    other_after: Result<Object, ContentError>,
    m_before: Result<ObjectMetadata, ContentError>,
    m_after: Result<ObjectMetadata, ContentError>,
)
    requires
        old(repo).well_formed(),
        call_ensures(InMemoryObjectRepo::create, (repo, n, by), r),
        key@ == n.object_key@,
        backend@ == n.storage_backend_name@,
        call_ensures(InMemoryObjectRepo::get_by_key, (&*old(repo), key, backend), holder),
        call_ensures(InMemoryObjectRepo::get, (&*final(repo), r->Ok_0.id), after),
        call_ensures(InMemoryObjectRepo::get_by_key, (&*final(repo), key, backend), found),
        call_ensures(InMemoryObjectRepo::get, (&*old(repo), other), other_before),
        call_ensures(InMemoryObjectRepo::get, (&*final(repo), other), other_after),
        call_ensures(InMemoryObjectRepo::get_metadata, (&*old(repo), other), m_before),
        call_ensures(InMemoryObjectRepo::get_metadata, (&*final(repo), other), m_after),
    ensures
        final(repo).well_formed(),
        holder is Ok ==> {
            &&& r is Err
            &&& says_taken(r->Err_0)
            &&& found == holder
            &&& other_after == other_before
        },
        holder is Err ==> {
            &&& r is Ok
            &&& is_v7(r->Ok_0.id)
            &&& is_made_of(r->Ok_0, n)
            &&& utc_offset(r->Ok_0.created_at) == 0
            &&& after == r
            &&& found == r
            &&& other != r->Ok_0.id ==> other_after == other_before
        },
        m_after == m_before,
        old(repo).in_order() ==> final(repo).in_order() && (r is Ok && other_before is Ok ==> other
            < r->Ok_0.id),
{
    if holder is Ok {
        assert(old(repo).has_key(holder->Ok_0.id, key@, backend@));
        assert(final(repo).has_key(holder->Ok_0.id, key@, backend@));
        assert(final(repo).has(holder->Ok_0.id) && final(repo).has(found->Ok_0.id));
    } else {
        assert(final(repo).has_key(r->Ok_0.id, key@, backend@));
        assert(final(repo).has(r->Ok_0.id) && final(repo).has(found->Ok_0.id));
        if old(repo).in_order() {
            assert forall|id: Uuid| #[trigger] final(repo).rows().contains_key(id) implies id
                <= r->Ok_0.id by {
                if id != r->Ok_0.id {
                    assert(old(repo).rows().contains_key(id));
                }
            }
        }
    }
}

/// An object that is created under a given id and instant is answered with these
/// and with the fields that were given, unless its key is taken.
pub proof fn law_create_object_at_call(
    repo: &mut InMemoryObjectRepo,
    n: NewObject,
    id: Uuid,
    now: OffsetDateTime,
    r: Result<Object, ContentError>,
    key: &str,
    backend: &str,
    holder: Result<Object, ContentError>,
    after: Result<Object, ContentError>,
)
    requires
        call_ensures(InMemoryObjectRepo::create_at, (repo, n, id, now), r),
        key@ == n.object_key@,
        backend@ == n.storage_backend_name@,
        call_ensures(InMemoryObjectRepo::get_by_key, (&*old(repo), key, backend), holder),
        call_ensures(InMemoryObjectRepo::get, (&*final(repo), id), after),
    ensures
        holder is Ok ==> r is Err && says_taken(r->Err_0) && final(repo).rows()
            == old(repo).rows(),
        holder is Err ==> {
            &&& r is Ok
            &&& after == r
            &&& r->Ok_0.id == id
            &&& r->Ok_0.created_at == now
            &&& is_made_of(r->Ok_0, n)
        },
        final(repo).metadata() == old(repo).metadata(),
{
}

/// Whether `e` is `b` but for its state and the instant of its last change.
pub open spec fn differs_in_state_only(e: Object, b: Object) -> bool {
    &&& e.id == b.id
    &&& e.content_id == b.content_id
    &&& e.storage_backend_name == b.storage_backend_name
    &&& e.storage_class == b.storage_class
    &&& e.object_key == b.object_key
    &&& e.file_name == b.file_name
    &&& e.version == b.version
    &&& e.object_type == b.object_type
    &&& e.created_at == b.created_at
}

/// A state that is set on an object that is there is read back, stamped at an
/// instant in UTC, with everything else as it was. Of one that is not there the
/// answer is `NotFound`. Other objects and all metadata read as before.
pub proof fn law_set_object_status_call(
    repo: &mut InMemoryObjectRepo,
    id: Uuid,
    status: ObjectStatus,
    by: Option<String>,
    r: Result<(), ContentError>,
    before: Result<Object, ContentError>,
    after: Result<Object, ContentError>,
    other: Uuid,
    other_before: Result<Object, ContentError>,
    other_after: Result<Object, ContentError>,
    m_before: Result<ObjectMetadata, ContentError>,
    m_after: Result<ObjectMetadata, ContentError>,
)
    requires
        call_ensures(InMemoryObjectRepo::set_status, (repo, id, status, by), r),
        call_ensures(InMemoryObjectRepo::get, (&*old(repo), id), before),
        call_ensures(InMemoryObjectRepo::get, (&*final(repo), id), after),
        call_ensures(InMemoryObjectRepo::get, (&*old(repo), other), other_before),
        call_ensures(InMemoryObjectRepo::get, (&*final(repo), other), other_after),
        call_ensures(InMemoryObjectRepo::get_metadata, (&*old(repo), other), m_before),
        call_ensures(InMemoryObjectRepo::get_metadata, (&*final(repo), other), m_after),
    ensures
        r is Ok <==> before is Ok,
        before is Err ==> r == Err::<(), ContentError>(ContentError::NotFound) && after == before,
        before is Ok ==> {
            &&& after is Ok
            &&& after->Ok_0.status == status
            &&& utc_offset(after->Ok_0.updated_at) == 0
            &&& differs_in_state_only(after->Ok_0, before->Ok_0)
        },
        other != id ==> other_after == other_before,
        m_after == m_before,
        old(repo).well_formed() ==> final(repo).well_formed(),
{
}

/// A state that is set at a given instant: the state and the instant are those
/// given, the rest is as it was.
pub proof fn law_set_object_status_at_call(
    repo: &mut InMemoryObjectRepo,
    id: Uuid,
    status: ObjectStatus,
    now: OffsetDateTime,
    r: Result<(), ContentError>,
    before: Result<Object, ContentError>,
    after: Result<Object, ContentError>,
    other: Uuid,
    other_before: Result<Object, ContentError>,
    other_after: Result<Object, ContentError>,
)
    requires
        call_ensures(InMemoryObjectRepo::set_status_at, (repo, id, status, now), r),
        call_ensures(InMemoryObjectRepo::get, (&*old(repo), id), before),
        call_ensures(InMemoryObjectRepo::get, (&*final(repo), id), after),
        call_ensures(InMemoryObjectRepo::get, (&*old(repo), other), other_before),
        call_ensures(InMemoryObjectRepo::get, (&*final(repo), other), other_after),
    ensures
        r is Ok <==> before is Ok,
        before is Err ==> r == Err::<(), ContentError>(ContentError::NotFound) && after == before,
        before is Ok ==> {
            &&& after is Ok
            &&& after->Ok_0.status == status
            &&& after->Ok_0.updated_at == now
            &&& differs_in_state_only(after->Ok_0, before->Ok_0)
        },
        other != id ==> other_after == other_before,
        final(repo).metadata() == old(repo).metadata(),
{
}

/// The stamp of a change of state depends on no stamp that was there.
pub proof fn law_object_status_stamp_is_its_own(
    pre: InMemoryObjectRepo,
    id: Uuid,
    status: ObjectStatus,
    by: Option<String>,
    post: InMemoryObjectRepo,
    r: Result<(), ContentError>,
    pre2: InMemoryObjectRepo,
    stamp: OffsetDateTime,
)
    requires
        InMemoryObjectRepo::sets_status(pre, id, status, by, post, r),
        pre.rows().contains_key(id),
        pre2.rows() == pre.rows().insert(id, (ObjectRow { updated_at: stamp, ..pre.rows()[id] })),
        pre2.metadata() == pre.metadata(),
        pre2.last_minted() == pre.last_minted(),
    ensures
        r is Ok ==> InMemoryObjectRepo::sets_status(pre2, id, status, by, post, r),
{
    if r is Ok {
        assert(post.rows() =~= pre2.rows().insert(id, post.rows()[id]));
    }
}

/// An object that is hidden is read no more, neither by its id nor by its key,
/// and its key is free again; its row stays otherwise as it was, with an instant
/// in UTC at which it was hidden. Hiding one that is not there answers
/// `NotFound`. Other objects and all metadata read as before.
pub proof fn law_hide_object_call(
    repo: &mut InMemoryObjectRepo,
    id: Uuid,
    by: Option<String>,
    r: Result<(), ContentError>,
    before: Result<Object, ContentError>,
    after: Result<Object, ContentError>,
    key: &str,
    backend: &str,
    found: Result<Object, ContentError>,
    other: Uuid,
    other_before: Result<Object, ContentError>,
    other_after: Result<Object, ContentError>,
    m_before: Result<ObjectMetadata, ContentError>,
    m_after: Result<ObjectMetadata, ContentError>,
)
    requires
        old(repo).well_formed(),
        call_ensures(InMemoryObjectRepo::soft_delete, (repo, id, by), r),
        call_ensures(InMemoryObjectRepo::get, (&*old(repo), id), before),
        call_ensures(InMemoryObjectRepo::get, (&*final(repo), id), after),
        call_ensures(InMemoryObjectRepo::get_by_key, (&*final(repo), key, backend), found),
        call_ensures(InMemoryObjectRepo::get, (&*old(repo), other), other_before),
        call_ensures(InMemoryObjectRepo::get, (&*final(repo), other), other_after),
        call_ensures(InMemoryObjectRepo::get_metadata, (&*old(repo), other), m_before),
        call_ensures(InMemoryObjectRepo::get_metadata, (&*final(repo), other), m_after),
    ensures
        final(repo).well_formed(),
        r is Ok <==> before is Ok,
        before is Err ==> r == Err::<(), ContentError>(ContentError::NotFound),
        after == Err::<Object, ContentError>(ContentError::NotFound),
        before is Ok && key@ == before->Ok_0.object_key@ && backend@
            == before->Ok_0.storage_backend_name@ ==> found == Err::<Object, ContentError>(
            ContentError::NotFound,
        ),
        r is Ok ==> {
            let a = old(repo).rows()[id];
            let b = final(repo).rows()[id];
            &&& b.deleted_at matches Some(now)
            &&& utc_offset(now) == 0
            &&& b.content_id == a.content_id
            &&& b.storage_backend_name == a.storage_backend_name
            &&& b.storage_class == a.storage_class
            &&& b.object_key == a.object_key
            &&& b.file_name == a.file_name
            &&& b.version == a.version
            &&& b.object_type == a.object_type
            &&& b.status == a.status
            &&& b.created_at == a.created_at
            &&& b.updated_at == a.updated_at
        },
        other != id ==> other_after == other_before,
        m_after == m_before,
{
    if found is Ok {
        assert(old(repo).has(found->Ok_0.id));
        assert(before is Ok ==> old(repo).has(id));
    }
}

/// An object that is hidden at a given instant is read no more.
pub proof fn law_hide_object_at_call(
    repo: &mut InMemoryObjectRepo,
    id: Uuid,
    now: OffsetDateTime,
    r: Result<(), ContentError>,
    before: Result<Object, ContentError>,
    after: Result<Object, ContentError>,
    other: Uuid,
    other_before: Result<Object, ContentError>,
    other_after: Result<Object, ContentError>,
)
    requires
        call_ensures(InMemoryObjectRepo::soft_delete_at, (repo, id, now), r),
        call_ensures(InMemoryObjectRepo::get, (&*old(repo), id), before),
        call_ensures(InMemoryObjectRepo::get, (&*final(repo), id), after),
        call_ensures(InMemoryObjectRepo::get, (&*old(repo), other), other_before),
        call_ensures(InMemoryObjectRepo::get, (&*final(repo), other), other_after),
    ensures
        r is Ok <==> before is Ok,
        before is Err ==> r == Err::<(), ContentError>(ContentError::NotFound),
        after == Err::<Object, ContentError>(ContentError::NotFound),
        r is Ok ==> final(repo).rows()[id].deleted_at == Some(now),
        other != id ==> other_after == other_before,
        final(repo).metadata() == old(repo).metadata(),
{
}

/// Whether two metadata say the same of an object, their instants aside.
pub open spec fn says_the_same(a: ObjectMetadata, b: ObjectMetadata) -> bool {
    &&& a.object_id == b.object_id
    &&& a.size_bytes == b.size_bytes
    &&& a.mime_type == b.mime_type
    &&& a.etag == b.etag
    &&& a.metadata == b.metadata
}

/// Metadata that is set is read back as given, its instants aside: it is stamped
/// in UTC, and as old as what it replaced, if anything. The metadata of other
/// objects, and all objects, read as before.
pub proof fn law_set_object_metadata_call(
    repo: &mut InMemoryObjectRepo,
    m: ObjectMetadata,
    r: Result<(), ContentError>,
    before: Result<ObjectMetadata, ContentError>,
    after: Result<ObjectMetadata, ContentError>,
    other: Uuid,
    other_before: Result<ObjectMetadata, ContentError>,
    other_after: Result<ObjectMetadata, ContentError>,
    o_before: Result<Object, ContentError>,
    o_after: Result<Object, ContentError>,
)
    requires
        call_ensures(InMemoryObjectRepo::set_metadata, (repo, m), r),
        call_ensures(InMemoryObjectRepo::get_metadata, (&*old(repo), m.object_id), before),
        call_ensures(InMemoryObjectRepo::get_metadata, (&*final(repo), m.object_id), after),
        call_ensures(InMemoryObjectRepo::get_metadata, (&*old(repo), other), other_before),
        call_ensures(InMemoryObjectRepo::get_metadata, (&*final(repo), other), other_after),
        call_ensures(InMemoryObjectRepo::get, (&*old(repo), other), o_before),
        call_ensures(InMemoryObjectRepo::get, (&*final(repo), other), o_after),
    ensures
        r is Ok,
        after is Ok,
        says_the_same(after->Ok_0, m),
        utc_offset(after->Ok_0.updated_at) == 0,
        after->Ok_0.created_at == (if before is Ok {
            before->Ok_0.created_at
        } else {
            after->Ok_0.updated_at
        }),
        other != m.object_id ==> other_after == other_before,
        o_after == o_before,
        old(repo).well_formed() ==> final(repo).well_formed(),
{
}

/// Metadata that is set at a given instant is read back, stamped with it, and as
/// old as what it replaced, if anything.
pub proof fn law_set_object_metadata_at_call(
    repo: &mut InMemoryObjectRepo,
    m: ObjectMetadata,
    now: OffsetDateTime,
    before: Result<ObjectMetadata, ContentError>,
    after: Result<ObjectMetadata, ContentError>,
    other: Uuid,
    other_before: Result<ObjectMetadata, ContentError>,
    other_after: Result<ObjectMetadata, ContentError>,
)
    requires
        call_ensures(InMemoryObjectRepo::set_metadata_at, (repo, m, now), ()),
        call_ensures(InMemoryObjectRepo::get_metadata, (&*old(repo), m.object_id), before),
        call_ensures(InMemoryObjectRepo::get_metadata, (&*final(repo), m.object_id), after),
        call_ensures(InMemoryObjectRepo::get_metadata, (&*old(repo), other), other_before),
        call_ensures(InMemoryObjectRepo::get_metadata, (&*final(repo), other), other_after),
    ensures
        after is Ok,
        says_the_same(after->Ok_0, m),
        after->Ok_0.updated_at == now,
        after->Ok_0.created_at == (if before is Ok {
            before->Ok_0.created_at
        } else {
            now
        }),
        other != m.object_id ==> other_after == other_before,
        final(repo).rows() == old(repo).rows(),
{
}

/// The instants that metadata comes with make no difference.
pub proof fn law_object_metadata_stamps_are_its_own(
    pre: InMemoryObjectRepo,
    m: ObjectMetadata,
    post: InMemoryObjectRepo,
    r: Result<(), ContentError>,
    created_at: OffsetDateTime,
    updated_at: OffsetDateTime,
)
    requires
        InMemoryObjectRepo::sets_metadata(pre, m, post, r),
    ensures
        InMemoryObjectRepo::sets_metadata(
            pre,
            ObjectMetadata { created_at, updated_at, ..m },
            post,
            r,
        ),
{
}

/// A list holds, smallest id first and each once, exactly the objects of the
/// content that a read of their ids answers.
pub proof fn law_list_objects_call(
    repo: InMemoryObjectRepo,
    content_id: Uuid,
    r: Result<Vec<Object>, ContentError>,
    i: int,
    gi: Result<Object, ContentError>,
    id: Uuid,
    g: Result<Object, ContentError>,
)
    requires
        call_ensures(InMemoryObjectRepo::list_by_content, (&repo, content_id), r),
        0 <= i < r->Ok_0@.len() ==> call_ensures(
            InMemoryObjectRepo::get,
            (&repo, r->Ok_0@[i].id),
            gi,
        ),
        call_ensures(InMemoryObjectRepo::get, (&repo, id), g),
    ensures
        r is Ok,
        forall|a: int, b: int|
            0 <= a < b < r->Ok_0@.len() ==> (#[trigger] r->Ok_0@[a]).id
                < (#[trigger] r->Ok_0@[b]).id,
        0 <= i < r->Ok_0@.len() ==> gi == Ok::<Object, ContentError>(r->Ok_0@[i])
            && r->Ok_0@[i].content_id == content_id,
        g matches Ok(o) && o.content_id == content_id ==> r->Ok_0@.contains(g->Ok_0),
{
    let out = r->Ok_0@;
    if 0 <= i < out.len() {
        assert(repo.has_of(out[i].id, content_id));
    }
    if g is Ok && g->Ok_0.content_id == content_id {
        assert(repo.has_of(id, content_id));
        let k = choose|k: int| 0 <= k < out.len() && (#[trigger] out[k]).id == id;
        assert(out[k] == g->Ok_0);
    }
}

/// A read by key and backend finds an object that has both, as a read of its id
/// answers it; where it finds none, no id is read with both.
pub proof fn law_get_object_by_key_call(
    repo: InMemoryObjectRepo,
    key: &str,
    backend: &str,
    k: Result<Object, ContentError>,
    g: Result<Object, ContentError>,
    id: Uuid,
    other: Result<Object, ContentError>,
)
    requires
        call_ensures(InMemoryObjectRepo::get_by_key, (&repo, key, backend), k),
        call_ensures(InMemoryObjectRepo::get, (&repo, k->Ok_0.id), g),
        call_ensures(InMemoryObjectRepo::get, (&repo, id), other),
    ensures
        k is Ok ==> {
            &&& g == k
            &&& k->Ok_0.object_key@ == key@
            &&& k->Ok_0.storage_backend_name@ == backend@
        },
        k is Err ==> {
            &&& k == Err::<Object, ContentError>(ContentError::NotFound)
            &&& other matches Ok(o) ==> o.object_key@ != key@ || o.storage_backend_name@
                != backend@
        },
{
    if k is Err && other is Ok {
        assert(!repo.has_key(id, key@, backend@));
    }
}

} // verus!
