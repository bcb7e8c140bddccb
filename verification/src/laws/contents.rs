//! What a caller sees of the contents in memory: how the answers of several
//! calls relate.
//!
//! A law speaks of whatever the calls may answer. A repository that a call
//! changes is `old(repo)` before the call and `final(repo)` after it.

use std::collections::HashMap;

use vstd::prelude::*;

use crate::error::ContentError;
use crate::ext::{is_v7, utc_offset, Uuid};
use crate::repo::memory::{ContentRow, InMemoryContentRepo};
use crate::repo::{ContentRepo, NewContent};
use crate::status::ContentStatus;
use crate::types::{Content, ContentMetadata};

verus! {

/// Whether two metadata say the same of a content, their instants aside.
pub open spec fn says_the_same(a: ContentMetadata, b: ContentMetadata) -> bool {
    &&& a.content_id == b.content_id
    &&& a.tags@ == b.tags@
    &&& a.file_size == b.file_size
    &&& a.file_name == b.file_name
    &&& a.mime_type == b.mime_type
    &&& a.checksum == b.checksum
    &&& a.checksum_algorithm == b.checksum_algorithm
    &&& a.metadata == b.metadata
}

/// Whether two reads of metadata answer the same.
pub open spec fn reads_the_same(
    a: Result<ContentMetadata, ContentError>,
    b: Result<ContentMetadata, ContentError>,
) -> bool {
    match (a, b) {
        (Ok(x), Ok(y)) => says_the_same(x, y) && x.created_at == y.created_at && x.updated_at
            == y.updated_at,
        (Err(x), Err(y)) => x == y,
        _ => false,
    }
}

/// A new repository holds nothing.
pub proof fn law_new_contents_are_empty(
    repo: InMemoryContentRepo,
    id: Uuid,
    g: Result<Content, ContentError>,
    m: Result<ContentMetadata, ContentError>,
)
    requires
        call_ensures(InMemoryContentRepo::new, (), repo),
        call_ensures(InMemoryContentRepo::get, (&repo, id), g),
        call_ensures(InMemoryContentRepo::get_metadata, (&repo, id), m),
    ensures
        g == Err::<Content, ContentError>(ContentError::NotFound),
        m == Err::<ContentMetadata, ContentError>(ContentError::NotFound),
        repo.in_order(),
{
}

/// A created content is answered with the fields that were given, `Created`, at
/// an instant in UTC; it is read back as answered; other contents and all
/// metadata read as before.
pub proof fn law_create_content_call(
    repo: &mut InMemoryContentRepo,
    n: NewContent,
    by: Option<String>,
    r: Result<Content, ContentError>,
    after: Result<Content, ContentError>,
    other: Uuid,
    other_before: Result<Content, ContentError>,
    other_after: Result<Content, ContentError>,
    m_before: Result<ContentMetadata, ContentError>,
    m_after: Result<ContentMetadata, ContentError>,
)
    requires
        call_ensures(InMemoryContentRepo::create, (repo, n, by), r),
        call_ensures(InMemoryContentRepo::get, (&*final(repo), r->Ok_0.id), after),
        call_ensures(InMemoryContentRepo::get, (&*old(repo), other), other_before),
        call_ensures(InMemoryContentRepo::get, (&*final(repo), other), other_after),
        call_ensures(InMemoryContentRepo::get_metadata, (&*old(repo), other), m_before),
        call_ensures(InMemoryContentRepo::get_metadata, (&*final(repo), other), m_after),
    ensures
        r is Ok,
        after == r,
        is_v7(r->Ok_0.id),
        r->Ok_0.tenant_id == n.tenant_id,
        r->Ok_0.owner_id == n.owner_id,
        r->Ok_0.owner_type == n.owner_type,
        r->Ok_0.name == n.name,
        r->Ok_0.description == n.description,
        r->Ok_0.document_type == n.document_type,
        r->Ok_0.derivation_type == n.derivation_type,
        r->Ok_0.status is Created,
        utc_offset(r->Ok_0.created_at) == 0,
        r->Ok_0.updated_at == r->Ok_0.created_at,
        other != r->Ok_0.id ==> other_after == other_before,
        reads_the_same(m_before, m_after),
        old(repo).in_order() ==> final(repo).in_order() && (other_before is Ok ==> other
            < r->Ok_0.id),
{
    let e = r->Ok_0;
    if old(repo).in_order() {
        assert forall|id: Uuid| #[trigger] final(repo).rows().contains_key(id) implies id
            <= e.id by {
            if id != e.id {
                assert(old(repo).rows().contains_key(id));
            }
        }
    }
}

/// A content that is created under a given id and instant is answered with
/// these and with the fields that were given.
pub proof fn law_create_content_at_call(
    repo: &mut InMemoryContentRepo,
    n: NewContent,
    id: Uuid,
    now: time::OffsetDateTime,
    e: Content,
    after: Result<Content, ContentError>,
)
    requires
        call_ensures(InMemoryContentRepo::create_at, (repo, n, id, now), e),
        call_ensures(InMemoryContentRepo::get, (&*final(repo), id), after),
    ensures
        after == Ok::<Content, ContentError>(e),
        e.id == id,
        e.tenant_id == n.tenant_id,
        e.owner_id == n.owner_id,
        e.owner_type == n.owner_type,
        e.name == n.name,
        e.description == n.description,
        e.document_type == n.document_type,
        e.derivation_type == n.derivation_type,
        e.status is Created,
        e.created_at == now,
        e.updated_at == now,
{
}

/// An update of a content that is there answers the four editable fields as
/// given and everything else as it was, stamped at an instant in UTC whatever
/// the stamp was before; the answer is what is read afterwards. Of one that is
/// not there it answers `NotFound`. Other contents and all metadata read as
/// before.
pub proof fn law_update_content_call(
    repo: &mut InMemoryContentRepo,
    c: Content,
    by: Option<String>,
    r: Result<Content, ContentError>,
    before: Result<Content, ContentError>,
    after: Result<Content, ContentError>,
    other: Uuid,
    other_before: Result<Content, ContentError>,
    other_after: Result<Content, ContentError>,
    m_before: Result<ContentMetadata, ContentError>,
    m_after: Result<ContentMetadata, ContentError>,
)
    requires
        call_ensures(InMemoryContentRepo::update, (repo, &c, by), r),
        call_ensures(InMemoryContentRepo::get, (&*old(repo), c.id), before),
        call_ensures(InMemoryContentRepo::get, (&*final(repo), c.id), after),
        call_ensures(InMemoryContentRepo::get, (&*old(repo), other), other_before),
        call_ensures(InMemoryContentRepo::get, (&*final(repo), other), other_after),
        call_ensures(InMemoryContentRepo::get_metadata, (&*old(repo), other), m_before),
        call_ensures(InMemoryContentRepo::get_metadata, (&*final(repo), other), m_after),
    ensures
        after == r,
        r is Ok <==> before is Ok,
        before is Err ==> r == Err::<Content, ContentError>(ContentError::NotFound),
        r is Ok ==> {
            let e = r->Ok_0;
            let b = before->Ok_0;
            &&& e.owner_type == c.owner_type
            &&& e.name == c.name
            &&& e.description == c.description
            &&& e.document_type == c.document_type
            &&& e.id == b.id
            &&& e.tenant_id == b.tenant_id
            &&& e.owner_id == b.owner_id
            &&& e.status == b.status
            &&& e.derivation_type == b.derivation_type
            &&& e.created_at == b.created_at
            &&& utc_offset(e.updated_at) == 0
        },
        other != c.id ==> other_after == other_before,
        reads_the_same(m_before, m_after),
{
}

/// The stamp of an update depends on no stamp that was there: what one update
/// may answer and leave behind, the same update may answer and leave behind
/// where the row, or the content that is handed over, bore any other
/// `updated_at`.
pub proof fn law_update_stamp_is_its_own(
    pre: InMemoryContentRepo,
    c: Content,
    by: Option<String>,
    post: InMemoryContentRepo,
    r: Result<Content, ContentError>,
    pre2: InMemoryContentRepo,
    c2: Content,
    stamp: time::OffsetDateTime,
    given: time::OffsetDateTime,
)
    requires
        InMemoryContentRepo::updates(pre, c, by, post, r),
        pre.rows().contains_key(c.id),
        pre2.rows() == pre.rows().insert(
            c.id,
            (ContentRow { updated_at: stamp, ..pre.rows()[c.id] }),
        ),
        pre2.metadata() == pre.metadata(),
        pre2.last_minted() == pre.last_minted(),
        c2 == (Content { updated_at: given, ..c }),
    ensures
        r is Ok ==> InMemoryContentRepo::updates(pre2, c2, by, post, r),
        r matches Ok(e) ==> utc_offset(e.updated_at) == 0,
{
    if r is Ok {
        assert(post.rows() =~= pre2.rows().insert(c.id, post.rows()[c.id]));
    }
}

/// A state that is set on a content that is there is read back, stamped at an
/// instant in UTC, with everything else as it was. Of one that is not there the
/// answer is `NotFound`. Other contents and all metadata read as before.
pub proof fn law_set_content_status_call(
    repo: &mut InMemoryContentRepo,
    id: Uuid,
    status: ContentStatus,
    by: Option<String>,
    r: Result<(), ContentError>,
    before: Result<Content, ContentError>,
    after: Result<Content, ContentError>,
    other: Uuid,
    other_before: Result<Content, ContentError>,
    other_after: Result<Content, ContentError>,
    m_before: Result<ContentMetadata, ContentError>,
    m_after: Result<ContentMetadata, ContentError>,
)
    requires
        call_ensures(InMemoryContentRepo::set_status, (repo, id, status, by), r),
        call_ensures(InMemoryContentRepo::get, (&*old(repo), id), before),
        call_ensures(InMemoryContentRepo::get, (&*final(repo), id), after),
        call_ensures(InMemoryContentRepo::get, (&*old(repo), other), other_before),
        call_ensures(InMemoryContentRepo::get, (&*final(repo), other), other_after),
        call_ensures(InMemoryContentRepo::get_metadata, (&*old(repo), other), m_before),
        call_ensures(InMemoryContentRepo::get_metadata, (&*final(repo), other), m_after),
    ensures
        r is Ok <==> before is Ok,
        before is Err ==> r == Err::<(), ContentError>(ContentError::NotFound) && after == before,
        before is Ok ==> {
            let e = after->Ok_0;
            let b = before->Ok_0;
            &&& after is Ok
            &&& e.status == status
            &&& utc_offset(e.updated_at) == 0
            &&& e.id == b.id
            &&& e.tenant_id == b.tenant_id
            &&& e.owner_id == b.owner_id
            &&& e.owner_type == b.owner_type
            &&& e.name == b.name
            &&& e.description == b.description
            &&& e.document_type == b.document_type
            &&& e.derivation_type == b.derivation_type
            &&& e.created_at == b.created_at
        },
        other != id ==> other_after == other_before,
        reads_the_same(m_before, m_after),
{
}

/// The stamp of a change of state depends on no stamp that was there.
pub proof fn law_content_status_stamp_is_its_own(
    pre: InMemoryContentRepo,
    id: Uuid,
    status: ContentStatus,
    by: Option<String>,
    post: InMemoryContentRepo,
    r: Result<(), ContentError>,
    pre2: InMemoryContentRepo,
    stamp: time::OffsetDateTime,
)
    requires
        InMemoryContentRepo::sets_status(pre, id, status, by, post, r),
        pre.rows().contains_key(id),
        pre2.rows() == pre.rows().insert(
            id,
            (ContentRow { updated_at: stamp, ..pre.rows()[id] }),
        ),
        pre2.metadata() == pre.metadata(),
        pre2.last_minted() == pre.last_minted(),
    ensures
        r is Ok ==> InMemoryContentRepo::sets_status(pre2, id, status, by, post, r),
{
    if r is Ok {
        assert(post.rows() =~= pre2.rows().insert(id, post.rows()[id]));
    }
}

/// A content that is hidden is read no more, and its row stays otherwise as it
/// was, with an instant in UTC at which it was hidden. Hiding one that is not
/// there answers `NotFound`. Other contents and all metadata read as before.
pub proof fn law_hide_content_call(
    repo: &mut InMemoryContentRepo,
    id: Uuid,
    by: Option<String>,
    r: Result<(), ContentError>,
    before: Result<Content, ContentError>,
    after: Result<Content, ContentError>,
    other: Uuid,
    other_before: Result<Content, ContentError>,
    other_after: Result<Content, ContentError>,
    m_before: Result<ContentMetadata, ContentError>,
    m_after: Result<ContentMetadata, ContentError>,
)
    requires
        call_ensures(InMemoryContentRepo::soft_delete, (repo, id, by), r),
        call_ensures(InMemoryContentRepo::get, (&*old(repo), id), before),
        call_ensures(InMemoryContentRepo::get, (&*final(repo), id), after),
        call_ensures(InMemoryContentRepo::get, (&*old(repo), other), other_before),
        call_ensures(InMemoryContentRepo::get, (&*final(repo), other), other_after),
        call_ensures(InMemoryContentRepo::get_metadata, (&*old(repo), other), m_before),
        call_ensures(InMemoryContentRepo::get_metadata, (&*final(repo), other), m_after),
    ensures
        r is Ok <==> before is Ok,
        before is Err ==> r == Err::<(), ContentError>(ContentError::NotFound),
        after == Err::<Content, ContentError>(ContentError::NotFound),
        r is Ok ==> {
            let a = old(repo).rows()[id];
            let b = final(repo).rows()[id];
            &&& b.deleted_at matches Some(now)
            &&& utc_offset(now) == 0
            &&& b.tenant_id == a.tenant_id
            &&& b.owner_id == a.owner_id
            &&& b.owner_type == a.owner_type
            &&& b.name == a.name
            &&& b.description == a.description
            &&& b.document_type == a.document_type
            &&& b.status == a.status
            &&& b.derivation_type == a.derivation_type
            &&& b.created_at == a.created_at
            &&& b.updated_at == a.updated_at
        },
        other != id ==> other_after == other_before,
        reads_the_same(m_before, m_after),
{
}

/// Metadata that is set is read back as given, its instants aside: it is stamped
/// in UTC, and as old as what it replaced, if anything. The metadata of other
/// contents, and all contents, read as before.
pub proof fn law_set_content_metadata_call(
    repo: &mut InMemoryContentRepo,
    m: ContentMetadata,
    r: Result<(), ContentError>,
    before: Result<ContentMetadata, ContentError>,
    after: Result<ContentMetadata, ContentError>,
    other: Uuid,
    other_before: Result<ContentMetadata, ContentError>,
    other_after: Result<ContentMetadata, ContentError>,
    c_before: Result<Content, ContentError>,
    c_after: Result<Content, ContentError>,
)
    requires
        call_ensures(InMemoryContentRepo::set_metadata, (repo, m), r),
        call_ensures(InMemoryContentRepo::get_metadata, (&*old(repo), m.content_id), before),
        call_ensures(InMemoryContentRepo::get_metadata, (&*final(repo), m.content_id), after),
        call_ensures(InMemoryContentRepo::get_metadata, (&*old(repo), other), other_before),
        call_ensures(InMemoryContentRepo::get_metadata, (&*final(repo), other), other_after),
        call_ensures(InMemoryContentRepo::get, (&*old(repo), other), c_before),
        call_ensures(InMemoryContentRepo::get, (&*final(repo), other), c_after),
    ensures
        r is Ok,
        after is Ok,
        says_the_same(after->Ok_0, m),
        utc_offset(after->Ok_0.updated_at) == 0,
        after->Ok_0.created_at == (if before is Ok {
            before->Ok_0.created_at
        } else {
            after->Ok_0.updated_at
        }),
        other != m.content_id ==> reads_the_same(other_before, other_after),
        c_after == c_before,
{
}

/// The instants that metadata comes with make no difference.
pub proof fn law_content_metadata_stamps_are_its_own(
    pre: InMemoryContentRepo,
    m: ContentMetadata,
    post: InMemoryContentRepo,
    r: Result<(), ContentError>,
    created_at: time::OffsetDateTime,
    updated_at: time::OffsetDateTime,
)
    requires
        InMemoryContentRepo::sets_metadata(pre, m, post, r),
    ensures
        InMemoryContentRepo::sets_metadata(
            pre,
            ContentMetadata { created_at, updated_at, ..m },
            post,
            r,
        ),
{
}

/// Reading many follows the ids: one more id adds what reading it answers, at
/// the end, or nothing where it is not there. No id, no content.
pub proof fn law_get_contents_call(
    repo: InMemoryContentRepo,
    ids: &[Uuid],
    r: Result<Vec<Content>, ContentError>,
    id: Uuid,
    more: &[Uuid],
    r_more: Result<Vec<Content>, ContentError>,
    g: Result<Content, ContentError>,
)
    requires
        call_ensures(InMemoryContentRepo::get_many, (&repo, ids), r),
        call_ensures(InMemoryContentRepo::get_many, (&repo, more), r_more),
        call_ensures(InMemoryContentRepo::get, (&repo, id), g),
        more@ == ids@.push(id),
    ensures
        r is Ok,
        ids@.len() == 0 ==> r->Ok_0@.len() == 0,
        r_more is Ok,
        g matches Ok(c) ==> r_more->Ok_0@ == r->Ok_0@.push(c),
        g is Err ==> r_more->Ok_0@ == r->Ok_0@,
{
    let live = |k: Uuid| repo.has(k);
    let entity = |k: Uuid| repo.rows()[k].entity(k);
    reveal(Seq::filter);
    assert(more@.drop_last() =~= ids@);
    assert(more@.last() == id);
    if repo.has(id) {
        assert(more@.filter(live) =~= ids@.filter(live).push(id));
        assert(more@.filter(live).map_values(entity) =~= ids@.filter(live).map_values(
            entity,
        ).push(entity(id)));
    } else {
        assert(more@.filter(live) =~= ids@.filter(live));
    }
}

/// A list holds, largest id first and each once, exactly the contents of the
/// owner in the tenant that a read of their ids answers.
pub proof fn law_list_contents_call(
    repo: InMemoryContentRepo,
    owner: Uuid,
    tenant: Uuid,
    r: Result<Vec<Content>, ContentError>,
    i: int,
    gi: Result<Content, ContentError>,
    id: Uuid,
    g: Result<Content, ContentError>,
)
    requires
        call_ensures(InMemoryContentRepo::list, (&repo, owner, tenant), r),
        0 <= i < r->Ok_0@.len() ==> call_ensures(
            InMemoryContentRepo::get,
            (&repo, r->Ok_0@[i].id),
            gi,
        ),
        call_ensures(InMemoryContentRepo::get, (&repo, id), g),
    ensures
        r is Ok,
        forall|a: int, b: int|
            0 <= a < b < r->Ok_0@.len() ==> (#[trigger] r->Ok_0@[a]).id
                > (#[trigger] r->Ok_0@[b]).id,
        0 <= i < r->Ok_0@.len() ==> {
            let c = r->Ok_0@[i];
            gi == Ok::<Content, ContentError>(c) && c.owner_id == owner && c.tenant_id == tenant
        },
        g matches Ok(c) && c.owner_id == owner && c.tenant_id == tenant ==> r->Ok_0@.contains(
            g->Ok_0,
        ),
{
    let out = r->Ok_0@;
    if 0 <= i < out.len() {
        assert(repo.has_of(out[i].id, owner, tenant));
    }
    if g is Ok && g->Ok_0.owner_id == owner && g->Ok_0.tenant_id == tenant {
        assert(repo.has_of(id, owner, tenant));
        let k = choose|k: int| 0 <= k < out.len() && (#[trigger] out[k]).id == id;
        assert(out[k] == g->Ok_0);
    }
}

/// Reading the metadata of many answers, for an id among them, what reading it
/// alone answers, and nothing for any other id.
pub proof fn law_get_metadata_many_call(
    repo: InMemoryContentRepo,
    ids: &[Uuid],
    r: Result<HashMap<Uuid, ContentMetadata>, ContentError>,
    id: Uuid,
    g: Result<ContentMetadata, ContentError>,
)
    requires
        call_ensures(InMemoryContentRepo::get_metadata_many, (&repo, ids), r),
        call_ensures(InMemoryContentRepo::get_metadata, (&repo, id), g),
    ensures
        r is Ok,
        r->Ok_0@.contains_key(id) <==> ids@.contains(id) && g is Ok,
        r->Ok_0@.contains_key(id) ==> reads_the_same(Ok(r->Ok_0@[id]), g),
{
}

/// An update at a given instant: the four editable fields and the instant are
/// those given, the rest is as it was.
pub proof fn law_update_content_at_call(
    repo: &mut InMemoryContentRepo,
    c: Content,
    now: time::OffsetDateTime,
    r: Result<Content, ContentError>,
    before: Result<Content, ContentError>,
    after: Result<Content, ContentError>,
    other: Uuid,
    other_before: Result<Content, ContentError>,
    other_after: Result<Content, ContentError>,
)
    requires
        call_ensures(InMemoryContentRepo::update_at, (repo, &c, now), r),
        call_ensures(InMemoryContentRepo::get, (&*old(repo), c.id), before),
        call_ensures(InMemoryContentRepo::get, (&*final(repo), c.id), after),
        call_ensures(InMemoryContentRepo::get, (&*old(repo), other), other_before),
        call_ensures(InMemoryContentRepo::get, (&*final(repo), other), other_after),
    ensures
        after == r,
        r is Ok <==> before is Ok,
        before is Err ==> r == Err::<Content, ContentError>(ContentError::NotFound),
        r is Ok ==> {
            let e = r->Ok_0;
            let b = before->Ok_0;
            &&& e.updated_at == now
            &&& e.owner_type == c.owner_type
            &&& e.name == c.name
            &&& e.description == c.description
            &&& e.document_type == c.document_type
            &&& e.id == b.id
            &&& e.tenant_id == b.tenant_id
            &&& e.owner_id == b.owner_id
            &&& e.status == b.status
            &&& e.derivation_type == b.derivation_type
            &&& e.created_at == b.created_at
        },
        other != c.id ==> other_after == other_before,
        final(repo).metadata() == old(repo).metadata(),
{
}

/// A state that is set at a given instant: the state and the instant are those
/// given, the rest is as it was.
pub proof fn law_set_content_status_at_call(
    repo: &mut InMemoryContentRepo,
    id: Uuid,
    status: ContentStatus,
    now: time::OffsetDateTime,
    r: Result<(), ContentError>,
    before: Result<Content, ContentError>,
    after: Result<Content, ContentError>,
    other: Uuid,
    other_before: Result<Content, ContentError>,
    other_after: Result<Content, ContentError>,
)
    requires
        call_ensures(InMemoryContentRepo::set_status_at, (repo, id, status, now), r),
        call_ensures(InMemoryContentRepo::get, (&*old(repo), id), before),
        call_ensures(InMemoryContentRepo::get, (&*final(repo), id), after),
        call_ensures(InMemoryContentRepo::get, (&*old(repo), other), other_before),
        call_ensures(InMemoryContentRepo::get, (&*final(repo), other), other_after),
    ensures
        r is Ok <==> before is Ok,
        before is Err ==> r == Err::<(), ContentError>(ContentError::NotFound) && after == before,
        before is Ok ==> {
            let e = after->Ok_0;
            let b = before->Ok_0;
            &&& after is Ok
            &&& e.status == status
            &&& e.updated_at == now
            &&& e.id == b.id
            &&& e.tenant_id == b.tenant_id
            &&& e.owner_id == b.owner_id
            &&& e.owner_type == b.owner_type
            &&& e.name == b.name
            &&& e.description == b.description
            &&& e.document_type == b.document_type
            &&& e.derivation_type == b.derivation_type
            &&& e.created_at == b.created_at
        },
        other != id ==> other_after == other_before,
        final(repo).metadata() == old(repo).metadata(),
{
}

/// A content that is hidden at a given instant is read no more.
pub proof fn law_hide_content_at_call(
    repo: &mut InMemoryContentRepo,
    id: Uuid,
    now: time::OffsetDateTime,
    r: Result<(), ContentError>,
    before: Result<Content, ContentError>,
    after: Result<Content, ContentError>,
    other: Uuid,
    other_before: Result<Content, ContentError>,
    other_after: Result<Content, ContentError>,
)
    requires
        call_ensures(InMemoryContentRepo::soft_delete_at, (repo, id, now), r),
        call_ensures(InMemoryContentRepo::get, (&*old(repo), id), before),
        call_ensures(InMemoryContentRepo::get, (&*final(repo), id), after),
        call_ensures(InMemoryContentRepo::get, (&*old(repo), other), other_before),
        call_ensures(InMemoryContentRepo::get, (&*final(repo), other), other_after),
    ensures
        r is Ok <==> before is Ok,
        before is Err ==> r == Err::<(), ContentError>(ContentError::NotFound),
        after == Err::<Content, ContentError>(ContentError::NotFound),
        r is Ok ==> final(repo).rows()[id].deleted_at == Some(now),
        other != id ==> other_after == other_before,
        final(repo).metadata() == old(repo).metadata(),
{
}

/// Metadata that is set at a given instant is read back, stamped with it, and as
/// old as what it replaced, if anything.
pub proof fn law_set_content_metadata_at_call(
    repo: &mut InMemoryContentRepo,
    m: ContentMetadata,
    now: time::OffsetDateTime,
    before: Result<ContentMetadata, ContentError>,
    after: Result<ContentMetadata, ContentError>,
    other: Uuid,
    other_before: Result<ContentMetadata, ContentError>,
    other_after: Result<ContentMetadata, ContentError>,
)
    requires
        call_ensures(InMemoryContentRepo::set_metadata_at, (repo, m, now), ()),
        call_ensures(InMemoryContentRepo::get_metadata, (&*old(repo), m.content_id), before),
        call_ensures(InMemoryContentRepo::get_metadata, (&*final(repo), m.content_id), after),
        call_ensures(InMemoryContentRepo::get_metadata, (&*old(repo), other), other_before),
        call_ensures(InMemoryContentRepo::get_metadata, (&*final(repo), other), other_after),
    ensures
        after is Ok,
        says_the_same(after->Ok_0, m),
        after->Ok_0.updated_at == now,
        after->Ok_0.created_at == (if before is Ok {
            before->Ok_0.created_at
        } else {
            now
        }),
        other != m.content_id ==> reads_the_same(other_before, other_after),
        final(repo).rows() == old(repo).rows(),
{
}

/// A clone of metadata is equal to it, field by field.
pub proof fn law_cloned_metadata_says_the_same(m: ContentMetadata, c: ContentMetadata)
    requires
        call_ensures(ContentMetadata::clone, (&m,), c),
    ensures
        says_the_same(c, m),
        c.created_at == m.created_at,
        c.updated_at == m.updated_at,
{
}

} // verus!
