//! What holds of the repositories in memory across calls.

use std::collections::HashMap;

use vstd::prelude::*;

use crate::error::ContentError;
use crate::ext::Uuid;
use crate::repo::memory::{
    key_taken, law_create_keeps_keys_unique, InMemoryContentRepo, InMemoryObjectRepo,
};
use crate::repo::{ContentRepo, NewContent, NewObject, ObjectRepo};
use crate::status::{ContentStatus, ObjectStatus};
use crate::types::{Content, ContentMetadata, Object, ObjectMetadata};

verus! {

/// A created content can be read as it was answered, and is `Created`.
pub proof fn law_created_content_is_there(
    pre: InMemoryContentRepo,
    c: NewContent,
    by: Option<String>,
    post: InMemoryContentRepo,
    r: Result<Content, ContentError>,
    g: Result<Content, ContentError>,
)
    requires
        InMemoryContentRepo::creates(pre, c, by, post, r),
        post.gets(r->Ok_0.id, g),
    ensures
        r is Ok,
        g == r,
        r->Ok_0.status is Created,
        r->Ok_0.created_at == r->Ok_0.updated_at,
{
}

/// A hidden content is there for no read and for no write.
pub proof fn law_hidden_content_is_gone(
    pre: InMemoryContentRepo,
    id: Uuid,
    by: Option<String>,
    post: InMemoryContentRepo,
    r: Result<(), ContentError>,
)
    requires
        InMemoryContentRepo::soft_deletes(pre, id, by, post, r),
    ensures
        !post.has(id),
        forall|g: Result<Content, ContentError>| #[trigger]
            post.gets(id, g) ==> g == Err::<Content, ContentError>(ContentError::NotFound),
        forall|ids: Seq<Uuid>, g: Result<Vec<Content>, ContentError>| #[trigger]
            post.gets_many(ids, g) ==> forall|i: int|
                0 <= i < g->Ok_0@.len() ==> (#[trigger] g->Ok_0@[i]).id != id,
        forall|owner: Uuid, tenant: Uuid, g: Result<Vec<Content>, ContentError>| #[trigger]
            post.lists(owner, tenant, g) ==> forall|i: int|
                0 <= i < g->Ok_0@.len() ==> (#[trigger] g->Ok_0@[i]).id != id,
        forall|
            c: Content,
            x: Option<String>,
            end: InMemoryContentRepo,
            g: Result<Content, ContentError>,
        | #[trigger]
            InMemoryContentRepo::updates(post, c, x, end, g) && c.id == id ==> g == Err::<
                Content,
                ContentError,
            >(ContentError::NotFound) && end.rows() == post.rows(),
        forall|
            s: ContentStatus,
            x: Option<String>,
            end: InMemoryContentRepo,
            g: Result<(), ContentError>,
        | #[trigger]
            InMemoryContentRepo::sets_status(post, id, s, x, end, g) ==> g == Err::<
                (),
                ContentError,
            >(ContentError::NotFound) && end.rows() == post.rows(),
        forall|x: Option<String>, end: InMemoryContentRepo, g: Result<(), ContentError>| #[trigger]
            InMemoryContentRepo::soft_deletes(post, id, x, end, g) ==> g == Err::<
                (),
                ContentError,
            >(ContentError::NotFound) && end.rows() == post.rows(),
{
    assert forall|ids: Seq<Uuid>, g: Result<Vec<Content>, ContentError>| #[trigger]
        post.gets_many(ids, g) implies forall|i: int|
        0 <= i < g->Ok_0@.len() ==> (#[trigger] g->Ok_0@[i]).id != id by {
        let live = |k: Uuid| post.has(k);
        let kept = ids.filter(live);
        assert forall|i: int| 0 <= i < g->Ok_0@.len() implies (#[trigger] g->Ok_0@[i]).id != id by {
            ids.lemma_filter_pred(live, i);
            assert(live(kept[i]));
        }
    }
}

/// Hiding a content leaves every other row, and all metadata, as they are.
pub proof fn law_hiding_touches_one_content(
    pre: InMemoryContentRepo,
    id: Uuid,
    by: Option<String>,
    post: InMemoryContentRepo,
    r: Result<(), ContentError>,
    other: Uuid,
    g: Result<Content, ContentError>,
)
    requires
        InMemoryContentRepo::soft_deletes(pre, id, by, post, r),
        other != id,
    ensures
        post.gets(other, g) <==> pre.gets(other, g),
        post.metadata() == pre.metadata(),
{
}

/// An update replaces the four editable fields. The id, the tenant, the owner,
/// the state, the derivation and the instant of creation stay.
pub proof fn law_update_keeps_the_rest(
    pre: InMemoryContentRepo,
    c: Content,
    by: Option<String>,
    post: InMemoryContentRepo,
    r: Result<Content, ContentError>,
    g: Result<Content, ContentError>,
)
    requires
        InMemoryContentRepo::updates(pre, c, by, post, r),
        pre.has(c.id),
        post.gets(c.id, g),
    ensures
        g == r,
        r matches Ok(e) && {
            let before = pre.rows()[c.id].entity(c.id);
            e == Content {
                owner_type: c.owner_type,
                name: c.name,
                description: c.description,
                document_type: c.document_type,
                updated_at: e.updated_at,
                ..before
            }
        },
{
}

/// A state that is set can be read, and nothing else of the content has changed.
pub proof fn law_set_status_is_read_back(
    pre: InMemoryContentRepo,
    id: Uuid,
    status: ContentStatus,
    by: Option<String>,
    post: InMemoryContentRepo,
    r: Result<(), ContentError>,
    g: Result<Content, ContentError>,
)
    requires
        InMemoryContentRepo::sets_status(pre, id, status, by, post, r),
        pre.has(id),
        post.gets(id, g),
    ensures
        r is Ok,
        g matches Ok(e) && e == (Content {
            status,
            updated_at: e.updated_at,
            ..pre.rows()[id].entity(id)
        }),
{
}

/// A listed content belongs to the owner and the tenant that were asked for,
/// and is what a read of its id answers. Every content that a read answers is
/// listed under its owner and tenant.
pub proof fn law_list_agrees_with_get(
    s: InMemoryContentRepo,
    owner: Uuid,
    tenant: Uuid,
    r: Result<Vec<Content>, ContentError>,
)
    requires
        s.lists(owner, tenant, r),
    ensures
        r is Ok,
        forall|i: int|
            0 <= i < r->Ok_0@.len() ==> {
                let c = #[trigger] r->Ok_0@[i];
                c.owner_id == owner && c.tenant_id == tenant && s.gets(
                    c.id,
                    Ok::<Content, ContentError>(c),
                )
            },
        forall|id: Uuid, g: Result<Content, ContentError>| #[trigger]
            s.gets(id, g) && g is Ok && g->Ok_0.owner_id == owner && g->Ok_0.tenant_id == tenant
                ==> r->Ok_0@.contains(g->Ok_0),
{
    assert forall|id: Uuid, g: Result<Content, ContentError>| #[trigger]
        s.gets(id, g) && g is Ok && g->Ok_0.owner_id == owner && g->Ok_0.tenant_id
            == tenant implies r->Ok_0@.contains(g->Ok_0) by {
        assert(s.has_of(id, owner, tenant));
        let i = choose|i: int| 0 <= i < r->Ok_0@.len() && (#[trigger] r->Ok_0@[i]).id == id;
        assert(r->Ok_0@[i] == g->Ok_0);
    }
}

/// Metadata that is set twice is the later one, as old as the first.
pub proof fn law_later_content_metadata_wins(
    a: InMemoryContentRepo,
    m1: ContentMetadata,
    b: InMemoryContentRepo,
    r1: Result<(), ContentError>,
    g1: Result<ContentMetadata, ContentError>,
    m2: ContentMetadata,
    c: InMemoryContentRepo,
    r2: Result<(), ContentError>,
    g2: Result<ContentMetadata, ContentError>,
)
    requires
        InMemoryContentRepo::sets_metadata(a, m1, b, r1),
        b.gets_metadata(m1.content_id, g1),
        InMemoryContentRepo::sets_metadata(b, m2, c, r2),
        m1.content_id == m2.content_id,
        c.gets_metadata(m2.content_id, g2),
    ensures
        r1 is Ok,
        r2 is Ok,
        g1 matches Ok(e) && e.same(
            ContentMetadata { created_at: e.created_at, updated_at: e.updated_at, ..m1 },
        ),
        g2 matches Ok(e) && e.same(
            ContentMetadata { created_at: g1->Ok_0.created_at, updated_at: e.updated_at, ..m2 },
        ),
        c.rows() == a.rows(),
{
}

/// Setting the metadata of a content leaves that of the others as it is.
pub proof fn law_content_metadata_is_independent(
    pre: InMemoryContentRepo,
    m: ContentMetadata,
    post: InMemoryContentRepo,
    r: Result<(), ContentError>,
    other: Uuid,
    g: Result<ContentMetadata, ContentError>,
)
    requires
        InMemoryContentRepo::sets_metadata(pre, m, post, r),
        other != m.content_id,
    ensures
        post.gets_metadata(other, g) <==> pre.gets_metadata(other, g),
{
}

/// Reading the metadata of many agrees with reading that of each.
pub proof fn law_metadata_many_agrees_with_one(
    s: InMemoryContentRepo,
    ids: Seq<Uuid>,
    r: Result<HashMap<Uuid, ContentMetadata>, ContentError>,
    id: Uuid,
    g: Result<ContentMetadata, ContentError>,
)
    requires
        s.gets_metadata_many(ids, r),
        ids.contains(id),
        s.gets_metadata(id, g),
    ensures
        r is Ok,
        match g {
            Ok(m) => r->Ok_0@.contains_key(id) && r->Ok_0@[id].same(m),
            Err(_) => !r->Ok_0@.contains_key(id),
        },
{
}

/// A created object can be read by its id and by its key, and is `Created`.
pub proof fn law_created_object_is_there(
    pre: InMemoryObjectRepo,
    o: NewObject,
    by: Option<String>,
    post: InMemoryObjectRepo,
    r: Result<Object, ContentError>,
    g: Result<Object, ContentError>,
    k: Result<Object, ContentError>,
)
    requires
        pre.well_formed(),
        InMemoryObjectRepo::creates(pre, o, by, post, r),
        r is Ok,
        post.gets(r->Ok_0.id, g),
        post.gets_by_key(o.object_key@, o.storage_backend_name@, k),
    ensures
        g == r,
        k == r,
        r->Ok_0.status is Created,
        r->Ok_0.version == 1,
{
    let id = r->Ok_0.id;
    assert(post.has_key(id, o.object_key@, o.storage_backend_name@));
    let found = k->Ok_0.id;
    if found != id {
        assert(pre.has_key(found, o.object_key@, o.storage_backend_name@));
    }
}

/// No operation gives two live objects of a backend the same key.
pub proof fn law_keys_stay_unique(
    pre: InMemoryObjectRepo,
    post: InMemoryObjectRepo,
    o: NewObject,
    id: Uuid,
    status: ObjectStatus,
    by: Option<String>,
    m: ObjectMetadata,
    made: Result<Object, ContentError>,
    done: Result<(), ContentError>,
)
    requires
        pre.well_formed(),
        InMemoryObjectRepo::creates(pre, o, by, post, made) || InMemoryObjectRepo::sets_status(
            pre,
            id,
            status,
            by,
            post,
            done,
        ) || InMemoryObjectRepo::soft_deletes(pre, id, by, post, done)
            || InMemoryObjectRepo::sets_metadata(pre, m, post, done),
    ensures
        post.well_formed(),
{
    if InMemoryObjectRepo::creates(pre, o, by, post, made) && made is Ok {
        let e = made->Ok_0;
        law_create_keeps_keys_unique(pre, o, e.id, e.created_at, post);
    } else {
        assert(forall|a: Uuid| #[trigger] post.has(a) ==> pre.has(a));
    }
}

/// A key has at most one live object in a backend, so that all reads by key agree.
pub proof fn law_key_names_one_object(
    s: InMemoryObjectRepo,
    key: Seq<char>,
    backend: Seq<char>,
    a: Result<Object, ContentError>,
    b: Result<Object, ContentError>,
)
    requires
        s.well_formed(),
        s.gets_by_key(key, backend, a),
        s.gets_by_key(key, backend, b),
    ensures
        a == b,
{
    if s.taken(key, backend) {
        assert(s.has(a->Ok_0.id) && s.has(b->Ok_0.id));
    }
}

/// A second live object under the same key of the same backend is refused, and
/// the refusal changes nothing.
pub proof fn law_second_object_under_a_key_is_refused(
    a: InMemoryObjectRepo,
    o1: NewObject,
    by1: Option<String>,
    b: InMemoryObjectRepo,
    r1: Result<Object, ContentError>,
    o2: NewObject,
    by2: Option<String>,
    c: InMemoryObjectRepo,
    r2: Result<Object, ContentError>,
)
    requires
        InMemoryObjectRepo::creates(a, o1, by1, b, r1),
        r1 is Ok,
        InMemoryObjectRepo::creates(b, o2, by2, c, r2),
        o1.object_key@ == o2.object_key@,
        o1.storage_backend_name@ == o2.storage_backend_name@,
    ensures
        r2 matches Err(e) && key_taken(e),
        c.rows() == b.rows(),
        c.metadata() == b.metadata(),
{
    assert(b.has_key(r1->Ok_0.id, o2.object_key@, o2.storage_backend_name@));
}

/// Hiding an object frees its key.
pub proof fn law_hiding_frees_the_key(
    pre: InMemoryObjectRepo,
    id: Uuid,
    by: Option<String>,
    post: InMemoryObjectRepo,
    r: Result<(), ContentError>,
    o: NewObject,
    by2: Option<String>,
    end: InMemoryObjectRepo,
    r2: Result<Object, ContentError>,
)
    requires
        pre.well_formed(),
        pre.has_key(id, o.object_key@, o.storage_backend_name@),
        InMemoryObjectRepo::soft_deletes(pre, id, by, post, r),
        InMemoryObjectRepo::creates(post, o, by2, end, r2),
    ensures
        r is Ok,
        r2 is Ok,
{
    if post.taken(o.object_key@, o.storage_backend_name@) {
        let holder = choose|k: Uuid| #[trigger]
            post.has_key(k, o.object_key@, o.storage_backend_name@);
        assert(pre.has(holder) && pre.has(id));
    }
}

/// A hidden object is there for no read and for no write.
pub proof fn law_hidden_object_is_gone(
    pre: InMemoryObjectRepo,
    id: Uuid,
    by: Option<String>,
    post: InMemoryObjectRepo,
    r: Result<(), ContentError>,
)
    requires
        InMemoryObjectRepo::soft_deletes(pre, id, by, post, r),
    ensures
        !post.has(id),
        forall|g: Result<Object, ContentError>| #[trigger]
            post.gets(id, g) ==> g == Err::<Object, ContentError>(ContentError::NotFound),
        forall|content_id: Uuid, g: Result<Vec<Object>, ContentError>| #[trigger]
            post.lists_by_content(content_id, g) ==> forall|i: int|
                0 <= i < g->Ok_0@.len() ==> (#[trigger] g->Ok_0@[i]).id != id,
        forall|key: Seq<char>, backend: Seq<char>, g: Result<Object, ContentError>| #[trigger]
            post.gets_by_key(key, backend, g) && g is Ok ==> g->Ok_0.id != id,
        forall|
            s: ObjectStatus,
            x: Option<String>,
            end: InMemoryObjectRepo,
            g: Result<(), ContentError>,
        | #[trigger]
            InMemoryObjectRepo::sets_status(post, id, s, x, end, g) ==> g == Err::<
                (),
                ContentError,
            >(ContentError::NotFound) && end.rows() == post.rows(),
        forall|x: Option<String>, end: InMemoryObjectRepo, g: Result<(), ContentError>| #[trigger]
            InMemoryObjectRepo::soft_deletes(post, id, x, end, g) ==> g == Err::<
                (),
                ContentError,
            >(ContentError::NotFound) && end.rows() == post.rows(),
{
}

/// A listed object belongs to the content and is what a read of its id answers.
/// Every object that a read answers is listed under its content.
pub proof fn law_object_list_agrees_with_get(
    s: InMemoryObjectRepo,
    content_id: Uuid,
    r: Result<Vec<Object>, ContentError>,
)
    requires
        s.lists_by_content(content_id, r),
    ensures
        r is Ok,
        forall|i: int|
            0 <= i < r->Ok_0@.len() ==> {
                let o = #[trigger] r->Ok_0@[i];
                o.content_id == content_id && s.gets(o.id, Ok::<Object, ContentError>(o))
            },
        forall|id: Uuid, g: Result<Object, ContentError>| #[trigger]
            s.gets(id, g) && g is Ok && g->Ok_0.content_id == content_id
                ==> r->Ok_0@.contains(g->Ok_0),
{
    assert forall|id: Uuid, g: Result<Object, ContentError>| #[trigger]
        s.gets(id, g) && g is Ok && g->Ok_0.content_id == content_id implies r->Ok_0@.contains(
        g->Ok_0,
    ) by {
        assert(s.has_of(id, content_id));
        let i = choose|i: int| 0 <= i < r->Ok_0@.len() && (#[trigger] r->Ok_0@[i]).id == id;
        assert(r->Ok_0@[i] == g->Ok_0);
    }
}

/// A state that is set can be read, and nothing else of the object has changed.
pub proof fn law_set_object_status_is_read_back(
    pre: InMemoryObjectRepo,
    id: Uuid,
    status: ObjectStatus,
    by: Option<String>,
    post: InMemoryObjectRepo,
    r: Result<(), ContentError>,
    g: Result<Object, ContentError>,
)
    requires
        InMemoryObjectRepo::sets_status(pre, id, status, by, post, r),
        pre.has(id),
        post.gets(id, g),
    ensures
        r is Ok,
        g matches Ok(e) && e == (Object {
            status,
            updated_at: e.updated_at,
            ..pre.rows()[id].entity(id)
        }),
{
}

/// Object metadata that is set twice is the later one, as old as the first.
pub proof fn law_later_object_metadata_wins(
    a: InMemoryObjectRepo,
    m1: ObjectMetadata,
    b: InMemoryObjectRepo,
    r1: Result<(), ContentError>,
    g1: Result<ObjectMetadata, ContentError>,
    m2: ObjectMetadata,
    c: InMemoryObjectRepo,
    r2: Result<(), ContentError>,
    g2: Result<ObjectMetadata, ContentError>,
)
    requires
        InMemoryObjectRepo::sets_metadata(a, m1, b, r1),
        b.gets_metadata(m1.object_id, g1),
        InMemoryObjectRepo::sets_metadata(b, m2, c, r2),
        m1.object_id == m2.object_id,
        c.gets_metadata(m2.object_id, g2),
    ensures
        r1 is Ok,
        r2 is Ok,
        g1 matches Ok(e) && e == (ObjectMetadata {
            created_at: e.created_at,
            updated_at: e.updated_at,
            ..m1
        }),
        g2 matches Ok(e) && e == (ObjectMetadata {
            created_at: g1->Ok_0.created_at,
            updated_at: e.updated_at,
            ..m2
        }),
        c.rows() == a.rows(),
{
}

} // verus!
