//! What holds of the store in memory across calls.

use bytes::Bytes;
use vstd::prelude::*;

use crate::error::ContentError;
use crate::ext::bytes_view;
use crate::store::{no_such_blob, InMemoryObjectStore, ObjectMeta, ObjectStore, UploadParams};

verus! {

/// What is stored under a key can be read and described there.
pub proof fn law_store_gives_back(
    pre: InMemoryObjectStore,
    params: UploadParams,
    data: Bytes,
    post: InMemoryObjectStore,
    stored: Result<(), ContentError>,
    r: Result<Bytes, ContentError>,
    d: Result<ObjectMeta, ContentError>,
)
    requires
        InMemoryObjectStore::uploads(pre, params, data, post, stored),
        post.downloads(params.object_key@, r),
        post.describes(params.object_key@, d),
    ensures
        stored is Ok,
        r matches Ok(out) && bytes_view(out) == bytes_view(data),
        d matches Ok(meta) && meta.key@ == params.object_key@ && meta.size == bytes_view(data).len()
            as i64 && meta.content_type == params.mime_type,
{
}

/// A blob that is stored again is the later one.
pub proof fn law_store_overwrites(
    a: InMemoryObjectStore,
    p1: UploadParams,
    d1: Bytes,
    b: InMemoryObjectStore,
    r1: Result<(), ContentError>,
    p2: UploadParams,
    d2: Bytes,
    c: InMemoryObjectStore,
    r2: Result<(), ContentError>,
)
    requires
        InMemoryObjectStore::uploads(a, p1, d1, b, r1),
        InMemoryObjectStore::uploads(b, p2, d2, c, r2),
        p1.object_key@ == p2.object_key@,
    ensures
        InMemoryObjectStore::uploads(a, p2, d2, c, r2),
{
    assert(c.blobs() =~= a.blobs().insert(
        p2.object_key@,
        crate::store::Blob { data: d2, mime: p2.mime_type },
    ));
}

/// A removed blob is gone, and removing it again changes nothing.
pub proof fn law_store_forgets(
    a: InMemoryObjectStore,
    key: Seq<char>,
    b: InMemoryObjectStore,
    r1: Result<(), ContentError>,
    c: InMemoryObjectStore,
    r2: Result<(), ContentError>,
    r: Result<Bytes, ContentError>,
    d: Result<ObjectMeta, ContentError>,
)
    requires
        InMemoryObjectStore::deletes(a, key, b, r1),
        InMemoryObjectStore::deletes(b, key, c, r2),
        b.downloads(key, r),
        b.describes(key, d),
    ensures
        r1 is Ok,
        r2 is Ok,
        r matches Err(e) && no_such_blob(e),
        d matches Err(e) && no_such_blob(e),
        c.blobs() == b.blobs(),
{
    assert(c.blobs() =~= b.blobs());
}

/// Storing or removing a blob leaves the other keys as they are.
pub proof fn law_store_keys_are_independent(
    pre: InMemoryObjectStore,
    params: UploadParams,
    data: Bytes,
    stored: InMemoryObjectStore,
    r1: Result<(), ContentError>,
    removed: InMemoryObjectStore,
    r2: Result<(), ContentError>,
    other: Seq<char>,
    r: Result<Bytes, ContentError>,
)
    requires
        InMemoryObjectStore::uploads(pre, params, data, stored, r1),
        InMemoryObjectStore::deletes(pre, params.object_key@, removed, r2),
        other != params.object_key@,
    ensures
        stored.downloads(other, r) <==> pre.downloads(other, r),
        removed.downloads(other, r) <==> pre.downloads(other, r),
{
}

/// Whether `e` reports a key that has no blob.
pub open spec fn says_missing(e: ContentError) -> bool {
    &&& e is Storage
    &&& e->Storage_0@ == "object not found in store"@
}

/// Whether two reads of a blob answer the same.
pub open spec fn reads_the_same(
    a: Result<Bytes, ContentError>,
    b: Result<Bytes, ContentError>,
) -> bool {
    match (a, b) {
        (Ok(x), Ok(y)) => bytes_view(x) == bytes_view(y),
        (Err(x), Err(y)) => says_missing(x) && says_missing(y),
        _ => false,
    }
}

/// Whether two descriptions of a blob are the same.
pub open spec fn describes_the_same(
    a: Result<ObjectMeta, ContentError>,
    b: Result<ObjectMeta, ContentError>,
) -> bool {
    match (a, b) {
        (Ok(x), Ok(y)) => {
            &&& x.key@ == y.key@
            &&& x.size == y.size
            &&& x.content_type == y.content_type
            &&& x.etag == y.etag
            &&& x.updated_at == y.updated_at
        },
        (Err(x), Err(y)) => says_missing(x) && says_missing(y),
        _ => false,
    }
}

/// An empty store has a blob under no key.
pub proof fn law_new_store_is_empty(
    store: InMemoryObjectStore,
    key: &str,
    r: Result<Bytes, ContentError>,
    d: Result<ObjectMeta, ContentError>,
)
    requires
        call_ensures(InMemoryObjectStore::new, (), store),
        call_ensures(InMemoryObjectStore::download, (&store, key), r),
        call_ensures(InMemoryObjectStore::object_meta, (&store, key), d),
    ensures
        r is Err && says_missing(r->Err_0),
        d is Err && says_missing(d->Err_0),
{
}

/// Bytes that are stored are read back under their key, and described by their
/// number and the type that was given, without etag and instant. What other keys
/// answer stays the same.
pub proof fn law_upload_to_store_call(
    store: &mut InMemoryObjectStore,
    params: UploadParams,
    data: Bytes,
    stored: Result<(), ContentError>,
    key: &str,
    r: Result<Bytes, ContentError>,
    d: Result<ObjectMeta, ContentError>,
    r_before: Result<Bytes, ContentError>,
    d_before: Result<ObjectMeta, ContentError>,
)
    requires
        call_ensures(InMemoryObjectStore::upload, (store, params, data), stored),
        call_ensures(InMemoryObjectStore::download, (&*final(store), key), r),
        call_ensures(InMemoryObjectStore::object_meta, (&*final(store), key), d),
        call_ensures(InMemoryObjectStore::download, (&*old(store), key), r_before),
        call_ensures(InMemoryObjectStore::object_meta, (&*old(store), key), d_before),
    ensures
        stored is Ok,
        key@ == params.object_key@ ==> {
            &&& r is Ok
            &&& bytes_view(r->Ok_0) == bytes_view(data)
            &&& d is Ok
            &&& d->Ok_0.key@ == params.object_key@
            &&& d->Ok_0.size == bytes_view(data).len() as i64
            &&& d->Ok_0.content_type == params.mime_type
            &&& d->Ok_0.etag is None
            &&& d->Ok_0.updated_at is None
        },
        key@ != params.object_key@ ==> reads_the_same(r, r_before) && describes_the_same(
            d,
            d_before,
        ),
{
}

/// A blob that is removed is missing, whether or not it was there. What other
/// keys answer stays the same.
pub proof fn law_delete_from_store_call(
    store: &mut InMemoryObjectStore,
    removed: &str,
    deleted: Result<(), ContentError>,
    key: &str,
    r: Result<Bytes, ContentError>,
    d: Result<ObjectMeta, ContentError>,
    r_before: Result<Bytes, ContentError>,
    d_before: Result<ObjectMeta, ContentError>,
)
    requires
        call_ensures(InMemoryObjectStore::delete, (store, removed), deleted),
        call_ensures(InMemoryObjectStore::download, (&*final(store), key), r),
        call_ensures(InMemoryObjectStore::object_meta, (&*final(store), key), d),
        call_ensures(InMemoryObjectStore::download, (&*old(store), key), r_before),
        call_ensures(InMemoryObjectStore::object_meta, (&*old(store), key), d_before),
    ensures
        deleted is Ok,
        key@ == removed@ ==> {
            &&& r is Err && says_missing(r->Err_0)
            &&& d is Err && says_missing(d->Err_0)
        },
        key@ != removed@ ==> reads_the_same(r, r_before) && describes_the_same(d, d_before),
{
}

/// A blob is read exactly where it is described, by its number of bytes.
pub proof fn law_description_fits_the_blob(
    store: InMemoryObjectStore,
    key: &str,
    r: Result<Bytes, ContentError>,
    d: Result<ObjectMeta, ContentError>,
)
    requires
        call_ensures(InMemoryObjectStore::download, (&store, key), r),
        call_ensures(InMemoryObjectStore::object_meta, (&store, key), d),
    ensures
        r is Ok <==> d is Ok,
        r is Ok ==> d->Ok_0.size == bytes_view(r->Ok_0).len() as i64 && d->Ok_0.key@ == key@,
        r is Err ==> says_missing(r->Err_0) && says_missing(d->Err_0),
{
}

} // verus!
