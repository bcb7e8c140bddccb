//! What holds of the service across calls.

use vstd::prelude::*;

use crate::clock::Clock;
use crate::error::ContentError;
use crate::ext::{utc_offset, Uuid};
use crate::input::{CreateContentInput, SetContentMetadataInput, UpdateContentInput};
use crate::laws::MemoryService;
use crate::repo::{ContentRepo, ObjectRepo};
use crate::service::{derivation_or_original, group_ports, ContentService};
use crate::status::ContentStatus;
use crate::store::ObjectStore;
use crate::types::{Content, ContentMetadata};

verus! {

/// Creating a content never fails in memory, and the content can be read as it
/// was answered: `Created`, with what the input says, "original" unless the
/// input says otherwise.
pub proof fn law_create_then_get<S: ObjectStore, K: Clock>(
    pre: MemoryService<S, K>,
    input: CreateContentInput,
    by: Option<String>,
    post: MemoryService<S, K>,
    r: Result<Content, ContentError>,
    g: Result<Content, ContentError>,
)
    requires
        MemoryService::<S, K>::creates(pre, input, by, post, r),
        post.contents().gets(r->Ok_0.id, g),
    ensures
        r is Ok,
        g == r,
        ({
            let c = r->Ok_0;
            &&& c.status is Created
            &&& c.tenant_id == input.tenant_id
            &&& c.owner_id == input.owner_id
            &&& c.owner_type == input.owner_type
            &&& c.name == input.name
            &&& c.description == input.description
            &&& c.document_type == input.document_type
            &&& derivation_or_original(input.derivation_type, c.derivation_type)
        }),
        post.objects() == pre.objects(),
        post.store() == pre.store(),
{
    broadcast use group_ports;

}

/// A content that is created and not uploaded cannot be downloaded yet.
pub proof fn law_created_content_is_not_ready<S: ObjectStore, K: Clock>(
    pre: MemoryService<S, K>,
    input: CreateContentInput,
    by: Option<String>,
    post: MemoryService<S, K>,
    r: Result<Content, ContentError>,
    d: Result<bytes::Bytes, ContentError>,
)
    requires
        MemoryService::<S, K>::creates(pre, input, by, post, r),
        post.downloads(r->Ok_0.id, d),
    ensures
        d matches Err(ContentError::NotReady(_)),
{
    broadcast use group_ports;

}

/// An update is read back, and changes the four editable fields alone; of a
/// content that is not there it answers `NotFound` and changes nothing.
pub proof fn law_update_then_get<S: ObjectStore, K: Clock>(
    pre: MemoryService<S, K>,
    id: Uuid,
    input: UpdateContentInput,
    by: Option<String>,
    post: MemoryService<S, K>,
    r: Result<Content, ContentError>,
    g: Result<Content, ContentError>,
)
    requires
        MemoryService::<S, K>::updates(pre, id, input, by, post, r),
        post.contents().gets(id, g),
    ensures
        g == r,
        if pre.contents().has(id) {
            r matches Ok(c) && c == (Content {
                owner_type: input.owner_type,
                name: input.name,
                description: input.description,
                document_type: input.document_type,
                updated_at: c.updated_at,
                ..pre.contents().rows()[id].entity(id)
            })
        } else {
            r == Err::<Content, ContentError>(ContentError::NotFound) && post == pre
        },
        post.objects() == pre.objects(),
        post.store() == pre.store(),
{
    broadcast use group_ports;

}

/// An update through the service is stamped at an instant in UTC, whatever stamp
/// the content bore before, and the stamp is read back.
pub proof fn law_update_is_stamped<S: ObjectStore, K: Clock>(
    s: &mut MemoryService<S, K>,
    id: Uuid,
    input: UpdateContentInput,
    by: Option<String>,
    r: Result<Content, ContentError>,
    before: Result<Content, ContentError>,
    after: Result<Content, ContentError>,
)
    requires
        call_ensures(MemoryService::<S, K>::update_content, (s, id, input, by), r),
        call_ensures(MemoryService::<S, K>::get_content, (&*old(s), id), before),
        call_ensures(MemoryService::<S, K>::get_content, (&*final(s), id), after),
    ensures
        r is Ok <==> before is Ok,
        after == r,
        r matches Ok(c) ==> utc_offset(c.updated_at) == 0 && c.created_at
            == before->Ok_0.created_at,
{
    broadcast use group_ports;

}

/// A deleted content can be neither read, nor updated, nor downloaded, nor
/// given metadata, nor deleted again. Its objects and all bytes stay.
pub proof fn law_deleted_content_is_gone<S: ObjectStore, K: Clock>(
    pre: MemoryService<S, K>,
    id: Uuid,
    by: Option<String>,
    post: MemoryService<S, K>,
    r: Result<(), ContentError>,
)
    requires
        post == pre.with_contents(post.contents()),
        <crate::repo::memory::InMemoryContentRepo as ContentRepo>::soft_deletes(
            pre.contents(),
            id,
            by,
            post.contents(),
            r,
        ),
    ensures
        r is Ok <==> pre.contents().has(id),
        !post.contents().has(id),
        forall|
            input: UpdateContentInput,
            x: Option<String>,
            end: MemoryService<S, K>,
            g: Result<Content, ContentError>,
        | #[trigger]
            MemoryService::<S, K>::updates(post, id, input, x, end, g) ==> g == Err::<
                Content,
                ContentError,
            >(ContentError::NotFound) && end == post,
        forall|d: Result<bytes::Bytes, ContentError>| #[trigger]
            post.downloads(id, d) ==> d == Err::<bytes::Bytes, ContentError>(
                ContentError::NotFound,
            ),
        forall|
            input: SetContentMetadataInput,
            end: MemoryService<S, K>,
            g: Result<(), ContentError>,
        | #[trigger]
            MemoryService::<S, K>::sets_metadata(post, input, end, g) && input.content_id == id
                ==> g == Err::<(), ContentError>(ContentError::NotFound) && end == post,
        post.objects() == pre.objects(),
        post.store() == pre.store(),
{
    broadcast use group_ports;

}

/// Metadata that is set on a live content is read back; the instants are the
/// repository's, and what was there before keeps its `created_at`.
pub proof fn law_metadata_is_read_back<S: ObjectStore, K: Clock>(
    pre: MemoryService<S, K>,
    input: SetContentMetadataInput,
    post: MemoryService<S, K>,
    r: Result<(), ContentError>,
    g: Result<ContentMetadata, ContentError>,
)
    requires
        MemoryService::<S, K>::sets_metadata(pre, input, post, r),
        post.contents().gets_metadata(input.content_id, g),
    ensures
        r is Ok <==> pre.contents().has(input.content_id),
        r is Ok ==> (g matches Ok(m) && {
            &&& m.content_id == input.content_id
            &&& m.tags@ == input.tags@
            &&& m.file_size == input.file_size
            &&& m.file_name == input.file_name
            &&& m.mime_type == input.mime_type
            &&& m.checksum == input.checksum
            &&& m.checksum_algorithm == input.checksum_algorithm
            &&& m.metadata == input.metadata
            &&& pre.contents().metadata().contains_key(input.content_id) ==> m.created_at
                == pre.contents().metadata()[input.content_id].created_at
        }),
        r is Err ==> post == pre,
        post.contents().rows() == pre.contents().rows(),
{
    broadcast use group_ports;

}

/// Whatever the ports are, a content in a state that forbids it is not
/// downloaded: where the repository can answer such a content only, the answer
/// is `NotReady`, and the store is not asked.
pub proof fn law_guard_comes_before_the_store<
    C: ContentRepo,
    O: ObjectRepo,
    S: ObjectStore,
    K: Clock,
>(s: ContentService<C, O, S, K>, id: Uuid, d: Result<bytes::Bytes, ContentError>)
    requires
        s.downloads(id, d),
        forall|g: Result<Content, ContentError>| #[trigger]
            s.contents().gets(id, g) ==> g is Ok && !g->Ok_0.status.downloadable(),
    ensures
        d matches Err(ContentError::NotReady(_)),
{
}

/// A content whose state is set to one that allows it is downloaded as far as
/// its objects go; the guard follows the state that was set last.
pub proof fn law_guard_follows_the_state<S: ObjectStore, K: Clock>(
    pre: MemoryService<S, K>,
    id: Uuid,
    status: ContentStatus,
    by: Option<String>,
    post: MemoryService<S, K>,
    r: Result<(), ContentError>,
    d: Result<bytes::Bytes, ContentError>,
)
    requires
        pre.contents().has(id),
        post == pre.with_contents(post.contents()),
        <crate::repo::memory::InMemoryContentRepo as ContentRepo>::sets_status(
            pre.contents(),
            id,
            status,
            by,
            post.contents(),
            r,
        ),
        post.downloads(id, d),
    ensures
        r is Ok,
        status.downloadable() ==> pre.downloads_first(id, d),
        !status.downloadable() ==> d matches Err(ContentError::NotReady(_)),
{
    broadcast use group_ports;

}

} // verus!
