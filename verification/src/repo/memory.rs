//! The repositories that keep their rows in memory.
//!
//! Each writing method comes twice: with the instant (and the id) as an
//! argument, and as the port has it, where it reads the clock and mints the id
//! itself.

use std::collections::HashMap;

use time::OffsetDateTime;
use vstd::prelude::*;

use super::order::{ascending, insert_ascending};
use super::{ContentRepo, NewContent, NewObject, ObjectRepo};
use crate::error::ContentError;
use crate::ext::{is_v7, last_id, mint, str_eq, utc_offset, Minted, Uuid};
use crate::status::{ContentStatus, ObjectStatus};
use crate::types::{Content, ContentMetadata, Object, ObjectMetadata};

verus! {

/// What the repository keeps of a content beside its id.
pub struct ContentRow {
    pub tenant_id: Uuid,
    pub owner_id: Uuid,
    pub owner_type: Option<String>,
    pub name: Option<String>,
    pub description: Option<String>,
    pub document_type: Option<String>,
    pub status: ContentStatus,
    pub derivation_type: Option<String>,
    pub created_at: OffsetDateTime,
    pub updated_at: OffsetDateTime,
    /// When a soft delete hid the row.
    pub deleted_at: Option<OffsetDateTime>,
}

impl ContentRow {
    /// No soft delete has hidden the row.
    pub open spec fn live(self) -> bool {
        self.deleted_at is None
    }

    /// The row of a new content.
    pub open spec fn fresh(c: NewContent, now: OffsetDateTime) -> ContentRow {
        ContentRow {
            tenant_id: c.tenant_id,
            owner_id: c.owner_id,
            owner_type: c.owner_type,
            name: c.name,
            description: c.description,
            document_type: c.document_type,
            status: ContentStatus::Created,
            derivation_type: c.derivation_type,
            created_at: now,
            updated_at: now,
            deleted_at: None,
        }
    }

    /// The row with the editable fields of `c`.
    pub open spec fn edited(self, c: Content, now: OffsetDateTime) -> ContentRow {
        ContentRow {
            owner_type: c.owner_type,
            name: c.name,
            description: c.description,
            document_type: c.document_type,
            updated_at: now,
            ..self
        }
    }

    /// The content that the row describes.
    pub open spec fn entity(self, id: Uuid) -> Content {
        Content {
            id,
            tenant_id: self.tenant_id,
            owner_id: self.owner_id,
            owner_type: self.owner_type,
            name: self.name,
            description: self.description,
            document_type: self.document_type,
            status: self.status,
            derivation_type: self.derivation_type,
            created_at: self.created_at,
            updated_at: self.updated_at,
        }
    }

    /// The content that the row describes.
    pub fn to_entity(&self, id: Uuid) -> (c: Content)
        ensures
            c == self.entity(id),
    {
        Content {
            id,
            tenant_id: self.tenant_id,
            owner_id: self.owner_id,
            owner_type: self.owner_type.clone(),
            name: self.name.clone(),
            description: self.description.clone(),
            document_type: self.document_type.clone(),
            status: self.status,
            derivation_type: self.derivation_type.clone(),
            created_at: self.created_at,
            updated_at: self.updated_at,
        }
    }
}

/// The metadata as the repository keeps it.
pub open spec fn stamped_content_metadata(
    m: ContentMetadata,
    created_at: OffsetDateTime,
    updated_at: OffsetDateTime,
) -> ContentMetadata {
    ContentMetadata { created_at, updated_at, ..m }
}

/// Contents in memory.
pub struct InMemoryContentRepo {
    contents: HashMap<Uuid, ContentRow>,
    metadata: HashMap<Uuid, ContentMetadata>,
    last: Option<Minted>,
}

impl InMemoryContentRepo {
    /// The rows by id, hidden ones included.
    pub closed spec fn rows(self) -> Map<Uuid, ContentRow> {
        self.contents@
    }

    /// The metadata by content.
    pub closed spec fn metadata(self) -> Map<Uuid, ContentMetadata> {
        self.metadata@
    }

    /// The id that was minted last.
    pub closed spec fn last_minted(self) -> Option<Uuid> {
        last_id(self.last)
    }

    /// No row has a larger id than the one that was minted last.
    pub open spec fn in_order(self) -> bool {
        forall|id: Uuid| #[trigger]
            self.rows().contains_key(id) ==> (self.last_minted() matches Some(last) && id <= last)
    }

    /// Whether `id` is the id of a live row.
    pub open spec fn has(self, id: Uuid) -> bool {
        self.rows().contains_key(id) && self.rows()[id].live()
    }

    /// Whether `id` is the id of a live row of the owner in the tenant.
    pub open spec fn has_of(self, id: Uuid, owner_id: Uuid, tenant_id: Uuid) -> bool {
        &&& self.has(id)
        &&& self.rows()[id].owner_id == owner_id
        &&& self.rows()[id].tenant_id == tenant_id
    }

    /// The repository without rows.
    pub fn new() -> (s: Self)
        ensures
            s.rows() == Map::<Uuid, ContentRow>::empty(),
            s.metadata() == Map::<Uuid, ContentMetadata>::empty(),
            s.last_minted() is None,
    {
        InMemoryContentRepo { contents: HashMap::new(), metadata: HashMap::new(), last: None }
    }

    /// Creates a content under a given id.
    pub fn create_at(&mut self, c: NewContent, id: Uuid, now: OffsetDateTime) -> (r: Content)
        ensures
            r == ContentRow::fresh(c, now).entity(id),
            final(self).rows() == old(self).rows().insert(id, ContentRow::fresh(c, now)),
            final(self).metadata() == old(self).metadata(),
            final(self).last_minted() == old(self).last_minted(),
    {
        let row = ContentRow {
            tenant_id: c.tenant_id,
            owner_id: c.owner_id,
            owner_type: c.owner_type,
            name: c.name,
            description: c.description,
            document_type: c.document_type,
            status: ContentStatus::Created,
            derivation_type: c.derivation_type,
            created_at: now,
            updated_at: now,
            deleted_at: None,
        };
        let entity = row.to_entity(id);
        self.contents.insert(id, row);
        entity
    }

    /// Replaces the editable fields of a live content.
    pub fn update_at(&mut self, c: &Content, now: OffsetDateTime) -> (r: Result<
        Content,
        ContentError,
    >)
        ensures
            final(self).metadata() == old(self).metadata(),
            final(self).last_minted() == old(self).last_minted(),
            if old(self).has(c.id) {
                let row = old(self).rows()[c.id].edited(*c, now);
                &&& r == Ok::<Content, ContentError>(row.entity(c.id))
                &&& final(self).rows() == old(self).rows().insert(c.id, row)
            } else {
                &&& r == Err::<Content, ContentError>(ContentError::NotFound)
                &&& final(self).rows() == old(self).rows()
            },
    {
        match self.contents.remove(&c.id) {
            Some(row) if row.deleted_at.is_none() => {
                let row = ContentRow {
                    owner_type: c.owner_type.clone(),
                    name: c.name.clone(),
                    description: c.description.clone(),
                    document_type: c.document_type.clone(),
                    updated_at: now,
                    ..row
                };
                let entity = row.to_entity(c.id);
                self.contents.insert(c.id, row);
                assert(self.rows() =~= old(self).rows().insert(
                    c.id,
                    old(self).rows()[c.id].edited(*c, now),
                ));
                Ok(entity)
            },
            Some(row) => {
                self.contents.insert(c.id, row);
                assert(self.rows() =~= old(self).rows());
                Err(ContentError::NotFound)
            },
            None => {
                assert(self.rows() =~= old(self).rows());
                Err(ContentError::NotFound)
            },
        }
    }

    /// Sets the state of a live content.
    pub fn set_status_at(&mut self, id: Uuid, status: ContentStatus, now: OffsetDateTime) -> (r:
        Result<(), ContentError>)
        ensures
            final(self).metadata() == old(self).metadata(),
            final(self).last_minted() == old(self).last_minted(),
            if old(self).has(id) {
                &&& r == Ok::<(), ContentError>(())
                &&& final(self).rows() == old(self).rows().insert(
                    id,
                    (ContentRow { status, updated_at: now, ..old(self).rows()[id] }),
                )
            } else {
                &&& r == Err::<(), ContentError>(ContentError::NotFound)
                &&& final(self).rows() == old(self).rows()
            },
    {
        match self.contents.remove(&id) {
            Some(row) if row.deleted_at.is_none() => {
                self.contents.insert(id, ContentRow { status, updated_at: now, ..row });
                assert(self.rows() =~= old(self).rows().insert(
                    id,
                    ContentRow { status, updated_at: now, ..old(self).rows()[id] },
                ));
                Ok(())
            },
            Some(row) => {
                self.contents.insert(id, row);
                assert(self.rows() =~= old(self).rows());
                Err(ContentError::NotFound)
            },
            None => {
                assert(self.rows() =~= old(self).rows());
                Err(ContentError::NotFound)
            },
        }
    }

    /// Hides a live content.
    pub fn soft_delete_at(&mut self, id: Uuid, now: OffsetDateTime) -> (r: Result<
        (),
        ContentError,
    >)
        ensures
            final(self).metadata() == old(self).metadata(),
            final(self).last_minted() == old(self).last_minted(),
            if old(self).has(id) {
                &&& r == Ok::<(), ContentError>(())
                &&& final(self).rows() == old(self).rows().insert(
                    id,
                    (ContentRow { deleted_at: Some(now), ..old(self).rows()[id] }),
                )
            } else {
                &&& r == Err::<(), ContentError>(ContentError::NotFound)
                &&& final(self).rows() == old(self).rows()
            },
    {
        match self.contents.remove(&id) {
            Some(row) if row.deleted_at.is_none() => {
                self.contents.insert(id, ContentRow { deleted_at: Some(now), ..row });
                assert(self.rows() =~= old(self).rows().insert(
                    id,
                    ContentRow { deleted_at: Some(now), ..old(self).rows()[id] },
                ));
                Ok(())
            },
            Some(row) => {
                self.contents.insert(id, row);
                assert(self.rows() =~= old(self).rows());
                Err(ContentError::NotFound)
            },
            None => {
                assert(self.rows() =~= old(self).rows());
                Err(ContentError::NotFound)
            },
        }
    }

    /// Sets the metadata of a content. What was there keeps its `created_at`.
    pub fn set_metadata_at(&mut self, m: ContentMetadata, now: OffsetDateTime)
        ensures
            final(self).rows() == old(self).rows(),
            final(self).last_minted() == old(self).last_minted(),
            final(self).metadata() == old(self).metadata().insert(
                m.content_id,
                stamped_content_metadata(m, old(self).first_set(m.content_id, now), now),
            ),
    {
        let created_at = match self.metadata.get(&m.content_id) {
            Some(existing) => existing.created_at,
            None => now,
        };
        let id = m.content_id;
        self.metadata.insert(id, ContentMetadata { created_at, updated_at: now, ..m });
    }

    /// When the metadata of a content was first set, if it is set at `now`.
    pub open spec fn first_set(self, content_id: Uuid, now: OffsetDateTime) -> OffsetDateTime {
        if self.metadata().contains_key(content_id) {
            self.metadata()[content_id].created_at
        } else {
            now
        }
    }

    /// The ids of the live rows of an owner in a tenant.
    fn ids_of(&self, owner_id: Uuid, tenant_id: Uuid) -> (ids: Vec<Uuid>)
        ensures
            ascending(ids@),
            forall|id: Uuid| #[trigger] ids@.contains(id) <==> self.has_of(id, owner_id, tenant_id),
    {
        let mut ids: Vec<Uuid> = Vec::new();
        for id in it: self.contents.keys()
            invariant
                ascending(ids@),
                forall|k: Uuid| #[trigger]
                    ids@.contains(k) <==> self.has_of(k, owner_id, tenant_id) && exists|j: int|
                        0 <= j < it.index() && *it.seq()[j] == k,
        {
            if let Some(row) = self.contents.get(id) {
                if row.deleted_at.is_none() && row.owner_id == owner_id && row.tenant_id
                    == tenant_id {
                    insert_ascending(&mut ids, *id);
                }
            }
        }
        ids
    }
}

impl Default for InMemoryContentRepo {
    fn default() -> (s: Self)
        ensures
            s.rows() == Map::<Uuid, ContentRow>::empty(),
            s.metadata() == Map::<Uuid, ContentMetadata>::empty(),
            s.last_minted() is None,
    {
        InMemoryContentRepo::new()
    }
}

impl ContentRepo for InMemoryContentRepo {
    /// The new row stands under a version 7 id that is larger than the one that
    /// was minted before it.
    open spec fn creates(
        pre: Self,
        c: NewContent,
        by: Option<String>,
        post: Self,
        r: Result<Content, ContentError>,
    ) -> bool {
        &&& r matches Ok(e)
        &&& is_v7(e.id)
        &&& (pre.last_minted() matches Some(before) ==> before < e.id)
        &&& post.last_minted() == Some(e.id)
        &&& utc_offset(e.created_at) == 0
        &&& e == ContentRow::fresh(c, e.created_at).entity(e.id)
        &&& post.rows() == pre.rows().insert(e.id, ContentRow::fresh(c, e.created_at))
        &&& post.metadata() == pre.metadata()
    }

    open spec fn gets(self, id: Uuid, r: Result<Content, ContentError>) -> bool {
        if self.has(id) {
            r == Ok::<Content, ContentError>(self.rows()[id].entity(id))
        } else {
            r == Err::<Content, ContentError>(ContentError::NotFound)
        }
    }

    /// The answer follows the order of `ids`, and repeats what they repeat.
    open spec fn gets_many(self, ids: Seq<Uuid>, r: Result<Vec<Content>, ContentError>) -> bool {
        &&& r matches Ok(out)
        &&& out@ == ids.filter(|id: Uuid| self.has(id)).map_values(
            |id: Uuid| self.rows()[id].entity(id),
        )
    }

    open spec fn updates(
        pre: Self,
        c: Content,
        by: Option<String>,
        post: Self,
        r: Result<Content, ContentError>,
    ) -> bool {
        &&& post.metadata() == pre.metadata()
        &&& post.last_minted() == pre.last_minted()
        &&& if pre.has(c.id) {
            &&& r matches Ok(e)
            &&& utc_offset(e.updated_at) == 0
            &&& e == pre.rows()[c.id].edited(c, e.updated_at).entity(c.id)
            &&& post.rows() == pre.rows().insert(c.id, pre.rows()[c.id].edited(c, e.updated_at))
        } else {
            &&& r == Err::<Content, ContentError>(ContentError::NotFound)
            &&& post.rows() == pre.rows()
        }
    }

    open spec fn sets_status(
        pre: Self,
        id: Uuid,
        status: ContentStatus,
        by: Option<String>,
        post: Self,
        r: Result<(), ContentError>,
    ) -> bool {
        &&& post.metadata() == pre.metadata()
        &&& post.last_minted() == pre.last_minted()
        &&& if pre.has(id) {
            &&& r is Ok
            &&& utc_offset(post.rows()[id].updated_at) == 0
            &&& post.rows() == pre.rows().insert(
                id,
                ContentRow {
                    status,
                    updated_at: post.rows()[id].updated_at,
                    ..pre.rows()[id]
                },
            )
        } else {
            &&& r == Err::<(), ContentError>(ContentError::NotFound)
            &&& post.rows() == pre.rows()
        }
    }

    open spec fn soft_deletes(
        pre: Self,
        id: Uuid,
        by: Option<String>,
        post: Self,
        r: Result<(), ContentError>,
    ) -> bool {
        &&& post.metadata() == pre.metadata()
        &&& post.last_minted() == pre.last_minted()
        &&& if pre.has(id) {
            &&& r is Ok
            &&& post.rows()[id].deleted_at matches Some(now)
            &&& utc_offset(now) == 0
            &&& post.rows() == pre.rows().insert(
                id,
                ContentRow { deleted_at: post.rows()[id].deleted_at, ..pre.rows()[id] },
            )
        } else {
            &&& r == Err::<(), ContentError>(ContentError::NotFound)
            &&& post.rows() == pre.rows()
        }
    }

    open spec fn lists(
        self,
        owner_id: Uuid,
        tenant_id: Uuid,
        r: Result<Vec<Content>, ContentError>,
    ) -> bool {
        &&& r matches Ok(out)
        &&& forall|i: int, j: int| 0 <= i < j < out@.len() ==> out@[i].id > out@[j].id
        &&& forall|i: int|
            0 <= i < out@.len() ==> self.has_of((#[trigger] out@[i]).id, owner_id, tenant_id)
                && out@[i] == self.rows()[out@[i].id].entity(out@[i].id)
        &&& forall|id: Uuid| #[trigger]
            self.has_of(id, owner_id, tenant_id) ==> exists|i: int|
                0 <= i < out@.len() && (#[trigger] out@[i]).id == id
    }

    open spec fn sets_metadata(
        pre: Self,
        m: ContentMetadata,
        post: Self,
        r: Result<(), ContentError>,
    ) -> bool {
        let now = post.metadata()[m.content_id].updated_at;
        &&& r is Ok
        &&& utc_offset(now) == 0
        &&& post.rows() == pre.rows()
        &&& post.last_minted() == pre.last_minted()
        &&& post.metadata() == pre.metadata().insert(
            m.content_id,
            stamped_content_metadata(m, pre.first_set(m.content_id, now), now),
        )
    }

    open spec fn gets_metadata(
        self,
        content_id: Uuid,
        r: Result<ContentMetadata, ContentError>,
    ) -> bool {
        if self.metadata().contains_key(content_id) {
            r matches Ok(m) && m.same(self.metadata()[content_id])
        } else {
            r == Err::<ContentMetadata, ContentError>(ContentError::NotFound)
        }
    }

    open spec fn gets_metadata_many(
        self,
        ids: Seq<Uuid>,
        r: Result<HashMap<Uuid, ContentMetadata>, ContentError>,
    ) -> bool {
        &&& r matches Ok(out)
        &&& forall|id: Uuid| #[trigger]
            out@.contains_key(id) <==> ids.contains(id) && self.metadata().contains_key(id)
        &&& forall|id: Uuid| #[trigger]
            out@.contains_key(id) ==> out@[id].same(self.metadata()[id])
    }

    fn create(&mut self, c: NewContent, by: Option<String>) -> (r: Result<Content, ContentError>) {
        let now = OffsetDateTime::now_utc();
        let minted = mint(&self.last);
        let entity = self.create_at(c, minted.get(), now);
        self.last = Some(minted);
        Ok(entity)
    }

    fn get(&self, id: Uuid) -> (r: Result<Content, ContentError>) {
        match self.contents.get(&id) {
            Some(row) if row.deleted_at.is_none() => Ok(row.to_entity(id)),
            _ => Err(ContentError::NotFound),
        }
    }

    fn get_many(&self, ids: &[Uuid]) -> (r: Result<Vec<Content>, ContentError>) {
        let mut out: Vec<Content> = Vec::new();
        let ghost live = |id: Uuid| self.has(id);
        let ghost entity = |id: Uuid| self.rows()[id].entity(id);
        assert(out@ =~= ids@.take(0).filter(live).map_values(entity));
        for i in 0..ids.len()
            invariant
                live == (|id: Uuid| self.has(id)),
                entity == (|id: Uuid| self.rows()[id].entity(id)),
                out@ == ids@.take(i as int).filter(live).map_values(entity),
        {
            let id: Uuid = ids[i];
            proof {
                assert(ids@.take(i + 1).drop_last() =~= ids@.take(i as int));
                assert(ids@.take(i + 1).last() == id);
                reveal(Seq::filter);
            }
            if let Ok(content) = self.get(id) {
                out.push(content);
            }
            assert(out@ =~= ids@.take(i + 1).filter(live).map_values(entity));
        }
        assert(ids@.take(ids@.len() as int) =~= ids@);
        Ok(out)
    }

    fn update(&mut self, c: &Content, by: Option<String>) -> (r: Result<Content, ContentError>) {
        self.update_at(c, OffsetDateTime::now_utc())
    }

    fn set_status(&mut self, id: Uuid, status: ContentStatus, by: Option<String>) -> (r: Result<
        (),
        ContentError,
    >) {
        self.set_status_at(id, status, OffsetDateTime::now_utc())
    }

    fn soft_delete(&mut self, id: Uuid, by: Option<String>) -> (r: Result<(), ContentError>) {
        self.soft_delete_at(id, OffsetDateTime::now_utc())
    }

    fn list(&self, owner_id: Uuid, tenant_id: Uuid) -> (r: Result<Vec<Content>, ContentError>) {
        let ids = self.ids_of(owner_id, tenant_id);
        let mut out: Vec<Content> = Vec::new();
        let mut i: usize = ids.len();
        while i > 0
            invariant
                i <= ids@.len(),
                ascending(ids@),
                forall|k: Uuid| #[trigger]
                    ids@.contains(k) <==> self.has_of(k, owner_id, tenant_id),
                out@.len() == ids@.len() - i,
                forall|j: int|
                    0 <= j < out@.len() ==> (#[trigger] out@[j]).id == ids@[ids@.len() - 1 - j]
                        && self.has_of(out@[j].id, owner_id, tenant_id) && out@[j]
                        == self.rows()[out@[j].id].entity(out@[j].id),
            decreases i,
        {
            i = i - 1;
            let id: Uuid = ids[i];
            assert(ids@.contains(id));
            if let Some(row) = self.contents.get(&id) {
                out.push(row.to_entity(id));
            }
        }
        assert forall|id: Uuid| #[trigger] self.has_of(id, owner_id, tenant_id) implies exists|
            i: int,
        |
            0 <= i < out@.len() && (#[trigger] out@[i]).id == id by {
            assert(ids@.contains(id));
            let k = choose|k: int| 0 <= k < ids@.len() && ids@[k] == id;
            assert(out@[ids@.len() - 1 - k].id == id);
        }
        Ok(out)
    }

    fn set_metadata(&mut self, m: ContentMetadata) -> (r: Result<(), ContentError>) {
        self.set_metadata_at(m, OffsetDateTime::now_utc());
        Ok(())
    }

    fn get_metadata(&self, content_id: Uuid) -> (r: Result<ContentMetadata, ContentError>) {
        match self.metadata.get(&content_id) {
            Some(m) => Ok(m.clone()),
            None => Err(ContentError::NotFound),
        }
    }

    fn get_metadata_many(&self, ids: &[Uuid]) -> (r: Result<
        HashMap<Uuid, ContentMetadata>,
        ContentError,
    >) {
        let mut out: HashMap<Uuid, ContentMetadata> = HashMap::new();
        for i in 0..ids.len()
            invariant
                forall|id: Uuid| #[trigger]
                    out@.contains_key(id) <==> self.metadata().contains_key(id) && exists|j: int|
                        0 <= j < i && ids@[j] == id,
                forall|id: Uuid| #[trigger]
                    out@.contains_key(id) ==> out@[id].same(self.metadata()[id]),
        {
            let id: Uuid = ids[i];
            if let Some(m) = self.metadata.get(&id) {
                out.insert(id, m.clone());
            }
        }
        Ok(out)
    }
}

/// What the repository keeps of an object beside its id.
pub struct ObjectRow {
    pub content_id: Uuid,
    pub storage_backend_name: String,
    pub storage_class: Option<String>,
    pub object_key: String,
    pub file_name: Option<String>,
    pub version: i32,
    pub object_type: Option<String>,
    pub status: ObjectStatus,
    pub created_at: OffsetDateTime,
    pub updated_at: OffsetDateTime,
    /// When a soft delete hid the row.
    pub deleted_at: Option<OffsetDateTime>,
}

impl ObjectRow {
    /// No soft delete has hidden the row.
    pub open spec fn live(self) -> bool {
        self.deleted_at is None
    }

    /// The row of a new object.
    pub open spec fn fresh(o: NewObject, now: OffsetDateTime) -> ObjectRow {
        ObjectRow {
            content_id: o.content_id,
            storage_backend_name: o.storage_backend_name,
            storage_class: o.storage_class,
            object_key: o.object_key,
            file_name: o.file_name,
            version: 1,
            object_type: o.object_type,
            status: ObjectStatus::Created,
            created_at: now,
            updated_at: now,
            deleted_at: None,
        }
    }

    /// The object that the row describes.
    pub open spec fn entity(self, id: Uuid) -> Object {
        Object {
            id,
            content_id: self.content_id,
            storage_backend_name: self.storage_backend_name,
            storage_class: self.storage_class,
            object_key: self.object_key,
            file_name: self.file_name,
            version: self.version,
            object_type: self.object_type,
            status: self.status,
            created_at: self.created_at,
            updated_at: self.updated_at,
        }
    }

    /// The object that the row describes.
    pub fn to_entity(&self, id: Uuid) -> (o: Object)
        ensures
            o == self.entity(id),
    {
        Object {
            id,
            content_id: self.content_id,
            storage_backend_name: self.storage_backend_name.clone(),
            storage_class: self.storage_class.clone(),
            object_key: self.object_key.clone(),
            file_name: self.file_name.clone(),
            version: self.version,
            object_type: self.object_type.clone(),
            status: self.status,
            created_at: self.created_at,
            updated_at: self.updated_at,
        }
    }
}

/// The metadata as the repository keeps it.
pub open spec fn stamped_object_metadata(
    m: ObjectMetadata,
    created_at: OffsetDateTime,
    updated_at: OffsetDateTime,
) -> ObjectMetadata {
    ObjectMetadata { created_at, updated_at, ..m }
}

/// Whether `e` reports a key that a live object has already.
pub open spec fn key_taken(e: ContentError) -> bool {
    e matches ContentError::Conflict(detail) && detail@
        == "object_key already exists for storage backend"@
}

/// Objects in memory.
pub struct InMemoryObjectRepo {
    objects: HashMap<Uuid, ObjectRow>,
    metadata: HashMap<Uuid, ObjectMetadata>,
    last: Option<Minted>,
}

impl InMemoryObjectRepo {
    /// The rows by id, hidden ones included.
    pub closed spec fn rows(self) -> Map<Uuid, ObjectRow> {
        self.objects@
    }

    /// The metadata by object.
    pub closed spec fn metadata(self) -> Map<Uuid, ObjectMetadata> {
        self.metadata@
    }

    /// The id that was minted last.
    pub closed spec fn last_minted(self) -> Option<Uuid> {
        last_id(self.last)
    }

    /// No row has a larger id than the one that was minted last.
    pub open spec fn in_order(self) -> bool {
        forall|id: Uuid| #[trigger]
            self.rows().contains_key(id) ==> (self.last_minted() matches Some(last) && id <= last)
    }

    /// Whether `id` is the id of a live row.
    pub open spec fn has(self, id: Uuid) -> bool {
        self.rows().contains_key(id) && self.rows()[id].live()
    }

    /// Whether `id` is the id of a live row of the content.
    pub open spec fn has_of(self, id: Uuid, content_id: Uuid) -> bool {
        self.has(id) && self.rows()[id].content_id == content_id
    }

    /// Whether `id` is the id of a live row with the key in the backend.
    pub open spec fn has_key(self, id: Uuid, object_key: Seq<char>, backend: Seq<char>) -> bool {
        &&& self.has(id)
        &&& self.rows()[id].object_key@ == object_key
        &&& self.rows()[id].storage_backend_name@ == backend
    }

    /// Whether a live row has the key in the backend.
    pub open spec fn taken(self, object_key: Seq<char>, backend: Seq<char>) -> bool {
        exists|id: Uuid| #[trigger] self.has_key(id, object_key, backend)
    }

    /// No two live rows have the same key in the same backend.
    pub open spec fn well_formed(self) -> bool {
        forall|a: Uuid, b: Uuid|
            #![trigger self.has(a), self.has(b)]
            self.has(a) && self.has(b) && self.rows()[a].object_key@ == self.rows()[b].object_key@
                && self.rows()[a].storage_backend_name@ == self.rows()[b].storage_backend_name@
                ==> a == b
    }

    /// When the metadata of an object was first set, if it is set at `now`.
    pub open spec fn first_set(self, object_id: Uuid, now: OffsetDateTime) -> OffsetDateTime {
        if self.metadata().contains_key(object_id) {
            self.metadata()[object_id].created_at
        } else {
            now
        }
    }

    /// The repository without rows.
    pub fn new() -> (s: Self)
        ensures
            s.rows() == Map::<Uuid, ObjectRow>::empty(),
            s.metadata() == Map::<Uuid, ObjectMetadata>::empty(),
            s.last_minted() is None,
            s.well_formed(),
    {
        InMemoryObjectRepo { objects: HashMap::new(), metadata: HashMap::new(), last: None }
    }

    /// A live row with the key in the backend.
    fn find_key(&self, object_key: &str, backend: &str) -> (found: Option<Uuid>)
        ensures
            match found {
                Some(id) => self.has_key(id, object_key@, backend@),
                None => !self.taken(object_key@, backend@),
            },
    {
        for id in it: self.objects.keys()
            invariant
                forall|j: int|
                    0 <= j < it.index() ==> !self.has_key(
                        *#[trigger] it.seq()[j],
                        object_key@,
                        backend@,
                    ),
        {
            if let Some(row) = self.objects.get(id) {
                if row.deleted_at.is_none() && str_eq(row.object_key.as_str(), object_key)
                    && str_eq(row.storage_backend_name.as_str(), backend) {
                    return Some(*id);
                }
            }
        }
        None
    }

    /// Creates an object under a given id, unless a live object has its key.
    pub fn create_at(&mut self, o: NewObject, id: Uuid, now: OffsetDateTime) -> (r: Result<
        Object,
        ContentError,
    >)
        ensures
            old(self).well_formed() ==> final(self).well_formed(),
            final(self).metadata() == old(self).metadata(),
            final(self).last_minted() == old(self).last_minted(),
            if old(self).taken(o.object_key@, o.storage_backend_name@) {
                &&& r matches Err(e)
                &&& key_taken(e)
                &&& final(self).rows() == old(self).rows()
            } else {
                &&& r == Ok::<Object, ContentError>(ObjectRow::fresh(o, now).entity(id))
                &&& final(self).rows() == old(self).rows().insert(id, ObjectRow::fresh(o, now))
            },
    {
        let taken = self.find_key(o.object_key.as_str(), o.storage_backend_name.as_str());
        if let Some(holder) = taken {
            assert(self.has_key(holder, o.object_key@, o.storage_backend_name@));
            return Err(
                ContentError::Conflict("object_key already exists for storage backend".to_owned()),
            );
        }
        let row = ObjectRow {
            content_id: o.content_id,
            storage_backend_name: o.storage_backend_name,
            storage_class: o.storage_class,
            object_key: o.object_key,
            file_name: o.file_name,
            version: 1,
            object_type: o.object_type,
            status: ObjectStatus::Created,
            created_at: now,
            updated_at: now,
            deleted_at: None,
        };
        let entity = row.to_entity(id);
        self.objects.insert(id, row);
        proof {
            law_create_keeps_keys_unique(*old(self), o, id, now, *self);
        }
        Ok(entity)
    }

    /// Sets the state of a live object.
    pub fn set_status_at(&mut self, id: Uuid, status: ObjectStatus, now: OffsetDateTime) -> (r:
        Result<(), ContentError>)
        ensures
            old(self).well_formed() ==> final(self).well_formed(),
            final(self).metadata() == old(self).metadata(),
            final(self).last_minted() == old(self).last_minted(),
            if old(self).has(id) {
                &&& r == Ok::<(), ContentError>(())
                &&& final(self).rows() == old(self).rows().insert(
                    id,
                    (ObjectRow { status, updated_at: now, ..old(self).rows()[id] }),
                )
            } else {
                &&& r == Err::<(), ContentError>(ContentError::NotFound)
                &&& final(self).rows() == old(self).rows()
            },
    {
        match self.objects.remove(&id) {
            Some(row) if row.deleted_at.is_none() => {
                self.objects.insert(id, ObjectRow { status, updated_at: now, ..row });
                assert(self.rows() =~= old(self).rows().insert(
                    id,
                    ObjectRow { status, updated_at: now, ..old(self).rows()[id] },
                ));
                assert(forall|a: Uuid| #[trigger] self.has(a) ==> old(self).has(a));
                Ok(())
            },
            Some(row) => {
                self.objects.insert(id, row);
                assert(self.rows() =~= old(self).rows());
                assert(forall|a: Uuid| #[trigger] self.has(a) ==> old(self).has(a));
                Err(ContentError::NotFound)
            },
            None => {
                assert(self.rows() =~= old(self).rows());
                assert(forall|a: Uuid| #[trigger] self.has(a) ==> old(self).has(a));
                Err(ContentError::NotFound)
            },
        }
    }

    /// Hides a live object.
    pub fn soft_delete_at(&mut self, id: Uuid, now: OffsetDateTime) -> (r: Result<
        (),
        ContentError,
    >)
        ensures
            old(self).well_formed() ==> final(self).well_formed(),
            final(self).metadata() == old(self).metadata(),
            final(self).last_minted() == old(self).last_minted(),
            if old(self).has(id) {
                &&& r == Ok::<(), ContentError>(())
                &&& final(self).rows() == old(self).rows().insert(
                    id,
                    (ObjectRow { deleted_at: Some(now), ..old(self).rows()[id] }),
                )
            } else {
                &&& r == Err::<(), ContentError>(ContentError::NotFound)
                &&& final(self).rows() == old(self).rows()
            },
    {
        match self.objects.remove(&id) {
            Some(row) if row.deleted_at.is_none() => {
                self.objects.insert(id, ObjectRow { deleted_at: Some(now), ..row });
                assert(self.rows() =~= old(self).rows().insert(
                    id,
                    ObjectRow { deleted_at: Some(now), ..old(self).rows()[id] },
                ));
                assert(forall|a: Uuid| #[trigger] self.has(a) ==> old(self).has(a));
                Ok(())
            },
            Some(row) => {
                self.objects.insert(id, row);
                assert(self.rows() =~= old(self).rows());
                assert(forall|a: Uuid| #[trigger] self.has(a) ==> old(self).has(a));
                Err(ContentError::NotFound)
            },
            None => {
                assert(self.rows() =~= old(self).rows());
                assert(forall|a: Uuid| #[trigger] self.has(a) ==> old(self).has(a));
                Err(ContentError::NotFound)
            },
        }
    }

    /// Sets the metadata of an object. What was there keeps its `created_at`.
    pub fn set_metadata_at(&mut self, m: ObjectMetadata, now: OffsetDateTime)
        ensures
            old(self).well_formed() ==> final(self).well_formed(),
            final(self).rows() == old(self).rows(),
            final(self).last_minted() == old(self).last_minted(),
            final(self).metadata() == old(self).metadata().insert(
                m.object_id,
                stamped_object_metadata(m, old(self).first_set(m.object_id, now), now),
            ),
    {
        let created_at = match self.metadata.get(&m.object_id) {
            Some(existing) => existing.created_at,
            None => now,
        };
        let id = m.object_id;
        self.metadata.insert(id, ObjectMetadata { created_at, updated_at: now, ..m });
        assert(forall|a: Uuid| #[trigger] self.has(a) ==> old(self).has(a));
    }

    /// The ids of the live rows of a content.
    fn ids_of(&self, content_id: Uuid) -> (ids: Vec<Uuid>)
        ensures
            ascending(ids@),
            forall|id: Uuid| #[trigger] ids@.contains(id) <==> self.has_of(id, content_id),
    {
        let mut ids: Vec<Uuid> = Vec::new();
        for id in it: self.objects.keys()
            invariant
                ascending(ids@),
                forall|k: Uuid| #[trigger]
                    ids@.contains(k) <==> self.has_of(k, content_id) && exists|j: int|
                        0 <= j < it.index() && *it.seq()[j] == k,
        {
            if let Some(row) = self.objects.get(id) {
                if row.deleted_at.is_none() && row.content_id == content_id {
                    insert_ascending(&mut ids, *id);
                }
            }
        }
        ids
    }
}

/// A new object under a key that no live object has leaves the keys of live
/// objects unique.
pub proof fn law_create_keeps_keys_unique(
    pre: InMemoryObjectRepo,
    o: NewObject,
    id: Uuid,
    now: OffsetDateTime,
    post: InMemoryObjectRepo,
)
    requires
        !pre.taken(o.object_key@, o.storage_backend_name@),
        post.rows() == pre.rows().insert(id, ObjectRow::fresh(o, now)),
    ensures
        pre.well_formed() ==> post.well_formed(),
{
    if pre.well_formed() {
        assert forall|a: Uuid, b: Uuid|
            #![trigger post.has(a), post.has(b)]
            post.has(a) && post.has(b) && post.rows()[a].object_key@ == post.rows()[b].object_key@
                && post.rows()[a].storage_backend_name@
                == post.rows()[b].storage_backend_name@ implies a == b by {
            if a != id {
                assert(pre.has(a));
                assert(!pre.has_key(a, o.object_key@, o.storage_backend_name@));
            }
            if b != id {
                assert(pre.has(b));
                assert(!pre.has_key(b, o.object_key@, o.storage_backend_name@));
            }
        }
    }
}

impl Default for InMemoryObjectRepo {
    fn default() -> (s: Self)
        ensures
            s.rows() == Map::<Uuid, ObjectRow>::empty(),
            s.metadata() == Map::<Uuid, ObjectMetadata>::empty(),
            s.last_minted() is None,
            s.well_formed(),
    {
        InMemoryObjectRepo::new()
    }
}

impl ObjectRepo for InMemoryObjectRepo {
    /// The new row stands under a version 7 id that is larger than the one that
    /// was minted before it.
    open spec fn creates(
        pre: Self,
        o: NewObject,
        by: Option<String>,
        post: Self,
        r: Result<Object, ContentError>,
    ) -> bool {
        &&& post.metadata() == pre.metadata()
        &&& if pre.taken(o.object_key@, o.storage_backend_name@) {
            &&& r matches Err(e)
            &&& key_taken(e)
            &&& post.rows() == pre.rows()
            &&& post.last_minted() == pre.last_minted()
        } else {
            &&& r matches Ok(e)
            &&& is_v7(e.id)
            &&& (pre.last_minted() matches Some(before) ==> before < e.id)
            &&& post.last_minted() == Some(e.id)
            &&& utc_offset(e.created_at) == 0
            &&& e == ObjectRow::fresh(o, e.created_at).entity(e.id)
            &&& post.rows() == pre.rows().insert(e.id, ObjectRow::fresh(o, e.created_at))
        }
    }

    open spec fn gets(self, id: Uuid, r: Result<Object, ContentError>) -> bool {
        if self.has(id) {
            r == Ok::<Object, ContentError>(self.rows()[id].entity(id))
        } else {
            r == Err::<Object, ContentError>(ContentError::NotFound)
        }
    }

    open spec fn lists_by_content(
        self,
        content_id: Uuid,
        r: Result<Vec<Object>, ContentError>,
    ) -> bool {
        &&& r matches Ok(out)
        &&& forall|i: int, j: int| 0 <= i < j < out@.len() ==> out@[i].id < out@[j].id
        &&& forall|i: int|
            0 <= i < out@.len() ==> self.has_of((#[trigger] out@[i]).id, content_id) && out@[i]
                == self.rows()[out@[i].id].entity(out@[i].id)
        &&& forall|id: Uuid| #[trigger]
            self.has_of(id, content_id) ==> exists|i: int|
                0 <= i < out@.len() && (#[trigger] out@[i]).id == id
    }

    open spec fn gets_by_key(
        self,
        object_key: Seq<char>,
        backend: Seq<char>,
        r: Result<Object, ContentError>,
    ) -> bool {
        if self.taken(object_key, backend) {
            &&& r matches Ok(o)
            &&& self.has_key(o.id, object_key, backend)
            &&& o == self.rows()[o.id].entity(o.id)
        } else {
            r == Err::<Object, ContentError>(ContentError::NotFound)
        }
    }

    open spec fn sets_status(
        pre: Self,
        id: Uuid,
        status: ObjectStatus,
        by: Option<String>,
        post: Self,
        r: Result<(), ContentError>,
    ) -> bool {
        &&& post.metadata() == pre.metadata()
        &&& post.last_minted() == pre.last_minted()
        &&& if pre.has(id) {
            &&& r is Ok
            &&& utc_offset(post.rows()[id].updated_at) == 0
            &&& post.rows() == pre.rows().insert(
                id,
                ObjectRow {
                    status,
                    updated_at: post.rows()[id].updated_at,
                    ..pre.rows()[id]
                },
            )
        } else {
            &&& r == Err::<(), ContentError>(ContentError::NotFound)
            &&& post.rows() == pre.rows()
        }
    }

    open spec fn soft_deletes(
        pre: Self,
        id: Uuid,
        by: Option<String>,
        post: Self,
        r: Result<(), ContentError>,
    ) -> bool {
        &&& post.metadata() == pre.metadata()
        &&& post.last_minted() == pre.last_minted()
        &&& if pre.has(id) {
            &&& r is Ok
            &&& post.rows()[id].deleted_at matches Some(now)
            &&& utc_offset(now) == 0
            &&& post.rows() == pre.rows().insert(
                id,
                ObjectRow { deleted_at: post.rows()[id].deleted_at, ..pre.rows()[id] },
            )
        } else {
            &&& r == Err::<(), ContentError>(ContentError::NotFound)
            &&& post.rows() == pre.rows()
        }
    }

    open spec fn sets_metadata(
        pre: Self,
        m: ObjectMetadata,
        post: Self,
        r: Result<(), ContentError>,
    ) -> bool {
        let now = post.metadata()[m.object_id].updated_at;
        &&& r is Ok
        &&& utc_offset(now) == 0
        &&& post.rows() == pre.rows()
        &&& post.last_minted() == pre.last_minted()
        &&& post.metadata() == pre.metadata().insert(
            m.object_id,
            stamped_object_metadata(m, pre.first_set(m.object_id, now), now),
        )
    }

    open spec fn gets_metadata(
        self,
        object_id: Uuid,
        r: Result<ObjectMetadata, ContentError>,
    ) -> bool {
        if self.metadata().contains_key(object_id) {
            r == Ok::<ObjectMetadata, ContentError>(self.metadata()[object_id])
        } else {
            r == Err::<ObjectMetadata, ContentError>(ContentError::NotFound)
        }
    }

    fn create(&mut self, o: NewObject, by: Option<String>) -> (r: Result<Object, ContentError>)
        ensures
            old(self).well_formed() ==> final(self).well_formed(),
    {
        let now = OffsetDateTime::now_utc();
        let minted = mint(&self.last);
        let r = self.create_at(o, minted.get(), now);
        if r.is_ok() {
            let ghost made = *self;
            self.last = Some(minted);
            assert(self.rows() == made.rows());
            assert(forall|a: Uuid| #[trigger] self.has(a) ==> made.has(a));
        }
        r
    }

    fn get(&self, id: Uuid) -> (r: Result<Object, ContentError>) {
        match self.objects.get(&id) {
            Some(row) if row.deleted_at.is_none() => Ok(row.to_entity(id)),
            _ => Err(ContentError::NotFound),
        }
    }

    fn list_by_content(&self, content_id: Uuid) -> (r: Result<Vec<Object>, ContentError>) {
        let ids = self.ids_of(content_id);
        let mut out: Vec<Object> = Vec::new();
        for i in 0..ids.len()
            invariant
                ascending(ids@),
                forall|k: Uuid| #[trigger] ids@.contains(k) <==> self.has_of(k, content_id),
                out@.len() == i,
                forall|j: int|
                    0 <= j < i ==> (#[trigger] out@[j]).id == ids@[j] && self.has_of(
                        out@[j].id,
                        content_id,
                    ) && out@[j] == self.rows()[out@[j].id].entity(out@[j].id),
        {
            let id: Uuid = ids[i];
            assert(ids@.contains(id));
            if let Some(row) = self.objects.get(&id) {
                out.push(row.to_entity(id));
            }
        }
        assert forall|id: Uuid| #[trigger] self.has_of(id, content_id) implies exists|i: int|
            0 <= i < out@.len() && (#[trigger] out@[i]).id == id by {
            assert(ids@.contains(id));
            let k = choose|k: int| 0 <= k < ids@.len() && ids@[k] == id;
            assert(out@[k].id == id);
        }
        Ok(out)
    }

    fn get_by_key(&self, object_key: &str, backend: &str) -> (r: Result<Object, ContentError>) {
        match self.find_key(object_key, backend) {
            Some(id) => {
                assert(self.has_key(id, object_key@, backend@));
                self.get(id)
            },
            None => Err(ContentError::NotFound),
        }
    }

    fn set_status(&mut self, id: Uuid, status: ObjectStatus, by: Option<String>) -> (r: Result<
        (),
        ContentError,
    >)
        ensures
            old(self).well_formed() ==> final(self).well_formed(),
    {
        self.set_status_at(id, status, OffsetDateTime::now_utc())
    }

    fn soft_delete(&mut self, id: Uuid, by: Option<String>) -> (r: Result<(), ContentError>)
        ensures
            old(self).well_formed() ==> final(self).well_formed(),
    {
        self.soft_delete_at(id, OffsetDateTime::now_utc())
    }

    fn set_metadata(&mut self, m: ObjectMetadata) -> (r: Result<(), ContentError>)
        ensures
            old(self).well_formed() ==> final(self).well_formed(),
    {
        self.set_metadata_at(m, OffsetDateTime::now_utc());
        Ok(())
    }

    fn get_metadata(&self, object_id: Uuid) -> (r: Result<ObjectMetadata, ContentError>) {
        match self.metadata.get(&object_id) {
            Some(m) => Ok(m.clone()),
            None => Err(ContentError::NotFound),
        }
    }
}

} // verus!
