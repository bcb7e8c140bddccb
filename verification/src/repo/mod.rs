//! The repository ports: contents with their metadata, objects with theirs.
//!
//! Reads see live rows only, that is rows that no soft delete has hidden. An
//! upload touches both repositories and the store by separate calls; there is
//! no transaction across them.
//!
//! A port states of itself what each method may do: a relation between the
//! repository before the call, the arguments, the repository after it and the
//! answer. A reading method leaves the repository as it is. Of a port that
//! states nothing, nothing is known.

pub mod memory;
pub mod order;
pub mod postgres;

use std::collections::HashMap;

use vstd::prelude::*;

use crate::error::ContentError;
use crate::ext::Uuid;
use crate::status::{ContentStatus, ObjectStatus};
use crate::types::{Content, ContentMetadata, Object, ObjectMetadata};

pub use memory::{InMemoryContentRepo, InMemoryObjectRepo};

verus! {

/// A content to create. The repository mints the id and starts it as `Created`.
#[derive(Debug, Clone)]
pub struct NewContent {
    pub tenant_id: Uuid,
    pub owner_id: Uuid,
    pub owner_type: Option<String>,
    pub name: Option<String>,
    pub description: Option<String>,
    pub document_type: Option<String>,
    pub derivation_type: Option<String>,
}

/// An object to create. The repository mints the id and starts it as `Created`,
/// version 1.
#[derive(Debug, Clone)]
pub struct NewObject {
    pub content_id: Uuid,
    pub storage_backend_name: String,
    pub storage_class: Option<String>,
    pub object_key: String,
    pub file_name: Option<String>,
    pub object_type: Option<String>,
}

/// Contents and their metadata.
pub trait ContentRepo: Sized {
    /// What `create` may do.
    open spec fn creates(
        pre: Self,
        c: NewContent,
        by: Option<String>,
        post: Self,
        r: Result<Content, ContentError>,
    ) -> bool {
        true
    }

    /// What `get` may answer.
    open spec fn gets(self, id: Uuid, r: Result<Content, ContentError>) -> bool {
        true
    }

    /// What `get_many` may answer.
    open spec fn gets_many(self, ids: Seq<Uuid>, r: Result<Vec<Content>, ContentError>) -> bool {
        true
    }

    /// What `update` may do.
    open spec fn updates(
        pre: Self,
        c: Content,
        by: Option<String>,
        post: Self,
        r: Result<Content, ContentError>,
    ) -> bool {
        true
    }

    /// What `set_status` may do.
    open spec fn sets_status(
        pre: Self,
        id: Uuid,
        status: ContentStatus,
        by: Option<String>,
        post: Self,
        r: Result<(), ContentError>,
    ) -> bool {
        true
    }

    /// What `soft_delete` may do.
    open spec fn soft_deletes(
        pre: Self,
        id: Uuid,
        by: Option<String>,
        post: Self,
        r: Result<(), ContentError>,
    ) -> bool {
        true
    }

    /// What `list` may answer.
    open spec fn lists(
        self,
        owner_id: Uuid,
        tenant_id: Uuid,
        r: Result<Vec<Content>, ContentError>,
    ) -> bool {
        true
    }

    /// What `set_metadata` may do.
    open spec fn sets_metadata(
        pre: Self,
        m: ContentMetadata,
        post: Self,
        r: Result<(), ContentError>,
    ) -> bool {
        true
    }

    /// What `get_metadata` may answer.
    open spec fn gets_metadata(
        self,
        content_id: Uuid,
        r: Result<ContentMetadata, ContentError>,
    ) -> bool {
        true
    }

    /// What `get_metadata_many` may answer.
    open spec fn gets_metadata_many(
        self,
        ids: Seq<Uuid>,
        r: Result<HashMap<Uuid, ContentMetadata>, ContentError>,
    ) -> bool {
        true
    }

    /// Creates a content, `Created`.
    fn create(&mut self, c: NewContent, by: Option<String>) -> (r: Result<Content, ContentError>)
        ensures
            Self::creates(*old(self), c, by, *final(self), r),
    ;

    /// The live content; `NotFound` where there is none.
    fn get(&self, id: Uuid) -> (r: Result<Content, ContentError>)
        ensures
            self.gets(id, r),
    ;

    /// The live contents among `ids`; the others are left out.
    fn get_many(&self, ids: &[Uuid]) -> (r: Result<Vec<Content>, ContentError>)
        ensures
            self.gets_many(ids@, r),
    ;

    /// Replaces the editable fields of a live content; `NotFound` where there is none.
    fn update(&mut self, c: &Content, by: Option<String>) -> (r: Result<Content, ContentError>)
        ensures
            Self::updates(*old(self), *c, by, *final(self), r),
    ;

    /// Sets the state of a live content; `NotFound` where there is none.
    fn set_status(&mut self, id: Uuid, status: ContentStatus, by: Option<String>) -> (r: Result<
        (),
        ContentError,
    >)
        ensures
            Self::sets_status(*old(self), id, status, by, *final(self), r),
    ;

    /// Hides a live content; `NotFound` where there is none.
    fn soft_delete(&mut self, id: Uuid, by: Option<String>) -> (r: Result<(), ContentError>)
        ensures
            Self::soft_deletes(*old(self), id, by, *final(self), r),
    ;

    /// The live contents of an owner in a tenant, largest id first.
    fn list(&self, owner_id: Uuid, tenant_id: Uuid) -> (r: Result<Vec<Content>, ContentError>)
        ensures
            self.lists(owner_id, tenant_id, r),
    ;

    /// Sets the metadata of a content, over what was there. The repository
    /// stamps the times itself.
    fn set_metadata(&mut self, m: ContentMetadata) -> (r: Result<(), ContentError>)
        ensures
            Self::sets_metadata(*old(self), m, *final(self), r),
    ;

    /// The metadata of a content; `NotFound` where there is none.
    fn get_metadata(&self, content_id: Uuid) -> (r: Result<ContentMetadata, ContentError>)
        ensures
            self.gets_metadata(content_id, r),
    ;

    /// The metadata of those contents among `ids` that have some.
    fn get_metadata_many(&self, ids: &[Uuid]) -> (r: Result<
        HashMap<Uuid, ContentMetadata>,
        ContentError,
    >)
        ensures
            self.gets_metadata_many(ids@, r),
    ;
}

/// Objects and their metadata.
pub trait ObjectRepo: Sized {
    /// What `create` may do.
    open spec fn creates(
        pre: Self,
        o: NewObject,
        by: Option<String>,
        post: Self,
        r: Result<Object, ContentError>,
    ) -> bool {
        true
    }

    /// What `get` may answer.
    open spec fn gets(self, id: Uuid, r: Result<Object, ContentError>) -> bool {
        true
    }

    /// What `list_by_content` may answer.
    open spec fn lists_by_content(
        self,
        content_id: Uuid,
        r: Result<Vec<Object>, ContentError>,
    ) -> bool {
        true
    }

    /// What `get_by_key` may answer.
    open spec fn gets_by_key(
        self,
        object_key: Seq<char>,
        backend: Seq<char>,
        r: Result<Object, ContentError>,
    ) -> bool {
        true
    }

    /// What `set_status` may do.
    open spec fn sets_status(
        pre: Self,
        id: Uuid,
        status: ObjectStatus,
        by: Option<String>,
        post: Self,
        r: Result<(), ContentError>,
    ) -> bool {
        true
    }

    /// What `soft_delete` may do.
    open spec fn soft_deletes(
        pre: Self,
        id: Uuid,
        by: Option<String>,
        post: Self,
        r: Result<(), ContentError>,
    ) -> bool {
        true
    }

    /// What `set_metadata` may do.
    open spec fn sets_metadata(
        pre: Self,
        m: ObjectMetadata,
        post: Self,
        r: Result<(), ContentError>,
    ) -> bool {
        true
    }

    /// What `get_metadata` may answer.
    open spec fn gets_metadata(
        self,
        object_id: Uuid,
        r: Result<ObjectMetadata, ContentError>,
    ) -> bool {
        true
    }

    /// Creates an object, `Created`, version 1; `Conflict` where a live object
    /// has the same key in the same backend.
    fn create(&mut self, o: NewObject, by: Option<String>) -> (r: Result<Object, ContentError>)
        ensures
            Self::creates(*old(self), o, by, *final(self), r),
    ;

    /// The live object; `NotFound` where there is none.
    fn get(&self, id: Uuid) -> (r: Result<Object, ContentError>)
        ensures
            self.gets(id, r),
    ;

    /// The live objects of a content, smallest id first.
    fn list_by_content(&self, content_id: Uuid) -> (r: Result<Vec<Object>, ContentError>)
        ensures
            self.lists_by_content(content_id, r),
    ;

    /// The live object with the key in the backend; `NotFound` where there is none.
    fn get_by_key(&self, object_key: &str, backend: &str) -> (r: Result<Object, ContentError>)
        ensures
            self.gets_by_key(object_key@, backend@, r),
    ;

    /// Sets the state of a live object; `NotFound` where there is none.
    fn set_status(&mut self, id: Uuid, status: ObjectStatus, by: Option<String>) -> (r: Result<
        (),
        ContentError,
    >)
        ensures
            Self::sets_status(*old(self), id, status, by, *final(self), r),
    ;

    /// Hides a live object; `NotFound` where there is none.
    fn soft_delete(&mut self, id: Uuid, by: Option<String>) -> (r: Result<(), ContentError>)
        ensures
            Self::soft_deletes(*old(self), id, by, *final(self), r),
    ;

    /// Sets the metadata of an object, over what was there. The repository
    /// stamps the times itself.
    fn set_metadata(&mut self, m: ObjectMetadata) -> (r: Result<(), ContentError>)
        ensures
            Self::sets_metadata(*old(self), m, *final(self), r),
    ;

    /// The metadata of an object; `NotFound` where there is none.
    fn get_metadata(&self, object_id: Uuid) -> (r: Result<ObjectMetadata, ContentError>)
        ensures
            self.gets_metadata(object_id, r),
    ;
}

} // verus!
