//! The domain entities. Who wrote a row and when it was soft-deleted is the
//! business of the repositories and no part of an entity.

use time::OffsetDateTime;
use vstd::prelude::*;

use crate::ext::Uuid;
use crate::status::{ContentStatus, ObjectStatus};

verus! {

/// A content.
#[derive(Debug)]
pub struct Content {
    pub id: Uuid,
    pub tenant_id: Uuid,
    pub owner_id: Uuid,
    pub owner_type: Option<String>,
    pub name: Option<String>,
    pub description: Option<String>,
    pub document_type: Option<String>,
    pub status: ContentStatus,
    /// "original" or "derived".
    pub derivation_type: Option<String>,
    pub created_at: OffsetDateTime,
    pub updated_at: OffsetDateTime,
}

impl Clone for Content {
    fn clone(&self) -> (r: Self)
        ensures
            r == *self,
    {
        Content {
            id: self.id,
            tenant_id: self.tenant_id,
            owner_id: self.owner_id,
            owner_type: self.owner_type.clone(),
            name: self.name.clone(),
            description: self.description.clone(),
            document_type: self.document_type.clone(),
            status: self.status,
            derivation_type: self.derivation_type.clone(),
            created_at: self.created_at,
            updated_at: self.updated_at,
        }
    }
}

/// The metadata of a content, at most one per content.
#[derive(Debug)]
pub struct ContentMetadata {
    pub content_id: Uuid,
    pub tags: Vec<String>,
    pub file_size: Option<i64>,
    pub file_name: Option<String>,
    pub mime_type: Option<String>,
    pub checksum: Option<String>,
    pub checksum_algorithm: Option<String>,
    /// Free-form JSON.
    pub metadata: serde_json::Value,
    pub created_at: OffsetDateTime,
    pub updated_at: OffsetDateTime,
}

impl ContentMetadata {
    /// Equal in every field, the tags compared one by one.
    pub open spec fn same(self, other: ContentMetadata) -> bool {
        &&& self.content_id == other.content_id
        &&& self.tags@ == other.tags@
        &&& self.file_size == other.file_size
        &&& self.file_name == other.file_name
        &&& self.mime_type == other.mime_type
        &&& self.checksum == other.checksum
        &&& self.checksum_algorithm == other.checksum_algorithm
        &&& self.metadata == other.metadata
        &&& self.created_at == other.created_at
        &&& self.updated_at == other.updated_at
    }
}

impl Clone for ContentMetadata {
    fn clone(&self) -> (r: Self)
        ensures
            r.same(*self),
    {
        let tags = self.tags.clone();
        assert(tags@ =~= self.tags@);
        ContentMetadata {
            content_id: self.content_id,
            tags,
            file_size: self.file_size,
            file_name: self.file_name.clone(),
            mime_type: self.mime_type.clone(),
            checksum: self.checksum.clone(),
            checksum_algorithm: self.checksum_algorithm.clone(),
            metadata: self.metadata.clone(),
            created_at: self.created_at,
            updated_at: self.updated_at,
        }
    }
}

/// One stored byte string of a content.
#[derive(Debug)]
pub struct Object {
    pub id: Uuid,
    pub content_id: Uuid,
    pub storage_backend_name: String,
    pub storage_class: Option<String>,
    pub object_key: String,
    pub file_name: Option<String>,
    pub version: i32,
    pub object_type: Option<String>,
    pub status: ObjectStatus,
    pub created_at: OffsetDateTime,
    pub updated_at: OffsetDateTime,
}

impl Clone for Object {
    fn clone(&self) -> (r: Self)
        ensures
            r == *self,
    {
        Object {
            id: self.id,
            content_id: self.content_id,
            storage_backend_name: self.storage_backend_name.clone(),
            storage_class: self.storage_class.clone(),
            object_key: self.object_key.clone(),
            file_name: self.file_name.clone(),
            version: self.version,
            object_type: self.object_type.clone(),
            status: self.status,
            created_at: self.created_at,
            updated_at: self.updated_at,
        }
    }
}

/// The metadata of an object, at most one per object.
#[derive(Debug)]
pub struct ObjectMetadata {
    pub object_id: Uuid,
    pub size_bytes: Option<i64>,
    pub mime_type: Option<String>,
    pub etag: Option<String>,
    /// Free-form JSON.
    pub metadata: serde_json::Value,
    pub created_at: OffsetDateTime,
    pub updated_at: OffsetDateTime,
}

impl Clone for ObjectMetadata {
    fn clone(&self) -> (r: Self)
        ensures
            r == *self,
    {
        ObjectMetadata {
            object_id: self.object_id,
            size_bytes: self.size_bytes,
            mime_type: self.mime_type.clone(),
            etag: self.etag.clone(),
            metadata: self.metadata.clone(),
            created_at: self.created_at,
            updated_at: self.updated_at,
        }
    }
}

/// A derived content. Only its shape is fixed: nothing derives contents yet.
#[derive(Debug)]
pub struct DerivedContent {
    pub parent_id: Uuid,
    pub content_id: Uuid,
    pub variant: String,
    pub derivation_type: String,
    pub derivation_params: serde_json::Value,
    pub processing_metadata: serde_json::Value,
    pub created_at: OffsetDateTime,
    pub updated_at: OffsetDateTime,
}

impl Clone for DerivedContent {
    fn clone(&self) -> (r: Self)
        ensures
            r == *self,
    {
        DerivedContent {
            parent_id: self.parent_id,
            content_id: self.content_id,
            variant: self.variant.clone(),
            derivation_type: self.derivation_type.clone(),
            derivation_params: self.derivation_params.clone(),
            processing_metadata: self.processing_metadata.clone(),
            created_at: self.created_at,
            updated_at: self.updated_at,
        }
    }
}

} // verus!
