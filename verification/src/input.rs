//! What the service methods take. The caller has validated it; who acts comes
//! beside it, as the `by` of the method.

use bytes::Bytes;
use vstd::prelude::*;

use crate::ext::Uuid;

verus! {

/// A content to create, without bytes.
#[derive(Debug, Clone)]
pub struct CreateContentInput {
    pub tenant_id: Uuid,
    pub owner_id: Uuid,
    pub owner_type: Option<String>,
    pub name: Option<String>,
    pub description: Option<String>,
    pub document_type: Option<String>,
    /// "original" where absent.
    pub derivation_type: Option<String>,
}

/// The editable fields of a content, all of them replaced.
#[derive(Debug, Clone)]
pub struct UpdateContentInput {
    pub owner_type: Option<String>,
    pub name: Option<String>,
    pub description: Option<String>,
    pub document_type: Option<String>,
}

/// A content to create and upload in one go.
#[derive(Debug, Clone)]
pub struct UploadContentInput {
    pub tenant_id: Uuid,
    pub owner_id: Uuid,
    pub owner_type: Option<String>,
    pub name: Option<String>,
    pub description: Option<String>,
    pub document_type: Option<String>,
    /// The key in the store; minted where absent.
    pub object_key: Option<String>,
    pub file_name: Option<String>,
    pub mime_type: Option<String>,
    pub tags: Vec<String>,
    /// Free-form JSON; the empty object where absent.
    pub custom_metadata: Option<serde_json::Value>,
    pub data: Bytes,
}

/// The metadata of a content, all of it replaced.
#[derive(Debug, Clone)]
pub struct SetContentMetadataInput {
    pub content_id: Uuid,
    pub tags: Vec<String>,
    pub file_size: Option<i64>,
    pub file_name: Option<String>,
    pub mime_type: Option<String>,
    pub checksum: Option<String>,
    pub checksum_algorithm: Option<String>,
    pub metadata: serde_json::Value,
}

} // verus!
