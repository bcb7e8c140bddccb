//! The blob store port, and the store that keeps its blobs in memory.
//!
//! A port states of itself what each method may do: a relation between the
//! store before the call, the arguments, the store after it and the answer. Of
//! a port that states nothing, nothing is known.

use bytes::Bytes;
use time::OffsetDateTime;
use vstd::hash_map::StringHashMap;
use vstd::prelude::*;

use crate::error::ContentError;
use crate::ext::bytes_view;

verus! {

/// What the store knows of a blob.
#[derive(Clone, Debug)]
pub struct ObjectMeta {
    pub key: String,
    pub size: i64,
    pub content_type: Option<String>,
    pub etag: Option<String>,
    pub updated_at: Option<OffsetDateTime>,
}

/// What the store is told of a blob on upload.
#[derive(Clone, Debug)]
pub struct UploadParams {
    pub object_key: String,
    pub mime_type: Option<String>,
    pub file_name: Option<String>,
}

/// A blob store. A failing backend answers `ContentError::Storage`.
pub trait ObjectStore: Sized {
    /// What `upload` may do.
    open spec fn uploads(
        pre: Self,
        params: UploadParams,
        data: Bytes,
        post: Self,
        r: Result<(), ContentError>,
    ) -> bool {
        true
    }

    /// What `download` may answer.
    open spec fn downloads(self, object_key: Seq<char>, r: Result<Bytes, ContentError>) -> bool {
        true
    }

    /// What `delete` may do.
    open spec fn deletes(
        pre: Self,
        object_key: Seq<char>,
        post: Self,
        r: Result<(), ContentError>,
    ) -> bool {
        true
    }

    /// What `object_meta` may answer.
    open spec fn describes(
        self,
        object_key: Seq<char>,
        r: Result<ObjectMeta, ContentError>,
    ) -> bool {
        true
    }

    /// Stores the bytes under the key, over what was there.
    fn upload(&mut self, params: UploadParams, data: Bytes) -> (r: Result<(), ContentError>)
        ensures
            Self::uploads(*old(self), params, data, *final(self), r),
    ;

    /// The bytes under the key.
    fn download(&self, object_key: &str) -> (r: Result<Bytes, ContentError>)
        ensures
            self.downloads(object_key@, r),
    ;

    /// Removes the blob. A key without a blob is no error.
    fn delete(&mut self, object_key: &str) -> (r: Result<(), ContentError>)
        ensures
            Self::deletes(*old(self), object_key@, *final(self), r),
    ;

    /// What the store knows of the blob under the key.
    fn object_meta(&self, object_key: &str) -> (r: Result<ObjectMeta, ContentError>)
        ensures
            self.describes(object_key@, r),
    ;
}

/// A stored byte string and its type.
pub struct Blob {
    pub data: Bytes,
    pub mime: Option<String>,
}

/// The store that keeps its blobs in memory.
pub struct InMemoryObjectStore {
    blobs: StringHashMap<Blob>,
}

/// Whether `e` reports a key without a blob.
pub open spec fn no_such_blob(e: ContentError) -> bool {
    e matches ContentError::Storage(detail) && detail@ == "object not found in store"@
}

impl InMemoryObjectStore {
    /// The blobs by key.
    pub closed spec fn blobs(self) -> Map<Seq<char>, Blob> {
        self.blobs@
    }

    /// The empty store.
    pub fn new() -> (s: Self)
        ensures
            s.blobs() == Map::<Seq<char>, Blob>::empty(),
    {
        InMemoryObjectStore { blobs: StringHashMap::new() }
    }
}

impl Default for InMemoryObjectStore {
    fn default() -> (s: Self)
        ensures
            s.blobs() == Map::<Seq<char>, Blob>::empty(),
    {
        InMemoryObjectStore::new()
    }
}

impl ObjectStore for InMemoryObjectStore {
    open spec fn uploads(
        pre: Self,
        params: UploadParams,
        data: Bytes,
        post: Self,
        r: Result<(), ContentError>,
    ) -> bool {
        &&& r is Ok
        &&& post.blobs() == pre.blobs().insert(
            params.object_key@,
            Blob { data, mime: params.mime_type },
        )
    }

    open spec fn downloads(self, object_key: Seq<char>, r: Result<Bytes, ContentError>) -> bool {
        if self.blobs().contains_key(object_key) {
            r matches Ok(data) && bytes_view(data) == bytes_view(self.blobs()[object_key].data)
        } else {
            r matches Err(e) && no_such_blob(e)
        }
    }

    open spec fn deletes(
        pre: Self,
        object_key: Seq<char>,
        post: Self,
        r: Result<(), ContentError>,
    ) -> bool {
        &&& r is Ok
        &&& post.blobs() == pre.blobs().remove(object_key)
    }

    open spec fn describes(
        self,
        object_key: Seq<char>,
        r: Result<ObjectMeta, ContentError>,
    ) -> bool {
        if self.blobs().contains_key(object_key) {
            &&& r matches Ok(meta)
            &&& meta.key@ == object_key
            &&& meta.size == bytes_view(self.blobs()[object_key].data).len() as i64
            &&& meta.content_type == self.blobs()[object_key].mime
            &&& meta.etag is None
            &&& meta.updated_at is None
        } else {
            r matches Err(e) && no_such_blob(e)
        }
    }

    fn upload(&mut self, params: UploadParams, data: Bytes) -> (r: Result<(), ContentError>) {
        self.blobs.insert(params.object_key, Blob { data, mime: params.mime_type });
        Ok(())
    }

    fn download(&self, object_key: &str) -> (r: Result<Bytes, ContentError>) {
        match self.blobs.get(object_key) {
            Some(blob) => Ok(blob.data.clone()),
            None => Err(ContentError::Storage("object not found in store".to_owned())),
        }
    }

    fn delete(&mut self, object_key: &str) -> (r: Result<(), ContentError>) {
        self.blobs.remove(object_key);
        Ok(())
    }

    fn object_meta(&self, object_key: &str) -> (r: Result<ObjectMeta, ContentError>) {
        match self.blobs.get(object_key) {
            Some(blob) => Ok(
                ObjectMeta {
                    key: object_key.to_owned(),
                    size: blob.data.len() as i64,
                    content_type: blob.mime.clone(),
                    etag: None,
                    updated_at: None,
                },
            ),
            None => Err(ContentError::Storage("object not found in store".to_owned())),
        }
    }
}

} // verus!
