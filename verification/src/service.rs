//! The content service: contents, their objects and their bytes behind one
//! interface, over the four ports.
//!
//! What a method does is stated over the relations of the ports: which calls
//! it makes, in which order, with which arguments, and what it makes of each
//! answer. The relations of the in-memory ports fix the rest.

use bytes::Bytes;
use time::OffsetDateTime;
use vstd::prelude::*;
use vstd::string::StringExecFns;

use crate::clock::{Clock, SystemClock};
use crate::error::ContentError;
use crate::ext::{
    bytes_view, empty_object, hyphenated, is_v7, json_keys, last_id, mint, uuid_text, Minted, Uuid,
};
use crate::input::{
    CreateContentInput, SetContentMetadataInput, UpdateContentInput, UploadContentInput,
};
use crate::repo::{ContentRepo, NewContent, NewObject, ObjectRepo};
use crate::status::{can_download_content, refusal, ContentStatus, ObjectStatus};
use crate::store::{ObjectMeta, ObjectStore, UploadParams};
use crate::types::{Content, ContentMetadata, Object, ObjectMetadata};

verus! {

/// A content and its object, as an upload leaves them.
pub struct UploadOutcome {
    pub content: Content,
    pub object: Object,
}

/// The content service. The backend name goes into every object row.
pub struct ContentService<C, O, S, K> {
    contents: C,
    objects: O,
    store: S,
    default_backend_name: String,
    clock: K,
    /// The suffix of the key that was minted last.
    last_suffix: Option<Minted>,
}

/// Collects the ports of a service. The clock is the system clock and the
/// backend name is "memory" unless set; the store has no default.
pub struct ContentServiceBuilder<C, O, S, K> {
    contents: C,
    objects: O,
    store: Option<S>,
    default_backend_name: String,
    clock: K,
}

/// The part of an upload that goes into the object, the store and the metadata.
pub struct Payload {
    pub object_key: Option<String>,
    pub file_name: Option<String>,
    pub mime_type: Option<String>,
    pub tags: Vec<String>,
    pub custom_metadata: Option<serde_json::Value>,
    pub data: Bytes,
}

/// The payload of an upload.
pub open spec fn payload_of(input: UploadContentInput) -> Payload {
    Payload {
        object_key: input.object_key,
        file_name: input.file_name,
        mime_type: input.mime_type,
        tags: input.tags,
        custom_metadata: input.custom_metadata,
        data: input.data,
    }
}

/// Whether `d` is `given`, or "original" where nothing is given.
pub open spec fn derivation_or_original(given: Option<String>, d: Option<String>) -> bool {
    if given is Some {
        d == given
    } else {
        d matches Some(s) && s@ == "original"@
    }
}

/// Whether `new` is the row that creating `input` asks for.
pub open spec fn row_to_create(input: CreateContentInput, new: NewContent) -> bool {
    &&& new.tenant_id == input.tenant_id
    &&& new.owner_id == input.owner_id
    &&& new.owner_type == input.owner_type
    &&& new.name == input.name
    &&& new.description == input.description
    &&& new.document_type == input.document_type
    &&& derivation_or_original(input.derivation_type, new.derivation_type)
}

/// Whether `new` is the row that uploading `input` asks for.
pub open spec fn row_to_upload(input: UploadContentInput, new: NewContent) -> bool {
    &&& new.tenant_id == input.tenant_id
    &&& new.owner_id == input.owner_id
    &&& new.owner_type == input.owner_type
    &&& new.name == input.name
    &&& new.description == input.description
    &&& new.document_type == input.document_type
    &&& derivation_or_original(None, new.derivation_type)
}

/// The key that is minted for an object of a content.
pub open spec fn minted_key(content_id: Uuid, suffix: Uuid) -> Seq<char> {
    hyphenated(content_id) + "/"@ + hyphenated(suffix)
}

/// Whether `key` is the given key or, where none is given, a minted one.
pub open spec fn key_or_minted(given: Option<String>, content_id: Uuid, key: Seq<char>) -> bool {
    match given {
        Some(k) => key == k@,
        None => exists|suffix: Uuid|
            is_v7(suffix) && key == #[trigger] minted_key(content_id, suffix),
    }
}

/// The size on record: the one that the store reports, else the number of bytes sent.
pub open spec fn recorded_size(seen: Option<ObjectMeta>, data: Bytes) -> i64 {
    match seen {
        Some(meta) => meta.size,
        None => bytes_view(data).len() as i64,
    }
}

/// The type on record: the one that the store reports, else the one given.
pub open spec fn recorded_mime(seen: Option<ObjectMeta>, given: Option<String>) -> Option<String> {
    match seen {
        Some(meta) => if meta.content_type is Some {
            meta.content_type
        } else {
            given
        },
        None => given,
    }
}

/// Whether `m` is the object metadata to record after the bytes are stored.
pub open spec fn object_metadata_to_record(
    object_id: Uuid,
    seen: Option<ObjectMeta>,
    data: Bytes,
    mime_type: Option<String>,
    now: OffsetDateTime,
    m: ObjectMetadata,
) -> bool {
    &&& m.object_id == object_id
    &&& m.size_bytes == Some(recorded_size(seen, data))
    &&& m.mime_type == recorded_mime(seen, mime_type)
    &&& m.etag == (match seen {
        Some(meta) => meta.etag,
        None => None,
    })
    &&& json_keys(m.metadata) == Some(Set::<Seq<char>>::empty())
    &&& m.created_at == now
    &&& m.updated_at == now
}

/// Whether `m` is the content metadata to record after the bytes are stored.
pub open spec fn content_metadata_to_record(
    content_id: Uuid,
    seen: Option<ObjectMeta>,
    payload: Payload,
    now: OffsetDateTime,
    m: ContentMetadata,
) -> bool {
    &&& m.content_id == content_id
    &&& m.tags == payload.tags
    &&& m.file_size == Some(recorded_size(seen, payload.data))
    &&& m.file_name == payload.file_name
    &&& m.mime_type == recorded_mime(seen, payload.mime_type)
    &&& m.checksum is None
    &&& m.checksum_algorithm is None
    &&& match payload.custom_metadata {
        Some(json) => m.metadata == json,
        None => json_keys(m.metadata) == Some(Set::<Seq<char>>::empty()),
    }
    &&& m.created_at == now
    &&& m.updated_at == now
}

/// The first object that has been uploaded.
pub open spec fn first_uploaded(objects: Seq<Object>) -> Option<Object> {
    let uploaded = objects.filter(|o: Object| o.status is Uploaded);
    if uploaded.len() > 0 {
        Some(uploaded[0])
    } else {
        None
    }
}

/// The first object that has been uploaded.
pub fn find_uploaded(objects: Vec<Object>) -> (r: Option<Object>)
    ensures
        r == first_uploaded(objects@),
{
    let mut objects = objects;
    let ghost all = objects@;
    let ghost uploaded = |o: Object| o.status is Uploaded;
    let mut i: usize = 0;
    assert(all.skip(0) =~= all);
    #[verifier::loop_isolation(false)]
    while i < objects.len()
        invariant
            i <= objects.len(),
            objects@ == all,
            all.filter(uploaded) == all.skip(i as int).filter(uploaded),
        decreases objects.len() - i,
    {
        proof {
            let one = seq![all[i as int]];
            assert(all.skip(i as int) =~= one + all.skip(i + 1));
            Seq::filter_distributes_over_add(one, all.skip(i + 1), uploaded);
            reveal_with_fuel(Seq::filter, 2);
            assert(one.drop_last() =~= Seq::<Object>::empty());
            assert(one.filter(uploaded) =~= if uploaded(one[0]) {
                one
            } else {
                Seq::<Object>::empty()
            });
        }
        if objects[i].status == ObjectStatus::Uploaded {
            return Some(objects.remove(i));
        }
        assert(all.filter(uploaded) =~= all.skip(i + 1).filter(uploaded));
        i = i + 1;
    }
    proof {
        reveal(Seq::filter);
        assert(all.skip(i as int) =~= Seq::<Object>::empty());
    }
    None
}

/// The key that is minted for an object of a content.
pub fn mint_key(content_id: Uuid, suffix: Uuid) -> (key: String)
    ensures
        key@ == minted_key(content_id, suffix),
{
    uuid_text(content_id).concat("/").concat(uuid_text(suffix).as_str())
}

/// The row that creating `input` asks for.
pub fn make_row(input: CreateContentInput) -> (new: NewContent)
    ensures
        row_to_create(input, new),
{
    let derivation_type = match input.derivation_type {
        Some(given) => Some(given),
        None => Some("original".to_owned()),
    };
    NewContent {
        tenant_id: input.tenant_id,
        owner_id: input.owner_id,
        owner_type: input.owner_type,
        name: input.name,
        description: input.description,
        document_type: input.document_type,
        derivation_type,
    }
}

/// The row and the payload of an upload.
pub fn split_upload(input: UploadContentInput) -> (r: (NewContent, Payload))
    ensures
        row_to_upload(input, r.0),
        r.1 == payload_of(input),
{
    let new = NewContent {
        tenant_id: input.tenant_id,
        owner_id: input.owner_id,
        owner_type: input.owner_type,
        name: input.name,
        description: input.description,
        document_type: input.document_type,
        derivation_type: Some("original".to_owned()),
    };
    let payload = Payload {
        object_key: input.object_key,
        file_name: input.file_name,
        mime_type: input.mime_type,
        tags: input.tags,
        custom_metadata: input.custom_metadata,
        data: input.data,
    };
    (new, payload)
}

/// The type to record: the one that the store reports, else the one given.
fn mime_to_record(seen: &Option<ObjectMeta>, given: &Option<String>) -> (r: Option<String>)
    ensures
        r == recorded_mime(*seen, *given),
{
    match seen {
        Some(meta) => match &meta.content_type {
            Some(reported) => Some(reported.clone()),
            None => given.clone(),
        },
        None => given.clone(),
    }
}

/// The object metadata to record after the bytes are stored.
pub fn make_object_metadata(
    object_id: Uuid,
    seen: &Option<ObjectMeta>,
    payload: &Payload,
    now: OffsetDateTime,
) -> (m: ObjectMetadata)
    ensures
        object_metadata_to_record(object_id, *seen, payload.data, payload.mime_type, now, m),
{
    let size: i64 = match seen {
        Some(meta) => meta.size,
        None => payload.data.len() as i64,
    };
    let etag = match seen {
        Some(meta) => meta.etag.clone(),
        None => None,
    };
    ObjectMetadata {
        object_id,
        size_bytes: Some(size),
        mime_type: mime_to_record(seen, &payload.mime_type),
        etag,
        metadata: empty_object(),
        created_at: now,
        updated_at: now,
    }
}

/// The content metadata to record after the bytes are stored.
pub fn make_content_metadata(
    content_id: Uuid,
    seen: &Option<ObjectMeta>,
    payload: Payload,
    now: OffsetDateTime,
) -> (m: ContentMetadata)
    ensures
        content_metadata_to_record(content_id, *seen, payload, now, m),
{
    let size: i64 = match seen {
        Some(meta) => meta.size,
        None => payload.data.len() as i64,
    };
    let mime_type = mime_to_record(seen, &payload.mime_type);
    let metadata = match payload.custom_metadata {
        Some(json) => json,
        None => empty_object(),
    };
    ContentMetadata {
        content_id,
        tags: payload.tags,
        file_size: Some(size),
        file_name: payload.file_name,
        mime_type,
        checksum: None,
        checksum_algorithm: None,
        metadata,
        created_at: now,
        updated_at: now,
    }
}

impl<C, O, S, K> ContentService<C, O, S, K> {
    /// The contents port.
    pub closed spec fn contents(self) -> C {
        self.contents
    }

    /// The objects port.
    pub closed spec fn objects(self) -> O {
        self.objects
    }

    /// The store port.
    pub closed spec fn store(self) -> S {
        self.store
    }

    /// The clock port.
    pub closed spec fn clock(self) -> K {
        self.clock
    }

    /// The backend name that goes into object rows.
    pub closed spec fn backend_name(self) -> Seq<char> {
        self.default_backend_name@
    }

    /// The suffix of the key that was minted last.
    pub closed spec fn last_suffix(self) -> Option<Uuid> {
        last_id(self.last_suffix)
    }

    /// The service with another suffix minted last.
    pub closed spec fn with_suffix(self, last: Option<Minted>) -> Self {
        ContentService { last_suffix: last, ..self }
    }

    /// Whether `key` is the given key or, where none is given, one minted with a
    /// suffix that is larger than the one before; `last` is then that suffix.
    pub open spec fn picks_key(
        self,
        given: Option<String>,
        content_id: Uuid,
        key: Seq<char>,
        last: Option<Minted>,
    ) -> bool {
        match given {
            Some(k) => key == k@ && last_id(last) == self.last_suffix(),
            None => {
                &&& last_id(last) matches Some(suffix)
                &&& is_v7(suffix)
                &&& (self.last_suffix() matches Some(before) ==> before < suffix)
                &&& key == minted_key(content_id, suffix)
            },
        }
    }

    /// The service with the contents port in another state.
    pub closed spec fn with_contents(self, contents: C) -> Self {
        ContentService { contents, ..self }
    }

    /// The service with the objects port in another state.
    pub closed spec fn with_objects(self, objects: O) -> Self {
        ContentService { objects, ..self }
    }

    /// The service with the store port in another state.
    pub closed spec fn with_store(self, store: S) -> Self {
        ContentService { store, ..self }
    }
}

/// Putting the contents port into a state changes that port and nothing else.
pub broadcast proof fn law_with_contents<C, O, S, K>(s: ContentService<C, O, S, K>, contents: C)
    ensures
        ({
            let t = #[trigger] s.with_contents(contents);
            &&& t.contents() == contents
            &&& t.objects() == s.objects()
            &&& t.store() == s.store()
            &&& t.clock() == s.clock()
            &&& t.backend_name() == s.backend_name()
            &&& t.last_suffix() == s.last_suffix()
        }),
{
}

/// Putting the objects port into a state changes that port and nothing else.
pub broadcast proof fn law_with_objects<C, O, S, K>(s: ContentService<C, O, S, K>, objects: O)
    ensures
        ({
            let t = #[trigger] s.with_objects(objects);
            &&& t.contents() == s.contents()
            &&& t.objects() == objects
            &&& t.store() == s.store()
            &&& t.clock() == s.clock()
            &&& t.backend_name() == s.backend_name()
            &&& t.last_suffix() == s.last_suffix()
        }),
{
}

/// Putting the store port into a state changes that port and nothing else.
pub broadcast proof fn law_with_store<C, O, S, K>(s: ContentService<C, O, S, K>, store: S)
    ensures
        ({
            let t = #[trigger] s.with_store(store);
            &&& t.contents() == s.contents()
            &&& t.objects() == s.objects()
            &&& t.store() == store
            &&& t.clock() == s.clock()
            &&& t.backend_name() == s.backend_name()
            &&& t.last_suffix() == s.last_suffix()
        }),
{
}

/// Noting a suffix leaves the ports as they are.
pub broadcast proof fn law_with_suffix<C, O, S, K>(
    s: ContentService<C, O, S, K>,
    last: Option<Minted>,
)
    ensures
        ({
            let t = #[trigger] s.with_suffix(last);
            &&& t.contents() == s.contents()
            &&& t.objects() == s.objects()
            &&& t.store() == s.store()
            &&& t.clock() == s.clock()
            &&& t.backend_name() == s.backend_name()
            &&& t.last_suffix() == last_id(last)
        }),
{
}

/// The ports of a service are independent of one another.
pub broadcast group group_ports {
    law_with_suffix,
    law_with_contents,
    law_with_objects,
    law_with_store,
}

impl<C: ContentRepo, O: ObjectRepo, S: ObjectStore> ContentService<C, O, S, SystemClock> {
    /// A service over the given ports and the system clock.
    pub fn new(contents: C, objects: O, store: S, backend_name: &str) -> (s: Self)
        ensures
            s.contents() == contents,
            s.objects() == objects,
            s.store() == store,
            s.backend_name() == backend_name@,
            s.last_suffix() is None,
    {
        Self::builder(contents, objects).store(store).backend_name(backend_name).build()
    }

    /// A builder over the two repositories.
    pub fn builder(contents: C, objects: O) -> (b: ContentServiceBuilder<C, O, S, SystemClock>)
        ensures
            b.contents() == contents,
            b.objects() == objects,
            b.chosen_store() is None,
            b.chosen_backend_name() == "memory"@,
    {
        ContentServiceBuilder {
            contents,
            objects,
            store: None,
            default_backend_name: "memory".to_owned(),
            clock: SystemClock,
        }
    }
}

impl<C, O, S, K> ContentServiceBuilder<C, O, S, K> {
    /// The contents port.
    pub closed spec fn contents(self) -> C {
        self.contents
    }

    /// The objects port.
    pub closed spec fn objects(self) -> O {
        self.objects
    }

    /// The store port, if one has been set.
    pub closed spec fn chosen_store(self) -> Option<S> {
        self.store
    }

    /// The clock port.
    pub closed spec fn chosen_clock(self) -> K {
        self.clock
    }

    /// The backend name.
    pub closed spec fn chosen_backend_name(self) -> Seq<char> {
        self.default_backend_name@
    }

    /// Sets the store.
    pub fn store(self, store: S) -> (b: Self)
        ensures
            b.contents() == self.contents(),
            b.objects() == self.objects(),
            b.chosen_store() == Some(store),
            b.chosen_clock() == self.chosen_clock(),
            b.chosen_backend_name() == self.chosen_backend_name(),
    {
        ContentServiceBuilder { store: Some(store), ..self }
    }

    /// Sets the backend name.
    pub fn backend_name(self, name: &str) -> (b: Self)
        ensures
            b.contents() == self.contents(),
            b.objects() == self.objects(),
            b.chosen_store() == self.chosen_store(),
            b.chosen_clock() == self.chosen_clock(),
            b.chosen_backend_name() == name@,
    {
        ContentServiceBuilder { default_backend_name: name.to_owned(), ..self }
    }

    /// Sets the clock.
    pub fn clock<L>(self, clock: L) -> (b: ContentServiceBuilder<C, O, S, L>)
        ensures
            b.contents() == self.contents(),
            b.objects() == self.objects(),
            b.chosen_store() == self.chosen_store(),
            b.chosen_clock() == clock,
            b.chosen_backend_name() == self.chosen_backend_name(),
    {
        ContentServiceBuilder {
            contents: self.contents,
            objects: self.objects,
            store: self.store,
            default_backend_name: self.default_backend_name,
            clock,
        }
    }

    /// The service. A builder without a store is a wiring error.
    pub fn build(self) -> (s: ContentService<C, O, S, K>)
        requires
            self.chosen_store() is Some,
        ensures
            s.contents() == self.contents(),
            s.objects() == self.objects(),
            Some(s.store()) == self.chosen_store(),
            s.clock() == self.chosen_clock(),
            s.backend_name() == self.chosen_backend_name(),
            s.last_suffix() is None,
    {
        let store = self.store.expect("ContentServiceBuilder::build: set a store first");
        ContentService {
            contents: self.contents,
            objects: self.objects,
            store,
            default_backend_name: self.default_backend_name,
            clock: self.clock,
            last_suffix: None,
        }
    }
}

/// What the methods of the service do, in terms of the relations of the ports.
impl<C: ContentRepo, O: ObjectRepo, S: ObjectStore, K: Clock> ContentService<C, O, S, K> {
    /// What `create_content` does.
    pub open spec fn creates(
        pre: Self,
        input: CreateContentInput,
        by: Option<String>,
        post: Self,
        r: Result<Content, ContentError>,
    ) -> bool {
        exists|new: NewContent, contents: C|
            {
                &&& row_to_create(input, new)
                &&& #[trigger] C::creates(pre.contents(), new, by, contents, r)
                &&& post == pre.with_contents(contents)
            }
    }

    /// What `update_content` does: the live content is read, its editable
    /// fields are replaced, and the result is written back.
    pub open spec fn updates(
        pre: Self,
        id: Uuid,
        input: UpdateContentInput,
        by: Option<String>,
        post: Self,
        r: Result<Content, ContentError>,
    ) -> bool {
        exists|found: Result<Content, ContentError>| #[trigger]
            pre.contents().gets(id, found) && match found {
                Err(e) => r == Err::<Content, ContentError>(e) && post == pre,
                Ok(existing) => exists|contents: C|
                    {
                        &&& #[trigger] C::updates(
                            pre.contents(),
                            Content {
                                owner_type: input.owner_type,
                                name: input.name,
                                description: input.description,
                                document_type: input.document_type,
                                ..existing
                            },
                            by,
                            contents,
                            r,
                        )
                        &&& post == pre.with_contents(contents)
                    },
            }
    }

    /// What `set_content_metadata` does: nothing for a content that is not
    /// there, else the metadata is set, stamped by the clock.
    pub open spec fn sets_metadata(
        pre: Self,
        input: SetContentMetadataInput,
        post: Self,
        r: Result<(), ContentError>,
    ) -> bool {
        exists|found: Result<Content, ContentError>| #[trigger]
            pre.contents().gets(input.content_id, found) && match found {
                Err(e) => r == Err::<(), ContentError>(e) && post == pre,
                Ok(_) => exists|now: OffsetDateTime, contents: C|
                    {
                        &&& pre.clock().may_read(now)
                        &&& #[trigger] C::sets_metadata(
                            pre.contents(),
                            ContentMetadata {
                                content_id: input.content_id,
                                tags: input.tags,
                                file_size: input.file_size,
                                file_name: input.file_name,
                                mime_type: input.mime_type,
                                checksum: input.checksum,
                                checksum_algorithm: input.checksum_algorithm,
                                metadata: input.metadata,
                                created_at: now,
                                updated_at: now,
                            },
                            contents,
                            r,
                        )
                        &&& post == pre.with_contents(contents)
                    },
            }
    }

    /// What `download_content` answers: the bytes of the first uploaded object
    /// of a content whose state allows it.
    pub open spec fn downloads(self, content_id: Uuid, r: Result<Bytes, ContentError>) -> bool {
        exists|found: Result<Content, ContentError>| #[trigger]
            self.contents().gets(content_id, found) && match found {
                Err(e) => r == Err::<Bytes, ContentError>(e),
                Ok(content) => if content.status.downloadable() {
                    self.downloads_first(content_id, r)
                } else {
                    r matches Err(ContentError::NotReady(detail)) && detail@ == refusal(
                        "content not downloadable"@,
                        content.status.name(),
                    )
                },
            }
    }

    /// The download of a content that can be downloaded.
    pub open spec fn downloads_first(
        self,
        content_id: Uuid,
        r: Result<Bytes, ContentError>,
    ) -> bool {
        exists|listed: Result<Vec<Object>, ContentError>| #[trigger]
            self.objects().lists_by_content(content_id, listed) && match listed {
                Err(e) => r == Err::<Bytes, ContentError>(e),
                Ok(objects) => match first_uploaded(objects@) {
                    None => r == Err::<Bytes, ContentError>(ContentError::NotFound),
                    Some(object) => self.store().downloads(object.object_key@, r),
                },
            }
    }

    /// What `upload_content` does. First the content row is created. A failure
    /// here or in any later fatal step ends the upload with its error; what
    /// the steps before it have written stays.
    pub open spec fn uploads(
        pre: Self,
        input: UploadContentInput,
        by: Option<String>,
        post: Self,
        r: Result<UploadOutcome, ContentError>,
    ) -> bool {
        exists|new: NewContent, contents: C, made: Result<Content, ContentError>|
            {
                &&& row_to_upload(input, new)
                &&& #[trigger] C::creates(pre.contents(), new, by, contents, made)
                &&& match made {
                    Err(e) => r == Err::<UploadOutcome, ContentError>(e) && post
                        == pre.with_contents(contents),
                    Ok(content) => Self::uploads_object(
                        pre.with_contents(contents),
                        content.id,
                        payload_of(input),
                        by,
                        post,
                        r,
                    ),
                }
            }
    }

    /// The upload from the object row on.
    pub open spec fn uploads_object(
        pre: Self,
        content_id: Uuid,
        payload: Payload,
        by: Option<String>,
        post: Self,
        r: Result<UploadOutcome, ContentError>,
    ) -> bool {
        exists|
            new: NewObject,
            last: Option<Minted>,
            objects: O,
            made: Result<Object, ContentError>,
        |
            {
                &&& new.content_id == content_id
                &&& new.storage_backend_name@ == pre.backend_name()
                &&& new.storage_class is None
                &&& #[trigger] pre.picks_key(payload.object_key, content_id, new.object_key@, last)
                &&& new.file_name == payload.file_name
                &&& new.object_type is None
                &&& #[trigger] O::creates(pre.objects(), new, by, objects, made)
                &&& match made {
                    Err(e) => r == Err::<UploadOutcome, ContentError>(e) && post
                        == pre.with_suffix(last).with_objects(objects),
                    Ok(object) => Self::uploads_bytes(
                        pre.with_suffix(last).with_objects(objects),
                        content_id,
                        object.id,
                        new.object_key@,
                        payload,
                        by,
                        post,
                        r,
                    ),
                }
            }
    }

    /// The upload from the store on.
    pub open spec fn uploads_bytes(
        pre: Self,
        content_id: Uuid,
        object_id: Uuid,
        key: Seq<char>,
        payload: Payload,
        by: Option<String>,
        post: Self,
        r: Result<UploadOutcome, ContentError>,
    ) -> bool {
        exists|params: UploadParams, data: Bytes, store: S, stored: Result<(), ContentError>|
            {
                &&& params.object_key@ == key
                &&& params.mime_type == payload.mime_type
                &&& params.file_name == payload.file_name
                &&& bytes_view(data) == bytes_view(payload.data)
                &&& #[trigger] S::uploads(pre.store(), params, data, store, stored)
                &&& match stored {
                    Err(e) => r == Err::<UploadOutcome, ContentError>(e) && post
                        == pre.with_store(store),
                    Ok(_) => Self::uploads_status(
                        pre.with_store(store),
                        content_id,
                        object_id,
                        key,
                        payload,
                        by,
                        post,
                        r,
                    ),
                }
            }
    }

    /// The upload from the state of the object on.
    pub open spec fn uploads_status(
        pre: Self,
        content_id: Uuid,
        object_id: Uuid,
        key: Seq<char>,
        payload: Payload,
        by: Option<String>,
        post: Self,
        r: Result<UploadOutcome, ContentError>,
    ) -> bool {
        exists|objects: O, marked: Result<(), ContentError>|
            {
                &&& #[trigger] O::sets_status(
                    pre.objects(),
                    object_id,
                    ObjectStatus::Uploaded,
                    by,
                    objects,
                    marked,
                )
                &&& match marked {
                    Err(e) => r == Err::<UploadOutcome, ContentError>(e) && post
                        == pre.with_objects(objects),
                    Ok(_) => Self::uploads_metadata(
                        pre.with_objects(objects),
                        content_id,
                        object_id,
                        key,
                        payload,
                        by,
                        post,
                        r,
                    ),
                }
            }
    }

    /// The upload from the metadata on. The store is asked for what it knows,
    /// and both metadata are set; the upload goes on whether or not these
    /// three calls succeed.
    pub open spec fn uploads_metadata(
        pre: Self,
        content_id: Uuid,
        object_id: Uuid,
        key: Seq<char>,
        payload: Payload,
        by: Option<String>,
        post: Self,
        r: Result<UploadOutcome, ContentError>,
    ) -> bool {
        exists|
            seen: Result<ObjectMeta, ContentError>,
            now: OffsetDateTime,
            om: ObjectMetadata,
            objects: O,
            om_set: Result<(), ContentError>,
            cm: ContentMetadata,
            contents: C,
            cm_set: Result<(), ContentError>,
        |
            {
                &&& #[trigger] pre.store().describes(key, seen)
                &&& #[trigger] pre.clock().may_read(now)
                &&& object_metadata_to_record(
                    object_id,
                    seen.ok(),
                    payload.data,
                    payload.mime_type,
                    now,
                    om,
                )
                &&& #[trigger] O::sets_metadata(pre.objects(), om, objects, om_set)
                &&& content_metadata_to_record(content_id, seen.ok(), payload, now, cm)
                &&& #[trigger] C::sets_metadata(pre.contents(), cm, contents, cm_set)
                &&& Self::uploads_end(
                    pre.with_objects(objects).with_contents(contents),
                    content_id,
                    object_id,
                    by,
                    post,
                    r,
                )
            }
    }

    /// The end of the upload: the state of the content, and the two rows as
    /// they then are.
    pub open spec fn uploads_end(
        pre: Self,
        content_id: Uuid,
        object_id: Uuid,
        by: Option<String>,
        post: Self,
        r: Result<UploadOutcome, ContentError>,
    ) -> bool {
        exists|contents: C, marked: Result<(), ContentError>|
            {
                &&& #[trigger] C::sets_status(
                    pre.contents(),
                    content_id,
                    ContentStatus::Uploaded,
                    by,
                    contents,
                    marked,
                )
                &&& post == pre.with_contents(contents)
                &&& match marked {
                    Err(e) => r == Err::<UploadOutcome, ContentError>(e),
                    Ok(_) => post.reads_outcome(content_id, object_id, r),
                }
            }
    }

    /// The two rows of an upload as they are.
    pub open spec fn reads_outcome(
        self,
        content_id: Uuid,
        object_id: Uuid,
        r: Result<UploadOutcome, ContentError>,
    ) -> bool {
        exists|found: Result<Content, ContentError>| #[trigger]
            self.contents().gets(content_id, found) && match found {
                Err(e) => r == Err::<UploadOutcome, ContentError>(e),
                Ok(content) => exists|held: Result<Object, ContentError>| #[trigger]
                    self.objects().gets(object_id, held) && match held {
                        Err(e) => r == Err::<UploadOutcome, ContentError>(e),
                        Ok(object) => r == Ok::<UploadOutcome, ContentError>(
                            UploadOutcome { content, object },
                        ),
                    },
            }
    }
}

impl<C: ContentRepo, O: ObjectRepo, S: ObjectStore, K: Clock> ContentService<C, O, S, K> {
    /// Creates a content, without bytes.
    pub fn create_content(&mut self, input: CreateContentInput, by: Option<String>) -> (r: Result<
        Content,
        ContentError,
    >)
        ensures
            Self::creates(*old(self), input, by, *final(self), r),
    {
        let new = make_row(input);
        let r = self.contents.create(new, by);
        assert(C::creates(old(self).contents(), new, by, self.contents, r));
        assert(*self == old(self).with_contents(self.contents));
        r
    }

    /// The live content; `NotFound` where there is none. Whether the caller may
    /// see it is not asked.
    pub fn get_content(&self, id: Uuid) -> (r: Result<Content, ContentError>)
        ensures
            self.contents().gets(id, r),
    {
        self.contents.get(id)
    }

    /// Replaces the editable fields of a live content; `NotFound` where there is none.
    pub fn update_content(&mut self, id: Uuid, input: UpdateContentInput, by: Option<String>) -> (r:
        Result<Content, ContentError>)
        ensures
            Self::updates(*old(self), id, input, by, *final(self), r),
    {
        let found = self.contents.get(id);
        let ghost answer = found;
        match found {
            Err(e) => {
                assert(old(self).contents().gets(id, answer));
                Err(e)
            },
            Ok(existing) => {
                assert(old(self).contents().gets(id, answer));
                let updated = Content {
                    owner_type: input.owner_type,
                    name: input.name,
                    description: input.description,
                    document_type: input.document_type,
                    ..existing
                };
                let r = self.contents.update(&updated, by);
                assert(*self == old(self).with_contents(self.contents));
                r
            },
        }
    }

    /// Hides a live content; `NotFound` where there is none. Its objects and
    /// their bytes stay.
    pub fn delete_content(&mut self, id: Uuid, by: Option<String>) -> (r: Result<(), ContentError>)
        ensures
            C::soft_deletes(old(self).contents(), id, by, final(self).contents(), r),
            *final(self) == old(self).with_contents(final(self).contents()),
    {
        self.contents.soft_delete(id, by)
    }

    /// The live contents of an owner in a tenant, largest id first.
    pub fn list_content(&self, owner_id: Uuid, tenant_id: Uuid) -> (r: Result<
        Vec<Content>,
        ContentError,
    >)
        ensures
            self.contents().lists(owner_id, tenant_id, r),
    {
        self.contents.list(owner_id, tenant_id)
    }

    /// Creates a content with its object and its bytes: rows first, then the
    /// bytes, then the states and the metadata.
    ///
    /// There is no transaction around it. A store that fails leaves the rows
    /// behind; a failure after the store leaves the bytes behind too.
    pub fn upload_content(&mut self, input: UploadContentInput, by: Option<String>) -> (r: Result<
        UploadOutcome,
        ContentError,
    >)
        ensures
            Self::uploads(*old(self), input, by, *final(self), r),
    {
        let (new, payload) = split_upload(input);
        let made = self.contents.create(new, by.clone());
        let ghost answer = made;
        assert(C::creates(old(self).contents(), new, by, self.contents, answer));
        assert(*self == old(self).with_contents(self.contents));
        match made {
            Err(e) => Err(e),
            Ok(content) => self.upload_object(content.id, payload, by),
        }
    }

    /// The upload from the object row on.
    fn upload_object(&mut self, content_id: Uuid, payload: Payload, by: Option<String>) -> (r:
        Result<UploadOutcome, ContentError>)
        ensures
            Self::uploads_object(*old(self), content_id, payload, by, *final(self), r),
    {
        let object_key = match &payload.object_key {
            Some(given) => given.clone(),
            None => {
                let minted = mint(&self.last_suffix);
                let key = mint_key(content_id, minted.get());
                self.last_suffix = Some(minted);
                key
            },
        };
        let new = NewObject {
            content_id,
            storage_backend_name: self.default_backend_name.clone(),
            storage_class: None,
            object_key: object_key.clone(),
            file_name: payload.file_name.clone(),
            object_type: None,
        };
        let made = self.objects.create(new, by.clone());
        let ghost answer = made;
        assert(O::creates(old(self).objects(), new, by, self.objects, answer));
        assert(old(self).picks_key(
            payload.object_key,
            content_id,
            new.object_key@,
            self.last_suffix,
        ));
        assert(*self == old(self).with_suffix(self.last_suffix).with_objects(self.objects));
        match made {
            Err(e) => Err(e),
            Ok(object) => self.upload_bytes(content_id, object.id, object_key, payload, by),
        }
    }

    /// The upload from the store on.
    fn upload_bytes(
        &mut self,
        content_id: Uuid,
        object_id: Uuid,
        object_key: String,
        payload: Payload,
        by: Option<String>,
    ) -> (r: Result<UploadOutcome, ContentError>)
        ensures
            Self::uploads_bytes(
                *old(self),
                content_id,
                object_id,
                object_key@,
                payload,
                by,
                *final(self),
                r,
            ),
    {
        let params = UploadParams {
            object_key: object_key.clone(),
            mime_type: payload.mime_type.clone(),
            file_name: payload.file_name.clone(),
        };
        let data = payload.data.clone();
        let stored = self.store.upload(params, data);
        let ghost answer = stored;
        assert(S::uploads(old(self).store(), params, data, self.store, answer));
        assert(*self == old(self).with_store(self.store));
        match stored {
            Err(e) => Err(e),
            Ok(()) => self.upload_status(content_id, object_id, object_key, payload, by),
        }
    }

    /// The upload from the state of the object on.
    fn upload_status(
        &mut self,
        content_id: Uuid,
        object_id: Uuid,
        object_key: String,
        payload: Payload,
        by: Option<String>,
    ) -> (r: Result<UploadOutcome, ContentError>)
        ensures
            Self::uploads_status(
                *old(self),
                content_id,
                object_id,
                object_key@,
                payload,
                by,
                *final(self),
                r,
            ),
    {
        let marked = self.objects.set_status(object_id, ObjectStatus::Uploaded, by.clone());
        let ghost answer = marked;
        assert(O::sets_status(
            old(self).objects(),
            object_id,
            ObjectStatus::Uploaded,
            by,
            self.objects,
            answer,
        ));
        assert(*self == old(self).with_objects(self.objects));
        match marked {
            Err(e) => Err(e),
            Ok(()) => self.upload_metadata(content_id, object_id, object_key, payload, by),
        }
    }

    /// The upload from the metadata on.
    fn upload_metadata(
        &mut self,
        content_id: Uuid,
        object_id: Uuid,
        object_key: String,
        payload: Payload,
        by: Option<String>,
    ) -> (r: Result<UploadOutcome, ContentError>)
        ensures
            Self::uploads_metadata(
                *old(self),
                content_id,
                object_id,
                object_key@,
                payload,
                by,
                *final(self),
                r,
            ),
    {
        let described = self.store.object_meta(object_key.as_str());
        let ghost answer = described;
        let seen = described.ok();
        let now = self.clock.now();
        let om = make_object_metadata(object_id, &seen, &payload, now);
        let om_set = self.objects.set_metadata(om);
        let cm = make_content_metadata(content_id, &seen, payload, now);
        let cm_set = self.contents.set_metadata(cm);
        assert(old(self).store().describes(object_key@, answer));
        assert(old(self).clock().may_read(now));
        assert(O::sets_metadata(old(self).objects(), om, self.objects, om_set));
        assert(C::sets_metadata(old(self).contents(), cm, self.contents, cm_set));
        assert(*self == old(self).with_objects(self.objects).with_contents(self.contents));
        self.upload_end(content_id, object_id, by)
    }

    /// The end of the upload.
    fn upload_end(&mut self, content_id: Uuid, object_id: Uuid, by: Option<String>) -> (r: Result<
        UploadOutcome,
        ContentError,
    >)
        ensures
            Self::uploads_end(*old(self), content_id, object_id, by, *final(self), r),
    {
        let marked = self.contents.set_status(content_id, ContentStatus::Uploaded, by);
        let ghost answer = marked;
        assert(C::sets_status(
            old(self).contents(),
            content_id,
            ContentStatus::Uploaded,
            by,
            self.contents,
            answer,
        ));
        assert(*self == old(self).with_contents(self.contents));
        match marked {
            Err(e) => Err(e),
            Ok(()) => self.read_outcome(content_id, object_id),
        }
    }

    /// The two rows of an upload as they are.
    fn read_outcome(&self, content_id: Uuid, object_id: Uuid) -> (r: Result<
        UploadOutcome,
        ContentError,
    >)
        ensures
            self.reads_outcome(content_id, object_id, r),
    {
        let found = self.contents.get(content_id);
        let ghost answer = found;
        assert(self.contents().gets(content_id, answer));
        match found {
            Err(e) => Err(e),
            Ok(content) => {
                let held = self.objects.get(object_id);
                let ghost second = held;
                assert(self.objects().gets(object_id, second));
                match held {
                    Err(e) => Err(e),
                    Ok(object) => Ok(UploadOutcome { content, object }),
                }
            },
        }
    }

    /// The bytes of a content. `NotFound` where the content, or an uploaded
    /// object of it, is not there; `NotReady` where its state forbids it.
    pub fn download_content(&self, content_id: Uuid) -> (r: Result<Bytes, ContentError>)
        ensures
            self.downloads(content_id, r),
    {
        let found = self.contents.get(content_id);
        let ghost answer = found;
        assert(self.contents().gets(content_id, answer));
        match found {
            Err(e) => Err(e),
            Ok(content) => match can_download_content(content.status) {
                Err(e) => Err(e),
                Ok(()) => self.download_first(content_id),
            },
        }
    }

    /// The download of a content that can be downloaded.
    fn download_first(&self, content_id: Uuid) -> (r: Result<Bytes, ContentError>)
        ensures
            self.downloads_first(content_id, r),
    {
        let listed = self.objects.list_by_content(content_id);
        let ghost answer = listed;
        assert(self.objects().lists_by_content(content_id, answer));
        match listed {
            Err(e) => Err(e),
            Ok(objects) => match find_uploaded(objects) {
                None => Err(ContentError::NotFound),
                Some(object) => self.store.download(object.object_key.as_str()),
            },
        }
    }

    /// Sets the metadata of a live content, over what was there; `NotFound`
    /// where there is no such content.
    pub fn set_content_metadata(&mut self, input: SetContentMetadataInput) -> (r: Result<
        (),
        ContentError,
    >)
        ensures
            Self::sets_metadata(*old(self), input, *final(self), r),
    {
        let found = self.contents.get(input.content_id);
        let ghost answer = found;
        match found {
            Err(e) => {
                assert(old(self).contents().gets(input.content_id, answer));
                Err(e)
            },
            Ok(_) => {
                assert(old(self).contents().gets(input.content_id, answer));
                let now = self.clock.now();
                let m = ContentMetadata {
                    content_id: input.content_id,
                    tags: input.tags,
                    file_size: input.file_size,
                    file_name: input.file_name,
                    mime_type: input.mime_type,
                    checksum: input.checksum,
                    checksum_algorithm: input.checksum_algorithm,
                    metadata: input.metadata,
                    created_at: now,
                    updated_at: now,
                };
                let r = self.contents.set_metadata(m);
                assert(*self == old(self).with_contents(self.contents));
                r
            },
        }
    }

    /// The metadata of a content; `NotFound` where there is none.
    pub fn get_content_metadata(&self, content_id: Uuid) -> (r: Result<
        ContentMetadata,
        ContentError,
    >)
        ensures
            self.contents().gets_metadata(content_id, r),
    {
        self.contents.get_metadata(content_id)
    }

    /// The live objects of a content, smallest id first.
    pub fn get_objects(&self, content_id: Uuid) -> (r: Result<Vec<Object>, ContentError>)
        ensures
            self.objects().lists_by_content(content_id, r),
    {
        self.objects.list_by_content(content_id)
    }

    /// Sets the state of a live content; `NotFound` where there is none.
    pub fn set_content_status(&mut self, id: Uuid, status: ContentStatus, by: Option<String>) -> (r:
        Result<(), ContentError>)
        ensures
            C::sets_status(old(self).contents(), id, status, by, final(self).contents(), r),
            *final(self) == old(self).with_contents(final(self).contents()),
    {
        self.contents.set_status(id, status, by)
    }

    /// Sets the state of a live object; `NotFound` where there is none.
    pub fn set_object_status(&mut self, id: Uuid, status: ObjectStatus, by: Option<String>) -> (r:
        Result<(), ContentError>)
        ensures
            O::sets_status(old(self).objects(), id, status, by, final(self).objects(), r),
            *final(self) == old(self).with_objects(final(self).objects()),
    {
        self.objects.set_status(id, status, by)
    }
}

} // verus!
