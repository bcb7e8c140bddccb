//! What holds of the small parts: clones, rows, ordered ids, the builder, the
//! clock.

use time::OffsetDateTime;
use vstd::prelude::*;

use crate::clock::{Clock, SystemClock};
use crate::error::ContentError;
use crate::ext::{utc_offset, Uuid};
use crate::repo::memory::{ContentRow, InMemoryContentRepo, InMemoryObjectRepo, ObjectRow};
use crate::repo::order::insert_ascending;
use crate::repo::{ContentRepo, ObjectRepo};
use crate::service::{ContentService, ContentServiceBuilder};
use crate::sql::{names, Column};
use crate::store::{InMemoryObjectStore, ObjectStore};
use crate::types::{Content, DerivedContent, Object, ObjectMetadata};

verus! {

/// A clone is equal to what it was made of.
pub proof fn law_clones_are_equal(
    c: Content,
    c2: Content,
    o: Object,
    o2: Object,
    m: ObjectMetadata,
    m2: ObjectMetadata,
    d: DerivedContent,
    d2: DerivedContent,
)
    requires
        call_ensures(Content::clone, (&c,), c2),
        call_ensures(Object::clone, (&o,), o2),
        call_ensures(ObjectMetadata::clone, (&m,), m2),
        call_ensures(DerivedContent::clone, (&d,), d2),
    ensures
        c2 == c,
        o2 == o,
        m2 == m,
        d2 == d,
{
}

/// The content of a row has the id that is asked for and the fields of the row.
pub proof fn law_content_of_a_kept_row(row: ContentRow, id: Uuid, c: Content)
    requires
        call_ensures(ContentRow::to_entity, (&row, id), c),
    ensures
        c.id == id,
        c.tenant_id == row.tenant_id,
        c.owner_id == row.owner_id,
        c.owner_type == row.owner_type,
        c.name == row.name,
        c.description == row.description,
        c.document_type == row.document_type,
        c.status == row.status,
        c.derivation_type == row.derivation_type,
        c.created_at == row.created_at,
        c.updated_at == row.updated_at,
{
}

/// The object of a row has the id that is asked for and the fields of the row.
pub proof fn law_object_of_a_kept_row(row: ObjectRow, id: Uuid, o: Object)
    requires
        call_ensures(ObjectRow::to_entity, (&row, id), o),
    ensures
        o.id == id,
        o.content_id == row.content_id,
        o.storage_backend_name == row.storage_backend_name,
        o.storage_class == row.storage_class,
        o.object_key == row.object_key,
        o.file_name == row.file_name,
        o.version == row.version,
        o.object_type == row.object_type,
        o.status == row.status,
        o.created_at == row.created_at,
        o.updated_at == row.updated_at,
{
}

/// An id that is put among ascending ids is there, once; the others stay, and all
/// still ascend.
pub proof fn law_ids_stay_ascending(ids: &mut Vec<Uuid>, id: Uuid, other: Uuid)
    requires
        forall|i: int, j: int| 0 <= i < j < old(ids)@.len() ==> old(ids)@[i] < old(ids)@[j],
        !old(ids)@.contains(id),
        call_ensures(insert_ascending, (ids, id), ()),
    ensures
        forall|i: int, j: int| 0 <= i < j < final(ids)@.len() ==> final(ids)@[i] < final(ids)@[j],
        final(ids)@.contains(other) <==> old(ids)@.contains(other) || other == id,
{
}

/// What is made by default holds nothing.
pub proof fn law_defaults_are_empty(
    contents: InMemoryContentRepo,
    objects: InMemoryObjectRepo,
    store: InMemoryObjectStore,
    id: Uuid,
    key: &str,
    c: Result<Content, ContentError>,
    o: Result<Object, ContentError>,
    b: Result<bytes::Bytes, ContentError>,
)
    requires
        call_ensures(InMemoryContentRepo::default, (), contents),
        call_ensures(InMemoryObjectRepo::default, (), objects),
        call_ensures(InMemoryObjectStore::default, (), store),
        call_ensures(InMemoryContentRepo::get, (&contents, id), c),
        call_ensures(InMemoryObjectRepo::get, (&objects, id), o),
        call_ensures(InMemoryObjectStore::download, (&store, key), b),
    ensures
        c is Err,
        o is Err,
        b is Err,
        objects.well_formed(),
{
}

/// The names of columns stand in the order of the columns.
pub proof fn law_names_follow_the_columns<T: Column>(columns: &[T], r: Vec<&'static str>, i: int)
    requires
        call_ensures(names::<T>, (columns,), r),
        0 <= i < columns@.len(),
    ensures
        r@.len() == columns@.len(),
        r@[i]@ == columns@[i].sql_name(),
{
    let texts = crate::sql::names_as_text(r@);
    assert(texts[i] == r@[i]@);
    assert(crate::sql::names_of(columns@)[i] == columns@[i].sql_name());
}

/// The system clock reads UTC.
pub proof fn law_system_clock_reads_utc(t: OffsetDateTime)
    requires
        call_ensures(SystemClock::now, (&SystemClock,), t),
    ensures
        utc_offset(t) == 0,
{
}

/// A service has the ports and the name that its builder was given, the last of
/// each; where no name was given, it is "memory".
pub proof fn law_built_service_has_what_was_given<
    C: ContentRepo,
    O: ObjectRepo,
    S: ObjectStore,
    K: Clock,
>(
    contents: C,
    objects: O,
    store: S,
    name: &str,
    clock: K,
    b0: ContentServiceBuilder<C, O, S, SystemClock>,
    b1: ContentServiceBuilder<C, O, S, SystemClock>,
    b2: ContentServiceBuilder<C, O, S, K>,
    b3: ContentServiceBuilder<C, O, S, K>,
    unnamed: ContentService<C, O, S, K>,
    named: ContentService<C, O, S, K>,
)
    requires
        call_ensures(ContentService::<C, O, S, SystemClock>::builder, (contents, objects), b0),
        call_ensures(ContentServiceBuilder::<C, O, S, SystemClock>::store, (b0, store), b1),
        call_ensures(ContentServiceBuilder::<C, O, S, SystemClock>::clock::<K>, (b1, clock), b2),
        call_ensures(ContentServiceBuilder::<C, O, S, K>::build, (b2,), unnamed),
        call_ensures(ContentServiceBuilder::<C, O, S, K>::backend_name, (b2, name), b3),
        call_ensures(ContentServiceBuilder::<C, O, S, K>::build, (b3,), named),
    ensures
        unnamed.contents() == contents,
        unnamed.objects() == objects,
        unnamed.store() == store,
        unnamed.clock() == clock,
        unnamed.backend_name() == "memory"@,
        named.contents() == contents,
        named.objects() == objects,
        named.store() == store,
        named.clock() == clock,
        named.backend_name() == name@,
{
}

} // verus!
