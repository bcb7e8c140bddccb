//! The repositories in PostgreSQL, without the connection: which statement each
//! method sends, and what it makes of the reply.
//!
//! The statements see live rows only: a row whose `deleted_at` is set fits none
//! of them. Instants other than that of a soft delete are the database's own.

use std::collections::HashMap;

use sea_query::Expr;
use time::OffsetDateTime;
use vstd::prelude::*;

use super::memory::key_taken;
use super::{NewContent, NewObject};
use crate::error::ContentError;
use crate::ext::{is_v7, last_id, mint, utc_offset, Minted, Uuid};
use crate::sql::{
    bind_bigint, bind_int, bind_json, bind_text, bind_texts, bind_timestamp, bind_uuid,
    column_eq, column_is_in, column_is_null, expr_parts, exprs_by_parts, insert_build,
    insert_into, insert_on_conflict, insert_returning, lemma_binds_of_values, names, names_of,
    select_and_where, select_ascending, select_build, select_descending, select_from, select_parts,
    text_datum,
    texts_datum, update_and_where, update_build, update_parts, update_returning, update_table,
    update_value,
    Column, Overwrite, SqlDatum, SqlExpr, SqlStatement,
};
use crate::status::{ContentStatus, ObjectStatus};
use crate::types::{Content, ContentMetadata, Object, ObjectMetadata};

verus! {

/// The table of contents and its columns.
#[derive(Clone, Copy, Debug, PartialEq, Eq, Structural)]
pub enum ContentTable {
    Table,
    Id,
    TenantId,
    OwnerId,
    OwnerType,
    Name,
    Description,
    DocumentType,
    Status,
    DerivationType,
    CreatedBy,
    CreatedAt,
    UpdatedBy,
    UpdatedAt,
    DeletedAt,
}

impl Column for ContentTable {
    open spec fn sql_name(self) -> Seq<char> {
        match self {
            ContentTable::Table => "content"@,
            ContentTable::Id => "id"@,
            ContentTable::TenantId => "tenant_id"@,
            ContentTable::OwnerId => "owner_id"@,
            ContentTable::OwnerType => "owner_type"@,
            ContentTable::Name => "name"@,
            ContentTable::Description => "description"@,
            ContentTable::DocumentType => "document_type"@,
            ContentTable::Status => "status"@,
            ContentTable::DerivationType => "derivation_type"@,
            ContentTable::CreatedBy => "created_by"@,
            ContentTable::CreatedAt => "created_at"@,
            ContentTable::UpdatedBy => "updated_by"@,
            ContentTable::UpdatedAt => "updated_at"@,
            ContentTable::DeletedAt => "deleted_at"@,
        }
    }

    fn name(&self) -> (n: &'static str) {
        match self {
            ContentTable::Table => "content",
            ContentTable::Id => "id",
            ContentTable::TenantId => "tenant_id",
            ContentTable::OwnerId => "owner_id",
            ContentTable::OwnerType => "owner_type",
            ContentTable::Name => "name",
            ContentTable::Description => "description",
            ContentTable::DocumentType => "document_type",
            ContentTable::Status => "status",
            ContentTable::DerivationType => "derivation_type",
            ContentTable::CreatedBy => "created_by",
            ContentTable::CreatedAt => "created_at",
            ContentTable::UpdatedBy => "updated_by",
            ContentTable::UpdatedAt => "updated_at",
            ContentTable::DeletedAt => "deleted_at",
        }
    }
}

/// The table of content metadata and its columns.
#[derive(Clone, Copy, Debug, PartialEq, Eq, Structural)]
pub enum ContentMetaTable {
    Table,
    ContentId,
    Tags,
    FileSize,
    FileName,
    MimeType,
    Checksum,
    ChecksumAlgorithm,
    Metadata,
    CreatedAt,
    UpdatedAt,
}

impl Column for ContentMetaTable {
    open spec fn sql_name(self) -> Seq<char> {
        match self {
            ContentMetaTable::Table => "content_metadata"@,
            ContentMetaTable::ContentId => "content_id"@,
            ContentMetaTable::Tags => "tags"@,
            ContentMetaTable::FileSize => "file_size"@,
            ContentMetaTable::FileName => "file_name"@,
            ContentMetaTable::MimeType => "mime_type"@,
            ContentMetaTable::Checksum => "checksum"@,
            ContentMetaTable::ChecksumAlgorithm => "checksum_algorithm"@,
            ContentMetaTable::Metadata => "metadata"@,
            ContentMetaTable::CreatedAt => "created_at"@,
            ContentMetaTable::UpdatedAt => "updated_at"@,
        }
    }

    fn name(&self) -> (n: &'static str) {
        match self {
            ContentMetaTable::Table => "content_metadata",
            ContentMetaTable::ContentId => "content_id",
            ContentMetaTable::Tags => "tags",
            ContentMetaTable::FileSize => "file_size",
            ContentMetaTable::FileName => "file_name",
            ContentMetaTable::MimeType => "mime_type",
            ContentMetaTable::Checksum => "checksum",
            ContentMetaTable::ChecksumAlgorithm => "checksum_algorithm",
            ContentMetaTable::Metadata => "metadata",
            ContentMetaTable::CreatedAt => "created_at",
            ContentMetaTable::UpdatedAt => "updated_at",
        }
    }
}

/// The table of objects and its columns.
#[derive(Clone, Copy, Debug, PartialEq, Eq, Structural)]
pub enum ObjectTable {
    Table,
    Id,
    ContentId,
    StorageBackendName,
    StorageClass,
    ObjectKey,
    FileName,
    Version,
    ObjectType,
    Status,
    CreatedBy,
    CreatedAt,
    UpdatedBy,
    UpdatedAt,
    DeletedAt,
}

impl Column for ObjectTable {
    open spec fn sql_name(self) -> Seq<char> {
        match self {
            ObjectTable::Table => "object"@,
            ObjectTable::Id => "id"@,
            ObjectTable::ContentId => "content_id"@,
            ObjectTable::StorageBackendName => "storage_backend_name"@,
            ObjectTable::StorageClass => "storage_class"@,
            ObjectTable::ObjectKey => "object_key"@,
            ObjectTable::FileName => "file_name"@,
            ObjectTable::Version => "version"@,
            ObjectTable::ObjectType => "object_type"@,
            ObjectTable::Status => "status"@,
            ObjectTable::CreatedBy => "created_by"@,
            ObjectTable::CreatedAt => "created_at"@,
            ObjectTable::UpdatedBy => "updated_by"@,
            ObjectTable::UpdatedAt => "updated_at"@,
            ObjectTable::DeletedAt => "deleted_at"@,
        }
    }

    fn name(&self) -> (n: &'static str) {
        match self {
            ObjectTable::Table => "object",
            ObjectTable::Id => "id",
            ObjectTable::ContentId => "content_id",
            ObjectTable::StorageBackendName => "storage_backend_name",
            ObjectTable::StorageClass => "storage_class",
            ObjectTable::ObjectKey => "object_key",
            ObjectTable::FileName => "file_name",
            ObjectTable::Version => "version",
            ObjectTable::ObjectType => "object_type",
            ObjectTable::Status => "status",
            ObjectTable::CreatedBy => "created_by",
            ObjectTable::CreatedAt => "created_at",
            ObjectTable::UpdatedBy => "updated_by",
            ObjectTable::UpdatedAt => "updated_at",
            ObjectTable::DeletedAt => "deleted_at",
        }
    }
}

/// The table of object metadata and its columns.
#[derive(Clone, Copy, Debug, PartialEq, Eq, Structural)]
pub enum ObjectMetaTable {
    Table,
    ObjectId,
    SizeBytes,
    MimeType,
    Etag,
    Metadata,
    CreatedAt,
    UpdatedAt,
}

impl Column for ObjectMetaTable {
    open spec fn sql_name(self) -> Seq<char> {
        match self {
            ObjectMetaTable::Table => "object_metadata"@,
            ObjectMetaTable::ObjectId => "object_id"@,
            ObjectMetaTable::SizeBytes => "size_bytes"@,
            ObjectMetaTable::MimeType => "mime_type"@,
            ObjectMetaTable::Etag => "etag"@,
            ObjectMetaTable::Metadata => "metadata"@,
            ObjectMetaTable::CreatedAt => "created_at"@,
            ObjectMetaTable::UpdatedAt => "updated_at"@,
        }
    }

    fn name(&self) -> (n: &'static str) {
        match self {
            ObjectMetaTable::Table => "object_metadata",
            ObjectMetaTable::ObjectId => "object_id",
            ObjectMetaTable::SizeBytes => "size_bytes",
            ObjectMetaTable::MimeType => "mime_type",
            ObjectMetaTable::Etag => "etag",
            ObjectMetaTable::Metadata => "metadata",
            ObjectMetaTable::CreatedAt => "created_at",
            ObjectMetaTable::UpdatedAt => "updated_at",
        }
    }
}

/// The columns of a content row that are read.
pub open spec fn content_columns() -> Seq<ContentTable> {
    seq![
        ContentTable::Id,
        ContentTable::TenantId,
        ContentTable::OwnerId,
        ContentTable::OwnerType,
        ContentTable::Name,
        ContentTable::Description,
        ContentTable::DocumentType,
        ContentTable::Status,
        ContentTable::DerivationType,
        ContentTable::CreatedAt,
        ContentTable::UpdatedAt,
    ]
}

/// The columns of a content row that are read.
pub fn content_cols() -> (r: [ContentTable; 11])
    ensures
        r@ == content_columns(),
{
    [
        ContentTable::Id,
        ContentTable::TenantId,
        ContentTable::OwnerId,
        ContentTable::OwnerType,
        ContentTable::Name,
        ContentTable::Description,
        ContentTable::DocumentType,
        ContentTable::Status,
        ContentTable::DerivationType,
        ContentTable::CreatedAt,
        ContentTable::UpdatedAt,
    ]
}

/// The columns of a content row that are set on creation.
pub open spec fn content_created_columns() -> Seq<ContentTable> {
    seq![
        ContentTable::Id,
        ContentTable::TenantId,
        ContentTable::OwnerId,
        ContentTable::OwnerType,
        ContentTable::Name,
        ContentTable::Description,
        ContentTable::DocumentType,
        ContentTable::Status,
        ContentTable::DerivationType,
        ContentTable::CreatedBy,
        ContentTable::UpdatedBy,
    ]
}

/// The values of those columns.
pub open spec fn content_created_row(id: Uuid, c: NewContent, by: Option<String>) -> Seq<SqlDatum> {
    seq![
        SqlDatum::Uuid(id),
        SqlDatum::Uuid(c.tenant_id),
        SqlDatum::Uuid(c.owner_id),
        text_datum(c.owner_type),
        text_datum(c.name),
        text_datum(c.description),
        text_datum(c.document_type),
        SqlDatum::Text(Some(ContentStatus::Created.name())),
        text_datum(c.derivation_type),
        text_datum(by),
        text_datum(by),
    ]
}

/// The statements on contents and their metadata.
pub struct ContentStatements;

impl ContentStatements {
    /// Creates a content under a version 7 id that is minted after `earlier`, and
    /// answers its row. With the statement comes what was minted, to be the
    /// `earlier` of the next.
    pub fn create_after(earlier: &Option<Minted>, c: NewContent, by: Option<String>) -> (r: (
        SqlStatement,
        Minted,
    ))
        ensures
            is_v7(r.1.id()),
            last_id(*earlier) matches Some(before) ==> before < r.1.id(),
            r.0.inserts(
                "content"@,
                names_of(content_created_columns()),
                content_created_row(r.1.id(), c, by),
                None,
                Some(names_of(content_columns())),
            ),
    {
        let minted = mint(earlier);
        let st = ContentStatements::create_as(minted.get(), c, by);
        (st, minted)
    }

    /// Creates a content under a given id and answers its row.
    pub fn create_as(id: Uuid, c: NewContent, by: Option<String>) -> (st: SqlStatement)
        ensures
            st.inserts(
                "content"@,
                names_of(content_created_columns()),
                content_created_row(id, c, by),
                None,
                Some(names_of(content_columns())),
            ),
    {
        let ghost data = content_created_row(id, c, by);
        let columns = [
            ContentTable::Id,
            ContentTable::TenantId,
            ContentTable::OwnerId,
            ContentTable::OwnerType,
            ContentTable::Name,
            ContentTable::Description,
            ContentTable::DocumentType,
            ContentTable::Status,
            ContentTable::DerivationType,
            ContentTable::CreatedBy,
            ContentTable::UpdatedBy,
        ];
        assert(columns@ =~= content_created_columns());
        let row = vec![
            bind_uuid(id),
            bind_uuid(c.tenant_id),
            bind_uuid(c.owner_id),
            bind_text(c.owner_type),
            bind_text(c.name),
            bind_text(c.description),
            bind_text(c.document_type),
            bind_text(Some(ContentStatus::Created.as_str().to_owned())),
            bind_text(c.derivation_type),
            bind_text(by.clone()),
            bind_text(by),
        ];
        proof {
            assert(exprs_by_parts(row@) =~= data.map_values(|d: SqlDatum| SqlExpr::Bound(d)));
            lemma_binds_of_values(exprs_by_parts(row@), data);
        }
        let s = insert_into(ContentTable::Table.name(), names(&columns), row);
        let s = insert_returning(s, names(&content_cols()));
        let (sql, values) = insert_build(s);
        SqlStatement { sql, values }
    }

    /// The live content with the id.
    pub fn get(id: Uuid) -> (st: SqlStatement)
        ensures
            st.selects(
                names_of(content_columns()),
                "content"@,
                live_row(id),
                in_any_order(),
            ),
    {
        let s = select_from(ContentTable::Table.name(), names(&content_cols()));
        let s = select_and_where(s, column_eq(ContentTable::Id.name(), bind_uuid(id)));
        let s = select_and_where(s, column_is_null(ContentTable::DeletedAt.name()));
        assert(select_parts(s).filters =~= live_row(id));
        let (sql, values) = select_build(s);
        SqlStatement { sql, values }
    }

    /// The live contents among `ids`. Without ids there is nothing to ask.
    pub fn get_many(ids: &[Uuid]) -> (st: Option<SqlStatement>)
        ensures
            match st {
                None => ids@.len() == 0,
                Some(st) => ids@.len() > 0 && st.selects(
                    names_of(content_columns()),
                    "content"@,
                    seq![
                        SqlExpr::IsIn("id"@, uuid_data(ids@)),
                        SqlExpr::IsNull("deleted_at"@),
                    ],
                    in_any_order(),
                ),
            },
    {
        if ids.len() == 0 {
            return None;
        }
        let s = select_from(ContentTable::Table.name(), names(&content_cols()));
        let s = select_and_where(s, column_is_one_of(ContentTable::Id.name(), ids));
        let s = select_and_where(s, column_is_null(ContentTable::DeletedAt.name()));
        assert(select_parts(s).filters =~= seq![
            SqlExpr::IsIn("id"@, uuid_data(ids@)),
            SqlExpr::IsNull("deleted_at"@),
        ]);
        let (sql, values) = select_build(s);
        Some(SqlStatement { sql, values })
    }

    /// Replaces the editable fields of a live content and answers its row.
    pub fn update(c: &Content, by: Option<String>) -> (st: SqlStatement)
        ensures
            st.updates(
                "content"@,
                seq!["owner_type"@, "name"@, "description"@, "document_type"@, "updated_by"@],
                seq![
                    text_datum(c.owner_type),
                    text_datum(c.name),
                    text_datum(c.description),
                    text_datum(c.document_type),
                    text_datum(by),
                ],
                live_row(c.id),
                Some(names_of(content_columns())),
            ),
    {
        let ghost data = seq![
            text_datum(c.owner_type),
            text_datum(c.name),
            text_datum(c.description),
            text_datum(c.document_type),
            text_datum(by),
        ];
        let s = update_table(ContentTable::Table.name());
        let s = update_value(s, ContentTable::OwnerType.name(), bind_text(c.owner_type.clone()));
        let s = update_value(s, ContentTable::Name.name(), bind_text(c.name.clone()));
        let s = update_value(s, ContentTable::Description.name(), bind_text(c.description.clone()));
        let s = update_value(
            s,
            ContentTable::DocumentType.name(),
            bind_text(c.document_type.clone()),
        );
        let s = update_value(s, ContentTable::UpdatedBy.name(), bind_text(by));
        let s = update_and_where(s, column_eq(ContentTable::Id.name(), bind_uuid(c.id)));
        let s = update_and_where(s, column_is_null(ContentTable::DeletedAt.name()));
        let s = update_returning(s, names(&content_cols()));
        proof {
            assert(update_parts(s).columns =~= seq![
                "owner_type"@,
                "name"@,
                "description"@,
                "document_type"@,
                "updated_by"@,
            ]);
            assert(update_parts(s).values =~= data.map_values(|d: SqlDatum| SqlExpr::Bound(d)));
            lemma_binds_of_values(update_parts(s).values, data);
            assert(update_parts(s).filters =~= live_row(c.id));
        }
        let (sql, values) = update_build(s);
        SqlStatement { sql, values }
    }

    /// Sets the state of a live content.
    pub fn set_status(id: Uuid, status: ContentStatus, by: Option<String>) -> (st: SqlStatement)
        ensures
            st.updates(
                "content"@,
                seq!["status"@, "updated_by"@],
                seq![
                    SqlDatum::Text(Some(status.name())),
                    text_datum(by),
                ],
                live_row(id),
                None,
            ),
    {
        let ghost data = seq![SqlDatum::Text(Some(status.name())), text_datum(by)];
        let s = update_table(ContentTable::Table.name());
        let s = update_value(
            s,
            ContentTable::Status.name(),
            bind_text(Some(status.as_str().to_owned())),
        );
        let s = update_value(s, ContentTable::UpdatedBy.name(), bind_text(by));
        let s = update_and_where(s, column_eq(ContentTable::Id.name(), bind_uuid(id)));
        let s = update_and_where(s, column_is_null(ContentTable::DeletedAt.name()));
        proof {
            assert(update_parts(s).columns =~= seq!["status"@, "updated_by"@]);
            assert(update_parts(s).values =~= data.map_values(|d: SqlDatum| SqlExpr::Bound(d)));
            lemma_binds_of_values(update_parts(s).values, data);
            assert(update_parts(s).filters =~= live_row(id));
        }
        let (sql, values) = update_build(s);
        SqlStatement { sql, values }
    }

    /// Hides a live content as of now.
    pub fn soft_delete(id: Uuid, by: Option<String>) -> (st: SqlStatement)
        ensures
            exists|now: OffsetDateTime|
                utc_offset(now) == 0 && #[trigger] hides(st, "content"@, id, by, now),
    {
        let now = OffsetDateTime::now_utc();
        let st = ContentStatements::soft_delete_at(id, by, now);
        assert(hides(st, "content"@, id, by, now));
        st
    }

    /// Hides a live content as of a given instant.
    pub fn soft_delete_at(id: Uuid, by: Option<String>, now: OffsetDateTime) -> (st: SqlStatement)
        ensures
            hides(st, "content"@, id, by, now),
    {
        let ghost data = seq![SqlDatum::Timestamp(now), text_datum(by)];
        let s = update_table(ContentTable::Table.name());
        let s = update_value(s, ContentTable::DeletedAt.name(), bind_timestamp(now));
        let s = update_value(s, ContentTable::UpdatedBy.name(), bind_text(by));
        let s = update_and_where(s, column_eq(ContentTable::Id.name(), bind_uuid(id)));
        let s = update_and_where(s, column_is_null(ContentTable::DeletedAt.name()));
        proof {
            assert(update_parts(s).columns =~= seq!["deleted_at"@, "updated_by"@]);
            assert(update_parts(s).values =~= data.map_values(|d: SqlDatum| SqlExpr::Bound(d)));
            lemma_binds_of_values(update_parts(s).values, data);
            assert(update_parts(s).filters =~= live_row(id));
        }
        let (sql, values) = update_build(s);
        SqlStatement { sql, values }
    }

    /// The live contents of an owner in a tenant, largest id first.
    pub fn list(owner_id: Uuid, tenant_id: Uuid) -> (st: SqlStatement)
        ensures
            st.selects(
                names_of(content_columns()),
                "content"@,
                seq![
                    SqlExpr::Equals("owner_id"@, SqlDatum::Uuid(owner_id)),
                    SqlExpr::Equals("tenant_id"@, SqlDatum::Uuid(tenant_id)),
                    SqlExpr::IsNull("deleted_at"@),
                ],
                seq![("id"@, true)],
            ),
    {
        let s = select_from(ContentTable::Table.name(), names(&content_cols()));
        let s = select_and_where(s, column_eq(ContentTable::OwnerId.name(), bind_uuid(owner_id)));
        let s = select_and_where(s, column_eq(ContentTable::TenantId.name(), bind_uuid(tenant_id)));
        let s = select_and_where(s, column_is_null(ContentTable::DeletedAt.name()));
        let s = select_descending(s, ContentTable::Id.name());
        assert(select_parts(s).filters =~= seq![
            SqlExpr::Equals("owner_id"@, SqlDatum::Uuid(owner_id)),
            SqlExpr::Equals("tenant_id"@, SqlDatum::Uuid(tenant_id)),
            SqlExpr::IsNull("deleted_at"@),
        ]);
        assert(select_parts(s).orders =~= seq![("id"@, true)]);
        let (sql, values) = select_build(s);
        SqlStatement { sql, values }
    }

    /// Sets the metadata of a content: a new row, or over the row that is there.
    pub fn set_metadata(m: ContentMetadata) -> (st: SqlStatement)
        ensures
            st.inserts(
                "content_metadata"@,
                seq!["content_id"@] + content_meta_values(),
                seq![
                    SqlDatum::Uuid(m.content_id),
                    texts_datum(m.tags@),
                    SqlDatum::BigInt(m.file_size),
                    text_datum(m.file_name),
                    text_datum(m.mime_type),
                    text_datum(m.checksum),
                    text_datum(m.checksum_algorithm),
                    SqlDatum::Json(m.metadata),
                ],
                Some(Overwrite { key: "content_id"@, columns: content_meta_values() }),
                None,
            ),
    {
        let ghost data = seq![
            SqlDatum::Uuid(m.content_id),
            texts_datum(m.tags@),
            SqlDatum::BigInt(m.file_size),
            text_datum(m.file_name),
            text_datum(m.mime_type),
            text_datum(m.checksum),
            text_datum(m.checksum_algorithm),
            SqlDatum::Json(m.metadata),
        ];
        let columns = [
            ContentMetaTable::ContentId,
            ContentMetaTable::Tags,
            ContentMetaTable::FileSize,
            ContentMetaTable::FileName,
            ContentMetaTable::MimeType,
            ContentMetaTable::Checksum,
            ContentMetaTable::ChecksumAlgorithm,
            ContentMetaTable::Metadata,
        ];
        let overwritten = [
            ContentMetaTable::Tags,
            ContentMetaTable::FileSize,
            ContentMetaTable::FileName,
            ContentMetaTable::MimeType,
            ContentMetaTable::Checksum,
            ContentMetaTable::ChecksumAlgorithm,
            ContentMetaTable::Metadata,
        ];
        let row = vec![
            bind_uuid(m.content_id),
            bind_texts(m.tags),
            bind_bigint(m.file_size),
            bind_text(m.file_name),
            bind_text(m.mime_type),
            bind_text(m.checksum),
            bind_text(m.checksum_algorithm),
            bind_json(m.metadata),
        ];
        proof {
            assert(names_of(columns@) =~= seq!["content_id"@] + content_meta_values());
            assert(names_of(overwritten@) =~= content_meta_values());
            assert(exprs_by_parts(row@) =~= data.map_values(|d: SqlDatum| SqlExpr::Bound(d)));
            lemma_binds_of_values(exprs_by_parts(row@), data);
        }
        let s = insert_into(ContentMetaTable::Table.name(), names(&columns), row);
        let s = insert_on_conflict(s, ContentMetaTable::ContentId.name(), names(&overwritten));
        let (sql, values) = insert_build(s);
        SqlStatement { sql, values }
    }

    /// The metadata of a content.
    pub fn get_metadata(content_id: Uuid) -> (st: SqlStatement)
        ensures
            st.selects(
                names_of(content_meta_columns()),
                "content_metadata"@,
                seq![
                    SqlExpr::Equals("content_id"@, SqlDatum::Uuid(content_id)),
                ],
                in_any_order(),
            ),
    {
        let s = select_from(ContentMetaTable::Table.name(), names(&content_meta_cols()));
        let s = select_and_where(
            s,
            column_eq(ContentMetaTable::ContentId.name(), bind_uuid(content_id)),
        );
        assert(select_parts(s).filters =~= seq![
            SqlExpr::Equals("content_id"@, SqlDatum::Uuid(content_id)),
        ]);
        let (sql, values) = select_build(s);
        SqlStatement { sql, values }
    }

    /// The metadata of the contents among `ids`. Without ids there is nothing to ask.
    pub fn get_metadata_many(ids: &[Uuid]) -> (st: Option<SqlStatement>)
        ensures
            match st {
                None => ids@.len() == 0,
                Some(st) => ids@.len() > 0 && st.selects(
                    names_of(content_meta_columns()),
                    "content_metadata"@,
                    seq![SqlExpr::IsIn("content_id"@, uuid_data(ids@))],
                    in_any_order(),
                ),
            },
    {
        if ids.len() == 0 {
            return None;
        }
        let s = select_from(ContentMetaTable::Table.name(), names(&content_meta_cols()));
        let s = select_and_where(s, column_is_one_of(ContentMetaTable::ContentId.name(), ids));
        assert(select_parts(s).filters =~= seq![SqlExpr::IsIn("content_id"@, uuid_data(ids@))]);
        let (sql, values) = select_build(s);
        Some(SqlStatement { sql, values })
    }
}

/// Ids as bound values.
pub open spec fn uuid_data(ids: Seq<Uuid>) -> Seq<SqlDatum> {
    ids.map_values(|id: Uuid| SqlDatum::Uuid(id))
}

/// The column is one of the ids.
fn column_is_one_of(column: &'static str, ids: &[Uuid]) -> (e: Expr)
    requires
        ids@.len() > 0,
    ensures
        expr_parts(e) == SqlExpr::IsIn(column@, uuid_data(ids@)),
{
    let mut values: Vec<Expr> = Vec::new();
    for i in 0..ids.len()
        invariant
            values@.len() == i,
            forall|j: int|
                0 <= j < i ==> expr_parts(#[trigger] values@[j]) == SqlExpr::Bound(
                    SqlDatum::Uuid(ids@[j]),
                ),
    {
        values.push(bind_uuid(ids[i]));
    }
    assert(exprs_by_parts(values@).map_values(|v: SqlExpr| v->Bound_0) =~= uuid_data(ids@));
    column_is_in(column, values)
}

/// The filters for the live row with the id.
pub open spec fn live_row(id: Uuid) -> Seq<SqlExpr> {
    seq![SqlExpr::Equals("id"@, SqlDatum::Uuid(id)), SqlExpr::IsNull("deleted_at"@)]
}

/// No order of the rows.
pub open spec fn in_any_order() -> Seq<(Seq<char>, bool)> {
    Seq::<(Seq<char>, bool)>::empty()
}

/// Whether the statement hides the live row of the table with the id, and notes
/// who did it and when.
pub open spec fn hides(
    st: SqlStatement,
    table: Seq<char>,
    id: Uuid,
    by: Option<String>,
    now: OffsetDateTime,
) -> bool {
    st.updates(
        table,
        seq!["deleted_at"@, "updated_by"@],
        seq![SqlDatum::Timestamp(now), text_datum(by)],
        live_row(id),
        None,
    )
}

/// The columns of content metadata that are read.
pub open spec fn content_meta_columns() -> Seq<ContentMetaTable> {
    seq![
        ContentMetaTable::ContentId,
        ContentMetaTable::Tags,
        ContentMetaTable::FileSize,
        ContentMetaTable::FileName,
        ContentMetaTable::MimeType,
        ContentMetaTable::Checksum,
        ContentMetaTable::ChecksumAlgorithm,
        ContentMetaTable::Metadata,
        ContentMetaTable::CreatedAt,
        ContentMetaTable::UpdatedAt,
    ]
}

/// The columns of content metadata that are read.
pub fn content_meta_cols() -> (r: [ContentMetaTable; 10])
    ensures
        r@ == content_meta_columns(),
{
    [
        ContentMetaTable::ContentId,
        ContentMetaTable::Tags,
        ContentMetaTable::FileSize,
        ContentMetaTable::FileName,
        ContentMetaTable::MimeType,
        ContentMetaTable::Checksum,
        ContentMetaTable::ChecksumAlgorithm,
        ContentMetaTable::Metadata,
        ContentMetaTable::CreatedAt,
        ContentMetaTable::UpdatedAt,
    ]
}

/// The columns of content metadata that are set, apart from the key.
pub open spec fn content_meta_values() -> Seq<Seq<char>> {
    seq![
        "tags"@,
        "file_size"@,
        "file_name"@,
        "mime_type"@,
        "checksum"@,
        "checksum_algorithm"@,
        "metadata"@,
    ]
}

/// The columns of an object row that are read.
pub open spec fn object_columns() -> Seq<ObjectTable> {
    seq![
        ObjectTable::Id,
        ObjectTable::ContentId,
        ObjectTable::StorageBackendName,
        ObjectTable::StorageClass,
        ObjectTable::ObjectKey,
        ObjectTable::FileName,
        ObjectTable::Version,
        ObjectTable::ObjectType,
        ObjectTable::Status,
        ObjectTable::CreatedAt,
        ObjectTable::UpdatedAt,
    ]
}

/// The columns of an object row that are read.
pub fn object_cols() -> (r: [ObjectTable; 11])
    ensures
        r@ == object_columns(),
{
    [
        ObjectTable::Id,
        ObjectTable::ContentId,
        ObjectTable::StorageBackendName,
        ObjectTable::StorageClass,
        ObjectTable::ObjectKey,
        ObjectTable::FileName,
        ObjectTable::Version,
        ObjectTable::ObjectType,
        ObjectTable::Status,
        ObjectTable::CreatedAt,
        ObjectTable::UpdatedAt,
    ]
}

/// The columns of an object row that are set on creation.
pub open spec fn object_created_columns() -> Seq<ObjectTable> {
    seq![
        ObjectTable::Id,
        ObjectTable::ContentId,
        ObjectTable::StorageBackendName,
        ObjectTable::StorageClass,
        ObjectTable::ObjectKey,
        ObjectTable::FileName,
        ObjectTable::Version,
        ObjectTable::ObjectType,
        ObjectTable::Status,
        ObjectTable::CreatedBy,
        ObjectTable::UpdatedBy,
    ]
}

/// The values of those columns.
pub open spec fn object_created_row(id: Uuid, o: NewObject, by: Option<String>) -> Seq<SqlDatum> {
    seq![
        SqlDatum::Uuid(id),
        SqlDatum::Uuid(o.content_id),
        SqlDatum::Text(Some(o.storage_backend_name@)),
        text_datum(o.storage_class),
        SqlDatum::Text(Some(o.object_key@)),
        text_datum(o.file_name),
        SqlDatum::Int(1),
        text_datum(o.object_type),
        SqlDatum::Text(Some(ObjectStatus::Created.name())),
        text_datum(by),
        text_datum(by),
    ]
}

/// The columns of object metadata that are set, apart from the key.
pub open spec fn object_meta_values() -> Seq<Seq<char>> {
    seq!["size_bytes"@, "mime_type"@, "etag"@, "metadata"@]
}

/// The columns of object metadata that are read.
pub open spec fn object_meta_columns() -> Seq<ObjectMetaTable> {
    seq![
        ObjectMetaTable::ObjectId,
        ObjectMetaTable::SizeBytes,
        ObjectMetaTable::MimeType,
        ObjectMetaTable::Etag,
        ObjectMetaTable::Metadata,
        ObjectMetaTable::CreatedAt,
        ObjectMetaTable::UpdatedAt,
    ]
}

/// The columns of object metadata that are read.
pub fn object_meta_cols() -> (r: [ObjectMetaTable; 7])
    ensures
        r@ == object_meta_columns(),
{
    [
        ObjectMetaTable::ObjectId,
        ObjectMetaTable::SizeBytes,
        ObjectMetaTable::MimeType,
        ObjectMetaTable::Etag,
        ObjectMetaTable::Metadata,
        ObjectMetaTable::CreatedAt,
        ObjectMetaTable::UpdatedAt,
    ]
}

/// The statements on objects and their metadata.
pub struct ObjectStatements;

impl ObjectStatements {
    /// Creates an object under a version 7 id that is minted after `earlier`, and
    /// answers its row. With the statement comes what was minted, to be the
    /// `earlier` of the next.
    pub fn create_after(earlier: &Option<Minted>, o: NewObject, by: Option<String>) -> (r: (
        SqlStatement,
        Minted,
    ))
        ensures
            is_v7(r.1.id()),
            last_id(*earlier) matches Some(before) ==> before < r.1.id(),
            r.0.inserts(
                "object"@,
                names_of(object_created_columns()),
                object_created_row(r.1.id(), o, by),
                None,
                Some(names_of(object_columns())),
            ),
    {
        let minted = mint(earlier);
        let st = ObjectStatements::create_as(minted.get(), o, by);
        (st, minted)
    }

    /// Creates an object under a given id and answers its row.
    pub fn create_as(id: Uuid, o: NewObject, by: Option<String>) -> (st: SqlStatement)
        ensures
            st.inserts(
                "object"@,
                names_of(object_created_columns()),
                object_created_row(id, o, by),
                None,
                Some(names_of(object_columns())),
            ),
    {
        let ghost data = object_created_row(id, o, by);
        let columns = [
            ObjectTable::Id,
            ObjectTable::ContentId,
            ObjectTable::StorageBackendName,
            ObjectTable::StorageClass,
            ObjectTable::ObjectKey,
            ObjectTable::FileName,
            ObjectTable::Version,
            ObjectTable::ObjectType,
            ObjectTable::Status,
            ObjectTable::CreatedBy,
            ObjectTable::UpdatedBy,
        ];
        assert(columns@ =~= object_created_columns());
        let row = vec![
            bind_uuid(id),
            bind_uuid(o.content_id),
            bind_text(Some(o.storage_backend_name)),
            bind_text(o.storage_class),
            bind_text(Some(o.object_key)),
            bind_text(o.file_name),
            bind_int(1),
            bind_text(o.object_type),
            bind_text(Some(ObjectStatus::Created.as_str().to_owned())),
            bind_text(by.clone()),
            bind_text(by),
        ];
        proof {
            assert(exprs_by_parts(row@) =~= data.map_values(|d: SqlDatum| SqlExpr::Bound(d)));
            lemma_binds_of_values(exprs_by_parts(row@), data);
        }
        let s = insert_into(ObjectTable::Table.name(), names(&columns), row);
        let s = insert_returning(s, names(&object_cols()));
        let (sql, values) = insert_build(s);
        SqlStatement { sql, values }
    }

    /// The live object with the id.
    pub fn get(id: Uuid) -> (st: SqlStatement)
        ensures
            st.selects(
                names_of(object_columns()),
                "object"@,
                live_row(id),
                in_any_order(),
            ),
    {
        let s = select_from(ObjectTable::Table.name(), names(&object_cols()));
        let s = select_and_where(s, column_eq(ObjectTable::Id.name(), bind_uuid(id)));
        let s = select_and_where(s, column_is_null(ObjectTable::DeletedAt.name()));
        assert(select_parts(s).filters =~= live_row(id));
        let (sql, values) = select_build(s);
        SqlStatement { sql, values }
    }

    /// The live objects of a content, smallest id first.
    pub fn list_by_content(content_id: Uuid) -> (st: SqlStatement)
        ensures
            st.selects(
                names_of(object_columns()),
                "object"@,
                seq![
                    SqlExpr::Equals("content_id"@, SqlDatum::Uuid(content_id)),
                    SqlExpr::IsNull("deleted_at"@),
                ],
                seq![("id"@, false)],
            ),
    {
        let s = select_from(ObjectTable::Table.name(), names(&object_cols()));
        let s = select_and_where(
            s,
            column_eq(ObjectTable::ContentId.name(), bind_uuid(content_id)),
        );
        let s = select_and_where(s, column_is_null(ObjectTable::DeletedAt.name()));
        let s = select_ascending(s, ObjectTable::Id.name());
        assert(select_parts(s).filters =~= seq![
            SqlExpr::Equals("content_id"@, SqlDatum::Uuid(content_id)),
            SqlExpr::IsNull("deleted_at"@),
        ]);
        assert(select_parts(s).orders =~= seq![("id"@, false)]);
        let (sql, values) = select_build(s);
        SqlStatement { sql, values }
    }

    /// The live object with the key in the backend.
    pub fn get_by_key(object_key: &str, backend: &str) -> (st: SqlStatement)
        ensures
            st.selects(
                names_of(object_columns()),
                "object"@,
                seq![
                    SqlExpr::Equals("object_key"@, SqlDatum::Text(Some(object_key@))),
                    SqlExpr::Equals("storage_backend_name"@, SqlDatum::Text(Some(backend@))),
                    SqlExpr::IsNull("deleted_at"@),
                ],
                in_any_order(),
            ),
    {
        let s = select_from(ObjectTable::Table.name(), names(&object_cols()));
        let s = select_and_where(
            s,
            column_eq(ObjectTable::ObjectKey.name(), bind_text(Some(object_key.to_owned()))),
        );
        let s = select_and_where(
            s,
            column_eq(ObjectTable::StorageBackendName.name(), bind_text(Some(backend.to_owned()))),
        );
        let s = select_and_where(s, column_is_null(ObjectTable::DeletedAt.name()));
        assert(select_parts(s).filters =~= seq![
            SqlExpr::Equals("object_key"@, SqlDatum::Text(Some(object_key@))),
            SqlExpr::Equals("storage_backend_name"@, SqlDatum::Text(Some(backend@))),
            SqlExpr::IsNull("deleted_at"@),
        ]);
        let (sql, values) = select_build(s);
        SqlStatement { sql, values }
    }

    /// Sets the state of a live object.
    pub fn set_status(id: Uuid, status: ObjectStatus, by: Option<String>) -> (st: SqlStatement)
        ensures
            st.updates(
                "object"@,
                seq!["status"@, "updated_by"@],
                seq![
                    SqlDatum::Text(Some(status.name())),
                    text_datum(by),
                ],
                live_row(id),
                None,
            ),
    {
        let ghost data = seq![SqlDatum::Text(Some(status.name())), text_datum(by)];
        let s = update_table(ObjectTable::Table.name());
        let s = update_value(
            s,
            ObjectTable::Status.name(),
            bind_text(Some(status.as_str().to_owned())),
        );
        let s = update_value(s, ObjectTable::UpdatedBy.name(), bind_text(by));
        let s = update_and_where(s, column_eq(ObjectTable::Id.name(), bind_uuid(id)));
        let s = update_and_where(s, column_is_null(ObjectTable::DeletedAt.name()));
        proof {
            assert(update_parts(s).columns =~= seq!["status"@, "updated_by"@]);
            assert(update_parts(s).values =~= data.map_values(|d: SqlDatum| SqlExpr::Bound(d)));
            lemma_binds_of_values(update_parts(s).values, data);
            assert(update_parts(s).filters =~= live_row(id));
        }
        let (sql, values) = update_build(s);
        SqlStatement { sql, values }
    }

    /// Hides a live object as of now.
    pub fn soft_delete(id: Uuid, by: Option<String>) -> (st: SqlStatement)
        ensures
            exists|now: OffsetDateTime|
                utc_offset(now) == 0 && #[trigger] hides(st, "object"@, id, by, now),
    {
        let now = OffsetDateTime::now_utc();
        let st = ObjectStatements::soft_delete_at(id, by, now);
        assert(hides(st, "object"@, id, by, now));
        st
    }

    /// Hides a live object as of a given instant.
    pub fn soft_delete_at(id: Uuid, by: Option<String>, now: OffsetDateTime) -> (st: SqlStatement)
        ensures
            hides(st, "object"@, id, by, now),
    {
        let ghost data = seq![SqlDatum::Timestamp(now), text_datum(by)];
        let s = update_table(ObjectTable::Table.name());
        let s = update_value(s, ObjectTable::DeletedAt.name(), bind_timestamp(now));
        let s = update_value(s, ObjectTable::UpdatedBy.name(), bind_text(by));
        let s = update_and_where(s, column_eq(ObjectTable::Id.name(), bind_uuid(id)));
        let s = update_and_where(s, column_is_null(ObjectTable::DeletedAt.name()));
        proof {
            assert(update_parts(s).columns =~= seq!["deleted_at"@, "updated_by"@]);
            assert(update_parts(s).values =~= data.map_values(|d: SqlDatum| SqlExpr::Bound(d)));
            lemma_binds_of_values(update_parts(s).values, data);
            assert(update_parts(s).filters =~= live_row(id));
        }
        let (sql, values) = update_build(s);
        SqlStatement { sql, values }
    }

    /// Sets the metadata of an object: a new row, or over the row that is there.
    pub fn set_metadata(m: ObjectMetadata) -> (st: SqlStatement)
        ensures
            st.inserts(
                "object_metadata"@,
                seq!["object_id"@] + object_meta_values(),
                seq![
                    SqlDatum::Uuid(m.object_id),
                    SqlDatum::BigInt(m.size_bytes),
                    text_datum(m.mime_type),
                    text_datum(m.etag),
                    SqlDatum::Json(m.metadata),
                ],
                Some(Overwrite { key: "object_id"@, columns: object_meta_values() }),
                None,
            ),
    {
        let ghost data = seq![
            SqlDatum::Uuid(m.object_id),
            SqlDatum::BigInt(m.size_bytes),
            text_datum(m.mime_type),
            text_datum(m.etag),
            SqlDatum::Json(m.metadata),
        ];
        let columns = [
            ObjectMetaTable::ObjectId,
            ObjectMetaTable::SizeBytes,
            ObjectMetaTable::MimeType,
            ObjectMetaTable::Etag,
            ObjectMetaTable::Metadata,
        ];
        let overwritten = [
            ObjectMetaTable::SizeBytes,
            ObjectMetaTable::MimeType,
            ObjectMetaTable::Etag,
            ObjectMetaTable::Metadata,
        ];
        let row = vec![
            bind_uuid(m.object_id),
            bind_bigint(m.size_bytes),
            bind_text(m.mime_type),
            bind_text(m.etag),
            bind_json(m.metadata),
        ];
        proof {
            assert(names_of(columns@) =~= seq!["object_id"@] + object_meta_values());
            assert(names_of(overwritten@) =~= object_meta_values());
            assert(exprs_by_parts(row@) =~= data.map_values(|d: SqlDatum| SqlExpr::Bound(d)));
            lemma_binds_of_values(exprs_by_parts(row@), data);
        }
        let s = insert_into(ObjectMetaTable::Table.name(), names(&columns), row);
        let s = insert_on_conflict(s, ObjectMetaTable::ObjectId.name(), names(&overwritten));
        let (sql, values) = insert_build(s);
        SqlStatement { sql, values }
    }

    /// The metadata of an object.
    pub fn get_metadata(object_id: Uuid) -> (st: SqlStatement)
        ensures
            st.selects(
                names_of(object_meta_columns()),
                "object_metadata"@,
                seq![
                    SqlExpr::Equals("object_id"@, SqlDatum::Uuid(object_id)),
                ],
                in_any_order(),
            ),
    {
        let s = select_from(ObjectMetaTable::Table.name(), names(&object_meta_cols()));
        let s = select_and_where(
            s,
            column_eq(ObjectMetaTable::ObjectId.name(), bind_uuid(object_id)),
        );
        assert(select_parts(s).filters =~= seq![
            SqlExpr::Equals("object_id"@, SqlDatum::Uuid(object_id)),
        ]);
        let (sql, values) = select_build(s);
        SqlStatement { sql, values }
    }
}

/// A content row as it is read.
pub struct ContentDbRow {
    pub id: Uuid,
    pub tenant_id: Uuid,
    pub owner_id: Uuid,
    pub owner_type: Option<String>,
    pub name: Option<String>,
    pub description: Option<String>,
    pub document_type: Option<String>,
    pub status: String,
    pub derivation_type: Option<String>,
    pub created_at: OffsetDateTime,
    pub updated_at: OffsetDateTime,
}

impl ContentDbRow {
    /// The content of the row, if its status is the name of one.
    pub open spec fn entity(self) -> Option<Content> {
        match ContentStatus::of_name(self.status@) {
            Some(status) => Some(
                Content {
                    id: self.id,
                    tenant_id: self.tenant_id,
                    owner_id: self.owner_id,
                    owner_type: self.owner_type,
                    name: self.name,
                    description: self.description,
                    document_type: self.document_type,
                    status,
                    derivation_type: self.derivation_type,
                    created_at: self.created_at,
                    updated_at: self.updated_at,
                },
            ),
            None => None,
        }
    }

    /// Whether `r` is the content of the row, or the refusal of its status.
    pub open spec fn converts(self, r: Result<Content, ContentError>) -> bool {
        match self.entity() {
            Some(c) => r == Ok::<Content, ContentError>(c),
            None => r matches Err(ContentError::InvalidStatus(name)) && name@ == self.status@,
        }
    }

    /// The content of the row; `InvalidStatus` where its status is the name of none.
    pub fn into_entity(self) -> (r: Result<Content, ContentError>)
        ensures
            self.converts(r),
    {
        match ContentStatus::from_db(self.status.as_str()) {
            Ok(status) => Ok(
                Content {
                    id: self.id,
                    tenant_id: self.tenant_id,
                    owner_id: self.owner_id,
                    owner_type: self.owner_type,
                    name: self.name,
                    description: self.description,
                    document_type: self.document_type,
                    status,
                    derivation_type: self.derivation_type,
                    created_at: self.created_at,
                    updated_at: self.updated_at,
                },
            ),
            Err(e) => Err(e),
        }
    }
}

/// An object row as it is read.
pub struct ObjectDbRow {
    pub id: Uuid,
    pub content_id: Uuid,
    pub storage_backend_name: String,
    pub storage_class: Option<String>,
    pub object_key: String,
    pub file_name: Option<String>,
    pub version: i32,
    pub object_type: Option<String>,
    pub status: String,
    pub created_at: OffsetDateTime,
    pub updated_at: OffsetDateTime,
}

impl ObjectDbRow {
    /// The object of the row, if its status is the name of one.
    pub open spec fn entity(self) -> Option<Object> {
        match ObjectStatus::of_name(self.status@) {
            Some(status) => Some(
                Object {
                    id: self.id,
                    content_id: self.content_id,
                    storage_backend_name: self.storage_backend_name,
                    storage_class: self.storage_class,
                    object_key: self.object_key,
                    file_name: self.file_name,
                    version: self.version,
                    object_type: self.object_type,
                    status,
                    created_at: self.created_at,
                    updated_at: self.updated_at,
                },
            ),
            None => None,
        }
    }

    /// Whether `r` is the object of the row, or the refusal of its status.
    pub open spec fn converts(self, r: Result<Object, ContentError>) -> bool {
        match self.entity() {
            Some(o) => r == Ok::<Object, ContentError>(o),
            None => r matches Err(ContentError::InvalidStatus(name)) && name@ == self.status@,
        }
    }

    /// The object of the row; `InvalidStatus` where its status is the name of none.
    pub fn into_entity(self) -> (r: Result<Object, ContentError>)
        ensures
            self.converts(r),
    {
        match ObjectStatus::from_db(self.status.as_str()) {
            Ok(status) => Ok(
                Object {
                    id: self.id,
                    content_id: self.content_id,
                    storage_backend_name: self.storage_backend_name,
                    storage_class: self.storage_class,
                    object_key: self.object_key,
                    file_name: self.file_name,
                    version: self.version,
                    object_type: self.object_type,
                    status,
                    created_at: self.created_at,
                    updated_at: self.updated_at,
                },
            ),
            Err(e) => Err(e),
        }
    }
}

/// A statement that failed: whether it violated a unique index, and what the
/// database said, for the log.
pub struct DbFailure {
    pub unique_violation: bool,
    pub detail: String,
}

/// The error for a failing insert: a violated unique index is a conflict,
/// anything else is internal.
pub fn map_unique(failure: DbFailure, msg: &str) -> (e: ContentError)
    ensures
        if failure.unique_violation {
            e matches ContentError::Conflict(text) && text@ == msg@
        } else {
            e == ContentError::Internal(failure.detail)
        },
{
    if failure.unique_violation {
        ContentError::Conflict(msg.to_owned())
    } else {
        ContentError::Internal(failure.detail)
    }
}

/// What is made of the row that comes back from `ContentStatements::create_after`.
pub fn created_content(reply: Result<ContentDbRow, DbFailure>) -> (r: Result<Content, ContentError>)
    ensures
        match reply {
            Ok(row) => row.converts(r),
            Err(f) => r == Err::<Content, ContentError>(ContentError::Internal(f.detail)),
        },
{
    match reply {
        Ok(row) => row.into_entity(),
        Err(f) => Err(ContentError::Internal(f.detail)),
    }
}

/// What is made of the row that comes back from `ObjectStatements::create_after`. The
/// unique index of the table is on the key and the backend of live objects.
pub fn created_object(reply: Result<ObjectDbRow, DbFailure>) -> (r: Result<Object, ContentError>)
    ensures
        match reply {
            Ok(row) => row.converts(r),
            Err(f) => if f.unique_violation {
                r matches Err(e) && key_taken(e)
            } else {
                r == Err::<Object, ContentError>(ContentError::Internal(f.detail))
            },
        },
{
    match reply {
        Ok(row) => row.into_entity(),
        Err(f) => Err(map_unique(f, "object_key already exists for storage backend")),
    }
}

/// What is made of the row that may come back for one content; `NotFound`
/// where none does.
pub fn found_content(reply: Result<Option<ContentDbRow>, DbFailure>) -> (r: Result<
    Content,
    ContentError,
>)
    ensures
        match reply {
            Ok(Some(row)) => row.converts(r),
            Ok(None) => r == Err::<Content, ContentError>(ContentError::NotFound),
            Err(f) => r == Err::<Content, ContentError>(ContentError::Internal(f.detail)),
        },
{
    match reply {
        Ok(Some(row)) => row.into_entity(),
        Ok(None) => Err(ContentError::NotFound),
        Err(f) => Err(ContentError::Internal(f.detail)),
    }
}

/// What is made of the row that may come back for one object; `NotFound` where
/// none does.
pub fn found_object(reply: Result<Option<ObjectDbRow>, DbFailure>) -> (r: Result<
    Object,
    ContentError,
>)
    ensures
        match reply {
            Ok(Some(row)) => row.converts(r),
            Ok(None) => r == Err::<Object, ContentError>(ContentError::NotFound),
            Err(f) => r == Err::<Object, ContentError>(ContentError::Internal(f.detail)),
        },
{
    match reply {
        Ok(Some(row)) => row.into_entity(),
        Ok(None) => Err(ContentError::NotFound),
        Err(f) => Err(ContentError::Internal(f.detail)),
    }
}

/// What is made of the metadata that may come back; `NotFound` where none does.
pub fn found_metadata<M>(reply: Result<Option<M>, DbFailure>) -> (r: Result<M, ContentError>)
    ensures
        match reply {
            Ok(Some(m)) => r == Ok::<M, ContentError>(m),
            Ok(None) => r == Err::<M, ContentError>(ContentError::NotFound),
            Err(f) => r == Err::<M, ContentError>(ContentError::Internal(f.detail)),
        },
{
    match reply {
        Ok(Some(m)) => Ok(m),
        Ok(None) => Err(ContentError::NotFound),
        Err(f) => Err(ContentError::Internal(f.detail)),
    }
}

/// What is made of the number of rows that a write has hit: it was to hit one,
/// and where it hit none there was none to hit.
pub fn hit_a_row(reply: Result<u64, DbFailure>) -> (r: Result<(), ContentError>)
    ensures
        match reply {
            Ok(rows_affected) => if rows_affected > 0 {
                r is Ok
            } else {
                r == Err::<(), ContentError>(ContentError::NotFound)
            },
            Err(f) => r == Err::<(), ContentError>(ContentError::Internal(f.detail)),
        },
{
    match reply {
        Ok(rows_affected) => if rows_affected == 0 {
            Err(ContentError::NotFound)
        } else {
            Ok(())
        },
        Err(f) => Err(ContentError::Internal(f.detail)),
    }
}

/// What is made of a write of metadata, which hits a row in any case.
pub fn wrote_metadata(reply: Result<u64, DbFailure>) -> (r: Result<(), ContentError>)
    ensures
        match reply {
            Ok(_) => r is Ok,
            Err(f) => r == Err::<(), ContentError>(ContentError::Internal(f.detail)),
        },
{
    match reply {
        Ok(_) => Ok(()),
        Err(f) => Err(ContentError::Internal(f.detail)),
    }
}

/// Whether `r` holds the contents of the rows in their order, or the refusal of
/// the first row whose status is the name of none.
pub open spec fn converts_contents(
    rows: Seq<ContentDbRow>,
    r: Result<Vec<Content>, ContentError>,
) -> bool {
    match r {
        Ok(out) => {
            &&& out@.len() == rows.len()
            &&& forall|i: int|
                0 <= i < rows.len() ==> (#[trigger] rows[i]).entity() == Some(out@[i])
        },
        Err(e) => exists|k: int|
            {
                &&& 0 <= k < rows.len()
                &&& (#[trigger] rows[k]).entity() is None
                &&& rows[k].converts(Err(e))
                &&& forall|i: int| 0 <= i < k ==> (#[trigger] rows[i]).entity() is Some
            },
    }
}

/// What is made of the rows that come back for contents.
pub fn contents_of(reply: Result<Vec<ContentDbRow>, DbFailure>) -> (r: Result<
    Vec<Content>,
    ContentError,
>)
    ensures
        match reply {
            Ok(rows) => converts_contents(rows@, r),
            Err(f) => r == Err::<Vec<Content>, ContentError>(ContentError::Internal(f.detail)),
        },
{
    let rows = match reply {
        Ok(rows) => rows,
        Err(f) => return Err(ContentError::Internal(f.detail)),
    };
    let ghost all = rows@;
    let mut out: Vec<Content> = Vec::new();
    #[verifier::loop_isolation(false)]
    for row in it: rows
        invariant
            it.seq() == all,
            out@.len() == it.index(),
            forall|i: int|
                0 <= i < it.index() ==> (#[trigger] all[i]).entity() == Some(out@[i]),
    {
        let ghost k = it.index();
        assert(row == all[k]);
        match row.into_entity() {
            Ok(c) => {
                out.push(c);
            },
            Err(e) => {
                assert(all[k].entity() is None);
                return Err(e);
            },
        }
    }
    Ok(out)
}

/// Whether `r` holds the objects of the rows in their order, or the refusal of
/// the first row whose status is the name of none.
pub open spec fn converts_objects(
    rows: Seq<ObjectDbRow>,
    r: Result<Vec<Object>, ContentError>,
) -> bool {
    match r {
        Ok(out) => {
            &&& out@.len() == rows.len()
            &&& forall|i: int|
                0 <= i < rows.len() ==> (#[trigger] rows[i]).entity() == Some(out@[i])
        },
        Err(e) => exists|k: int|
            {
                &&& 0 <= k < rows.len()
                &&& (#[trigger] rows[k]).entity() is None
                &&& rows[k].converts(Err(e))
                &&& forall|i: int| 0 <= i < k ==> (#[trigger] rows[i]).entity() is Some
            },
    }
}

/// What is made of the rows that come back for objects.
pub fn objects_of(reply: Result<Vec<ObjectDbRow>, DbFailure>) -> (r: Result<
    Vec<Object>,
    ContentError,
>)
    ensures
        match reply {
            Ok(rows) => converts_objects(rows@, r),
            Err(f) => r == Err::<Vec<Object>, ContentError>(ContentError::Internal(f.detail)),
        },
{
    let rows = match reply {
        Ok(rows) => rows,
        Err(f) => return Err(ContentError::Internal(f.detail)),
    };
    let ghost all = rows@;
    let mut out: Vec<Object> = Vec::new();
    #[verifier::loop_isolation(false)]
    for row in it: rows
        invariant
            it.seq() == all,
            out@.len() == it.index(),
            forall|i: int|
                0 <= i < it.index() ==> (#[trigger] all[i]).entity() == Some(out@[i]),
    {
        let ghost k = it.index();
        assert(row == all[k]);
        match row.into_entity() {
            Ok(o) => {
                out.push(o);
            },
            Err(e) => {
                assert(all[k].entity() is None);
                return Err(e);
            },
        }
    }
    Ok(out)
}

/// The metadata by content, the later row of two.
pub open spec fn by_content(rows: Seq<ContentMetadata>) -> Map<Uuid, ContentMetadata>
    decreases rows.len(),
{
    if rows.len() == 0 {
        Map::<Uuid, ContentMetadata>::empty()
    } else {
        by_content(rows.drop_last()).insert(rows.last().content_id, rows.last())
    }
}

/// What is made of the rows that come back for the metadata of contents. Of two
/// rows of one content the later one counts.
pub fn metadata_by_content(reply: Result<Vec<ContentMetadata>, DbFailure>) -> (r: Result<
    HashMap<Uuid, ContentMetadata>,
    ContentError,
>)
    ensures
        match reply {
            Ok(rows) => r matches Ok(out) && out@ == by_content(rows@),
            Err(f) => r matches Err(e) && e == ContentError::Internal(f.detail),
        },
{
    let rows = match reply {
        Ok(rows) => rows,
        Err(f) => return Err(ContentError::Internal(f.detail)),
    };
    let ghost all = rows@;
    let mut out: HashMap<Uuid, ContentMetadata> = HashMap::new();
    assert(all.take(0) =~= Seq::<ContentMetadata>::empty());
    for m in it: rows
        invariant
            it.seq() == all,
            out@ == by_content(all.take(it.index())),
    {
        proof {
            let k = it.index();
            assert(m == all[k]);
            assert(all.take(k + 1).drop_last() =~= all.take(k));
        }
        out.insert(m.content_id, m);
    }
    assert(all.take(all.len() as int) =~= all);
    Ok(out)
}

} // verus!
