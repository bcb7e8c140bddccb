//! What the statements for PostgreSQL say, by the names of their columns.
//!
//! A law speaks of whatever a function may answer: it supposes that `st` is an
//! answer of the function on the given arguments.

use time::OffsetDateTime;
use vstd::prelude::*;

use crate::ext::{is_v7, utc_offset, Minted, Uuid};
use crate::repo::postgres::{
    content_cols, content_columns, content_created_columns, content_meta_cols,
    content_meta_columns, content_meta_values, object_cols, object_columns,
    object_created_columns, object_meta_cols, object_meta_columns, object_meta_values, uuid_data,
    ContentMetaTable, ContentStatements, ContentTable, ObjectMetaTable, ObjectStatements,
    ObjectTable,
};
use crate::repo::{NewContent, NewObject};
use crate::sql::{
    all_binds, bound_values, forms, insert_sql, names_of, select_sql, update_sql, Column,
    FilterForm, Overwrite, SqlDatum, SqlExpr, SqlStatement,
};
use crate::status::{ContentStatus, ObjectStatus};
use crate::types::{Content, ContentMetadata, ObjectMetadata};

verus! {

/// A text that may be null.
pub open spec fn nullable(text: Option<String>) -> SqlDatum {
    SqlDatum::Text(
        if text is Some {
            Some(text->Some_0@)
        } else {
            None
        },
    )
}

/// A text.
pub open spec fn text(t: Seq<char>) -> SqlDatum {
    SqlDatum::Text(Some(t))
}

/// Whether the value stands at the place of the column.
pub open spec fn sets(
    columns: Seq<Seq<char>>,
    values: Seq<SqlDatum>,
    column: Seq<char>,
    value: SqlDatum,
) -> bool {
    exists|i: int|
        0 <= i < columns.len() && i < values.len() && #[trigger] columns[i] == column && values[i]
            == value
}

/// The columns of a content that are read.
pub open spec fn content_read() -> Seq<Seq<char>> {
    seq![
        "id"@,
        "tenant_id"@,
        "owner_id"@,
        "owner_type"@,
        "name"@,
        "description"@,
        "document_type"@,
        "status"@,
        "derivation_type"@,
        "created_at"@,
        "updated_at"@,
    ]
}

/// The columns of an object that are read.
pub open spec fn object_read() -> Seq<Seq<char>> {
    seq![
        "id"@,
        "content_id"@,
        "storage_backend_name"@,
        "storage_class"@,
        "object_key"@,
        "file_name"@,
        "version"@,
        "object_type"@,
        "status"@,
        "created_at"@,
        "updated_at"@,
    ]
}

/// The columns of content metadata that are read.
pub open spec fn content_metadata_read() -> Seq<Seq<char>> {
    seq![
        "content_id"@,
        "tags"@,
        "file_size"@,
        "file_name"@,
        "mime_type"@,
        "checksum"@,
        "checksum_algorithm"@,
        "metadata"@,
        "created_at"@,
        "updated_at"@,
    ]
}

/// The columns of object metadata that are read.
pub open spec fn object_metadata_read() -> Seq<Seq<char>> {
    seq![
        "object_id"@,
        "size_bytes"@,
        "mime_type"@,
        "etag"@,
        "metadata"@,
        "created_at"@,
        "updated_at"@,
    ]
}

/// The form of the filter for the live row with an id.
pub open spec fn live_with_id() -> Seq<FilterForm> {
    seq![FilterForm::Equals("id"@), FilterForm::IsNull("deleted_at"@)]
}

/// The names of the columns that are read.
proof fn lemma_read_columns()
    ensures
        names_of(content_columns()) == content_read(),
        names_of(object_columns()) == object_read(),
        names_of(content_meta_columns()) == content_metadata_read(),
        names_of(object_meta_columns()) == object_metadata_read(),
{
    assert(names_of(content_columns()) =~= content_read());
    assert(names_of(object_columns()) =~= object_read());
    assert(names_of(content_meta_columns()) =~= content_metadata_read());
    assert(names_of(object_meta_columns()) =~= object_metadata_read());
}

/// The values that one filter binds.
proof fn lemma_binds_1(a: SqlExpr)
    ensures
        all_binds(seq![a]) == a.binds(),
        forms(seq![a]) == seq![a.form()],
{
    reveal_with_fuel(all_binds, 2);
    let s = seq![a];
    assert(s.drop_last() =~= Seq::<SqlExpr>::empty());
    assert(all_binds(s) =~= a.binds());
    assert(forms(s) =~= seq![a.form()]);
}

/// The values that two filters bind.
proof fn lemma_binds_2(a: SqlExpr, b: SqlExpr)
    ensures
        all_binds(seq![a, b]) == a.binds() + b.binds(),
        forms(seq![a, b]) == seq![a.form(), b.form()],
{
    lemma_binds_1(a);
    let s = seq![a, b];
    assert(s.drop_last() =~= seq![a]);
    assert(forms(s) =~= seq![a.form(), b.form()]);
}

/// The values that three filters bind.
proof fn lemma_binds_3(a: SqlExpr, b: SqlExpr, c: SqlExpr)
    ensures
        all_binds(seq![a, b, c]) == a.binds() + b.binds() + c.binds(),
        forms(seq![a, b, c]) == seq![a.form(), b.form(), c.form()],
{
    lemma_binds_2(a, b);
    let s = seq![a, b, c];
    assert(s.drop_last() =~= seq![a, b]);
    assert(forms(s) =~= seq![a.form(), b.form(), c.form()]);
}

/// The columns that are read, and the names of the tables and columns.
pub proof fn law_columns_that_are_read(
    c: [ContentTable; 11],
    m: [ContentMetaTable; 10],
    o: [ObjectTable; 11],
    n: [ObjectMetaTable; 7],
)
    requires
        call_ensures(content_cols, (), c),
        call_ensures(content_meta_cols, (), m),
        call_ensures(object_cols, (), o),
        call_ensures(object_meta_cols, (), n),
    ensures
        names_of(c@) == content_read(),
        names_of(m@) == content_metadata_read(),
        names_of(o@) == object_read(),
        names_of(n@) == object_metadata_read(),
        ContentTable::Table.sql_name() == "content"@,
        ContentMetaTable::Table.sql_name() == "content_metadata"@,
        ObjectTable::Table.sql_name() == "object"@,
        ObjectMetaTable::Table.sql_name() == "object_metadata"@,
{
    lemma_read_columns();
}

/// In the insert of a content each column gets the field of its name: `Created`,
/// by the subject given.
pub proof fn law_create_content_statement(
    id: Uuid,
    c: NewContent,
    by: Option<String>,
    st: SqlStatement,
)
    requires
        call_ensures(ContentStatements::create_as, (id, c, by), st),
    ensures
        ({
            let columns = seq![
                "id"@,
                "tenant_id"@,
                "owner_id"@,
                "owner_type"@,
                "name"@,
                "description"@,
                "document_type"@,
                "status"@,
                "derivation_type"@,
                "created_by"@,
                "updated_by"@,
            ];
            let row = bound_values(st.values);
            &&& st.sql@ == insert_sql("content"@, columns, None, Some(content_read()))
            &&& row.len() == columns.len()
            &&& sets(columns, row, "id"@, SqlDatum::Uuid(id))
            &&& sets(columns, row, "tenant_id"@, SqlDatum::Uuid(c.tenant_id))
            &&& sets(columns, row, "owner_id"@, SqlDatum::Uuid(c.owner_id))
            &&& sets(columns, row, "owner_type"@, nullable(c.owner_type))
            &&& sets(columns, row, "name"@, nullable(c.name))
            &&& sets(columns, row, "description"@, nullable(c.description))
            &&& sets(columns, row, "document_type"@, nullable(c.document_type))
            &&& sets(columns, row, "status"@, text("created"@))
            &&& sets(columns, row, "derivation_type"@, nullable(c.derivation_type))
            &&& sets(columns, row, "created_by"@, nullable(by))
            &&& sets(columns, row, "updated_by"@, nullable(by))
        }),
{
    lemma_read_columns();
    let columns = seq![
        "id"@,
        "tenant_id"@,
        "owner_id"@,
        "owner_type"@,
        "name"@,
        "description"@,
        "document_type"@,
        "status"@,
        "derivation_type"@,
        "created_by"@,
        "updated_by"@,
    ];
    let row = bound_values(st.values);
    assert(names_of(content_created_columns()) =~= columns);
    assert(columns[0] == "id"@ && row[0] == SqlDatum::Uuid(id));
    assert(columns[1] == "tenant_id"@ && row[1] == SqlDatum::Uuid(c.tenant_id));
    assert(columns[2] == "owner_id"@ && row[2] == SqlDatum::Uuid(c.owner_id));
    assert(columns[3] == "owner_type"@ && row[3] == nullable(c.owner_type));
    assert(columns[4] == "name"@ && row[4] == nullable(c.name));
    assert(columns[5] == "description"@ && row[5] == nullable(c.description));
    assert(columns[6] == "document_type"@ && row[6] == nullable(c.document_type));
    assert(columns[7] == "status"@ && row[7] == text("created"@));
    assert(columns[8] == "derivation_type"@ && row[8] == nullable(c.derivation_type));
    assert(columns[9] == "created_by"@ && row[9] == nullable(by));
    assert(columns[10] == "updated_by"@ && row[10] == nullable(by));
}

/// The insert of a content under a minted id: larger than the one before, and
/// each column gets the field of its name.
pub proof fn law_create_content_after_statement(
    earlier: Option<Minted>,
    c: NewContent,
    by: Option<String>,
    r: (SqlStatement, Minted),
)
    requires
        call_ensures(ContentStatements::create_after, (&earlier, c, by), r),
    ensures
        is_v7(r.1.id()),
        earlier matches Some(before) ==> before.id() < r.1.id(),
        ({
            let columns = seq![
                "id"@,
                "tenant_id"@,
                "owner_id"@,
                "owner_type"@,
                "name"@,
                "description"@,
                "document_type"@,
                "status"@,
                "derivation_type"@,
                "created_by"@,
                "updated_by"@,
            ];
            let row = bound_values(r.0.values);
            &&& r.0.sql@ == insert_sql("content"@, columns, None, Some(content_read()))
            &&& row.len() == columns.len()
            &&& sets(columns, row, "id"@, SqlDatum::Uuid(r.1.id()))
            &&& sets(columns, row, "tenant_id"@, SqlDatum::Uuid(c.tenant_id))
            &&& sets(columns, row, "owner_id"@, SqlDatum::Uuid(c.owner_id))
            &&& sets(columns, row, "owner_type"@, nullable(c.owner_type))
            &&& sets(columns, row, "name"@, nullable(c.name))
            &&& sets(columns, row, "description"@, nullable(c.description))
            &&& sets(columns, row, "document_type"@, nullable(c.document_type))
            &&& sets(columns, row, "status"@, text("created"@))
            &&& sets(columns, row, "derivation_type"@, nullable(c.derivation_type))
            &&& sets(columns, row, "created_by"@, nullable(by))
            &&& sets(columns, row, "updated_by"@, nullable(by))
        }),
{
    lemma_read_columns();
    let columns = seq![
        "id"@,
        "tenant_id"@,
        "owner_id"@,
        "owner_type"@,
        "name"@,
        "description"@,
        "document_type"@,
        "status"@,
        "derivation_type"@,
        "created_by"@,
        "updated_by"@,
    ];
    let row = bound_values(r.0.values);
    assert(names_of(content_created_columns()) =~= columns);
    assert(columns[0] == "id"@ && row[0] == SqlDatum::Uuid(r.1.id()));
    assert(columns[1] == "tenant_id"@ && row[1] == SqlDatum::Uuid(c.tenant_id));
    assert(columns[2] == "owner_id"@ && row[2] == SqlDatum::Uuid(c.owner_id));
    assert(columns[3] == "owner_type"@ && row[3] == nullable(c.owner_type));
    assert(columns[4] == "name"@ && row[4] == nullable(c.name));
    assert(columns[5] == "description"@ && row[5] == nullable(c.description));
    assert(columns[6] == "document_type"@ && row[6] == nullable(c.document_type));
    assert(columns[7] == "status"@ && row[7] == text("created"@));
    assert(columns[8] == "derivation_type"@ && row[8] == nullable(c.derivation_type));
    assert(columns[9] == "created_by"@ && row[9] == nullable(by));
    assert(columns[10] == "updated_by"@ && row[10] == nullable(by));
}

/// In the insert of an object each column gets the field of its name: `Created`,
/// version 1, by the subject given.
pub proof fn law_create_object_statement(
    id: Uuid,
    o: NewObject,
    by: Option<String>,
    st: SqlStatement,
)
    requires
        call_ensures(ObjectStatements::create_as, (id, o, by), st),
    ensures
        ({
            let columns = seq![
                "id"@,
                "content_id"@,
                "storage_backend_name"@,
                "storage_class"@,
                "object_key"@,
                "file_name"@,
                "version"@,
                "object_type"@,
                "status"@,
                "created_by"@,
                "updated_by"@,
            ];
            let row = bound_values(st.values);
            &&& st.sql@ == insert_sql("object"@, columns, None, Some(object_read()))
            &&& row.len() == columns.len()
            &&& sets(columns, row, "id"@, SqlDatum::Uuid(id))
            &&& sets(columns, row, "content_id"@, SqlDatum::Uuid(o.content_id))
            &&& sets(columns, row, "storage_backend_name"@, text(o.storage_backend_name@))
            &&& sets(columns, row, "storage_class"@, nullable(o.storage_class))
            &&& sets(columns, row, "object_key"@, text(o.object_key@))
            &&& sets(columns, row, "file_name"@, nullable(o.file_name))
            &&& sets(columns, row, "version"@, SqlDatum::Int(1))
            &&& sets(columns, row, "object_type"@, nullable(o.object_type))
            &&& sets(columns, row, "status"@, text("created"@))
            &&& sets(columns, row, "created_by"@, nullable(by))
            &&& sets(columns, row, "updated_by"@, nullable(by))
        }),
{
    lemma_read_columns();
    let columns = seq![
        "id"@,
        "content_id"@,
        "storage_backend_name"@,
        "storage_class"@,
        "object_key"@,
        "file_name"@,
        "version"@,
        "object_type"@,
        "status"@,
        "created_by"@,
        "updated_by"@,
    ];
    let row = bound_values(st.values);
    assert(names_of(object_created_columns()) =~= columns);
    assert(columns[0] == "id"@ && row[0] == SqlDatum::Uuid(id));
    assert(columns[1] == "content_id"@ && row[1] == SqlDatum::Uuid(o.content_id));
    assert(columns[2] == "storage_backend_name"@ && row[2] == text(o.storage_backend_name@));
    assert(columns[3] == "storage_class"@ && row[3] == nullable(o.storage_class));
    assert(columns[4] == "object_key"@ && row[4] == text(o.object_key@));
    assert(columns[5] == "file_name"@ && row[5] == nullable(o.file_name));
    assert(columns[6] == "version"@ && row[6] == SqlDatum::Int(1));
    assert(columns[7] == "object_type"@ && row[7] == nullable(o.object_type));
    assert(columns[8] == "status"@ && row[8] == text("created"@));
    assert(columns[9] == "created_by"@ && row[9] == nullable(by));
    assert(columns[10] == "updated_by"@ && row[10] == nullable(by));
}

/// The insert of an object under a minted id: larger than the one before, and
/// each column gets the field of its name.
pub proof fn law_create_object_after_statement(
    earlier: Option<Minted>,
    o: NewObject,
    by: Option<String>,
    r: (SqlStatement, Minted),
)
    requires
        call_ensures(ObjectStatements::create_after, (&earlier, o, by), r),
    ensures
        is_v7(r.1.id()),
        earlier matches Some(before) ==> before.id() < r.1.id(),
        ({
            let columns = seq![
                "id"@,
                "content_id"@,
                "storage_backend_name"@,
                "storage_class"@,
                "object_key"@,
                "file_name"@,
                "version"@,
                "object_type"@,
                "status"@,
                "created_by"@,
                "updated_by"@,
            ];
            let row = bound_values(r.0.values);
            &&& r.0.sql@ == insert_sql("object"@, columns, None, Some(object_read()))
            &&& row.len() == columns.len()
            &&& sets(columns, row, "id"@, SqlDatum::Uuid(r.1.id()))
            &&& sets(columns, row, "content_id"@, SqlDatum::Uuid(o.content_id))
            &&& sets(columns, row, "storage_backend_name"@, text(o.storage_backend_name@))
            &&& sets(columns, row, "storage_class"@, nullable(o.storage_class))
            &&& sets(columns, row, "object_key"@, text(o.object_key@))
            &&& sets(columns, row, "file_name"@, nullable(o.file_name))
            &&& sets(columns, row, "version"@, SqlDatum::Int(1))
            &&& sets(columns, row, "object_type"@, nullable(o.object_type))
            &&& sets(columns, row, "status"@, text("created"@))
            &&& sets(columns, row, "created_by"@, nullable(by))
            &&& sets(columns, row, "updated_by"@, nullable(by))
        }),
{
    lemma_read_columns();
    let columns = seq![
        "id"@,
        "content_id"@,
        "storage_backend_name"@,
        "storage_class"@,
        "object_key"@,
        "file_name"@,
        "version"@,
        "object_type"@,
        "status"@,
        "created_by"@,
        "updated_by"@,
    ];
    let row = bound_values(r.0.values);
    assert(names_of(object_created_columns()) =~= columns);
    assert(columns[0] == "id"@ && row[0] == SqlDatum::Uuid(r.1.id()));
    assert(columns[1] == "content_id"@ && row[1] == SqlDatum::Uuid(o.content_id));
    assert(columns[2] == "storage_backend_name"@ && row[2] == text(o.storage_backend_name@));
    assert(columns[3] == "storage_class"@ && row[3] == nullable(o.storage_class));
    assert(columns[4] == "object_key"@ && row[4] == text(o.object_key@));
    assert(columns[5] == "file_name"@ && row[5] == nullable(o.file_name));
    assert(columns[6] == "version"@ && row[6] == SqlDatum::Int(1));
    assert(columns[7] == "object_type"@ && row[7] == nullable(o.object_type));
    assert(columns[8] == "status"@ && row[8] == text("created"@));
    assert(columns[9] == "created_by"@ && row[9] == nullable(by));
    assert(columns[10] == "updated_by"@ && row[10] == nullable(by));
}

/// In the write of content metadata each column gets the field of its name, and
/// over a row that is there all columns but the key are overwritten.
pub proof fn law_content_metadata_statement(m: ContentMetadata, st: SqlStatement)
    requires
        call_ensures(ContentStatements::set_metadata, (m,), st),
    ensures
        ({
            let columns = seq![
                "content_id"@,
                "tags"@,
                "file_size"@,
                "file_name"@,
                "mime_type"@,
                "checksum"@,
                "checksum_algorithm"@,
                "metadata"@,
            ];
            let row = bound_values(st.values);
            &&& st.sql@ == insert_sql(
                "content_metadata"@,
                columns,
                Some(Overwrite { key: "content_id"@, columns: columns.skip(1) }),
                None,
            )
            &&& row.len() == columns.len()
            &&& sets(columns, row, "content_id"@, SqlDatum::Uuid(m.content_id))
            &&& sets(columns, row, "tags"@, SqlDatum::Texts(m.tags@.map_values(|t: String| t@)))
            &&& sets(columns, row, "file_size"@, SqlDatum::BigInt(m.file_size))
            &&& sets(columns, row, "file_name"@, nullable(m.file_name))
            &&& sets(columns, row, "mime_type"@, nullable(m.mime_type))
            &&& sets(columns, row, "checksum"@, nullable(m.checksum))
            &&& sets(columns, row, "checksum_algorithm"@, nullable(m.checksum_algorithm))
            &&& sets(columns, row, "metadata"@, SqlDatum::Json(m.metadata))
        }),
{
    lemma_read_columns();
    let columns = seq![
        "content_id"@,
        "tags"@,
        "file_size"@,
        "file_name"@,
        "mime_type"@,
        "checksum"@,
        "checksum_algorithm"@,
        "metadata"@,
    ];
    let row = bound_values(st.values);
    assert(seq!["content_id"@] + content_meta_values() =~= columns);
    assert(content_meta_values() =~= columns.skip(1));
    assert(columns[0] == "content_id"@ && row[0] == SqlDatum::Uuid(m.content_id));
    assert(columns[1] == "tags"@ && row[1] == SqlDatum::Texts(m.tags@.map_values(|t: String| t@)));
    assert(columns[2] == "file_size"@ && row[2] == SqlDatum::BigInt(m.file_size));
    assert(columns[3] == "file_name"@ && row[3] == nullable(m.file_name));
    assert(columns[4] == "mime_type"@ && row[4] == nullable(m.mime_type));
    assert(columns[5] == "checksum"@ && row[5] == nullable(m.checksum));
    assert(columns[6] == "checksum_algorithm"@ && row[6] == nullable(m.checksum_algorithm));
    assert(columns[7] == "metadata"@ && row[7] == SqlDatum::Json(m.metadata));
}

/// In the write of object metadata each column gets the field of its name, and
/// over a row that is there all columns but the key are overwritten.
pub proof fn law_object_metadata_statement(m: ObjectMetadata, st: SqlStatement)
    requires
        call_ensures(ObjectStatements::set_metadata, (m,), st),
    ensures
        ({
            let columns = seq![
                "object_id"@,
                "size_bytes"@,
                "mime_type"@,
                "etag"@,
                "metadata"@,
            ];
            let row = bound_values(st.values);
            &&& st.sql@ == insert_sql(
                "object_metadata"@,
                columns,
                Some(Overwrite { key: "object_id"@, columns: columns.skip(1) }),
                None,
            )
            &&& row.len() == columns.len()
            &&& sets(columns, row, "object_id"@, SqlDatum::Uuid(m.object_id))
            &&& sets(columns, row, "size_bytes"@, SqlDatum::BigInt(m.size_bytes))
            &&& sets(columns, row, "mime_type"@, nullable(m.mime_type))
            &&& sets(columns, row, "etag"@, nullable(m.etag))
            &&& sets(columns, row, "metadata"@, SqlDatum::Json(m.metadata))
        }),
{
    lemma_read_columns();
    let columns = seq![
        "object_id"@,
        "size_bytes"@,
        "mime_type"@,
        "etag"@,
        "metadata"@,
    ];
    let row = bound_values(st.values);
    assert(seq!["object_id"@] + object_meta_values() =~= columns);
    assert(object_meta_values() =~= columns.skip(1));
    assert(columns[0] == "object_id"@ && row[0] == SqlDatum::Uuid(m.object_id));
    assert(columns[1] == "size_bytes"@ && row[1] == SqlDatum::BigInt(m.size_bytes));
    assert(columns[2] == "mime_type"@ && row[2] == nullable(m.mime_type));
    assert(columns[3] == "etag"@ && row[3] == nullable(m.etag));
    assert(columns[4] == "metadata"@ && row[4] == SqlDatum::Json(m.metadata));
}

/// In the update of a content each editable column gets the field of its name, of
/// the live row with its id.
pub proof fn law_update_content_statement(c: Content, by: Option<String>, st: SqlStatement)
    requires
        call_ensures(ContentStatements::update, (&c, by), st),
    ensures
        ({
            let columns = seq![
                "owner_type"@,
                "name"@,
                "description"@,
                "document_type"@,
                "updated_by"@,
            ];
            let values = bound_values(st.values);
            &&& st.sql@ == update_sql("content"@, columns, live_with_id(), Some(content_read()))
            &&& values.len() == columns.len() + 1
            &&& sets(columns, values, "owner_type"@, nullable(c.owner_type))
            &&& sets(columns, values, "name"@, nullable(c.name))
            &&& sets(columns, values, "description"@, nullable(c.description))
            &&& sets(columns, values, "document_type"@, nullable(c.document_type))
            &&& sets(columns, values, "updated_by"@, nullable(by))
            &&& values.last() == SqlDatum::Uuid(c.id)
        }),
{
    lemma_read_columns();
    lemma_binds_2(
        SqlExpr::Equals("id"@, SqlDatum::Uuid(c.id)),
        SqlExpr::IsNull("deleted_at"@),
    );
    let columns = seq![
        "owner_type"@,
        "name"@,
        "description"@,
        "document_type"@,
        "updated_by"@,
    ];
    let values = bound_values(st.values);
    assert(columns[0] == "owner_type"@ && values[0] == nullable(c.owner_type));
    assert(columns[1] == "name"@ && values[1] == nullable(c.name));
    assert(columns[2] == "description"@ && values[2] == nullable(c.description));
    assert(columns[3] == "document_type"@ && values[3] == nullable(c.document_type));
    assert(columns[4] == "updated_by"@ && values[4] == nullable(by));
}

/// The state of the live content with the id is set to the name of the state.
pub proof fn law_content_status_statement(
    id: Uuid,
    status: ContentStatus,
    by: Option<String>,
    st: SqlStatement,
)
    requires
        call_ensures(ContentStatements::set_status, (id, status, by), st),
    ensures
        ({
            let columns = seq![
                "status"@,
                "updated_by"@,
            ];
            let values = bound_values(st.values);
            &&& st.sql@ == update_sql("content"@, columns, live_with_id(), None)
            &&& values.len() == columns.len() + 1
            &&& sets(columns, values, "status"@, text(status.name()))
            &&& sets(columns, values, "updated_by"@, nullable(by))
            &&& values.last() == SqlDatum::Uuid(id)
        }),
{
    lemma_read_columns();
    lemma_binds_2(
        SqlExpr::Equals("id"@, SqlDatum::Uuid(id)),
        SqlExpr::IsNull("deleted_at"@),
    );
    let columns = seq![
        "status"@,
        "updated_by"@,
    ];
    let values = bound_values(st.values);
    assert(columns[0] == "status"@ && values[0] == text(status.name()));
    assert(columns[1] == "updated_by"@ && values[1] == nullable(by));
}

/// The live content with the id is hidden as of the instant given.
pub proof fn law_hide_content_statement(
    id: Uuid,
    by: Option<String>,
    now: OffsetDateTime,
    st: SqlStatement,
)
    requires
        call_ensures(ContentStatements::soft_delete_at, (id, by, now), st),
    ensures
        ({
            let columns = seq![
                "deleted_at"@,
                "updated_by"@,
            ];
            let values = bound_values(st.values);
            &&& st.sql@ == update_sql("content"@, columns, live_with_id(), None)
            &&& values.len() == columns.len() + 1
            &&& sets(columns, values, "deleted_at"@, SqlDatum::Timestamp(now))
            &&& sets(columns, values, "updated_by"@, nullable(by))
            &&& values.last() == SqlDatum::Uuid(id)
        }),
{
    lemma_read_columns();
    lemma_binds_2(
        SqlExpr::Equals("id"@, SqlDatum::Uuid(id)),
        SqlExpr::IsNull("deleted_at"@),
    );
    let columns = seq![
        "deleted_at"@,
        "updated_by"@,
    ];
    let values = bound_values(st.values);
    assert(columns[0] == "deleted_at"@ && values[0] == SqlDatum::Timestamp(now));
    assert(columns[1] == "updated_by"@ && values[1] == nullable(by));
}

/// The live content with the id is hidden as of an instant in UTC.
pub proof fn law_hide_content_now_statement(id: Uuid, by: Option<String>, st: SqlStatement)
    requires
        call_ensures(ContentStatements::soft_delete, (id, by), st),
    ensures
        st.sql@ == update_sql(
            "content"@,
            seq!["deleted_at"@, "updated_by"@],
            live_with_id(),
            None,
        ),
        bound_values(st.values).len() == 3,
        bound_values(st.values)[0] matches SqlDatum::Timestamp(now) && utc_offset(now) == 0,
        bound_values(st.values)[1] == nullable(by),
        bound_values(st.values)[2] == SqlDatum::Uuid(id),
{
    lemma_binds_2(
        SqlExpr::Equals("id"@, SqlDatum::Uuid(id)),
        SqlExpr::IsNull("deleted_at"@),
    );
}

/// The state of the live object with the id is set to the name of the state.
pub proof fn law_object_status_statement(
    id: Uuid,
    status: ObjectStatus,
    by: Option<String>,
    st: SqlStatement,
)
    requires
        call_ensures(ObjectStatements::set_status, (id, status, by), st),
    ensures
        ({
            let columns = seq![
                "status"@,
                "updated_by"@,
            ];
            let values = bound_values(st.values);
            &&& st.sql@ == update_sql("object"@, columns, live_with_id(), None)
            &&& values.len() == columns.len() + 1
            &&& sets(columns, values, "status"@, text(status.name()))
            &&& sets(columns, values, "updated_by"@, nullable(by))
            &&& values.last() == SqlDatum::Uuid(id)
        }),
{
    lemma_read_columns();
    lemma_binds_2(
        SqlExpr::Equals("id"@, SqlDatum::Uuid(id)),
        SqlExpr::IsNull("deleted_at"@),
    );
    let columns = seq![
        "status"@,
        "updated_by"@,
    ];
    let values = bound_values(st.values);
    assert(columns[0] == "status"@ && values[0] == text(status.name()));
    assert(columns[1] == "updated_by"@ && values[1] == nullable(by));
}

/// The live object with the id is hidden as of the instant given.
pub proof fn law_hide_object_statement(
    id: Uuid,
    by: Option<String>,
    now: OffsetDateTime,
    st: SqlStatement,
)
    requires
        call_ensures(ObjectStatements::soft_delete_at, (id, by, now), st),
    ensures
        ({
            let columns = seq![
                "deleted_at"@,
                "updated_by"@,
            ];
            let values = bound_values(st.values);
            &&& st.sql@ == update_sql("object"@, columns, live_with_id(), None)
            &&& values.len() == columns.len() + 1
            &&& sets(columns, values, "deleted_at"@, SqlDatum::Timestamp(now))
            &&& sets(columns, values, "updated_by"@, nullable(by))
            &&& values.last() == SqlDatum::Uuid(id)
        }),
{
    lemma_read_columns();
    lemma_binds_2(
        SqlExpr::Equals("id"@, SqlDatum::Uuid(id)),
        SqlExpr::IsNull("deleted_at"@),
    );
    let columns = seq![
        "deleted_at"@,
        "updated_by"@,
    ];
    let values = bound_values(st.values);
    assert(columns[0] == "deleted_at"@ && values[0] == SqlDatum::Timestamp(now));
    assert(columns[1] == "updated_by"@ && values[1] == nullable(by));
}

/// The live object with the id is hidden as of an instant in UTC.
pub proof fn law_hide_object_now_statement(id: Uuid, by: Option<String>, st: SqlStatement)
    requires
        call_ensures(ObjectStatements::soft_delete, (id, by), st),
    ensures
        st.sql@ == update_sql(
            "object"@,
            seq!["deleted_at"@, "updated_by"@],
            live_with_id(),
            None,
        ),
        bound_values(st.values).len() == 3,
        bound_values(st.values)[0] matches SqlDatum::Timestamp(now) && utc_offset(now) == 0,
        bound_values(st.values)[1] == nullable(by),
        bound_values(st.values)[2] == SqlDatum::Uuid(id),
{
    lemma_binds_2(
        SqlExpr::Equals("id"@, SqlDatum::Uuid(id)),
        SqlExpr::IsNull("deleted_at"@),
    );
}

/// One live content is asked for by its id.
pub proof fn law_get_content_statement(id: Uuid, st: SqlStatement)
    requires
        call_ensures(ContentStatements::get, (id,), st),
    ensures
        st.sql@ == select_sql(
            content_read(),
            "content"@,
            seq![FilterForm::Equals("id"@), FilterForm::IsNull("deleted_at"@)],
            Seq::<(Seq<char>, bool)>::empty(),
        ),
        bound_values(st.values) == seq![SqlDatum::Uuid(id)],
{
    lemma_read_columns();
    lemma_binds_2(
        SqlExpr::Equals("id"@, SqlDatum::Uuid(id)),
        SqlExpr::IsNull("deleted_at"@),
    );
    assert(bound_values(st.values) =~= seq![SqlDatum::Uuid(id)]);
}

/// The live contents of the owner in the tenant are asked for, the largest id
/// first.
pub proof fn law_list_contents_statement(owner_id: Uuid, tenant_id: Uuid, st: SqlStatement)
    requires
        call_ensures(ContentStatements::list, (owner_id, tenant_id), st),
    ensures
        st.sql@ == select_sql(
            content_read(),
            "content"@,
            seq![
                FilterForm::Equals("owner_id"@),
                FilterForm::Equals("tenant_id"@),
                FilterForm::IsNull("deleted_at"@),
            ],
            seq![("id"@, true)],
        ),
        bound_values(st.values) == seq![SqlDatum::Uuid(owner_id), SqlDatum::Uuid(tenant_id)],
{
    lemma_read_columns();
    lemma_binds_3(
        SqlExpr::Equals("owner_id"@, SqlDatum::Uuid(owner_id)),
        SqlExpr::Equals("tenant_id"@, SqlDatum::Uuid(tenant_id)),
        SqlExpr::IsNull("deleted_at"@),
    );
    assert(bound_values(st.values) =~= seq![SqlDatum::Uuid(owner_id), SqlDatum::Uuid(tenant_id)]);
}

/// The metadata of one content is asked for by the content.
pub proof fn law_get_content_metadata_statement(content_id: Uuid, st: SqlStatement)
    requires
        call_ensures(ContentStatements::get_metadata, (content_id,), st),
    ensures
        st.sql@ == select_sql(
            content_metadata_read(),
            "content_metadata"@,
            seq![FilterForm::Equals("content_id"@)],
            Seq::<(Seq<char>, bool)>::empty(),
        ),
        bound_values(st.values) == seq![SqlDatum::Uuid(content_id)],
{
    lemma_read_columns();
    lemma_binds_1(
        SqlExpr::Equals("content_id"@, SqlDatum::Uuid(content_id)),
    );
    assert(bound_values(st.values) =~= seq![SqlDatum::Uuid(content_id)]);
}

/// One live object is asked for by its id.
pub proof fn law_get_object_statement(id: Uuid, st: SqlStatement)
    requires
        call_ensures(ObjectStatements::get, (id,), st),
    ensures
        st.sql@ == select_sql(
            object_read(),
            "object"@,
            seq![FilterForm::Equals("id"@), FilterForm::IsNull("deleted_at"@)],
            Seq::<(Seq<char>, bool)>::empty(),
        ),
        bound_values(st.values) == seq![SqlDatum::Uuid(id)],
{
    lemma_read_columns();
    lemma_binds_2(
        SqlExpr::Equals("id"@, SqlDatum::Uuid(id)),
        SqlExpr::IsNull("deleted_at"@),
    );
    assert(bound_values(st.values) =~= seq![SqlDatum::Uuid(id)]);
}

/// The live objects of the content are asked for, the smallest id first.
pub proof fn law_list_objects_statement(content_id: Uuid, st: SqlStatement)
    requires
        call_ensures(ObjectStatements::list_by_content, (content_id,), st),
    ensures
        st.sql@ == select_sql(
            object_read(),
            "object"@,
            seq![FilterForm::Equals("content_id"@), FilterForm::IsNull("deleted_at"@)],
            seq![("id"@, false)],
        ),
        bound_values(st.values) == seq![SqlDatum::Uuid(content_id)],
{
    lemma_read_columns();
    lemma_binds_2(
        SqlExpr::Equals("content_id"@, SqlDatum::Uuid(content_id)),
        SqlExpr::IsNull("deleted_at"@),
    );
    assert(bound_values(st.values) =~= seq![SqlDatum::Uuid(content_id)]);
}

/// One live object is asked for by its key and its backend.
pub proof fn law_get_object_by_key_statement(object_key: &str, backend: &str, st: SqlStatement)
    requires
        call_ensures(ObjectStatements::get_by_key, (object_key, backend), st),
    ensures
        st.sql@ == select_sql(
            object_read(),
            "object"@,
            seq![
                FilterForm::Equals("object_key"@),
                FilterForm::Equals("storage_backend_name"@),
                FilterForm::IsNull("deleted_at"@),
            ],
            Seq::<(Seq<char>, bool)>::empty(),
        ),
        bound_values(st.values) == seq![text(object_key@), text(backend@)],
{
    lemma_read_columns();
    lemma_binds_3(
        SqlExpr::Equals("object_key"@, text(object_key@)),
        SqlExpr::Equals("storage_backend_name"@, text(backend@)),
        SqlExpr::IsNull("deleted_at"@),
    );
    assert(bound_values(st.values) =~= seq![text(object_key@), text(backend@)]);
}

/// The metadata of one object is asked for by the object.
pub proof fn law_get_object_metadata_statement(object_id: Uuid, st: SqlStatement)
    requires
        call_ensures(ObjectStatements::get_metadata, (object_id,), st),
    ensures
        st.sql@ == select_sql(
            object_metadata_read(),
            "object_metadata"@,
            seq![FilterForm::Equals("object_id"@)],
            Seq::<(Seq<char>, bool)>::empty(),
        ),
        bound_values(st.values) == seq![SqlDatum::Uuid(object_id)],
{
    lemma_read_columns();
    lemma_binds_1(
        SqlExpr::Equals("object_id"@, SqlDatum::Uuid(object_id)),
    );
    assert(bound_values(st.values) =~= seq![SqlDatum::Uuid(object_id)]);
}

/// The live contents with the ids are asked for, each id bound once per mention;
/// without ids nothing is asked.
pub proof fn law_get_contents_statement(ids: &[Uuid], r: Option<SqlStatement>)
    requires
        call_ensures(ContentStatements::get_many, (ids,), r),
    ensures
        r is None <==> ids@.len() == 0,
        r matches Some(st) ==> {
            &&& st.sql@ == select_sql(
                content_read(),
                "content"@,
                seq![FilterForm::IsIn("id"@, ids@.len()), FilterForm::IsNull("deleted_at"@)],
                Seq::<(Seq<char>, bool)>::empty(),
            )
            &&& bound_values(st.values).len() == ids@.len()
            &&& forall|i: int|
                0 <= i < ids@.len() ==> #[trigger] bound_values(st.values)[i] == SqlDatum::Uuid(
                    ids@[i],
                )
        },
{
    lemma_read_columns();
    if r is Some {
        lemma_binds_2(
            SqlExpr::IsIn("id"@, uuid_data(ids@)),
            SqlExpr::IsNull("deleted_at"@),
        );
    }
}

/// The metadata of the contents is asked for, each id bound once per mention;
/// without ids nothing is asked.
pub proof fn law_get_metadata_many_statement(ids: &[Uuid], r: Option<SqlStatement>)
    requires
        call_ensures(ContentStatements::get_metadata_many, (ids,), r),
    ensures
        r is None <==> ids@.len() == 0,
        r matches Some(st) ==> {
            &&& st.sql@ == select_sql(
                content_metadata_read(),
                "content_metadata"@,
                seq![FilterForm::IsIn("content_id"@, ids@.len())],
                Seq::<(Seq<char>, bool)>::empty(),
            )
            &&& bound_values(st.values).len() == ids@.len()
            &&& forall|i: int|
                0 <= i < ids@.len() ==> #[trigger] bound_values(st.values)[i] == SqlDatum::Uuid(
                    ids@[i],
                )
        },
{
    lemma_read_columns();
    if r is Some {
        lemma_binds_1(
            SqlExpr::IsIn("content_id"@, uuid_data(ids@)),
        );
    }
}

} // verus!
