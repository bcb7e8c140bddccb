//! What holds of the statements and of the rows that are read.

use vstd::prelude::*;

use crate::ext::Uuid;
use crate::repo::postgres::{by_content, live_row, ContentDbRow, ObjectDbRow};
use crate::sql::{all_binds, forms, Overwrite, SqlDatum, SqlExpr, SqlStatement};
use crate::status::{law_content_status_names, law_object_status_names};
use crate::types::{Content, ContentMetadata, Object};

verus! {

/// Whether the row holds what the content holds, its state by name.
pub open spec fn stores_content(row: ContentDbRow, c: Content) -> bool {
    &&& row.id == c.id
    &&& row.tenant_id == c.tenant_id
    &&& row.owner_id == c.owner_id
    &&& row.owner_type == c.owner_type
    &&& row.name == c.name
    &&& row.description == c.description
    &&& row.document_type == c.document_type
    &&& row.status@ == c.status.name()
    &&& row.derivation_type == c.derivation_type
    &&& row.created_at == c.created_at
    &&& row.updated_at == c.updated_at
}

/// Whether the row holds what the object holds, its state by name.
pub open spec fn stores_object(row: ObjectDbRow, o: Object) -> bool {
    &&& row.id == o.id
    &&& row.content_id == o.content_id
    &&& row.storage_backend_name == o.storage_backend_name
    &&& row.storage_class == o.storage_class
    &&& row.object_key == o.object_key
    &&& row.file_name == o.file_name
    &&& row.version == o.version
    &&& row.object_type == o.object_type
    &&& row.status@ == o.status.name()
    &&& row.created_at == o.created_at
    &&& row.updated_at == o.updated_at
}

/// A content is read back from the row that holds it, and no other content is.
pub proof fn law_content_rows_read_back(row: ContentDbRow, c: Content)
    ensures
        row.entity() == Some(c) <==> stores_content(row, c),
{
    law_content_status_names();
    if stores_content(row, c) {
        assert(c.status.name() == row.status@);
    }
}

/// An object is read back from the row that holds it, and no other object is.
pub proof fn law_object_rows_read_back(row: ObjectDbRow, o: Object)
    ensures
        row.entity() == Some(o) <==> stores_object(row, o),
{
    law_object_status_names();
    if stores_object(row, o) {
        assert(o.status.name() == row.status@);
    }
}

/// The text of an insert is the same whatever the values are.
pub proof fn law_insert_text_holds_no_values(
    a: SqlStatement,
    b: SqlStatement,
    table: Seq<char>,
    columns: Seq<Seq<char>>,
    row_a: Seq<SqlDatum>,
    row_b: Seq<SqlDatum>,
    on_conflict: Option<Overwrite>,
    returning: Option<Seq<Seq<char>>>,
)
    requires
        a.inserts(table, columns, row_a, on_conflict, returning),
        b.inserts(table, columns, row_b, on_conflict, returning),
    ensures
        a.sql@ == b.sql@,
{
}

/// The text of a select is the same whatever the values are that its filters
/// compare with.
pub proof fn law_select_text_holds_no_values(
    a: SqlStatement,
    b: SqlStatement,
    columns: Seq<Seq<char>>,
    table: Seq<char>,
    filters_a: Seq<SqlExpr>,
    filters_b: Seq<SqlExpr>,
    orders: Seq<(Seq<char>, bool)>,
)
    requires
        a.selects(columns, table, filters_a, orders),
        b.selects(columns, table, filters_b, orders),
        filters_a.len() == filters_b.len(),
        forall|i: int|
            0 <= i < filters_a.len() ==> (#[trigger] filters_a[i]).form() == filters_b[i].form(),
    ensures
        a.sql@ == b.sql@,
{
    assert(forms(filters_a) =~= forms(filters_b));
}

/// The text of an update is the same whatever the values are.
pub proof fn law_update_text_holds_no_values(
    a: SqlStatement,
    b: SqlStatement,
    table: Seq<char>,
    columns: Seq<Seq<char>>,
    values_a: Seq<SqlDatum>,
    values_b: Seq<SqlDatum>,
    filters_a: Seq<SqlExpr>,
    filters_b: Seq<SqlExpr>,
    returning: Option<Seq<Seq<char>>>,
)
    requires
        a.updates(table, columns, values_a, filters_a, returning),
        b.updates(table, columns, values_b, filters_b, returning),
        filters_a.len() == filters_b.len(),
        forall|i: int|
            0 <= i < filters_a.len() ==> (#[trigger] filters_a[i]).form() == filters_b[i].form(),
    ensures
        a.sql@ == b.sql@,
{
    assert(forms(filters_a) =~= forms(filters_b));
}

/// The filters for one row bind its id and nothing else, and keep hidden rows out.
pub proof fn law_live_row_binds_the_id(id: Uuid)
    ensures
        all_binds(live_row(id)) == seq![SqlDatum::Uuid(id)],
        live_row(id).contains(SqlExpr::IsNull("deleted_at"@)),
{
    let filters = live_row(id);
    reveal_with_fuel(all_binds, 3);
    assert(filters.drop_last() =~= seq![filters[0]]);
    assert(seq![filters[0]].drop_last() =~= Seq::<SqlExpr>::empty());
    assert(all_binds(filters) =~= seq![SqlDatum::Uuid(id)]);
    assert(filters[1] == SqlExpr::IsNull("deleted_at"@));
}

/// Metadata that is read for many contents is found under the content of each
/// row, and nowhere else: the last row of a content counts.
pub proof fn law_metadata_by_content(rows: Seq<ContentMetadata>, k: int)
    requires
        0 <= k < rows.len(),
        forall|i: int| k < i < rows.len() ==> (#[trigger] rows[i]).content_id != rows[k].content_id,
    ensures
        by_content(rows).contains_key(rows[k].content_id),
        by_content(rows)[rows[k].content_id] == rows[k],
        forall|id: Uuid| #[trigger]
            by_content(rows).contains_key(id) ==> exists|i: int|
                0 <= i < rows.len() && (#[trigger] rows[i]).content_id == id,
    decreases rows.len(),
{
    let shorter = rows.drop_last();
    if k < shorter.len() {
        assert(rows.last().content_id != rows[k].content_id);
        law_metadata_by_content(shorter, k);
    }
    lemma_by_content_holds_rows(rows);
}

/// Every key stems from a row.
proof fn lemma_by_content_holds_rows(rows: Seq<ContentMetadata>)
    ensures
        forall|id: Uuid| #[trigger]
            by_content(rows).contains_key(id) ==> exists|i: int|
                0 <= i < rows.len() && (#[trigger] rows[i]).content_id == id,
    decreases rows.len(),
{
    if rows.len() > 0 {
        let shorter = rows.drop_last();
        lemma_by_content_holds_rows(shorter);
        assert forall|id: Uuid| #[trigger]
            by_content(rows).contains_key(id) implies exists|i: int|
            0 <= i < rows.len() && (#[trigger] rows[i]).content_id == id by {
            if id == rows.last().content_id {
                assert(rows[rows.len() - 1].content_id == id);
            } else {
                assert(by_content(shorter).contains_key(id));
                let i = choose|i: int|
                    0 <= i < shorter.len() && (#[trigger] shorter[i]).content_id == id;
                assert(rows[i].content_id == id);
            }
        }
    }
}

} // verus!
