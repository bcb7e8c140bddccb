//! Statements for PostgreSQL, built with `sea_query`.
//!
//! What a statement holds is stated in plain values: table and column names as
//! text, bound values as `SqlDatum`. A value never stands in the text of a
//! statement: it is bound to a placeholder, so that the text depends on the
//! names and on the form of the filters alone.

use sea_query::{
    Expr, ExprTrait, InsertStatement, OnConflict, Order, PostgresQueryBuilder, Query,
    SelectStatement, UpdateStatement,
};
use sea_query_sqlx::{SqlxBinder, SqlxValues};
use time::OffsetDateTime;
use vstd::prelude::*;

use crate::ext::Uuid;

verus! {

/// The outside type `sea_query::Expr`.
#[verifier::external_type_specification]
#[verifier::external_body]
pub struct ExExpr(sea_query::Expr);

/// The outside type `sea_query::InsertStatement`.
#[verifier::external_type_specification]
#[verifier::external_body]
pub struct ExInsertStatement(sea_query::InsertStatement);

/// The outside type `sea_query::SelectStatement`.
#[verifier::external_type_specification]
#[verifier::external_body]
pub struct ExSelectStatement(sea_query::SelectStatement);

/// The outside type `sea_query::UpdateStatement`.
#[verifier::external_type_specification]
#[verifier::external_body]
pub struct ExUpdateStatement(sea_query::UpdateStatement);

/// The outside type `sea_query_sqlx::SqlxValues`.
#[verifier::external_type_specification]
#[verifier::external_body]
pub struct ExSqlxValues(sea_query_sqlx::SqlxValues);

/// A value that is bound to a placeholder.
pub enum SqlDatum {
    Uuid(Uuid),
    Text(Option<Seq<char>>),
    BigInt(Option<i64>),
    Int(i32),
    Texts(Seq<Seq<char>>),
    Json(serde_json::Value),
    Timestamp(OffsetDateTime),
}

/// An expression.
pub enum SqlExpr {
    /// A bound value.
    Bound(SqlDatum),
    /// The column equals the bound value.
    Equals(Seq<char>, SqlDatum),
    /// The column is null.
    IsNull(Seq<char>),
    /// The column is one of the bound values.
    IsIn(Seq<char>, Seq<SqlDatum>),
    /// Any other expression.
    Other,
}

/// The form of a filter: what its text shows.
pub enum FilterForm {
    Equals(Seq<char>),
    IsNull(Seq<char>),
    IsIn(Seq<char>, nat),
}

/// What happens to a row whose key is there already: the key column, and the
/// columns that are overwritten with what was to be inserted.
pub struct Overwrite {
    pub key: Seq<char>,
    pub columns: Seq<Seq<char>>,
}

/// What an insert of one row holds.
pub struct InsertParts {
    pub table: Seq<char>,
    pub columns: Seq<Seq<char>>,
    pub row: Seq<SqlExpr>,
    pub on_conflict: Option<Overwrite>,
    pub returning: Option<Seq<Seq<char>>>,
    /// Whether it holds anything else, such as a second row.
    pub other: bool,
}

/// What a select holds.
pub struct SelectParts {
    pub columns: Seq<Seq<char>>,
    pub table: Seq<char>,
    /// All of them have to hold.
    pub filters: Seq<SqlExpr>,
    /// The columns to order by, each with whether the order descends.
    pub orders: Seq<(Seq<char>, bool)>,
    /// Whether it holds anything else, such as a join.
    pub other: bool,
}

/// What an update holds.
pub struct UpdateParts {
    pub table: Seq<char>,
    pub columns: Seq<Seq<char>>,
    /// What the columns are set to, one each.
    pub values: Seq<SqlExpr>,
    /// All of them have to hold.
    pub filters: Seq<SqlExpr>,
    pub returning: Option<Seq<Seq<char>>>,
    /// Whether it holds anything else, such as a limit.
    pub other: bool,
}

/// What a `sea_query::Expr` is.
pub uninterp spec fn expr_parts(e: Expr) -> SqlExpr;

/// What a `sea_query::InsertStatement` holds.
pub uninterp spec fn insert_parts(s: InsertStatement) -> InsertParts;

/// What a `sea_query::SelectStatement` holds.
pub uninterp spec fn select_parts(s: SelectStatement) -> SelectParts;

/// What a `sea_query::UpdateStatement` holds.
pub uninterp spec fn update_parts(s: UpdateStatement) -> UpdateParts;

/// The bound values of a statement, in the order of their placeholders.
pub uninterp spec fn bound_values(v: SqlxValues) -> Seq<SqlDatum>;

/// The text of an insert of one row.
pub uninterp spec fn insert_sql(
    table: Seq<char>,
    columns: Seq<Seq<char>>,
    on_conflict: Option<Overwrite>,
    returning: Option<Seq<Seq<char>>>,
) -> Seq<char>;

/// The text of a select.
pub uninterp spec fn select_sql(
    columns: Seq<Seq<char>>,
    table: Seq<char>,
    filters: Seq<FilterForm>,
    orders: Seq<(Seq<char>, bool)>,
) -> Seq<char>;

/// The text of an update.
pub uninterp spec fn update_sql(
    table: Seq<char>,
    columns: Seq<Seq<char>>,
    filters: Seq<FilterForm>,
    returning: Option<Seq<Seq<char>>>,
) -> Seq<char>;

impl SqlExpr {
    /// Whether it is a bound value.
    pub open spec fn is_bound(self) -> bool {
        self is Bound
    }

    /// Whether it is a filter: a comparison, or a choice of one or more values.
    pub open spec fn is_filter(self) -> bool {
        match self {
            SqlExpr::Equals(_, _) | SqlExpr::IsNull(_) => true,
            SqlExpr::IsIn(_, values) => values.len() > 0,
            _ => false,
        }
    }

    /// The form of a filter.
    pub open spec fn form(self) -> FilterForm {
        match self {
            SqlExpr::Equals(column, _) => FilterForm::Equals(column),
            SqlExpr::IsNull(column) => FilterForm::IsNull(column),
            SqlExpr::IsIn(column, values) => FilterForm::IsIn(column, values.len()),
            _ => arbitrary(),
        }
    }

    /// The values that it binds.
    pub open spec fn binds(self) -> Seq<SqlDatum> {
        match self {
            SqlExpr::Bound(value) => seq![value],
            SqlExpr::Equals(_, value) => seq![value],
            SqlExpr::IsIn(_, values) => values,
            _ => Seq::<SqlDatum>::empty(),
        }
    }
}

/// The forms of the filters.
pub open spec fn forms(filters: Seq<SqlExpr>) -> Seq<FilterForm> {
    filters.map_values(|f: SqlExpr| f.form())
}

/// The values that the expressions bind, one after another.
pub open spec fn all_binds(exprs: Seq<SqlExpr>) -> Seq<SqlDatum>
    decreases exprs.len(),
{
    if exprs.len() == 0 {
        Seq::<SqlDatum>::empty()
    } else {
        all_binds(exprs.drop_last()) + exprs.last().binds()
    }
}

/// Names as text.
pub open spec fn names_as_text(names: Seq<&'static str>) -> Seq<Seq<char>> {
    names.map_values(|n: &'static str| n@)
}

/// Expressions by their parts.
pub open spec fn exprs_by_parts(exprs: Seq<Expr>) -> Seq<SqlExpr> {
    exprs.map_values(|e: Expr| expr_parts(e))
}

/// A bound id, by `sea_query`'s conversion from `uuid::Uuid`: the UUID whose
/// 128 bits are `id`.
#[verifier::external_body]
pub(crate) fn bind_uuid(id: Uuid) -> (e: Expr)
    ensures
        expr_parts(e) == SqlExpr::Bound(SqlDatum::Uuid(id)),
{
    uuid::Uuid::from_u128(id).into()
}

/// A bound text or null, by `sea_query`'s conversion from `Option<String>`.
#[verifier::external_body]
pub(crate) fn bind_text(text: Option<String>) -> (e: Expr)
    ensures
        expr_parts(e) == SqlExpr::Bound(text_datum(text)),
{
    text.into()
}

/// A bound 64 bit integer or null, by `sea_query`'s conversion from `Option<i64>`.
#[verifier::external_body]
pub(crate) fn bind_bigint(n: Option<i64>) -> (e: Expr)
    ensures
        expr_parts(e) == SqlExpr::Bound(SqlDatum::BigInt(n)),
{
    n.into()
}

/// A bound 32 bit integer, by `sea_query`'s conversion from `i32`.
#[verifier::external_body]
pub(crate) fn bind_int(n: i32) -> (e: Expr)
    ensures
        expr_parts(e) == SqlExpr::Bound(SqlDatum::Int(n)),
{
    n.into()
}

/// A bound array of texts, by `sea_query`'s conversion from `Vec<String>`.
#[verifier::external_body]
pub(crate) fn bind_texts(texts: Vec<String>) -> (e: Expr)
    ensures
        expr_parts(e) == SqlExpr::Bound(texts_datum(texts@)),
{
    texts.into()
}

/// A bound JSON value, by `sea_query`'s conversion from `serde_json::Value`.
#[verifier::external_body]
pub(crate) fn bind_json(json: serde_json::Value) -> (e: Expr)
    ensures
        expr_parts(e) == SqlExpr::Bound(SqlDatum::Json(json)),
{
    json.into()
}

/// A bound instant, by `sea_query`'s conversion from `time::OffsetDateTime`.
#[verifier::external_body]
pub(crate) fn bind_timestamp(t: OffsetDateTime) -> (e: Expr)
    ensures
        expr_parts(e) == SqlExpr::Bound(SqlDatum::Timestamp(t)),
{
    t.into()
}

/// A text or null as a bound value.
pub open spec fn text_datum(text: Option<String>) -> SqlDatum {
    SqlDatum::Text(
        match text {
            Some(t) => Some(t@),
            None => None,
        },
    )
}

/// Texts as a bound value.
pub open spec fn texts_datum(texts: Seq<String>) -> SqlDatum {
    SqlDatum::Texts(texts.map_values(|t: String| t@))
}

/// `ExprTrait::eq` on a column and a bound value.
#[verifier::external_body]
pub(crate) fn column_eq(column: &'static str, value: Expr) -> (e: Expr)
    requires
        expr_parts(value).is_bound(),
    ensures
        expr_parts(e) == SqlExpr::Equals(column@, expr_parts(value)->Bound_0),
{
    Expr::col(column).eq(value)
}

/// `ExprTrait::is_null` on a column.
#[verifier::external_body]
pub(crate) fn column_is_null(column: &'static str) -> (e: Expr)
    ensures
        expr_parts(e) == SqlExpr::IsNull(column@),
{
    Expr::col(column).is_null()
}

/// `ExprTrait::is_in` on a column and one or more bound values. (An empty list
/// is turned into a comparison of two constants.)
#[verifier::external_body]
pub(crate) fn column_is_in(column: &'static str, values: Vec<Expr>) -> (e: Expr)
    requires
        values@.len() > 0,
        forall|i: int| 0 <= i < values@.len() ==> expr_parts(#[trigger] values@[i]).is_bound(),
    ensures
        expr_parts(e) == SqlExpr::IsIn(
            column@,
            exprs_by_parts(values@).map_values(|v: SqlExpr| v->Bound_0),
        ),
{
    Expr::col(column).is_in(values)
}

/// `Query::insert` with `InsertStatement::into_table`, `columns` and
/// `values_panic`, which panics unless there is one value for each column.
#[verifier::external_body]
pub(crate) fn insert_into(
    table: &'static str,
    columns: Vec<&'static str>,
    row: Vec<Expr>,
) -> (s: InsertStatement)
    requires
        columns@.len() == row@.len(),
        row@.len() > 0,
    ensures
        insert_parts(s) == (InsertParts {
            table: table@,
            columns: names_as_text(columns@),
            row: exprs_by_parts(row@),
            on_conflict: None,
            returning: None,
            other: false,
        }),
{
    let mut s = Query::insert();
    s.into_table(table).columns(columns).values_panic(row);
    s
}

/// `InsertStatement::on_conflict` with `OnConflict::column` and `update_columns`.
#[verifier::external_body]
pub(crate) fn insert_on_conflict(
    s: InsertStatement,
    key: &'static str,
    columns: Vec<&'static str>,
) -> (r: InsertStatement)
    requires
        !insert_parts(s).other,
    ensures
        insert_parts(r) == (InsertParts {
            on_conflict: Some(Overwrite { key: key@, columns: names_as_text(columns@) }),
            ..insert_parts(s)
        }),
{
    let mut s = s;
    s.on_conflict(OnConflict::column(key).update_columns(columns).to_owned());
    s
}

/// `InsertStatement::returning` with `Query::returning` and `Returning::columns`.
#[verifier::external_body]
pub(crate) fn insert_returning(s: InsertStatement, columns: Vec<&'static str>) -> (r:
    InsertStatement)
    requires
        !insert_parts(s).other,
    ensures
        insert_parts(r) == (InsertParts {
            returning: Some(names_as_text(columns@)),
            ..insert_parts(s)
        }),
{
    let mut s = s;
    s.returning(Query::returning().columns(columns));
    s
}

/// `SqlxBinder::build_sqlx` of an insert: its values are bound in the order of
/// the columns.
#[verifier::external_body]
pub(crate) fn insert_build(s: InsertStatement) -> (r: (String, SqlxValues))
    requires
        !insert_parts(s).other,
        forall|i: int|
            0 <= i < insert_parts(s).row.len() ==> (#[trigger] insert_parts(s).row[i]).is_bound(),
    ensures
        r.0@ == insert_sql(
            insert_parts(s).table,
            insert_parts(s).columns,
            insert_parts(s).on_conflict,
            insert_parts(s).returning,
        ),
        bound_values(r.1) == all_binds(insert_parts(s).row),
{
    s.build_sqlx(PostgresQueryBuilder)
}

/// `Query::select` with `SelectStatement::columns` and `from`.
#[verifier::external_body]
pub(crate) fn select_from(table: &'static str, columns: Vec<&'static str>) -> (s: SelectStatement)
    ensures
        select_parts(s) == (SelectParts {
            columns: names_as_text(columns@),
            table: table@,
            filters: Seq::<SqlExpr>::empty(),
            orders: Seq::<(Seq<char>, bool)>::empty(),
            other: false,
        }),
{
    let mut s = Query::select();
    s.columns(columns).from(table);
    s
}

/// `SelectStatement::and_where`.
#[verifier::external_body]
pub(crate) fn select_and_where(s: SelectStatement, filter: Expr) -> (r: SelectStatement)
    requires
        !select_parts(s).other,
        expr_parts(filter).is_filter(),
    ensures
        select_parts(r) == (SelectParts {
            filters: select_parts(s).filters.push(expr_parts(filter)),
            ..select_parts(s)
        }),
{
    let mut s = s;
    s.and_where(filter);
    s
}

/// `SelectStatement::order_by` with `Order::Asc`.
#[verifier::external_body]
pub(crate) fn select_ascending(s: SelectStatement, column: &'static str) -> (r: SelectStatement)
    requires
        !select_parts(s).other,
    ensures
        select_parts(r) == (SelectParts {
            orders: select_parts(s).orders.push((column@, false)),
            ..select_parts(s)
        }),
{
    let mut s = s;
    s.order_by(column, Order::Asc);
    s
}

/// `SelectStatement::order_by` with `Order::Desc`.
#[verifier::external_body]
pub(crate) fn select_descending(s: SelectStatement, column: &'static str) -> (r: SelectStatement)
    requires
        !select_parts(s).other,
    ensures
        select_parts(r) == (SelectParts {
            orders: select_parts(s).orders.push((column@, true)),
            ..select_parts(s)
        }),
{
    let mut s = s;
    s.order_by(column, Order::Desc);
    s
}

/// `SqlxBinder::build_sqlx` of a select: the values of its filters are bound in
/// their order.
#[verifier::external_body]
pub(crate) fn select_build(s: SelectStatement) -> (r: (String, SqlxValues))
    requires
        !select_parts(s).other,
        forall|i: int|
            0 <= i < select_parts(s).filters.len()
                ==> (#[trigger] select_parts(s).filters[i]).is_filter(),
    ensures
        r.0@ == select_sql(
            select_parts(s).columns,
            select_parts(s).table,
            forms(select_parts(s).filters),
            select_parts(s).orders,
        ),
        bound_values(r.1) == all_binds(select_parts(s).filters),
{
    s.build_sqlx(PostgresQueryBuilder)
}

/// `Query::update` with `UpdateStatement::table`.
#[verifier::external_body]
pub(crate) fn update_table(table: &'static str) -> (s: UpdateStatement)
    ensures
        update_parts(s) == (UpdateParts {
            table: table@,
            columns: Seq::<Seq<char>>::empty(),
            values: Seq::<SqlExpr>::empty(),
            filters: Seq::<SqlExpr>::empty(),
            returning: None,
            other: false,
        }),
{
    let mut s = Query::update();
    s.table(table);
    s
}

/// `UpdateStatement::value`.
#[verifier::external_body]
pub(crate) fn update_value(s: UpdateStatement, column: &'static str, value: Expr) -> (r:
    UpdateStatement)
    requires
        !update_parts(s).other,
    ensures
        update_parts(r) == (UpdateParts {
            columns: update_parts(s).columns.push(column@),
            values: update_parts(s).values.push(expr_parts(value)),
            ..update_parts(s)
        }),
{
    let mut s = s;
    s.value(column, value);
    s
}

/// `UpdateStatement::and_where`.
#[verifier::external_body]
pub(crate) fn update_and_where(s: UpdateStatement, filter: Expr) -> (r: UpdateStatement)
    requires
        !update_parts(s).other,
        expr_parts(filter).is_filter(),
    ensures
        update_parts(r) == (UpdateParts {
            filters: update_parts(s).filters.push(expr_parts(filter)),
            ..update_parts(s)
        }),
{
    let mut s = s;
    s.and_where(filter);
    s
}

/// `UpdateStatement::returning` with `Query::returning` and `Returning::columns`.
#[verifier::external_body]
pub(crate) fn update_returning(s: UpdateStatement, columns: Vec<&'static str>) -> (r:
    UpdateStatement)
    requires
        !update_parts(s).other,
    ensures
        update_parts(r) == (UpdateParts {
            returning: Some(names_as_text(columns@)),
            ..update_parts(s)
        }),
{
    let mut s = s;
    s.returning(Query::returning().columns(columns));
    s
}

/// `SqlxBinder::build_sqlx` of an update: the values of its columns are bound
/// first, then those of its filters.
#[verifier::external_body]
pub(crate) fn update_build(s: UpdateStatement) -> (r: (String, SqlxValues))
    requires
        !update_parts(s).other,
        forall|i: int|
            0 <= i < update_parts(s).values.len() ==> (#[trigger] update_parts(
                s,
            ).values[i]).is_bound(),
        forall|i: int|
            0 <= i < update_parts(s).filters.len()
                ==> (#[trigger] update_parts(s).filters[i]).is_filter(),
    ensures
        r.0@ == update_sql(
            update_parts(s).table,
            update_parts(s).columns,
            forms(update_parts(s).filters),
            update_parts(s).returning,
        ),
        bound_values(r.1) == all_binds(update_parts(s).values) + all_binds(
            update_parts(s).filters,
        ),
{
    s.build_sqlx(PostgresQueryBuilder)
}

/// A statement: its text and its bound values.
pub struct SqlStatement {
    pub sql: String,
    pub values: SqlxValues,
}

impl SqlStatement {
    /// Whether it inserts the row into the table.
    pub open spec fn inserts(
        self,
        table: Seq<char>,
        columns: Seq<Seq<char>>,
        row: Seq<SqlDatum>,
        on_conflict: Option<Overwrite>,
        returning: Option<Seq<Seq<char>>>,
    ) -> bool {
        &&& self.sql@ == insert_sql(table, columns, on_conflict, returning)
        &&& bound_values(self.values) == row
    }

    /// Whether it selects the columns of the rows that fit all filters.
    pub open spec fn selects(
        self,
        columns: Seq<Seq<char>>,
        table: Seq<char>,
        filters: Seq<SqlExpr>,
        orders: Seq<(Seq<char>, bool)>,
    ) -> bool {
        &&& self.sql@ == select_sql(columns, table, forms(filters), orders)
        &&& bound_values(self.values) == all_binds(filters)
    }

    /// Whether it sets the columns of the rows that fit all filters.
    pub open spec fn updates(
        self,
        table: Seq<char>,
        columns: Seq<Seq<char>>,
        values: Seq<SqlDatum>,
        filters: Seq<SqlExpr>,
        returning: Option<Seq<Seq<char>>>,
    ) -> bool {
        &&& self.sql@ == update_sql(table, columns, forms(filters), returning)
        &&& bound_values(self.values) == values + all_binds(filters)
    }
}

/// A column, or a table, by its name.
pub trait Column: Sized {
    /// The name.
    spec fn sql_name(self) -> Seq<char>;

    /// The name.
    fn name(&self) -> (n: &'static str)
        ensures
            n@ == self.sql_name(),
    ;
}

/// The names of columns.
pub open spec fn names_of<T: Column>(columns: Seq<T>) -> Seq<Seq<char>> {
    columns.map_values(|c: T| c.sql_name())
}

/// The names of columns.
pub fn names<T: Column>(columns: &[T]) -> (r: Vec<&'static str>)
    ensures
        r@.len() == columns@.len(),
        names_as_text(r@) == names_of(columns@),
{
    let mut r: Vec<&'static str> = Vec::new();
    for i in 0..columns.len()
        invariant
            r@.len() == i,
            forall|j: int| 0 <= j < i ==> (#[trigger] r@[j])@ == columns@[j].sql_name(),
    {
        r.push(columns[i].name());
    }
    assert(names_as_text(r@) =~= names_of(columns@));
    r
}

/// Bound values bind what they are.
pub proof fn lemma_binds_of_values(exprs: Seq<SqlExpr>, data: Seq<SqlDatum>)
    requires
        exprs == data.map_values(|d: SqlDatum| SqlExpr::Bound(d)),
    ensures
        all_binds(exprs) == data,
    decreases exprs.len(),
{
    if exprs.len() > 0 {
        assert(exprs.drop_last() =~= data.drop_last().map_values(|d: SqlDatum| SqlExpr::Bound(d)));
        lemma_binds_of_values(exprs.drop_last(), data.drop_last());
        assert(data =~= data.drop_last() + seq![data.last()]);
    } else {
        assert(data =~= Seq::<SqlDatum>::empty());
    }
}

} // verus!
