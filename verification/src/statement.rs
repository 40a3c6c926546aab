//! Construction of the table-listing statement.
//!
//! The statement itself is a value of the outside query builder, opaque here;
//! what this module proves about it is said over four named projections of
//! its contents: the selected columns, the sources, the equality predicates
//! of its WHERE clause, and its orderings. Each trusted wrapper below states,
//! over those names, what one call of the builder does.

use vstd::prelude::*;
use sea_query::{Alias, Expr, ExprTrait, Order, Query, SelectStatement};
use crate::fields::{InformationSchema, TableType, TablesFields};

verus! {

#[verifier::external_type_specification]
#[verifier::external_body]
pub struct ExSelectStatement(SelectStatement);

/// The identifiers of the columns a statement selects, in order.
pub uninterp spec fn stmt_selected_columns(s: SelectStatement) -> Seq<Seq<char>>;

/// The (schema, table) sources a statement reads from, in order.
pub uninterp spec fn stmt_sources(s: SelectStatement) -> Seq<(Seq<char>, Seq<char>)>;

/// The conjoined equality predicates of a statement's WHERE clause, in
/// order, each as (column identifier, compared text value).
pub uninterp spec fn stmt_equality_conditions(s: SelectStatement) -> Seq<(Seq<char>, Seq<char>)>;

/// The orderings of a statement, in order, each as (column identifier,
/// ascending).
pub uninterp spec fn stmt_orderings(s: SelectStatement) -> Seq<(Seq<char>, bool)>;

/// Relies on sea_query::Query::select: a fresh statement selects no columns,
/// reads from no source, and carries no conditions and no orderings.
#[verifier::external_body]
fn new_select() -> (r: SelectStatement)
    ensures
        stmt_selected_columns(r) == Seq::<Seq<char>>::empty(),
        stmt_sources(r) == Seq::<(Seq<char>, Seq<char>)>::empty(),
        stmt_equality_conditions(r) == Seq::<(Seq<char>, Seq<char>)>::empty(),
        stmt_orderings(r) == Seq::<(Seq<char>, bool)>::empty(),
{
    Query::select()
}

/// Relies on sea_query::SelectStatement::column: appends one unqualified
/// column to the selection and changes nothing else.
#[verifier::external_body]
fn select_column(s: &mut SelectStatement, name: &str)
    ensures
        stmt_selected_columns(*final(s)) == stmt_selected_columns(*old(s)).push(name@),
        stmt_sources(*final(s)) == stmt_sources(*old(s)),
        stmt_equality_conditions(*final(s)) == stmt_equality_conditions(*old(s)),
        stmt_orderings(*final(s)) == stmt_orderings(*old(s)),
{
    s.column(Alias::new(name));
}

/// Relies on sea_query::SelectStatement::from with a (schema, table) pair:
/// appends that one source and changes nothing else.
#[verifier::external_body]
fn from_schema_table(s: &mut SelectStatement, schema: &str, table: &str)
    ensures
        stmt_sources(*final(s)) == stmt_sources(*old(s)).push((schema@, table@)),
        stmt_selected_columns(*final(s)) == stmt_selected_columns(*old(s)),
        stmt_equality_conditions(*final(s)) == stmt_equality_conditions(*old(s)),
        stmt_orderings(*final(s)) == stmt_orderings(*old(s)),
{
    s.from((Alias::new(schema), Alias::new(table)));
}

/// Relies on sea_query::SelectStatement::and_where applied to
/// Expr::col(column).eq(value): conjoins that one equality predicate to the
/// WHERE clause and changes nothing else. The library only ever extends the
/// WHERE clause this way, which keeps the call off the builder's panicking
/// path for mixed condition styles.
#[verifier::external_body]
fn and_where_eq(s: &mut SelectStatement, column: &str, value: &str)
    ensures
        stmt_equality_conditions(*final(s)) == stmt_equality_conditions(*old(s)).push(
            (column@, value@),
        ),
        stmt_selected_columns(*final(s)) == stmt_selected_columns(*old(s)),
        stmt_sources(*final(s)) == stmt_sources(*old(s)),
        stmt_orderings(*final(s)) == stmt_orderings(*old(s)),
{
    s.and_where(ExprTrait::eq(Expr::col(Alias::new(column)), value));
}

/// Relies on sea_query::SelectStatement::order_by with Order::Asc: appends
/// one ascending ordering and changes nothing else.
#[verifier::external_body]
fn order_by_asc(s: &mut SelectStatement, column: &str)
    ensures
        stmt_orderings(*final(s)) == stmt_orderings(*old(s)).push((column@, true)),
        stmt_selected_columns(*final(s)) == stmt_selected_columns(*old(s)),
        stmt_sources(*final(s)) == stmt_sources(*old(s)),
        stmt_equality_conditions(*final(s)) == stmt_equality_conditions(*old(s)),
{
    s.order_by(Alias::new(column), Order::Asc);
}

/// The six columns the table-listing query selects, in the order its rows
/// are decoded; the statement builder and the row decoder both follow this
/// one list.
pub open spec fn selected_fields() -> Seq<TablesFields> {
    seq![
        TablesFields::TableName,
        TablesFields::Engine,
        TablesFields::AutoIncrement,
        TablesFields::TableCollation,
        TablesFields::TableComment,
        TablesFields::CreateOptions,
    ]
}

/// The column identifiers the table-listing query selects, in order.
pub open spec fn tables_query_columns() -> Seq<Seq<char>> {
    selected_fields().map_values(|f: TablesFields| f.iden_name())
}

/// The two equality predicates of the table-listing query for one schema:
/// the schema name, and the base-table kind.
pub open spec fn tables_query_conditions(schema: Seq<char>) -> Seq<(Seq<char>, Seq<char>)> {
    seq![
        (TablesFields::TableSchema.iden_name(), schema),
        (TablesFields::TableType.iden_name(), TableType::BaseTable.iden_name()),
    ]
}

/// The one source of the table-listing query: the metadata store's table
/// listing.
pub open spec fn tables_query_sources() -> Seq<(Seq<char>, Seq<char>)> {
    seq![(InformationSchema::Schema.iden_name(), InformationSchema::Tables.iden_name())]
}

/// The one ordering of the table-listing query: table name, ascending.
pub open spec fn tables_query_orderings() -> Seq<(Seq<char>, bool)> {
    seq![(TablesFields::TableName.iden_name(), true)]
}

/// Entry point for the metadata queries of one schema.
#[derive(Debug, Clone, Copy, PartialEq, Eq, Structural)]
pub struct SchemaQuery;

impl SchemaQuery {
    /// Builds the table-listing statement for one schema: exactly the six
    /// fixed columns in decoding order, read from the metadata store's table
    /// listing, restricted by exactly two predicates — schema name equals the
    /// input, table kind equals the base-table literal — and ordered by table
    /// name ascending.
    pub fn query_tables(&self, schema: &str) -> (r: SelectStatement)
        ensures
            stmt_selected_columns(r) == tables_query_columns(),
            stmt_sources(r) == tables_query_sources(),
            stmt_equality_conditions(r) == tables_query_conditions(schema@),
            stmt_orderings(r) == tables_query_orderings(),
    {
        let mut stmt = new_select();
        select_column(&mut stmt, TablesFields::TableName.as_str());
        select_column(&mut stmt, TablesFields::Engine.as_str());
        select_column(&mut stmt, TablesFields::AutoIncrement.as_str());
        select_column(&mut stmt, TablesFields::TableCollation.as_str());
        select_column(&mut stmt, TablesFields::TableComment.as_str());
        select_column(&mut stmt, TablesFields::CreateOptions.as_str());
        from_schema_table(
            &mut stmt,
            InformationSchema::Schema.as_str(),
            InformationSchema::Tables.as_str(),
        );
        and_where_eq(&mut stmt, TablesFields::TableSchema.as_str(), schema);
        and_where_eq(&mut stmt, TablesFields::TableType.as_str(), TableType::BaseTable.as_str());
        order_by_asc(&mut stmt, TablesFields::TableName.as_str());
        proof {
            assert(stmt_selected_columns(stmt) =~= tables_query_columns());
            assert(stmt_sources(stmt) =~= tables_query_sources());
            assert(stmt_equality_conditions(stmt) =~= tables_query_conditions(schema@));
            assert(stmt_orderings(stmt) =~= tables_query_orderings());
        }
        stmt
    }
}

/// Two builds that differ only in the schema name are structurally identical
/// statements: the selected columns, sources and orderings do not depend on
/// the schema at all, and the WHERE clauses hold the same two predicates but
/// for the embedded schema-name literal.
pub proof fn lemma_build_same_shape(schema_a: Seq<char>, schema_b: Seq<char>)
    ensures
        tables_query_conditions(schema_a).len() == 2,
        tables_query_conditions(schema_b).len() == 2,
        tables_query_conditions(schema_a)[1] == tables_query_conditions(schema_b)[1],
        tables_query_conditions(schema_a)[0].0 == tables_query_conditions(schema_b)[0].0,
        tables_query_conditions(schema_a)[0].1 == schema_a,
        tables_query_conditions(schema_b)[0].1 == schema_b,
{
}

} // verus!
