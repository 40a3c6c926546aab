use schema_query::fields::{InformationSchema, TableType, TablesFields};
use schema_query::statement::SchemaQuery;
use sea_query::MysqlQueryBuilder;

#[test]
fn builds_the_full_table_listing_statement() {
    let query = SchemaQuery;
    let stmt = query.query_tables("my_db");
    assert_eq!(
        stmt.to_string(MysqlQueryBuilder),
        "SELECT `table_name`, `engine`, `auto_increment`, `table_collation`, `table_comment`, `create_options` \
         FROM `information_schema`.`tables` \
         WHERE `table_schema` = 'my_db' AND `table_type` = 'BASE TABLE' \
         ORDER BY `table_name` ASC"
    );
}

#[test]
fn where_clause_has_exactly_two_predicates() {
    let stmt = SchemaQuery.query_tables("sales");
    let sql = stmt.to_string(MysqlQueryBuilder);
    let where_part = sql.split(" WHERE ").nth(1).expect("a WHERE clause");
    let order_free = where_part.split(" ORDER BY ").next().unwrap();
    let predicates: Vec<&str> = order_free.split(" AND ").collect();
    assert_eq!(predicates.len(), 2);
    assert_eq!(predicates[0], "`table_schema` = 'sales'");
    assert_eq!(predicates[1], "`table_type` = 'BASE TABLE'");
}

#[test]
fn selects_six_columns_in_fixed_order() {
    let stmt = SchemaQuery.query_tables("any_schema");
    let sql = stmt.to_string(MysqlQueryBuilder);
    let selected = sql
        .strip_prefix("SELECT ")
        .unwrap()
        .split(" FROM ")
        .next()
        .unwrap();
    let columns: Vec<&str> = selected.split(", ").collect();
    assert_eq!(
        columns,
        vec![
            "`table_name`",
            "`engine`",
            "`auto_increment`",
            "`table_collation`",
            "`table_comment`",
            "`create_options`",
        ]
    );
}

#[test]
fn orders_by_table_name_ascending() {
    let stmt = SchemaQuery.query_tables("any_schema");
    let sql = stmt.to_string(MysqlQueryBuilder);
    assert!(sql.ends_with(" ORDER BY `table_name` ASC"));
}

#[test]
fn two_schemas_differ_only_in_the_embedded_name() {
    let sql_a = SchemaQuery.query_tables("alpha").to_string(MysqlQueryBuilder);
    let sql_b = SchemaQuery.query_tables("beta").to_string(MysqlQueryBuilder);
    assert_eq!(sql_a.replace("'alpha'", "'beta'"), sql_b);
    assert_ne!(sql_a, sql_b);
}

#[test]
fn field_identifiers_render_as_the_store_knows_them() {
    assert_eq!(TablesFields::TableName.as_str(), "table_name");
    assert_eq!(TablesFields::TableSchema.as_str(), "table_schema");
    assert_eq!(TablesFields::TableType.as_str(), "table_type");
    assert_eq!(TablesFields::Engine.as_str(), "engine");
    assert_eq!(TablesFields::AutoIncrement.as_str(), "auto_increment");
    assert_eq!(TablesFields::TableCollation.as_str(), "table_collation");
    assert_eq!(TablesFields::TableComment.as_str(), "table_comment");
    assert_eq!(TablesFields::CreateOptions.as_str(), "create_options");
    assert_eq!(TableType::BaseTable.as_str(), "BASE TABLE");
    assert_eq!(TableType::View.as_str(), "VIEW");
    assert_eq!(TableType::SystemView.as_str(), "SYSTEM VIEW");
    assert_eq!(InformationSchema::Schema.as_str(), "information_schema");
    assert_eq!(InformationSchema::Tables.as_str(), "tables");
}
