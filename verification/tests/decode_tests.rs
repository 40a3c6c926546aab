use schema_query::row::{ColumnDecodeError, ColumnValue, TableQueryResult};

fn full_row() -> Vec<ColumnValue> {
    vec![
        ColumnValue::Text("orders".to_string()),
        ColumnValue::Text("InnoDB".to_string()),
        ColumnValue::Int(42),
        ColumnValue::Text("utf8mb4_general_ci".to_string()),
        ColumnValue::Text("note".to_string()),
        ColumnValue::Text("".to_string()),
    ]
}

#[test]
fn decodes_a_well_typed_row_without_transformation() {
    let record = TableQueryResult::decode(&full_row()).expect("a decodable row");
    assert_eq!(record.table_name, "orders");
    assert_eq!(record.engine, "InnoDB");
    assert_eq!(record.auto_increment, 42);
    assert_eq!(record.table_collation, "utf8mb4_general_ci");
    assert_eq!(record.table_comment, "note");
    assert_eq!(record.create_options, "");
}

#[test]
fn rejects_text_in_the_auto_increment_column() {
    let mut row = full_row();
    row[2] = ColumnValue::Text("not a number".to_string());
    let err = TableQueryResult::decode(&row).unwrap_err();
    assert_eq!(err, ColumnDecodeError::TypeMismatch { index: 2 });
}

#[test]
fn rejects_a_null_auto_increment_column() {
    let mut row = full_row();
    row[2] = ColumnValue::Null;
    let err = TableQueryResult::decode(&row).unwrap_err();
    assert_eq!(err, ColumnDecodeError::TypeMismatch { index: 2 });
}

#[test]
fn rejects_an_auto_increment_value_out_of_counter_range() {
    let mut row = full_row();
    row[2] = ColumnValue::Int(i64::MAX);
    let err = TableQueryResult::decode(&row).unwrap_err();
    assert_eq!(err, ColumnDecodeError::TypeMismatch { index: 2 });
}

#[test]
fn rejects_an_integer_in_a_text_column() {
    let mut row = full_row();
    row[0] = ColumnValue::Int(7);
    let err = TableQueryResult::decode(&row).unwrap_err();
    assert_eq!(err, ColumnDecodeError::TypeMismatch { index: 0 });
}

#[test]
fn rejects_a_null_text_column() {
    let mut row = full_row();
    row[4] = ColumnValue::Null;
    let err = TableQueryResult::decode(&row).unwrap_err();
    assert_eq!(err, ColumnDecodeError::TypeMismatch { index: 4 });
}

#[test]
fn reports_the_first_missing_column_of_a_short_row() {
    let mut row = full_row();
    row.truncate(5);
    let err = TableQueryResult::decode(&row).unwrap_err();
    assert_eq!(err, ColumnDecodeError::MissingColumn { index: 5 });
}

#[test]
fn reports_the_first_column_of_an_empty_row() {
    let row: Vec<ColumnValue> = Vec::new();
    let err = TableQueryResult::decode(&row).unwrap_err();
    assert_eq!(err, ColumnDecodeError::MissingColumn { index: 0 });
}

#[test]
fn reports_a_type_mismatch_before_a_later_missing_column() {
    let row = vec![
        ColumnValue::Text("orders".to_string()),
        ColumnValue::Int(1),
    ];
    let err = TableQueryResult::decode(&row).unwrap_err();
    assert_eq!(err, ColumnDecodeError::TypeMismatch { index: 1 });
}

#[test]
fn accepts_extra_trailing_columns() {
    let mut row = full_row();
    row.push(ColumnValue::Null);
    let record = TableQueryResult::decode(&row).expect("the six expected columns decode");
    assert_eq!(record.table_name, "orders");
}

#[test]
fn accepts_the_counter_range_bounds() {
    let mut row = full_row();
    row[2] = ColumnValue::Int(i32::MAX as i64);
    let record = TableQueryResult::decode(&row).unwrap();
    assert_eq!(record.auto_increment, i32::MAX);
    row[2] = ColumnValue::Int(i32::MIN as i64);
    let record = TableQueryResult::decode(&row).unwrap();
    assert_eq!(record.auto_increment, i32::MIN);
}
