//! Builds the schema-introspection query over a database's table-metadata
//! view and decodes its result rows into typed records.
//!
//! The statement selects six fixed columns of the table listing, filters on
//! one schema name and on the base-table kind, and orders by table name
//! ascending. Decoding is positional and fails with a [`row::ColumnDecodeError`]
//! when a column is missing or holds a value of the wrong type.

pub mod fields;
pub mod row;
pub mod semantics;
pub mod statement;
