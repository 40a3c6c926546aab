//! Identifiers of the table-metadata view: its columns, the table kinds it
//! distinguishes, and the names of the view itself.

use vstd::prelude::*;

verus! {

/// The columns of the table-metadata view.
#[derive(Debug, Clone, Copy, PartialEq, Eq, Structural)]
pub enum TablesFields {
    TableCatalog,
    TableSchema,
    TableName,
    TableType,
    Engine,
    Version,
    RowFormat,
    TableRows,
    AvgRowLength,
    DataLength,
    MaxDataLength,
    IndexLength,
    DataFree,
    AutoIncrement,
    CreateTime,
    UpdateTime,
    CheckTime,
    TableCollation,
    Checksum,
    CreateOptions,
    TableComment,
}

impl TablesFields {
    /// The identifier under which the metadata store knows this column.
    pub open spec fn iden_name(self) -> Seq<char> {
        match self {
            TablesFields::TableCatalog => "table_catalog"@,
            TablesFields::TableSchema => "table_schema"@,
            TablesFields::TableName => "table_name"@,
            TablesFields::TableType => "table_type"@,
            TablesFields::Engine => "engine"@,
            TablesFields::Version => "version"@,
            TablesFields::RowFormat => "row_format"@,
            TablesFields::TableRows => "table_rows"@,
            TablesFields::AvgRowLength => "avg_row_length"@,
            TablesFields::DataLength => "data_length"@,
            TablesFields::MaxDataLength => "max_data_length"@,
            TablesFields::IndexLength => "index_length"@,
            TablesFields::DataFree => "data_free"@,
            TablesFields::AutoIncrement => "auto_increment"@,
            TablesFields::CreateTime => "create_time"@,
            TablesFields::UpdateTime => "update_time"@,
            TablesFields::CheckTime => "check_time"@,
            TablesFields::TableCollation => "table_collation"@,
            TablesFields::Checksum => "checksum"@,
            TablesFields::CreateOptions => "create_options"@,
            TablesFields::TableComment => "table_comment"@,
        }
    }

    /// The column identifier as a string slice.
    pub fn as_str(&self) -> (r: &'static str)
        ensures
            r@ == self.iden_name(),
    {
        match self {
            TablesFields::TableCatalog => "table_catalog",
            TablesFields::TableSchema => "table_schema",
            TablesFields::TableName => "table_name",
            TablesFields::TableType => "table_type",
            TablesFields::Engine => "engine",
            TablesFields::Version => "version",
            TablesFields::RowFormat => "row_format",
            TablesFields::TableRows => "table_rows",
            TablesFields::AvgRowLength => "avg_row_length",
            TablesFields::DataLength => "data_length",
            TablesFields::MaxDataLength => "max_data_length",
            TablesFields::IndexLength => "index_length",
            TablesFields::DataFree => "data_free",
            TablesFields::AutoIncrement => "auto_increment",
            TablesFields::CreateTime => "create_time",
            TablesFields::UpdateTime => "update_time",
            TablesFields::CheckTime => "check_time",
            TablesFields::TableCollation => "table_collation",
            TablesFields::Checksum => "checksum",
            TablesFields::CreateOptions => "create_options",
            TablesFields::TableComment => "table_comment",
        }
    }
}

/// The kinds of table the metadata view lists; only base tables are queried.
#[derive(Debug, Clone, Copy, PartialEq, Eq, Structural)]
pub enum TableType {
    BaseTable,
    View,
    SystemView,
}

impl TableType {
    /// The literal under which the metadata store records this kind.
    pub open spec fn iden_name(self) -> Seq<char> {
        match self {
            TableType::BaseTable => "BASE TABLE"@,
            TableType::View => "VIEW"@,
            TableType::SystemView => "SYSTEM VIEW"@,
        }
    }

    /// The kind literal as a string slice.
    pub fn as_str(&self) -> (r: &'static str)
        ensures
            r@ == self.iden_name(),
    {
        match self {
            TableType::BaseTable => "BASE TABLE",
            TableType::View => "VIEW",
            TableType::SystemView => "SYSTEM VIEW",
        }
    }
}

/// The names under which the metadata view itself is reached.
#[derive(Debug, Clone, Copy, PartialEq, Eq, Structural)]
pub enum InformationSchema {
    Schema,
    Tables,
}

impl InformationSchema {
    /// The identifier of this part of the metadata store.
    pub open spec fn iden_name(self) -> Seq<char> {
        match self {
            InformationSchema::Schema => "information_schema"@,
            InformationSchema::Tables => "tables"@,
        }
    }

    /// The identifier as a string slice.
    pub fn as_str(&self) -> (r: &'static str)
        ensures
            r@ == self.iden_name(),
    {
        match self {
            InformationSchema::Schema => "information_schema",
            InformationSchema::Tables => "tables",
        }
    }
}

} // verus!
