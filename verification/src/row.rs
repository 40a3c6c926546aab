//! Positional decoding of one result row of the table-listing query into a
//! typed record.
//!
//! A row is a sequence of plain column values in the order the statement
//! selects them. Decoding walks the six expected positions in order and fails
//! on the first column that is missing or holds a value of the wrong type.

use vstd::prelude::*;

verus! {

/// One column value of a result row, as the execution layer hands it over.
#[derive(Debug, Clone)]
pub enum ColumnValue {
    Text(String),
    Int(i64),
    Null,
}

/// The text held by a column value; meaningful only when it is `Text`.
pub open spec fn text_value(v: ColumnValue) -> Seq<char> {
    v->Text_0@
}

/// The integer held by a column value; meaningful only when it is `Int`.
pub open spec fn int_value(v: ColumnValue) -> int {
    v->Int_0 as int
}

/// Why a row could not be decoded: the offending position, and whether the
/// column was absent or held a value of the wrong type.
#[derive(Debug, Clone, Copy, PartialEq, Eq, Structural)]
pub enum ColumnDecodeError {
    MissingColumn { index: usize },
    TypeMismatch { index: usize },
}

/// The decoded listing of one base table.
#[derive(Debug, Clone)]
pub struct TableQueryResult {
    pub table_name: String,
    pub engine: String,
    pub auto_increment: i32,
    pub table_collation: String,
    pub table_comment: String,
    pub create_options: String,
}

/// Whether the cell at position `i` is present and holds the type decoding
/// expects there: an integer that fits the counter field at the
/// auto-increment position, text everywhere else.
pub open spec fn cell_well_typed(row: Seq<ColumnValue>, i: int) -> bool {
    &&& 0 <= i < row.len()
    &&& if i == 2 {
            row[i] matches ColumnValue::Int(v) && i32::MIN <= v <= i32::MAX
        } else {
            row[i] is Text
        }
}

/// Whether all six expected positions of the row can be decoded.
pub open spec fn row_decodable(row: Seq<ColumnValue>) -> bool {
    forall|i: int| 0 <= i < 6 ==> cell_well_typed(row, i)
}

/// The first of the six expected positions that cannot be decoded, or 6 when
/// the whole row decodes.
pub open spec fn first_defect(row: Seq<ColumnValue>) -> int {
    if !cell_well_typed(row, 0) {
        0
    } else if !cell_well_typed(row, 1) {
        1
    } else if !cell_well_typed(row, 2) {
        2
    } else if !cell_well_typed(row, 3) {
        3
    } else if !cell_well_typed(row, 4) {
        4
    } else if !cell_well_typed(row, 5) {
        5
    } else {
        6
    }
}

/// The error decoding reports for a row that is not decodable: the first
/// defective position, as a missing column when the row ends before it and as
/// a type mismatch otherwise.
pub open spec fn decode_error(row: Seq<ColumnValue>) -> ColumnDecodeError {
    let i = first_defect(row);
    if i >= row.len() {
        ColumnDecodeError::MissingColumn { index: i as usize }
    } else {
        ColumnDecodeError::TypeMismatch { index: i as usize }
    }
}

/// Reads the text cell at position `i`, reporting the position when the cell
/// is absent or not text.
fn text_cell(row: &Vec<ColumnValue>, i: usize) -> (r: Result<String, ColumnDecodeError>)
    ensures
        cell_well_typed(row@, i as int) && i != 2 ==> (r matches Ok(s) && s@ == text_value(
            row@[i as int],
        )),
        i as int >= row@.len() ==> r == Err::<String, ColumnDecodeError>(
            ColumnDecodeError::MissingColumn { index: i },
        ),
        (i as int) < row@.len() && !(row@[i as int] is Text) ==> r == Err::<
            String,
            ColumnDecodeError,
        >(ColumnDecodeError::TypeMismatch { index: i }),
{
    if i >= row.len() {
        return Err(ColumnDecodeError::MissingColumn { index: i });
    }
    match &row[i] {
        ColumnValue::Text(s) => Ok(s.clone()),
        _ => Err(ColumnDecodeError::TypeMismatch { index: i }),
    }
}

/// Reads the integer cell at position `i`, reporting the position when the
/// cell is absent, not an integer, or out of the counter's range.
fn int_cell(row: &Vec<ColumnValue>, i: usize) -> (r: Result<i32, ColumnDecodeError>)
    ensures
        i == 2 && cell_well_typed(row@, i as int) ==> (r matches Ok(v) && v as int == int_value(
            row@[i as int],
        )),
        i as int >= row@.len() ==> r == Err::<i32, ColumnDecodeError>(
            ColumnDecodeError::MissingColumn { index: i },
        ),
        (i as int) < row@.len() && !(row@[i as int] matches ColumnValue::Int(v) && i32::MIN <= v
            <= i32::MAX) ==> r == Err::<i32, ColumnDecodeError>(
            ColumnDecodeError::TypeMismatch { index: i },
        ),
{
    if i >= row.len() {
        return Err(ColumnDecodeError::MissingColumn { index: i });
    }
    match &row[i] {
        ColumnValue::Int(v) => {
            let v = *v;
            if i32::MIN as i64 <= v && v <= i32::MAX as i64 {
                Ok(v as i32)
            } else {
                Err(ColumnDecodeError::TypeMismatch { index: i })
            }
        },
        _ => Err(ColumnDecodeError::TypeMismatch { index: i }),
    }
}

impl TableQueryResult {
    /// Decodes one result row by position, in the order the statement selects
    /// its columns: table name, engine, auto-increment counter, collation,
    /// comment, creation options. Succeeds exactly on decodable rows, copying
    /// every text field unchanged; otherwise reports the first defective
    /// position.
    pub fn decode(row: &Vec<ColumnValue>) -> (r: Result<TableQueryResult, ColumnDecodeError>)
        ensures
            r is Ok <==> row_decodable(row@),
            row_decodable(row@) ==> (r matches Ok(rec) && {
                &&& rec.table_name@ == text_value(row@[0])
                &&& rec.engine@ == text_value(row@[1])
                &&& rec.auto_increment as int == int_value(row@[2])
                &&& rec.table_collation@ == text_value(row@[3])
                &&& rec.table_comment@ == text_value(row@[4])
                &&& rec.create_options@ == text_value(row@[5])
            }),
            !row_decodable(row@) ==> r == Err::<TableQueryResult, ColumnDecodeError>(
                decode_error(row@),
            ),
    {
        let table_name = match text_cell(row, 0) {
            Ok(s) => s,
            Err(e) => return Err(e),
        };
        let engine = match text_cell(row, 1) {
            Ok(s) => s,
            Err(e) => return Err(e),
        };
        let auto_increment = match int_cell(row, 2) {
            Ok(v) => v,
            Err(e) => return Err(e),
        };
        let table_collation = match text_cell(row, 3) {
            Ok(s) => s,
            Err(e) => return Err(e),
        };
        let table_comment = match text_cell(row, 4) {
            Ok(s) => s,
            Err(e) => return Err(e),
        };
        let create_options = match text_cell(row, 5) {
            Ok(s) => s,
            Err(e) => return Err(e),
        };
        Ok(
            TableQueryResult {
                table_name,
                engine,
                auto_increment,
                table_collation,
                table_comment,
                create_options,
            },
        )
    }
}

} // verus!
