//! The records handed to callers: file metadata, and the result of a read.

use vstd::prelude::*;
use crate::batch::ColumnField;
use crate::row::{Row, RowModel};
use crate::transpose::row_models;

verus! {

/// What the footer of a file says of it.
#[derive(Clone, Debug, PartialEq, Eq)]
pub struct FileMetadata {
    /// The number of rows in the file.
    pub total_rows: u64,
    /// The name of the compression codec; `None` for a file that is not compressed.
    pub compression_type: Option<String>,
}

/// One column of a result.
#[derive(Clone, Debug, Default, PartialEq, Eq)]
pub struct ReadOrcResultColumn {
    pub name: String,
    pub data_type: String,
}

/// The result of a read: the columns and rows read, or the failure.
///
/// `code` is 0 for a read that succeeded and 1 for one that failed. A failed read holds
/// the failure's description in `message`, and no column, no row, a `total` of 0 and no
/// compression type.
#[derive(Clone, Debug, PartialEq, Eq)]
pub struct ReadOrcResult {
    pub columns: Vec<ReadOrcResultColumn>,
    pub rows: Vec<Row>,
    pub code: i64,
    pub message: String,
    pub total: i64,
    pub compression_type: Option<String>,
}

/// The mathematical model of a result column.
pub struct ColumnModel {
    pub name: Seq<char>,
    pub data_type: Seq<char>,
}

/// The mathematical model of a result.
pub struct ResultModel {
    pub columns: Seq<ColumnModel>,
    pub rows: Seq<RowModel>,
    pub code: int,
    pub message: Seq<char>,
    pub total: int,
    pub compression_type: Option<Seq<char>>,
}

/// The characters of an optional string.
pub open spec fn optional_text(text: Option<String>) -> Option<Seq<char>> {
    match text {
        Some(s) => Some(s@),
        None => None,
    }
}

/// The models of `columns`, in order.
pub open spec fn column_models(columns: Seq<ReadOrcResultColumn>) -> Seq<ColumnModel> {
    Seq::new(
        columns.len(),
        |c: int| ColumnModel { name: columns[c].name@, data_type: columns[c].data_type@ },
    )
}

/// The result columns that stand for `fields`: for each field, in order, its name as it
/// is and the name of its type.
pub open spec fn columns_of(fields: Seq<ColumnField>) -> Seq<ColumnModel> {
    Seq::new(
        fields.len(),
        |c: int| ColumnModel { name: fields[c].name@, data_type: fields[c].data_type@ },
    )
}

impl View for ReadOrcResult {
    type V = ResultModel;

    open spec fn view(&self) -> ResultModel {
        ResultModel {
            columns: column_models(self.columns@),
            rows: row_models(self.rows@),
            code: self.code as int,
            message: self.message@,
            total: self.total as int,
            compression_type: optional_text(self.compression_type),
        }
    }
}

/// The result of a read that failed with the description `message`.
pub open spec fn failure_model(message: Seq<char>) -> ResultModel {
    ResultModel {
        columns: Seq::empty(),
        rows: Seq::empty(),
        code: 1,
        message: message,
        total: 0,
        compression_type: None,
    }
}

/// The result of a read that succeeded.
pub open spec fn success_model(
    columns: Seq<ColumnModel>,
    rows: Seq<RowModel>,
    total: int,
    compression: Seq<char>,
) -> ResultModel {
    ResultModel {
        columns: columns,
        rows: rows,
        code: 0,
        message: Seq::empty(),
        total: total,
        compression_type: Some(compression),
    }
}

/// The name under which a result reports the compression of a file: the codec's name,
/// or `NONE` for a file that is not compressed.
pub open spec fn compression_label(compression: Option<Seq<char>>) -> Seq<char> {
    match compression {
        Some(name) => name,
        None => "NONE"@,
    }
}

/// A count of rows as a result reports it: the count itself where it fits the signed 64
/// bits of `total`, and the count less 2^64 where it does not.
pub open spec fn reported_total(count: int) -> int {
    if count <= i64::MAX {
        count
    } else {
        count - 0x1_0000_0000_0000_0000
    }
}

/// A count of rows as a result reports it.
pub fn total_of(count: u64) -> (total: i64)
    ensures
        total == reported_total(count as int),
{
    if count <= 0x7fff_ffff_ffff_ffff {
        count as i64
    } else {
        let above: u64 = count - 0x8000_0000_0000_0000;
        (above as i64) + i64::MIN
    }
}

impl ReadOrcResult {
    /// The result of a read that failed with the description `message`.
    pub fn failure(message: String) -> (result: ReadOrcResult)
        ensures
            result@ == failure_model(message@),
    {
        let result = ReadOrcResult {
            columns: Vec::new(),
            rows: Vec::new(),
            code: 1,
            message,
            total: 0,
            compression_type: None,
        };
        assert(result@.columns =~= Seq::empty());
        assert(result@.rows =~= Seq::empty());
        result
    }

    /// The result of a read that succeeded with the given columns and rows, of a file
    /// whose compression is `compression`.
    pub fn success(
        columns: Vec<ReadOrcResultColumn>,
        rows: Vec<Row>,
        total: i64,
        compression: Option<String>,
    ) -> (result: ReadOrcResult)
        ensures
            result@ == success_model(
                column_models(columns@),
                row_models(rows@),
                total as int,
                compression_label(optional_text(compression)),
            ),
    {
        let label = match compression {
            Some(name) => name,
            None => "NONE".to_owned(),
        };
        ReadOrcResult {
            columns,
            rows,
            code: 0,
            message: String::new(),
            total,
            compression_type: Some(label),
        }
    }
}

impl Default for ReadOrcResult {
    /// A result without columns and rows, with code 0 and an empty message.
    fn default() -> (result: ReadOrcResult)
        ensures
            result@ == (ResultModel {
                columns: Seq::empty(),
                rows: Seq::empty(),
                code: 0,
                message: Seq::empty(),
                total: 0,
                compression_type: None,
            }),
    {
        let result = ReadOrcResult {
            columns: Vec::new(),
            rows: Vec::new(),
            code: 0,
            message: String::new(),
            total: 0,
            compression_type: None,
        };
        assert(result@.columns =~= Seq::empty());
        assert(result@.rows =~= Seq::empty());
        result
    }
}

/// The result columns that stand for `fields`.
pub fn result_columns(fields: &Vec<ColumnField>) -> (columns: Vec<ReadOrcResultColumn>)
    ensures
        column_models(columns@) == columns_of(fields@),
{
    let mut columns: Vec<ReadOrcResultColumn> = Vec::with_capacity(fields.len());
    let mut c: usize = 0;
    while c < fields.len()
        invariant
            c <= fields@.len(),
            columns@.len() == c,
            forall|k: int|
                0 <= k < c ==> (#[trigger] columns@[k]).name@ == fields@[k].name@ && columns@[k].data_type@
                    == fields@[k].data_type@,
        decreases fields@.len() - c,
    {
        columns.push(
            ReadOrcResultColumn {
                name: fields[c].name.clone(),
                data_type: fields[c].data_type.clone(),
            },
        );
        c = c + 1;
    }
    assert(column_models(columns@) =~= columns_of(fields@));
    columns
}

} // verus!
