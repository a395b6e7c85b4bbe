//! The column-major data model: logical type tags, cell values, column buffers and
//! batches.

use vstd::prelude::*;

verus! {

/// The unit in which a temporal column counts.
#[derive(Clone, Copy, Debug, PartialEq, Eq, Structural)]
pub enum TimeUnit {
    Second,
    Millisecond,
    Microsecond,
    Nanosecond,
}

/// The integer type of the keys of a dictionary-encoded column, or of the run ends of a
/// run-end-encoded one.
#[derive(Clone, Copy, Debug, PartialEq, Eq, Structural)]
pub enum KeyWidth {
    Int8,
    Int16,
    Int32,
    Int64,
    UInt8,
    UInt16,
    UInt32,
    UInt64,
    /// Any other key type; columns keyed so are not resolved.
    Other,
}

/// The logical type of a column. The set is closed: a type that has no tag of its own
/// is `Unknown`.
#[derive(Clone, Copy, Debug, PartialEq, Eq, Structural)]
pub enum TypeTag {
    Null,
    Boolean,
    Int8,
    Int16,
    Int32,
    Int64,
    UInt8,
    UInt16,
    UInt32,
    UInt64,
    Float16,
    Float32,
    Float64,
    /// A count of `TimeUnit`s since the epoch, 1970-01-01T00:00:00 UTC.
    Timestamp(TimeUnit),
    /// A count of days since the epoch, held in 32 bits.
    Date32,
    /// A count of days since the epoch, held in 64 bits.
    Date64,
    Time32(TimeUnit),
    Time64(TimeUnit),
    Duration(TimeUnit),
    IntervalYearMonth,
    IntervalDayTime,
    IntervalMonthDayNano,
    Binary,
    FixedSizeBinary,
    LargeBinary,
    BinaryView,
    Utf8,
    LargeUtf8,
    Utf8View,
    List,
    LargeList,
    ListView,
    LargeListView,
    FixedSizeList,
    /// A map from keys to values.
    Mapping,
    Union,
    Struct,
    Dictionary(KeyWidth),
    RunEndEncoded(KeyWidth),
    /// A 128-bit decimal with its precision and scale.
    Decimal128(u8, i8),
    /// A 256-bit decimal with its precision and scale.
    Decimal256(u8, i8),
    Unknown,
}

/// What one cell holds, as plain values.
#[derive(Clone, Debug, PartialEq, Eq)]
pub enum CellValue {
    /// The cell's validity bit is unset.
    Null,
    Boolean(bool),
    /// A signed integer of up to 64 bits: an integer column's value, or the count of a
    /// temporal column.
    Signed(i64),
    /// An unsigned integer of up to 64 bits.
    Unsigned(u64),
    /// Text: a string column's value, or the rendering that the decoder made of a value
    /// that is not held here as such (a floating-point number, a nested value).
    Text(String),
    /// The bytes of a binary column's value.
    Bytes(Vec<u8>),
    /// A day-time interval.
    DayTime { days: i32, milliseconds: i32 },
    /// A month-day-nanosecond interval.
    MonthDayNano { months: i32, days: i32, nanoseconds: i64 },
    /// The unscaled value of a 128-bit decimal.
    Wide(i128),
    /// The unscaled value of a 256-bit decimal, in two's complement: its low 128 bits
    /// and its high 128 bits.
    Wider { low: u128, high: i128 },
}

/// A column buffer: the cells of one column of a batch.
#[derive(Clone, Debug, PartialEq, Eq)]
pub enum Column {
    /// One value per row.
    Plain { cells: Vec<CellValue> },
    /// One key per row; a key is a position in `values`, whose logical type is
    /// `value_type`.
    Dictionary { keys: Vec<CellValue>, values: Vec<CellValue>, value_type: TypeTag },
    /// Runs of equal values: run `j` ends before position `run_ends[j]` and holds
    /// `values[j]`, whose logical type is `value_type`. The column has `rows` rows, and
    /// its row `r` lies at position `offset + r`.
    RunEnd {
        run_ends: Vec<u64>,
        values: Vec<CellValue>,
        value_type: TypeTag,
        offset: usize,
        rows: usize,
    },
}

impl Column {
    /// The number of rows of the column.
    pub open spec fn row_total(self) -> nat {
        match self {
            Column::Plain { cells } => cells@.len(),
            Column::Dictionary { keys, .. } => keys@.len(),
            Column::RunEnd { rows, .. } => rows as nat,
        }
    }

    /// The number of rows of the column.
    pub fn len(&self) -> (n: usize)
        ensures
            n == self.row_total(),
    {
        match self {
            Column::Plain { cells } => cells.len(),
            Column::Dictionary { keys, .. } => keys.len(),
            Column::RunEnd { rows, .. } => *rows,
        }
    }
}

/// One field of a batch's schema. The position of a field among the fields of its batch
/// is its column index.
#[derive(Clone, Debug, PartialEq, Eq)]
pub struct ColumnField {
    /// The column's name.
    pub name: String,
    /// The name under which the decoder reports the column's type.
    pub data_type: String,
    /// The column's logical type.
    pub logical_type: TypeTag,
}

/// The names of `fields`, in order.
pub open spec fn field_names(fields: Seq<ColumnField>) -> Seq<Seq<char>> {
    Seq::new(fields.len(), |c: int| fields[c].name@)
}

/// Whether no two of `names` are equal.
pub open spec fn all_distinct(names: Seq<Seq<char>>) -> bool {
    forall|i: int, j: int| 0 <= i < j < names.len() ==> names[i] != names[j]
}

/// Whether fields, column buffers and row count make a batch: one buffer per field,
/// each of `row_count` rows, and no field name twice.
pub open spec fn well_formed(fields: Seq<ColumnField>, columns: Seq<Column>, row_count: nat) -> bool {
    &&& columns.len() == fields.len()
    &&& forall|c: int| 0 <= c < columns.len() ==> (#[trigger] columns[c]).row_total() == row_count
    &&& all_distinct(field_names(fields))
}

/// A decoded slice of a file in column-major form: a schema, and for each of its fields
/// a column buffer of `row_count` rows.
#[derive(Debug)]
pub struct Batch {
    fields: Vec<ColumnField>,
    columns: Vec<Column>,
    row_count: usize,
}

impl Batch {
    #[verifier::type_invariant]
    spec fn inv(self) -> bool {
        well_formed(self.fields@, self.columns@, self.row_count as nat)
    }

    /// The fields of the batch's schema, in column order.
    pub closed spec fn spec_fields(self) -> Seq<ColumnField> {
        self.fields@
    }

    /// The column buffers, in column order.
    pub closed spec fn spec_columns(self) -> Seq<Column> {
        self.columns@
    }

    /// The number of rows.
    pub closed spec fn spec_row_count(self) -> nat {
        self.row_count as nat
    }

    /// Whether the batch is well formed. Every batch that `new` returns is.
    pub open spec fn wf(self) -> bool {
        well_formed(self.spec_fields(), self.spec_columns(), self.spec_row_count())
    }

    /// Makes a batch of `fields`, `columns` and `row_count`, or returns `None` where
    /// they are not well formed.
    pub fn new(fields: Vec<ColumnField>, columns: Vec<Column>, row_count: usize) -> (batch: Option<
        Batch,
    >)
        ensures
            batch is Some <==> well_formed(fields@, columns@, row_count as nat),
            batch matches Some(b) ==> {
                &&& b.spec_fields() == fields@
                &&& b.spec_columns() == columns@
                &&& b.spec_row_count() == row_count
                &&& b.wf()
            },
    {
        if columns.len() != fields.len() {
            return None;
        }
        let mut c: usize = 0;
        while c < columns.len()
            invariant
                c <= columns@.len(),
                forall|k: int| 0 <= k < c ==> (#[trigger] columns@[k]).row_total() == row_count,
            decreases columns@.len() - c,
        {
            if columns[c].len() != row_count {
                return None;
            }
            c = c + 1;
        }
        if !names_distinct(&fields) {
            return None;
        }
        Some(Batch { fields, columns, row_count })
    }

    /// The fields of the batch's schema, in column order.
    pub fn fields(&self) -> (fields: &Vec<ColumnField>)
        ensures
            fields@ == self.spec_fields(),
            self.wf(),
    {
        proof {
            use_type_invariant(self);
        }
        &self.fields
    }

    /// The column buffers, in column order.
    pub fn columns(&self) -> (columns: &Vec<Column>)
        ensures
            columns@ == self.spec_columns(),
            self.wf(),
    {
        proof {
            use_type_invariant(self);
        }
        &self.columns
    }

    /// The number of rows.
    pub fn row_count(&self) -> (n: usize)
        ensures
            n == self.spec_row_count(),
            self.wf(),
    {
        proof {
            use_type_invariant(self);
        }
        self.row_count
    }
}

/// Whether no two of `fields` have the same name.
fn names_distinct(fields: &Vec<ColumnField>) -> (distinct: bool)
    ensures
        distinct == all_distinct(field_names(fields@)),
{
    let mut j: usize = 0;
    while j < fields.len()
        invariant
            j <= fields@.len(),
            forall|a: int, b: int|
                0 <= a < b < j ==> field_names(fields@)[a] != field_names(fields@)[b],
        decreases fields@.len() - j,
    {
        let mut i: usize = 0;
        while i < j
            invariant
                i <= j < fields@.len(),
                forall|a: int| 0 <= a < i ==> field_names(fields@)[a] != field_names(fields@)[j as int],
            decreases j - i,
        {
            if fields[i].name == fields[j].name {
                assert(field_names(fields@)[i as int] == field_names(fields@)[j as int]);
                return false;
            }
            i = i + 1;
        }
        j = j + 1;
    }
    true
}

} // verus!
