//! Transposition: the rows of a column-major batch.

use vstd::prelude::*;
use crate::batch::{all_distinct, field_names, Batch, Column, ColumnField};
use crate::format::{cell_text, format_cell};
use crate::row::{distinct_names, has_name, Row, RowModel};

verus! {

/// The first `width` entries of row `r` of a batch with the given fields and column
/// buffers: for each of the first `width` fields, in field order, the field's name with
/// the text of the row's cell in the field's column.
pub open spec fn row_prefix(
    fields: Seq<ColumnField>,
    columns: Seq<Column>,
    r: int,
    width: int,
) -> RowModel {
    Seq::new(
        width as nat,
        |c: int| (fields[c].name@, cell_text(columns[c], fields[c].logical_type, r)),
    )
}

/// Row `r` of a batch with the given fields and column buffers: one entry for each
/// field.
pub open spec fn row_of(fields: Seq<ColumnField>, columns: Seq<Column>, r: int) -> RowModel {
    row_prefix(fields, columns, r, fields.len() as int)
}

/// The rows of `batch`, in row order.
pub open spec fn rows_of(batch: Batch) -> Seq<RowModel> {
    Seq::new(
        batch.spec_row_count(),
        |r: int| row_of(batch.spec_fields(), batch.spec_columns(), r),
    )
}

/// The models of `rows`, in order.
pub open spec fn row_models(rows: Seq<Row>) -> Seq<RowModel> {
    Seq::new(rows.len(), |r: int| rows[r]@)
}

/// A row prefix of a batch whose field names are distinct has no name twice, and lacks
/// the names of the fields that follow.
pub proof fn lemma_row_prefix_distinct(
    fields: Seq<ColumnField>,
    columns: Seq<Column>,
    r: int,
    width: int,
)
    requires
        0 <= width <= fields.len(),
        all_distinct(field_names(fields)),
    ensures
        distinct_names(row_prefix(fields, columns, r, width)),
        forall|c: int|
            width <= c < fields.len() ==> !has_name(
                row_prefix(fields, columns, r, width),
                #[trigger] fields[c].name@,
            ),
{
    let prefix = row_prefix(fields, columns, r, width);
    let names = field_names(fields);
    assert forall|i: int, j: int| 0 <= i < j < prefix.len() implies (#[trigger] prefix[i]).0 != (
    #[trigger] prefix[j]).0 by {
        assert(names[i] != names[j]);
    }
    assert forall|c: int| width <= c < fields.len() implies !has_name(
        prefix,
        #[trigger] fields[c].name@,
    ) by {
        if has_name(prefix, fields[c].name@) {
            let i = choose|i: int| 0 <= i < prefix.len() && (#[trigger] prefix[i]).0 == fields[c].name@;
            assert(names[i] != names[c]);
        }
    }
}

/// Transposes `batch`: its rows, in row order, each with one entry for each field, in
/// field order.
pub fn transpose(batch: &Batch) -> (rows: Vec<Row>)
    ensures
        row_models(rows@) == rows_of(*batch),
        rows@.len() == batch.spec_row_count(),
        forall|r: int| 0 <= r < rows@.len() ==> (#[trigger] rows@[r]).wf(),
{
    let fields = batch.fields();
    let columns = batch.columns();
    let row_count = batch.row_count();
    let mut rows: Vec<Row> = Vec::with_capacity(row_count);
    while rows.len() < row_count
        invariant
            rows@.len() <= row_count,
            forall|r: int| 0 <= r < rows@.len() ==> (#[trigger] rows@[r])@ == RowModel::empty(),
        decreases row_count - rows@.len(),
    {
        rows.push(Row::new());
    }
    let mut c: usize = 0;
    while c < fields.len()
        invariant
            c <= fields@.len(),
            columns@.len() == fields@.len(),
            rows@.len() == row_count,
            all_distinct(field_names(fields@)),
            forall|r: int|
                0 <= r < rows@.len() ==> (#[trigger] rows@[r])@ == row_prefix(
                    fields@,
                    columns@,
                    r,
                    c as int,
                ),
        decreases fields@.len() - c,
    {
        let mut r: usize = 0;
        while r < row_count
            invariant
                c < fields@.len(),
                columns@.len() == fields@.len(),
                r <= row_count,
                rows@.len() == row_count,
                all_distinct(field_names(fields@)),
                forall|k: int|
                    0 <= k < r ==> (#[trigger] rows@[k])@ == row_prefix(
                        fields@,
                        columns@,
                        k,
                        c as int + 1,
                    ),
                forall|k: int|
                    r <= k < rows@.len() ==> (#[trigger] rows@[k])@ == row_prefix(
                        fields@,
                        columns@,
                        k,
                        c as int,
                    ),
            decreases row_count - r,
        {
            let value = format_cell(&columns[c], fields[c].logical_type, r);
            proof {
                lemma_row_prefix_distinct(fields@, columns@, r as int, c as int);
                assert(row_prefix(fields@, columns@, r as int, c as int).push(
                    (fields@[c as int].name@, value@),
                ) =~= row_prefix(fields@, columns@, r as int, c as int + 1));
            }
            rows[r].push_new(fields[c].name.clone(), value);
            r = r + 1;
        }
        c = c + 1;
    }
    proof {
        assert forall|r: int| 0 <= r < rows@.len() implies (#[trigger] rows@[r]).wf() by {
            lemma_row_prefix_distinct(fields@, columns@, r, fields@.len() as int);
        }
        assert(row_models(rows@) =~= rows_of(*batch));
    }
    rows
}

} // verus!
