//! Comma-separated text of rows: a header line of column names, then one line per row.
//!
//! A field is escaped for quotes and commas only: a line break inside a value is
//! written as it is.

use vstd::prelude::*;
use crate::row::{lookup, Row, RowModel};
use crate::text::{push_char, push_text};
use crate::transpose::row_models;

verus! {

/// `s` with each double quote written twice.
pub open spec fn double_quotes(s: Seq<char>) -> Seq<char>
    decreases s.len(),
{
    if s.len() == 0 {
        Seq::empty()
    } else if s.last() == '"' {
        double_quotes(s.drop_last()).push('"').push('"')
    } else {
        double_quotes(s.drop_last()).push(s.last())
    }
}

/// The field that stands for `value` in a line: the value with its quotes doubled, and
/// that between quotes where it holds a comma.
pub open spec fn field_of(value: Seq<char>) -> Seq<char> {
    let escaped = double_quotes(value);
    if escaped.contains(',') {
        seq!['"'] + escaped + seq!['"']
    } else {
        escaped
    }
}

/// `parts` joined by commas.
pub open spec fn joined(parts: Seq<Seq<char>>) -> Seq<char>
    decreases parts.len(),
{
    if parts.len() == 0 {
        Seq::empty()
    } else if parts.len() == 1 {
        parts[0]
    } else {
        joined(parts.drop_last()) + seq![','] + parts.last()
    }
}

/// The header line: the column names as they are, joined by commas, and a line feed.
pub open spec fn header_line(columns: Seq<Seq<char>>) -> Seq<char> {
    joined(columns).push('\n')
}

/// The value of `row` under `column`; the empty text where the row has no such entry.
pub open spec fn value_under(row: RowModel, column: Seq<char>) -> Seq<char> {
    match lookup(row, column) {
        Some(value) => value,
        None => Seq::empty(),
    }
}

/// The fields of the line of `row`: for each of `columns`, in order, the field of the
/// row's value under it.
pub open spec fn fields_of(columns: Seq<Seq<char>>, row: RowModel) -> Seq<Seq<char>> {
    Seq::new(columns.len(), |c: int| field_of(value_under(row, columns[c])))
}

/// The line of `row`: its fields joined by commas, and a line feed.
pub open spec fn row_line(columns: Seq<Seq<char>>, row: RowModel) -> Seq<char> {
    joined(fields_of(columns, row)).push('\n')
}

/// The lines of `rows`, one after the other.
pub open spec fn row_lines(columns: Seq<Seq<char>>, rows: Seq<RowModel>) -> Seq<char>
    decreases rows.len(),
{
    if rows.len() == 0 {
        Seq::empty()
    } else {
        row_lines(columns, rows.drop_last()) + row_line(columns, rows.last())
    }
}

/// The whole text: the header line, then the line of each row.
pub open spec fn document(columns: Seq<Seq<char>>, rows: Seq<RowModel>) -> Seq<char> {
    header_line(columns) + row_lines(columns, rows)
}

/// The views of `names`, in order.
pub open spec fn name_views(names: Seq<String>) -> Seq<Seq<char>> {
    Seq::new(names.len(), |c: int| names[c]@)
}

/// Doubling the quotes of a text neither adds nor removes a comma.
pub proof fn lemma_double_quotes_keeps_commas(s: Seq<char>)
    ensures
        double_quotes(s).contains(',') <==> s.contains(','),
    decreases s.len(),
{
    if s.len() == 0 {
    } else {
        let head = s.drop_last();
        let escaped_head = double_quotes(head);
        let escaped = double_quotes(s);
        lemma_double_quotes_keeps_commas(head);
        if escaped.contains(',') {
            let i = choose|i: int| 0 <= i < escaped.len() && escaped[i] == ',';
            if i < escaped_head.len() {
                assert(escaped_head[i] == ',');
                let j = choose|j: int| 0 <= j < head.len() && head[j] == ',';
                assert(s[j] == ',');
            } else {
                assert(s[s.len() - 1] == ',');
            }
        }
        if s.contains(',') {
            let j = choose|j: int| 0 <= j < s.len() && s[j] == ',';
            if j < head.len() {
                assert(head[j] == ',');
                let i = choose|i: int| 0 <= i < escaped_head.len() && escaped_head[i] == ',';
                assert(escaped[i] == ',');
            } else {
                assert(escaped[escaped.len() - 1] == ',');
            }
        }
    }
}

/// The lines of rows that follow one another are the lines of the first rows, then the
/// lines of the rest.
pub proof fn lemma_row_lines_concat(
    columns: Seq<Seq<char>>,
    first: Seq<RowModel>,
    rest: Seq<RowModel>,
)
    ensures
        row_lines(columns, first + rest) == row_lines(columns, first) + row_lines(columns, rest),
    decreases rest.len(),
{
    if rest.len() == 0 {
        assert(first + rest =~= first);
        assert(row_lines(columns, first) + row_lines(columns, rest) =~= row_lines(columns, first));
    } else {
        lemma_row_lines_concat(columns, first, rest.drop_last());
        assert((first + rest).drop_last() =~= first + rest.drop_last());
        assert((first + rest).last() == rest.last());
        assert(row_lines(columns, first + rest) =~= row_lines(columns, first) + row_lines(
            columns,
            rest,
        ));
    }
}

/// Writes the field that stands for `value`.
pub fn csv_field(value: &str) -> (field: String)
    ensures
        field@ == field_of(value@),
{
    let mut escaped = String::new();
    let mut has_comma = false;
    for c in it: value.chars()
        invariant
            it.seq() == value@,
            escaped@ == double_quotes(value@.take(it.index())),
            has_comma <==> value@.take(it.index()).contains(','),
    {
        let ghost before = value@.take(it.index());
        let ghost after = value@.take(it.index() + 1);
        assert(after.drop_last() =~= before);
        assert(after.last() == c);
        proof {
            if before.contains(',') {
                let j = choose|j: int| 0 <= j < before.len() && before[j] == ',';
                assert(after[j] == ',');
            }
            if after.contains(',') && c != ',' {
                let j = choose|j: int| 0 <= j < after.len() && after[j] == ',';
                assert(before[j] == ',');
            }
            if c == ',' {
                assert(after[after.len() - 1] == ',');
            }
        }
        if c == '"' {
            push_char(&mut escaped, '"');
            push_char(&mut escaped, '"');
        } else {
            push_char(&mut escaped, c);
        }
        if c == ',' {
            has_comma = true;
        }
    }
    proof {
        assert(value@.take(value@.len() as int) =~= value@);
        lemma_double_quotes_keeps_commas(value@);
    }
    if has_comma {
        let mut field = String::new();
        push_char(&mut field, '"');
        push_text(&mut field, escaped.as_str());
        push_char(&mut field, '"');
        assert(field@ =~= seq!['"'] + escaped@ + seq!['"']);
        field
    } else {
        escaped
    }
}

/// Appends the header line of `columns` to `out`.
pub fn push_header(out: &mut String, columns: &Vec<String>)
    ensures
        final(out)@ == old(out)@ + header_line(name_views(columns@)),
{
    let ghost names = name_views(columns@);
    let mut c: usize = 0;
    assert(names.take(0) =~= Seq::<Seq<char>>::empty());
    while c < columns.len()
        invariant
            c <= columns@.len(),
            names == name_views(columns@),
            out@ == old(out)@ + joined(names.take(c as int)),
        decreases columns@.len() - c,
    {
        proof {
            assert(names.take(c as int + 1).drop_last() =~= names.take(c as int));
            assert(names.take(c as int + 1).last() == columns@[c as int]@);
        }
        if c > 0 {
            push_char(out, ',');
        }
        push_text(out, columns[c].as_str());
        c = c + 1;
        assert(out@ =~= old(out)@ + joined(names.take(c as int)));
    }
    assert(names.take(columns@.len() as int) =~= names);
    push_char(out, '\n');
    assert(out@ =~= old(out)@ + header_line(names));
}

/// Appends the line of `row` under `columns` to `out`.
pub fn push_row(out: &mut String, columns: &Vec<String>, row: &Row)
    ensures
        final(out)@ == old(out)@ + row_line(name_views(columns@), row@),
{
    let ghost fields = fields_of(name_views(columns@), row@);
    let mut c: usize = 0;
    assert(fields.take(0) =~= Seq::<Seq<char>>::empty());
    while c < columns.len()
        invariant
            c <= columns@.len(),
            fields == fields_of(name_views(columns@), row@),
            out@ == old(out)@ + joined(fields.take(c as int)),
        decreases columns@.len() - c,
    {
        proof {
            assert(fields.take(c as int + 1).drop_last() =~= fields.take(c as int));
            assert(fields.take(c as int + 1).last() == field_of(
                value_under(row@, columns@[c as int]@),
            ));
        }
        if c > 0 {
            push_char(out, ',');
        }
        match row.get(&columns[c]) {
            Some(value) => {
                let field = csv_field(value.as_str());
                push_text(out, field.as_str());
            },
            None => {
                assert(field_of(Seq::<char>::empty()) =~= Seq::<char>::empty());
            },
        }
        c = c + 1;
        assert(out@ =~= old(out)@ + joined(fields.take(c as int)));
    }
    assert(fields.take(columns@.len() as int) =~= fields);
    push_char(out, '\n');
    assert(out@ =~= old(out)@ + row_line(name_views(columns@), row@));
}

/// Appends the lines of `rows` under `columns` to `out`.
pub fn push_rows(out: &mut String, columns: &Vec<String>, rows: &Vec<Row>)
    ensures
        final(out)@ == old(out)@ + row_lines(name_views(columns@), row_models(rows@)),
{
    let ghost names = name_views(columns@);
    let ghost models = row_models(rows@);
    let mut r: usize = 0;
    assert(models.take(0) =~= Seq::<RowModel>::empty());
    while r < rows.len()
        invariant
            r <= rows@.len(),
            names == name_views(columns@),
            models == row_models(rows@),
            out@ == old(out)@ + row_lines(names, models.take(r as int)),
        decreases rows@.len() - r,
    {
        proof {
            assert(models.take(r as int + 1).drop_last() =~= models.take(r as int));
            assert(models.take(r as int + 1).last() == rows@[r as int]@);
        }
        push_row(out, columns, &rows[r]);
        r = r + 1;
        assert(out@ =~= old(out)@ + row_lines(names, models.take(r as int)));
    }
    assert(models.take(rows@.len() as int) =~= models);
}

/// Writes `rows` as comma-separated text under the header of `columns`.
pub fn csv_document(columns: &Vec<String>, rows: &Vec<Row>) -> (text: String)
    ensures
        text@ == document(name_views(columns@), row_models(rows@)),
{
    let mut out = String::new();
    push_header(&mut out, columns);
    push_rows(&mut out, columns, rows);
    assert(out@ =~= document(name_views(columns@), row_models(rows@)));
    out
}

} // verus!
