//! What holds of the library as a whole: statements that relate several of its
//! functions, each proved from their definitions.

use vstd::prelude::*;
use crate::batch::{field_names, Batch, CellValue, Column, TypeTag};
use crate::csv::{
    document, double_quotes, field_of, lemma_double_quotes_keeps_commas, lemma_row_lines_concat,
};
use crate::export::{
    export_action, export_replay, export_result, export_start, export_step, play, play_one,
    ActionModel, ExportEvent, ExportModel, ExportStage, Played,
};
use crate::format::{cell_text, null_at, sentinel, value_text};
use crate::reader::{
    action_of, initial, read_result, replay, step, ReadAction, ReadEvent, ReadRequest,
    SessionModel, Stage,
};
use crate::result::{
    columns_of, compression_label, failure_model, optional_text, reported_total, success_model,
    ColumnModel, FileMetadata, ReadOrcResult,
};
use crate::row::{distinct_names, lemma_position_of, lookup, position_of, RowModel};
use crate::text::{int_text, is_digit, lemma_digits_of};
use crate::transpose::{lemma_row_prefix_distinct, row_of, rows_of};

verus! {

/// A null cell renders as the sentinel, whatever the logical type of its column.
pub proof fn law_null_renders_as_sentinel(column: Column, tag: TypeTag, row: int)
    requires
        null_at(column, row),
    ensures
        cell_text(column, tag, row) == sentinel(),
        value_text(tag, CellValue::Null) == sentinel(),
{
}

/// The text of an integer is its sign and its digits: every character is a decimal
/// digit, but for a minus sign in front of a negative number. No character groups or
/// separates digits.
pub proof fn law_integer_text_is_plain(i: int)
    ensures
        int_text(i).len() >= 1,
        forall|k: int|
            0 <= k < int_text(i).len() ==> is_digit(#[trigger] int_text(i)[k]) || (k == 0 && i < 0
                && int_text(i)[k] == '-'),
        !int_text(i).contains(','),
        !int_text(i).contains('.'),
        !int_text(i).contains(' '),
        !int_text(i).contains('_'),
{
    if i < 0 {
        lemma_digits_of((-i) as nat);
    } else {
        lemma_digits_of(i as nat);
    }
}

/// The rows of a batch of `R` rows and `C` fields are `R`, each of `C` entries, one
/// under each field name in field order, and each field name finds the text of the
/// row's cell in its column.
pub proof fn law_transposed_shape(batch: Batch, r: int, c: int)
    requires
        batch.wf(),
        0 <= r < batch.spec_row_count(),
        0 <= c < batch.spec_fields().len(),
    ensures
        rows_of(batch).len() == batch.spec_row_count(),
        rows_of(batch)[r].len() == batch.spec_fields().len(),
        distinct_names(rows_of(batch)[r]),
        rows_of(batch)[r][c].0 == batch.spec_fields()[c].name@,
        lookup(rows_of(batch)[r], batch.spec_fields()[c].name@) == Some(
            cell_text(batch.spec_columns()[c], batch.spec_fields()[c].logical_type, r),
        ),
{
    let fields = batch.spec_fields();
    let columns = batch.spec_columns();
    let row = rows_of(batch)[r];
    assert(row == row_of(fields, columns, r));
    lemma_row_prefix_distinct(fields, columns, r, fields.len() as int);
    lemma_position_of(row, fields[c].name@);
    let at = position_of(row, fields[c].name@);
    assert(row[c].0 == fields[c].name@);
    if at < c {
        assert(row[at].0 != row[c].0);
    }
    if at > c {
        assert(row[c].0 != fields[c].name@);
    }
}

/// Escaping doubles each quote and changes nothing else.
pub proof fn law_quotes_are_doubled(a: Seq<char>, b: Seq<char>, c: char)
    ensures
        double_quotes(a + b) == double_quotes(a) + double_quotes(b),
        double_quotes(seq!['"']) == seq!['"', '"'],
        c != '"' ==> double_quotes(seq![c]) == seq![c],
    decreases b.len(),
{
    reveal_with_fuel(double_quotes, 2);
    assert(seq!['"'].drop_last() =~= Seq::<char>::empty());
    assert(seq![c].drop_last() =~= Seq::<char>::empty());
    assert(double_quotes(seq!['"']) =~= seq!['"', '"']);
    if c != '"' {
        assert(double_quotes(seq![c]) =~= seq![c]);
    }
    if b.len() == 0 {
        assert(a + b =~= a);
        assert(double_quotes(a) + double_quotes(b) =~= double_quotes(a));
    } else {
        law_quotes_are_doubled(a, b.drop_last(), c);
        assert((a + b).drop_last() =~= a + b.drop_last());
        assert((a + b).last() == b.last());
        assert(double_quotes(a + b) =~= double_quotes(a) + double_quotes(b));
    }
}

/// A field is its value with the quotes doubled; it stands between quotes if and only
/// if the value holds a comma.
pub proof fn law_field_is_quoted_for_commas(value: Seq<char>)
    ensures
        value.contains(',') ==> field_of(value) == seq!['"'] + double_quotes(value) + seq!['"'],
        !value.contains(',') ==> field_of(value) == double_quotes(value),
{
    lemma_double_quotes_keeps_commas(value);
}

/// The events of the batches `batches`, in order.
pub open spec fn batch_events(batches: Seq<Batch>) -> Seq<ReadEvent> {
    Seq::new(batches.len(), |i: int| ReadEvent::Batch(batches[i]))
}

/// What a decoder answers to a read of a file that it decodes without failure: the
/// file is open, its metadata is `metadata`, the reader is made, and the batches are
/// `batches`.
pub open spec fn answers(metadata: FileMetadata, batches: Seq<Batch>) -> Seq<ReadEvent> {
    seq![ReadEvent::Opened, ReadEvent::Metadata(metadata), ReadEvent::ReaderReady] + batch_events(
        batches,
    )
}

/// The rows of all of `batches`, in order.
pub open spec fn all_rows(batches: Seq<Batch>) -> Seq<RowModel>
    decreases batches.len(),
{
    if batches.len() == 0 {
        Seq::empty()
    } else {
        all_rows(batches.drop_last()) + rows_of(batches.last())
    }
}

/// The number of rows of all of `batches`.
pub open spec fn row_count_of(batches: Seq<Batch>) -> nat
    decreases batches.len(),
{
    if batches.len() == 0 {
        0
    } else {
        row_count_of(batches.drop_last()) + batches.last().spec_row_count()
    }
}

/// The columns that a read takes from `batches`: those of the first batch, or none
/// where there is no batch.
pub open spec fn first_columns(batches: Seq<Batch>) -> Seq<ColumnModel> {
    if batches.len() == 0 {
        Seq::empty()
    } else {
        columns_of(batches[0].spec_fields())
    }
}

/// The session of a read of the whole file after the decoder's `answers`.
proof fn lemma_whole_file_session(metadata: FileMetadata, batches: Seq<Batch>)
    ensures
        replay(initial(ReadRequest::WholeFile), answers(metadata, batches)) == (SessionModel {
            request: ReadRequest::WholeFile,
            stage: Stage::Reading,
            total_rows: metadata.total_rows,
            compression: optional_text(metadata.compression_type),
            skipped: 0,
            captured: batches.len() > 0,
            columns: first_columns(batches),
            rows: all_rows(batches),
            failure: None,
        }),
        all_rows(batches).len() == row_count_of(batches),
    decreases batches.len(),
{
    let start = initial(ReadRequest::WholeFile);
    let events = answers(metadata, batches);
    if batches.len() == 0 {
        lemma_opening(ReadRequest::WholeFile, metadata);
        assert(batch_events(batches) =~= Seq::<ReadEvent>::empty());
        assert(events =~= answers(metadata, Seq::empty()));
    } else {
        lemma_whole_file_session(metadata, batches.drop_last());
        assert(events.drop_last() =~= answers(metadata, batches.drop_last()));
        assert(events.last() == ReadEvent::Batch(batches.last()));
        if batches.len() > 1 {
            assert(batches.drop_last()[0] == batches[0]);
        }
    }
}

/// The session after the decoder opened the file, read its metadata and made the
/// reader.
proof fn lemma_opening(request: ReadRequest, metadata: FileMetadata)
    ensures
        replay(initial(request), answers(metadata, Seq::empty())) == (SessionModel {
            stage: Stage::Reading,
            total_rows: metadata.total_rows,
            compression: optional_text(metadata.compression_type),
            ..initial(request)
        }),
{
    let events = answers(metadata, Seq::empty());
    let three = seq![ReadEvent::Opened, ReadEvent::Metadata(metadata), ReadEvent::ReaderReady];
    assert(batch_events(Seq::empty()) =~= Seq::<ReadEvent>::empty());
    assert(events =~= three);
    let two = seq![ReadEvent::Opened, ReadEvent::Metadata(metadata)];
    let one = seq![ReadEvent::Opened];
    assert(three.drop_last() =~= two);
    assert(two.drop_last() =~= one);
    assert(one.drop_last() =~= Seq::<ReadEvent>::empty());
    reveal_with_fuel(replay, 4);
}

/// The session of a read of a page after the decoder's `answers`.
proof fn lemma_page_session(
    metadata: FileMetadata,
    batches: Seq<Batch>,
    page_size: usize,
    page_number: usize,
)
    requires
        page_number >= 1,
    ensures
        batches.len() < page_number ==> replay(
            initial(ReadRequest::Page { page_size, page_number }),
            answers(metadata, batches),
        ) == (SessionModel {
            stage: Stage::Reading,
            total_rows: metadata.total_rows,
            compression: optional_text(metadata.compression_type),
            skipped: batches.len(),
            ..initial(ReadRequest::Page { page_size, page_number })
        }),
        batches.len() >= page_number ==> replay(
            initial(ReadRequest::Page { page_size, page_number }),
            answers(metadata, batches),
        ) == (SessionModel {
            stage: Stage::Finished,
            total_rows: metadata.total_rows,
            compression: optional_text(metadata.compression_type),
            skipped: (page_number - 1) as nat,
            captured: true,
            columns: columns_of(batches[page_number - 1].spec_fields()),
            rows: rows_of(batches[page_number - 1]),
            ..initial(ReadRequest::Page { page_size, page_number })
        }),
    decreases batches.len(),
{
    let request = ReadRequest::Page { page_size, page_number };
    let events = answers(metadata, batches);
    if batches.len() == 0 {
        lemma_opening(request, metadata);
        assert(batches =~= Seq::<Batch>::empty());
    } else {
        lemma_page_session(metadata, batches.drop_last(), page_size, page_number);
        assert(events.drop_last() =~= answers(metadata, batches.drop_last()));
        assert(events.last() == ReadEvent::Batch(batches.last()));
        if batches.len() > page_number {
            assert(batches.drop_last()[page_number - 1] == batches[page_number - 1]);
        }
    }
}

/// A read of page `n` of a file that decodes into at least `n` batches gives the rows
/// of the `n`-th batch under that batch's columns; so the first page gives the rows of
/// the first batch. Its total is the number of rows that the metadata gives.
pub proof fn law_page_is_a_batch(
    metadata: FileMetadata,
    batches: Seq<Batch>,
    page_size: usize,
    page_number: usize,
)
    requires
        page_size >= 1,
        1 <= page_number <= batches.len(),
    ensures
        read_result(ReadRequest::Page { page_size, page_number }, answers(metadata, batches))
            == success_model(
            columns_of(batches[page_number - 1].spec_fields()),
            rows_of(batches[page_number - 1]),
            reported_total(metadata.total_rows as int),
            compression_label(optional_text(metadata.compression_type)),
        ),
{
    lemma_page_session(metadata, batches, page_size, page_number);
}

/// A read of a page beyond the last batch succeeds with no row, and with the number of
/// rows that the metadata gives as its total.
pub proof fn law_page_beyond_the_last_is_empty(
    metadata: FileMetadata,
    batches: Seq<Batch>,
    page_size: usize,
    page_number: usize,
)
    requires
        page_size >= 1,
        page_number > batches.len(),
    ensures
        read_result(ReadRequest::Page { page_size, page_number }, answers(metadata, batches))
            == success_model(
            Seq::empty(),
            Seq::empty(),
            reported_total(metadata.total_rows as int),
            compression_label(optional_text(metadata.compression_type)),
        ),
{
    lemma_page_session(metadata, batches, page_size, page_number);
}

/// A read of the whole file gives the rows of every batch, in order, under the columns
/// of the first batch. Its total is the number of these rows.
pub proof fn law_whole_file_is_every_batch(metadata: FileMetadata, batches: Seq<Batch>)
    ensures
        read_result(ReadRequest::WholeFile, answers(metadata, batches)) == success_model(
            first_columns(batches),
            all_rows(batches),
            reported_total(row_count_of(batches) as int),
            compression_label(optional_text(metadata.compression_type)),
        ),
{
    lemma_whole_file_session(metadata, batches);
}

/// The totals agree: for a file whose batches hold as many rows as its metadata gives,
/// the total of a read of the whole file is the total of a read of any page, and both
/// are the number that the metadata gives. The batches of the two reads may differ, as
/// their sizes do.
pub proof fn law_totals_agree(
    metadata: FileMetadata,
    batches: Seq<Batch>,
    page_batches: Seq<Batch>,
    page_size: usize,
    page_number: usize,
)
    requires
        row_count_of(batches) == metadata.total_rows,
        page_size >= 1,
        page_number >= 1,
    ensures
        read_result(ReadRequest::WholeFile, answers(metadata, batches)).total == reported_total(
            metadata.total_rows as int,
        ),
        read_result(
            ReadRequest::Page { page_size, page_number },
            answers(metadata, page_batches),
        ).total == reported_total(metadata.total_rows as int),
        read_result(ReadRequest::WholeFile, answers(metadata, batches)).code == 0,
        read_result(
            ReadRequest::Page { page_size, page_number },
            answers(metadata, page_batches),
        ).code == 0,
{
    lemma_whole_file_session(metadata, batches);
    lemma_page_session(metadata, page_batches, page_size, page_number);
}

/// Reading is repeatable: two reads that the decoder answers alike give the same
/// result.
pub proof fn law_reads_repeat(
    request: ReadRequest,
    events: Seq<ReadEvent>,
    first: ReadOrcResult,
    second: ReadOrcResult,
)
    requires
        first@ == read_result(request, events),
        second@ == read_result(request, events),
    ensures
        first@ == second@,
{
}

/// A finished read stays as it is, whatever events follow.
proof fn lemma_finished_stays(s: SessionModel, events: Seq<ReadEvent>)
    requires
        s.stage == Stage::Finished,
    ensures
        replay(s, events) == s,
    decreases events.len(),
{
    if events.len() > 0 {
        lemma_finished_stays(s, events.drop_last());
    }
}

/// Events in a row are replayed one part after the other.
proof fn lemma_replay_in_parts(s: SessionModel, first: Seq<ReadEvent>, rest: Seq<ReadEvent>)
    ensures
        replay(s, first + rest) == replay(replay(s, first), rest),
    decreases rest.len(),
{
    if rest.len() == 0 {
        assert(first + rest =~= first);
    } else {
        lemma_replay_in_parts(s, first, rest.drop_last());
        assert((first + rest).drop_last() =~= first + rest.drop_last());
        assert((first + rest).last() == rest.last());
    }
}

/// The first failure decides: a read whose decoder reports a failure before the read is
/// finished gives the failure's description and nothing else, whatever came before and
/// whatever follows.
pub proof fn law_first_failure_decides(
    request: ReadRequest,
    before: Seq<ReadEvent>,
    description: String,
    after: Seq<ReadEvent>,
)
    requires
        replay(initial(request), before).stage != Stage::Finished,
    ensures
        read_result(request, before + seq![ReadEvent::Failed(description)] + after)
            == failure_model(description@),
{
    let start = initial(request);
    let failure = seq![ReadEvent::Failed(description)];
    lemma_replay_in_parts(start, before + failure, after);
    lemma_replay_in_parts(start, before, failure);
    assert(failure.drop_last() =~= Seq::<ReadEvent>::empty());
    reveal_with_fuel(replay, 2);
    let failed_state = step(replay(start, before), ReadEvent::Failed(description));
    assert(replay(replay(start, before), failure) == failed_state);
    lemma_finished_stays(failed_state, after);
}

/// A read of a page has its batches cut to the size of the page: when it asks for the
/// reader to be made, the batch size that it asks for is the page size.
pub proof fn law_batches_have_the_size_of_the_page(
    events: Seq<ReadEvent>,
    page_size: usize,
    page_number: usize,
)
    ensures
        action_of(replay(initial(ReadRequest::Page { page_size, page_number }), events))
            is BuildReader ==> action_of(
            replay(initial(ReadRequest::Page { page_size, page_number }), events),
        ) == (ReadAction::BuildReader { batch_size: Some(page_size) }),
{
    lemma_request_stays(ReadRequest::Page { page_size, page_number }, events);
}

/// A session keeps its request.
proof fn lemma_request_stays(request: ReadRequest, events: Seq<ReadEvent>)
    ensures
        replay(initial(request), events).request == request,
    decreases events.len(),
{
    if events.len() > 0 {
        lemma_request_stays(request, events.drop_last());
    }
}

/// The events of the batches `batches` in an export, in order.
pub open spec fn export_batch_events(batches: Seq<Batch>) -> Seq<ExportEvent> {
    Seq::new(batches.len(), |i: int| ExportEvent::Batch(batches[i]))
}

/// What a decoder answers to an export of a file that it decodes without failure.
pub open spec fn export_answers(batches: Seq<Batch>) -> Seq<ExportEvent> {
    seq![ExportEvent::Opened, ExportEvent::ReaderReady] + export_batch_events(batches)
}

/// The text of an export of `batches`: nothing where there is no batch; else the header
/// of the first batch's field names, once, and under these names the lines of the rows
/// of every batch.
pub open spec fn exported_text(batches: Seq<Batch>) -> Seq<char> {
    if batches.len() == 0 {
        Seq::empty()
    } else {
        document(field_names(batches[0].spec_fields()), all_rows(batches))
    }
}

/// The export in memory after the decoder's `export_answers`.
proof fn lemma_export_played(batches: Seq<Batch>)
    ensures
        play(export_answers(batches)) == (Played {
            state: ExportModel {
                stage: ExportStage::Reading,
                header_sent: batches.len() > 0,
                columns: if batches.len() > 0 {
                    field_names(batches[0].spec_fields())
                } else {
                    Seq::empty()
                },
                failure: None,
            },
            text: exported_text(batches),
        }),
    decreases batches.len(),
{
    let events = export_answers(batches);
    if batches.len() == 0 {
        let two = seq![ExportEvent::Opened, ExportEvent::ReaderReady];
        let one = seq![ExportEvent::Opened];
        assert(export_batch_events(batches) =~= Seq::<ExportEvent>::empty());
        assert(events =~= two);
        assert(two.drop_last() =~= one);
        assert(one.drop_last() =~= Seq::<ExportEvent>::empty());
        reveal_with_fuel(play, 3);
    } else {
        let earlier = batches.drop_last();
        lemma_export_played(earlier);
        assert(events.drop_last() =~= export_answers(earlier));
        assert(events.last() == ExportEvent::Batch(batches.last()));
        let before = play(export_answers(earlier));
        let after = play_one(before, ExportEvent::Batch(batches.last()));
        if earlier.len() == 0 {
            assert(all_rows(earlier) =~= Seq::<RowModel>::empty());
            assert(all_rows(batches) =~= rows_of(batches.last()));
            assert(batches.last() == batches[0]);
            assert(after.text =~= exported_text(batches));
        } else {
            assert(earlier[0] == batches[0]);
            let names = field_names(batches[0].spec_fields());
            lemma_row_lines_concat(names, all_rows(earlier), rows_of(batches.last()));
            assert(after.text =~= exported_text(batches));
        }
    }
}

/// An export writes the header once and the rows of every batch: the text of an export
/// of a file that decodes without failure is the header of the first batch's field
/// names and, under these names, the lines of the rows of all batches in order.
pub proof fn law_export_holds_every_batch(batches: Seq<Batch>)
    ensures
        export_result(export_answers(batches)) == Ok::<Seq<char>, Seq<char>>(
            exported_text(batches),
        ),
{
    lemma_export_played(batches);
}

/// How far a stage lies in the course of an export. Reading and writing take turns and
/// lie equally far.
pub open spec fn progress(stage: ExportStage) -> int {
    match stage {
        ExportStage::AwaitingFile => 0,
        ExportStage::AwaitingReader => 1,
        ExportStage::AwaitingTarget => 2,
        ExportStage::Reading => 3,
        ExportStage::Writing => 3,
        ExportStage::Flushing => 4,
        ExportStage::Finished => 5,
    }
}

/// The state in which an export takes the event at position `at` of `events`.
pub open spec fn state_before(events: Seq<ExportEvent>, at: int) -> ExportModel {
    export_replay(export_start(), events.take(at))
}

/// The action that an export asks for after the event at position `at` of `events`.
pub open spec fn action_at(events: Seq<ExportEvent>, at: int) -> ActionModel {
    export_action(state_before(events, at), events[at])
}

/// An export never goes back, and a header once sent stays sent.
proof fn lemma_export_goes_forward(events: Seq<ExportEvent>, earlier: int, later: int)
    requires
        0 <= earlier <= later <= events.len(),
    ensures
        progress(state_before(events, earlier).stage) <= progress(
            state_before(events, later).stage,
        ),
        state_before(events, earlier).header_sent ==> state_before(events, later).header_sent,
    decreases later - earlier,
{
    if earlier < later {
        lemma_export_goes_forward(events, earlier, later - 1);
        assert(events.take(later).drop_last() =~= events.take(later - 1));
        assert(events.take(later).last() == events[later - 1]);
    }
}

/// The state after an event is the state before the next.
proof fn lemma_state_after(events: Seq<ExportEvent>, at: int)
    requires
        0 <= at < events.len(),
    ensures
        state_before(events, at + 1) == export_step(state_before(events, at), events[at]),
{
    assert(events.take(at + 1).drop_last() =~= events.take(at));
    assert(events.take(at + 1).last() == events[at]);
}

/// Whatever the events, an export asks once at most for its target to be created.
pub proof fn law_target_is_created_once(events: Seq<ExportEvent>, first: int, second: int)
    requires
        0 <= first < second < events.len(),
    ensures
        !(action_at(events, first) is CreateTarget && action_at(events, second) is CreateTarget),
{
    lemma_state_after(events, first);
    lemma_state_after(events, second);
    lemma_export_goes_forward(events, first + 1, second);
}

/// Whatever the events, an export hands out the header once at most: of two texts that
/// it gives to write, the second is written when the header was sent already, and is
/// made of rows only.
pub proof fn law_header_is_written_once(events: Seq<ExportEvent>, first: int, second: int)
    requires
        0 <= first < second < events.len(),
        action_at(events, first) is Write,
        action_at(events, second) is Write,
    ensures
        state_before(events, second).header_sent,
{
    lemma_state_after(events, first);
    lemma_export_goes_forward(events, first + 1, second);
}

} // verus!
