use orc_view::result::total_of;
use orc_view::{
    read_orc_file, read_orc_file_by_page, Batch, CellValue, Column, ColumnField, FileMetadata,
    ReadAction, ReadEvent, ReadOrcResult, ReadOrcResultColumn, ReadRequest, ReadSession, TypeTag,
};

fn ids(from: i64, count: usize) -> Batch {
    let cells: Vec<CellValue> = (0..count as i64).map(|i| CellValue::Signed(from + i)).collect();
    let names: Vec<CellValue> =
        (0..count as i64).map(|i| CellValue::Text(format!("n{}", from + i))).collect();
    Batch::new(
        vec![
            ColumnField {
                name: "id".to_string(),
                data_type: "Int64".to_string(),
                logical_type: TypeTag::Int64,
            },
            ColumnField {
                name: "name".to_string(),
                data_type: "Utf8".to_string(),
                logical_type: TypeTag::Utf8,
            },
        ],
        vec![Column::Plain { cells }, Column::Plain { cells: names }],
        count,
    )
    .unwrap()
}

fn metadata(total_rows: u64, compression: Option<&str>) -> FileMetadata {
    FileMetadata { total_rows, compression_type: compression.map(|c| c.to_string()) }
}

fn ten_rows_by_four() -> Vec<ReadEvent> {
    vec![
        ReadEvent::Opened,
        ReadEvent::Metadata(metadata(10, Some("Zlib"))),
        ReadEvent::ReaderReady,
        ReadEvent::Batch(ids(1, 4)),
        ReadEvent::Batch(ids(5, 4)),
        ReadEvent::Batch(ids(9, 2)),
        ReadEvent::EndOfData,
    ]
}

fn id_values(result: &ReadOrcResult) -> Vec<String> {
    result.rows.iter().map(|r| r.get(&"id".to_string()).unwrap().clone()).collect()
}

fn assert_failure(result: &ReadOrcResult, message: &str) {
    assert_eq!(result.code, 1);
    assert_eq!(result.message, message);
    assert!(result.rows.is_empty());
    assert!(result.columns.is_empty());
    assert_eq!(result.total, 0);
    assert_eq!(result.compression_type, None);
}

#[test]
fn the_first_page_holds_the_first_rows() {
    let result = read_orc_file_by_page(&ten_rows_by_four(), 4, 1);
    assert_eq!(result.code, 0);
    assert_eq!(result.message, "");
    assert_eq!(id_values(&result), vec!["1", "2", "3", "4"]);
    assert_eq!(result.total, 10);
    assert_eq!(result.compression_type, Some("Zlib".to_string()));
    assert_eq!(
        result.columns,
        vec![
            ReadOrcResultColumn { name: "id".to_string(), data_type: "Int64".to_string() },
            ReadOrcResultColumn { name: "name".to_string(), data_type: "Utf8".to_string() },
        ]
    );
    assert_eq!(result.rows[0].get(&"name".to_string()), Some(&"n1".to_string()));
}

#[test]
fn the_third_page_of_ten_rows_by_four_holds_the_last_two() {
    let result = read_orc_file_by_page(&ten_rows_by_four(), 4, 3);
    assert_eq!(result.code, 0);
    assert_eq!(id_values(&result), vec!["9", "10"]);
    assert_eq!(result.total, 10);
}

#[test]
fn the_second_page_holds_the_second_batch() {
    let result = read_orc_file_by_page(&ten_rows_by_four(), 4, 2);
    assert_eq!(id_values(&result), vec!["5", "6", "7", "8"]);
    assert_eq!(result.total, 10);
}

#[test]
fn a_page_beyond_the_last_is_empty_and_keeps_the_total() {
    let result = read_orc_file_by_page(&ten_rows_by_four(), 4, 4);
    assert_eq!(result.code, 0);
    assert_eq!(result.message, "");
    assert!(result.rows.is_empty());
    assert!(result.columns.is_empty());
    assert_eq!(result.total, 10);
    assert_eq!(result.compression_type, Some("Zlib".to_string()));
    let far = read_orc_file_by_page(&ten_rows_by_four(), 4, usize::MAX);
    assert!(far.rows.is_empty());
    assert_eq!(far.total, 10);
    assert_eq!(far.code, 0);
}

#[test]
fn a_file_with_fewer_rows_than_a_page_gives_them_all_on_the_first_page() {
    let events = vec![
        ReadEvent::Opened,
        ReadEvent::Metadata(metadata(3, None)),
        ReadEvent::ReaderReady,
        ReadEvent::Batch(ids(1, 3)),
        ReadEvent::EndOfData,
    ];
    let result = read_orc_file_by_page(&events, 100, 1);
    assert_eq!(id_values(&result), vec!["1", "2", "3"]);
    assert_eq!(result.total, 3);
}

#[test]
fn a_file_that_is_not_compressed_is_reported_as_none() {
    let events = vec![
        ReadEvent::Opened,
        ReadEvent::Metadata(metadata(0, None)),
        ReadEvent::ReaderReady,
        ReadEvent::EndOfData,
    ];
    let page = read_orc_file_by_page(&events, 5, 1);
    assert_eq!(page.code, 0);
    assert_eq!(page.compression_type, Some("NONE".to_string()));
    assert_eq!(page.total, 0);
    let whole = read_orc_file(&events);
    assert_eq!(whole.code, 0);
    assert_eq!(whole.compression_type, Some("NONE".to_string()));
    assert!(whole.rows.is_empty());
    assert!(whole.columns.is_empty());
    assert_eq!(whole.total, 0);
}

#[test]
fn a_read_of_the_whole_file_holds_every_row() {
    let result = read_orc_file(&ten_rows_by_four());
    assert_eq!(result.code, 0);
    assert_eq!(result.message, "");
    assert_eq!(id_values(&result), vec!["1", "2", "3", "4", "5", "6", "7", "8", "9", "10"]);
    assert_eq!(result.total, 10);
    assert_eq!(result.columns.len(), 2);
    assert_eq!(result.columns[0].name, "id");
    assert_eq!(result.columns[1].data_type, "Utf8");
    assert_eq!(result.compression_type, Some("Zlib".to_string()));
}

#[test]
fn the_totals_of_all_reads_of_a_file_agree() {
    let whole = read_orc_file(&ten_rows_by_four());
    for page_number in 1..=5 {
        let page = read_orc_file_by_page(&ten_rows_by_four(), 4, page_number);
        assert_eq!(page.total, whole.total);
        assert_eq!(page.total, 10);
    }
}

#[test]
fn reading_twice_gives_the_same_result() {
    assert_eq!(read_orc_file(&ten_rows_by_four()), read_orc_file(&ten_rows_by_four()));
    assert_eq!(
        read_orc_file_by_page(&ten_rows_by_four(), 4, 2),
        read_orc_file_by_page(&ten_rows_by_four(), 4, 2)
    );
}

#[test]
fn the_columns_of_a_whole_read_are_those_of_the_first_batch() {
    let other = Batch::new(
        vec![ColumnField {
            name: "other".to_string(),
            data_type: "Boolean".to_string(),
            logical_type: TypeTag::Boolean,
        }],
        vec![Column::Plain { cells: vec![CellValue::Boolean(true)] }],
        1,
    )
    .unwrap();
    let events = vec![
        ReadEvent::Opened,
        ReadEvent::Metadata(metadata(3, None)),
        ReadEvent::ReaderReady,
        ReadEvent::Batch(ids(1, 2)),
        ReadEvent::Batch(other),
    ];
    let result = read_orc_file(&events);
    assert_eq!(result.columns.len(), 2);
    assert_eq!(result.columns[0].name, "id");
    assert_eq!(result.rows.len(), 3);
    assert_eq!(result.rows[2].get(&"other".to_string()), Some(&"true".to_string()));
    assert_eq!(result.total, 3);
}

#[test]
fn a_file_that_cannot_be_opened_fails_the_read() {
    let events = vec![ReadEvent::Failed("No such file or directory (os error 2)".to_string())];
    assert_failure(
        &read_orc_file_by_page(&events, 4, 1),
        "No such file or directory (os error 2)",
    );
    assert_failure(&read_orc_file(&events), "No such file or directory (os error 2)");
}

#[test]
fn metadata_that_cannot_be_read_fails_the_read() {
    let events = vec![ReadEvent::Opened, ReadEvent::Failed("Invalid postscript".to_string())];
    assert_failure(&read_orc_file_by_page(&events, 4, 1), "Invalid postscript");
    assert_failure(&read_orc_file(&events), "Invalid postscript");
}

#[test]
fn a_reader_that_cannot_be_made_fails_the_read() {
    let events = vec![
        ReadEvent::Opened,
        ReadEvent::Metadata(metadata(10, Some("Zstd"))),
        ReadEvent::Failed("unsupported schema".to_string()),
    ];
    assert_failure(&read_orc_file_by_page(&events, 4, 1), "unsupported schema");
    assert_failure(&read_orc_file(&events), "unsupported schema");
}

#[test]
fn a_batch_that_cannot_be_decoded_fails_the_read_and_leaves_nothing() {
    let events = vec![
        ReadEvent::Opened,
        ReadEvent::Metadata(metadata(10, Some("Zlib"))),
        ReadEvent::ReaderReady,
        ReadEvent::Batch(ids(1, 4)),
        ReadEvent::Failed("corrupt stripe".to_string()),
        ReadEvent::Batch(ids(9, 2)),
    ];
    assert_failure(&read_orc_file(&events), "corrupt stripe");
    assert_failure(&read_orc_file_by_page(&events, 4, 2), "corrupt stripe");
    assert_failure(&read_orc_file_by_page(&events, 4, 3), "corrupt stripe");
    let first = read_orc_file_by_page(&events, 4, 1);
    assert_eq!(first.code, 0);
    assert_eq!(id_values(&first), vec!["1", "2", "3", "4"]);
}

#[test]
fn an_event_out_of_order_fails_the_read() {
    let no_metadata = vec![ReadEvent::Opened, ReadEvent::ReaderReady];
    assert_failure(&read_orc_file(&no_metadata), "decoder event out of order");
    let early_batch = vec![ReadEvent::Batch(ids(1, 1))];
    assert_failure(&read_orc_file_by_page(&early_batch, 1, 1), "decoder event out of order");
    let nothing: Vec<ReadEvent> = vec![];
    assert_failure(&read_orc_file(&nothing), "decoder event out of order");
    let twice = vec![ReadEvent::Opened, ReadEvent::Opened];
    assert_failure(&read_orc_file(&twice), "decoder event out of order");
}

#[test]
fn events_after_the_end_change_nothing() {
    let mut events = ten_rows_by_four();
    events.push(ReadEvent::Batch(ids(11, 4)));
    events.push(ReadEvent::Failed("late".to_string()));
    let result = read_orc_file(&events);
    assert_eq!(result.code, 0);
    assert_eq!(result.rows.len(), 10);
    let page = read_orc_file_by_page(&events, 4, 1);
    assert_eq!(page.code, 0);
    assert_eq!(page.rows.len(), 4);
}

#[test]
fn a_session_asks_for_each_step_in_turn() {
    let mut session = ReadSession::new(ReadRequest::Page { page_size: 4, page_number: 2 });
    assert_eq!(session.next_action(), ReadAction::OpenFile);
    assert!(!session.is_finished());
    session.handle(&ReadEvent::Opened);
    assert_eq!(session.next_action(), ReadAction::ReadMetadata);
    session.handle(&ReadEvent::Metadata(metadata(10, None)));
    assert_eq!(session.next_action(), ReadAction::BuildReader { batch_size: Some(4) });
    session.handle(&ReadEvent::ReaderReady);
    assert_eq!(session.next_action(), ReadAction::NextBatch);
    session.handle(&ReadEvent::Batch(ids(1, 4)));
    assert_eq!(session.next_action(), ReadAction::NextBatch);
    session.handle(&ReadEvent::Batch(ids(5, 4)));
    assert_eq!(session.next_action(), ReadAction::Finish);
    assert!(session.is_finished());
    let result = session.into_result().unwrap();
    assert_eq!(id_values(&result), vec!["5", "6", "7", "8"]);
    assert_eq!(result.total, 10);
}

#[test]
fn a_session_for_the_whole_file_leaves_the_batch_size_to_the_decoder() {
    let mut session = ReadSession::new(ReadRequest::WholeFile);
    session.handle(&ReadEvent::Opened);
    session.handle(&ReadEvent::Metadata(metadata(1, None)));
    assert_eq!(session.next_action(), ReadAction::BuildReader { batch_size: None });
    session.handle(&ReadEvent::ReaderReady);
    session.handle(&ReadEvent::Batch(ids(1, 1)));
    assert_eq!(session.next_action(), ReadAction::NextBatch);
    session.handle(&ReadEvent::EndOfData);
    assert_eq!(session.next_action(), ReadAction::Finish);
    assert_eq!(session.into_result().unwrap().rows.len(), 1);
}

#[test]
fn a_session_has_no_result_before_it_is_finished() {
    let mut session = ReadSession::new(ReadRequest::WholeFile);
    session.handle(&ReadEvent::Opened);
    assert!(session.into_result().is_none());
    assert!(ReadSession::new(ReadRequest::WholeFile).into_result().is_none());
}

#[test]
fn a_failed_session_is_finished() {
    let mut session = ReadSession::new(ReadRequest::WholeFile);
    session.handle(&ReadEvent::Failed("denied".to_string()));
    assert!(session.is_finished());
    assert_eq!(session.next_action(), ReadAction::Finish);
    assert_failure(&session.into_result().unwrap(), "denied");
}

#[test]
fn a_count_of_rows_is_reported_in_64_signed_bits() {
    assert_eq!(total_of(0), 0);
    assert_eq!(total_of(10), 10);
    assert_eq!(total_of(i64::MAX as u64), i64::MAX);
    assert_eq!(total_of(i64::MAX as u64 + 1), i64::MIN);
    assert_eq!(total_of(u64::MAX), -1);
}

#[test]
fn a_failure_and_an_empty_result_are_what_they_say() {
    let failure = ReadOrcResult::failure("broken".to_string());
    assert_failure(&failure, "broken");
    let empty = ReadOrcResult::default();
    assert_eq!(empty.code, 0);
    assert_eq!(empty.message, "");
    assert_eq!(empty.total, 0);
    assert!(empty.rows.is_empty());
    assert!(empty.columns.is_empty());
    assert_eq!(empty.compression_type, None);
    let success = ReadOrcResult::success(vec![], vec![], 7, Some("Snappy".to_string()));
    assert_eq!(success.code, 0);
    assert_eq!(success.total, 7);
    assert_eq!(success.compression_type, Some("Snappy".to_string()));
}
