//! Reading a file, whole or by page, as a dialogue with its decoder.
//!
//! Decoding is the work of a collaborator. A [`ReadSession`] holds the decisions: it
//! says what the decoder is to do next, takes what came of it as an event, and in the
//! end gives the result. The first failure ends the read, and a read that failed
//! returns nothing of what it had gathered.
//!
//! Pages are batches: a page request has the decoder cut the file into batches of the
//! page's size, and page `n` is the `n`-th of these batches.

use vstd::prelude::*;
use crate::batch::Batch;
use crate::result::{
    column_models, columns_of, compression_label, failure_model, optional_text, reported_total,
    result_columns, success_model, total_of, ColumnModel, FileMetadata, ReadOrcResult,
    ReadOrcResultColumn, ResultModel,
};
use crate::row::{Row, RowModel};
use crate::transpose::{row_models, rows_of, transpose};

verus! {

/// What is to be read of a file.
#[derive(Clone, Copy, Debug, PartialEq, Eq, Structural)]
pub enum ReadRequest {
    /// Every row.
    WholeFile,
    /// The rows of page `page_number`, counted from 1, of pages of `page_size` rows.
    Page { page_size: usize, page_number: usize },
}

impl ReadRequest {
    /// Whether the request is one that can be served: a page has a positive size and a
    /// number of at least 1.
    pub open spec fn valid(self) -> bool {
        match self {
            ReadRequest::WholeFile => true,
            ReadRequest::Page { page_size, page_number } => page_size >= 1 && page_number >= 1,
        }
    }
}

/// What the decoder is to do next.
#[derive(Clone, Copy, Debug, PartialEq, Eq)]
pub enum ReadAction {
    /// Open the file.
    OpenFile,
    /// Read the file's metadata from its footer.
    ReadMetadata,
    /// Make the reader that yields the file's batches, of `batch_size` rows each, or of
    /// the decoder's own default size for `None`.
    BuildReader { batch_size: Option<usize> },
    /// Decode the next batch.
    NextBatch,
    /// Nothing: the result is ready.
    Finish,
}

/// What came of the decoder's last action.
#[derive(Debug)]
pub enum ReadEvent {
    /// The file is open.
    Opened,
    /// The metadata was read.
    Metadata(FileMetadata),
    /// The reader is made.
    ReaderReady,
    /// A batch was decoded.
    Batch(Batch),
    /// The reader has no further batch.
    EndOfData,
    /// The action failed; the text describes the failure.
    Failed(String),
}

/// How far a read has come.
#[derive(Clone, Copy, Debug, PartialEq, Eq, Structural)]
pub enum Stage {
    AwaitingFile,
    AwaitingMetadata,
    AwaitingReader,
    Reading,
    Finished,
}

/// The mathematical model of a read session.
pub struct SessionModel {
    pub request: ReadRequest,
    pub stage: Stage,
    /// The number of rows that the metadata gave; 0 before it was read.
    pub total_rows: u64,
    /// The compression that the metadata gave.
    pub compression: Option<Seq<char>>,
    /// The number of batches passed over on the way to the page.
    pub skipped: nat,
    /// Whether the columns were taken from a batch.
    pub captured: bool,
    /// The columns gathered.
    pub columns: Seq<ColumnModel>,
    /// The rows gathered.
    pub rows: Seq<RowModel>,
    /// The description of the failure, once the read has failed.
    pub failure: Option<Seq<char>>,
}

/// The description of the failure of a read whose decoder reported an event that does
/// not answer the action asked of it.
pub open spec fn out_of_order() -> Seq<char> {
    "decoder event out of order"@
}

/// A session at its start.
pub open spec fn initial(request: ReadRequest) -> SessionModel {
    SessionModel {
        request: request,
        stage: Stage::AwaitingFile,
        total_rows: 0,
        compression: None,
        skipped: 0,
        captured: false,
        columns: Seq::empty(),
        rows: Seq::empty(),
        failure: None,
    }
}

/// The session after a failure described by `message`: finished, with nothing of what
/// it had gathered.
pub open spec fn failed(s: SessionModel, message: Seq<char>) -> SessionModel {
    SessionModel {
        stage: Stage::Finished,
        columns: Seq::empty(),
        rows: Seq::empty(),
        failure: Some(message),
        ..s
    }
}

/// The session after the batch `batch` was decoded while reading.
///
/// A read of the whole file takes the columns from the first batch and adds the rows of
/// every batch. A read of page `n` passes over `n - 1` batches, takes columns and rows
/// from the next, and is finished.
pub open spec fn with_batch(s: SessionModel, batch: Batch) -> SessionModel {
    match s.request {
        ReadRequest::WholeFile => SessionModel {
            captured: true,
            columns: if s.captured {
                s.columns
            } else {
                columns_of(batch.spec_fields())
            },
            rows: s.rows + rows_of(batch),
            ..s
        },
        ReadRequest::Page { page_size, page_number } => if s.skipped + 1 < page_number {
            SessionModel { skipped: s.skipped + 1, ..s }
        } else {
            SessionModel {
                stage: Stage::Finished,
                captured: true,
                columns: columns_of(batch.spec_fields()),
                rows: rows_of(batch),
                ..s
            }
        },
    }
}

/// The session after `event`.
///
/// A finished session stays as it is. A failure ends the read, and so does an event
/// that does not answer the action that the session asked for.
pub open spec fn step(s: SessionModel, event: ReadEvent) -> SessionModel {
    if s.stage == Stage::Finished {
        s
    } else {
        match event {
            ReadEvent::Failed(message) => failed(s, message@),
            ReadEvent::Opened => if s.stage == Stage::AwaitingFile {
                SessionModel { stage: Stage::AwaitingMetadata, ..s }
            } else {
                failed(s, out_of_order())
            },
            ReadEvent::Metadata(metadata) => if s.stage == Stage::AwaitingMetadata {
                SessionModel {
                    stage: Stage::AwaitingReader,
                    total_rows: metadata.total_rows,
                    compression: optional_text(metadata.compression_type),
                    ..s
                }
            } else {
                failed(s, out_of_order())
            },
            ReadEvent::ReaderReady => if s.stage == Stage::AwaitingReader {
                SessionModel { stage: Stage::Reading, ..s }
            } else {
                failed(s, out_of_order())
            },
            ReadEvent::Batch(batch) => if s.stage == Stage::Reading {
                with_batch(s, batch)
            } else {
                failed(s, out_of_order())
            },
            ReadEvent::EndOfData => if s.stage == Stage::Reading {
                SessionModel { stage: Stage::Finished, ..s }
            } else {
                failed(s, out_of_order())
            },
        }
    }
}

/// What the decoder is to do next for the session.
pub open spec fn action_of(s: SessionModel) -> ReadAction {
    match s.stage {
        Stage::AwaitingFile => ReadAction::OpenFile,
        Stage::AwaitingMetadata => ReadAction::ReadMetadata,
        Stage::AwaitingReader => ReadAction::BuildReader {
            batch_size: match s.request {
                ReadRequest::WholeFile => None,
                ReadRequest::Page { page_size, page_number } => Some(page_size),
            },
        },
        Stage::Reading => ReadAction::NextBatch,
        Stage::Finished => ReadAction::Finish,
    }
}

/// The result of a finished session.
///
/// `total` is the number of rows gathered for a read of the whole file, and the number
/// of rows that the metadata gave for a read of a page.
pub open spec fn outcome(s: SessionModel) -> ResultModel {
    match s.failure {
        Some(message) => failure_model(message),
        None => success_model(
            s.columns,
            s.rows,
            match s.request {
                ReadRequest::WholeFile => reported_total(s.rows.len() as int),
                ReadRequest::Page { page_size, page_number } => reported_total(s.total_rows as int),
            },
            compression_label(s.compression),
        ),
    }
}

/// The session after `events`, in order.
pub open spec fn replay(s: SessionModel, events: Seq<ReadEvent>) -> SessionModel
    decreases events.len(),
{
    if events.len() == 0 {
        s
    } else {
        step(replay(s, events.drop_last()), events.last())
    }
}

/// The result of a read to which the decoder answered with `events`, in order, and
/// then had no more to give.
pub open spec fn read_result(request: ReadRequest, events: Seq<ReadEvent>) -> ResultModel {
    outcome(step(replay(initial(request), events), ReadEvent::EndOfData))
}

/// A read in progress.
#[derive(Debug)]
pub struct ReadSession {
    request: ReadRequest,
    stage: Stage,
    metadata: FileMetadata,
    skipped: usize,
    captured: bool,
    columns: Vec<ReadOrcResultColumn>,
    rows: Vec<Row>,
    failure: Option<String>,
}

impl View for ReadSession {
    type V = SessionModel;

    closed spec fn view(&self) -> SessionModel {
        SessionModel {
            request: self.request,
            stage: self.stage,
            total_rows: self.metadata.total_rows,
            compression: optional_text(self.metadata.compression_type),
            skipped: self.skipped as nat,
            captured: self.captured,
            columns: column_models(self.columns@),
            rows: row_models(self.rows@),
            failure: optional_text(self.failure),
        }
    }
}

impl ReadSession {
    /// Starts a read.
    pub fn new(request: ReadRequest) -> (session: ReadSession)
        requires
            request.valid(),
        ensures
            session@ == initial(request),
    {
        let session = ReadSession {
            request,
            stage: Stage::AwaitingFile,
            metadata: FileMetadata { total_rows: 0, compression_type: None },
            skipped: 0,
            captured: false,
            columns: Vec::new(),
            rows: Vec::new(),
            failure: None,
        };
        assert(session@.columns =~= Seq::empty());
        assert(session@.rows =~= Seq::empty());
        session
    }

    /// What the decoder is to do next.
    pub fn next_action(&self) -> (action: ReadAction)
        ensures
            action == action_of(self@),
    {
        match self.stage {
            Stage::AwaitingFile => ReadAction::OpenFile,
            Stage::AwaitingMetadata => ReadAction::ReadMetadata,
            Stage::AwaitingReader => match self.request {
                ReadRequest::WholeFile => ReadAction::BuildReader { batch_size: None },
                ReadRequest::Page { page_size, page_number } => ReadAction::BuildReader {
                    batch_size: Some(page_size),
                },
            },
            Stage::Reading => ReadAction::NextBatch,
            Stage::Finished => ReadAction::Finish,
        }
    }

    /// Whether the read is finished.
    pub fn is_finished(&self) -> (finished: bool)
        ensures
            finished == (self@.stage == Stage::Finished),
    {
        match self.stage {
            Stage::Finished => true,
            _ => false,
        }
    }

    /// Ends the read with a failure.
    fn fail(&mut self, message: String)
        ensures
            final(self)@ == failed(old(self)@, message@),
    {
        self.stage = Stage::Finished;
        self.columns = Vec::new();
        self.rows = Vec::new();
        self.failure = Some(message);
        assert(self@.columns =~= Seq::empty());
        assert(self@.rows =~= Seq::empty());
    }

    /// Takes a batch that was decoded while reading.
    fn take_batch(&mut self, batch: &Batch)
        requires
            old(self)@.stage == Stage::Reading,
        ensures
            final(self)@ == with_batch(old(self)@, *batch),
    {
        match self.request {
            ReadRequest::WholeFile => {
                if !self.captured {
                    self.columns = result_columns(batch.fields());
                    self.captured = true;
                }
                let mut rows = transpose(batch);
                let ghost before = row_models(self.rows@);
                let ghost added = row_models(rows@);
                self.rows.append(&mut rows);
                assert(row_models(self.rows@) =~= before + added);
            },
            ReadRequest::Page { page_size, page_number } => {
                if page_number >= 1 && self.skipped < page_number - 1 {
                    self.skipped = self.skipped + 1;
                } else {
                    self.columns = result_columns(batch.fields());
                    self.captured = true;
                    self.rows = transpose(batch);
                    self.stage = Stage::Finished;
                }
            },
        }
    }

    /// Ends the read with the failure of an event out of order.
    fn fail_out_of_order(&mut self)
        ensures
            final(self)@ == failed(old(self)@, out_of_order()),
    {
        self.fail("decoder event out of order".to_owned());
    }

    /// Takes what came of the decoder's last action.
    pub fn handle(&mut self, event: &ReadEvent)
        ensures
            final(self)@ == step(old(self)@, *event),
    {
        if self.is_finished() {
            return ;
        }
        match event {
            ReadEvent::Failed(message) => {
                self.fail(message.clone());
            },
            ReadEvent::Opened => match self.stage {
                Stage::AwaitingFile => {
                    self.stage = Stage::AwaitingMetadata;
                },
                _ => {
                    self.fail_out_of_order();
                },
            },
            ReadEvent::Metadata(metadata) => match self.stage {
                Stage::AwaitingMetadata => {
                    self.metadata = FileMetadata {
                        total_rows: metadata.total_rows,
                        compression_type: metadata.compression_type.clone(),
                    };
                    self.stage = Stage::AwaitingReader;
                },
                _ => {
                    self.fail_out_of_order();
                },
            },
            ReadEvent::ReaderReady => match self.stage {
                Stage::AwaitingReader => {
                    self.stage = Stage::Reading;
                },
                _ => {
                    self.fail_out_of_order();
                },
            },
            ReadEvent::Batch(batch) => match self.stage {
                Stage::Reading => {
                    self.take_batch(batch);
                },
                _ => {
                    self.fail_out_of_order();
                },
            },
            ReadEvent::EndOfData => match self.stage {
                Stage::Reading => {
                    self.stage = Stage::Finished;
                },
                _ => {
                    self.fail_out_of_order();
                },
            },
        }
    }

    /// The result of the read, once it is finished; `None` before.
    pub fn into_result(self) -> (result: Option<ReadOrcResult>)
        ensures
            result is Some <==> self@.stage == Stage::Finished,
            result matches Some(r) ==> r@ == outcome(self@),
    {
        if !self.is_finished() {
            return None;
        }
        let ghost model = self@;
        let request = self.request;
        let metadata = self.metadata;
        match self.failure {
            Some(message) => Some(ReadOrcResult::failure(message)),
            None => {
                let total = match request {
                    ReadRequest::WholeFile => total_of(self.rows.len() as u64),
                    ReadRequest::Page { page_size, page_number } => total_of(metadata.total_rows),
                };
                Some(ReadOrcResult::success(self.columns, self.rows, total, metadata.compression_type))
            },
        }
    }
}

/// Runs a read over `events`: what the decoder answered, in order. What would follow
/// them counts as the end of data.
pub fn read_events(request: ReadRequest, events: &Vec<ReadEvent>) -> (result: ReadOrcResult)
    requires
        request.valid(),
    ensures
        result@ == read_result(request, events@),
{
    let mut session = ReadSession::new(request);
    let mut i: usize = 0;
    assert(events@.take(0) =~= Seq::<ReadEvent>::empty());
    while i < events.len()
        invariant
            i <= events@.len(),
            session@ == replay(initial(request), events@.take(i as int)),
        decreases events@.len() - i,
    {
        proof {
            assert(events@.take(i as int + 1).drop_last() =~= events@.take(i as int));
            assert(events@.take(i as int + 1).last() == events@[i as int]);
        }
        session.handle(&events[i]);
        i = i + 1;
    }
    assert(events@.take(events@.len() as int) =~= events@);
    session.handle(&ReadEvent::EndOfData);
    match session.into_result() {
        Some(result) => result,
        None => {
            assert(false);
            ReadOrcResult::failure(String::new())
        },
    }
}

/// Reads page `page_number`, counted from 1, of pages of `page_size` rows, from what the
/// decoder answered.
pub fn read_orc_file_by_page(events: &Vec<ReadEvent>, page_size: usize, page_number: usize) -> (result:
    ReadOrcResult)
    requires
        page_size >= 1,
        page_number >= 1,
    ensures
        result@ == read_result(ReadRequest::Page { page_size, page_number }, events@),
{
    read_events(ReadRequest::Page { page_size, page_number }, events)
}

/// Reads every row, from what the decoder answered.
pub fn read_orc_file(events: &Vec<ReadEvent>) -> (result: ReadOrcResult)
    ensures
        result@ == read_result(ReadRequest::WholeFile, events@),
{
    read_events(ReadRequest::WholeFile, events)
}

} // verus!
