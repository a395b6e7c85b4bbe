//! Exporting a file as comma-separated text, as a dialogue with the file's decoder and
//! with the target that takes the text.
//!
//! The target is created once. The header is written once, with the rows of the first
//! batch, under the column names of that batch; the rows of every later batch follow
//! under the same names. The first failure ends the export.

use vstd::prelude::*;
use crate::batch::{field_names, Batch, ColumnField};
use crate::csv::{document, name_views, push_header, push_rows, row_lines};
use crate::reader::out_of_order;
use crate::result::optional_text;
use crate::text::push_text;
use crate::transpose::{rows_of, transpose};

verus! {

/// What came of the last action of an export.
#[derive(Debug)]
pub enum ExportEvent {
    /// The file is open.
    Opened,
    /// The reader that yields the file's batches is made.
    ReaderReady,
    /// The target is created, and empty.
    TargetCreated,
    /// A batch was decoded.
    Batch(Batch),
    /// The reader has no further batch.
    EndOfData,
    /// The text was written to the target.
    Written,
    /// The target was flushed.
    Flushed,
    /// The action failed; the text describes the failure.
    Failed(String),
}

/// What is to be done next for an export.
#[derive(Clone, Debug, PartialEq, Eq)]
pub enum ExportAction {
    /// Open the file.
    OpenFile,
    /// Make the reader that yields the file's batches, of the decoder's default size.
    BuildReader,
    /// Create the target, empty.
    CreateTarget,
    /// Decode the next batch.
    NextBatch,
    /// Append the text to the target.
    Write(String),
    /// Flush the target.
    Flush,
    /// Nothing: the export is over.
    Finish,
}

/// The mathematical model of an action.
pub enum ActionModel {
    OpenFile,
    BuildReader,
    CreateTarget,
    NextBatch,
    Write(Seq<char>),
    Flush,
    Finish,
}

impl View for ExportAction {
    type V = ActionModel;

    open spec fn view(&self) -> ActionModel {
        match self {
            ExportAction::OpenFile => ActionModel::OpenFile,
            ExportAction::BuildReader => ActionModel::BuildReader,
            ExportAction::CreateTarget => ActionModel::CreateTarget,
            ExportAction::NextBatch => ActionModel::NextBatch,
            ExportAction::Write(text) => ActionModel::Write(text@),
            ExportAction::Flush => ActionModel::Flush,
            ExportAction::Finish => ActionModel::Finish,
        }
    }
}

/// How far an export has come.
#[derive(Clone, Copy, Debug, PartialEq, Eq, Structural)]
pub enum ExportStage {
    AwaitingFile,
    AwaitingReader,
    AwaitingTarget,
    Reading,
    Writing,
    Flushing,
    Finished,
}

/// The mathematical model of an export session.
pub struct ExportModel {
    pub stage: ExportStage,
    /// Whether the header was handed out for writing.
    pub header_sent: bool,
    /// The column names, taken from the first batch.
    pub columns: Seq<Seq<char>>,
    /// The description of the failure, once the export has failed.
    pub failure: Option<Seq<char>>,
}

/// An export at its start.
pub open spec fn export_start() -> ExportModel {
    ExportModel {
        stage: ExportStage::AwaitingFile,
        header_sent: false,
        columns: Seq::empty(),
        failure: None,
    }
}

/// What a failure's description is prefixed with, by the stage in which the action
/// failed.
pub open spec fn failure_prefix(stage: ExportStage) -> Seq<char> {
    match stage {
        ExportStage::AwaitingFile => "Failed to open file: "@,
        ExportStage::AwaitingReader => "Failed to create reader: "@,
        ExportStage::AwaitingTarget => "Failed to create file: "@,
        ExportStage::Reading => "Failed to read batch: "@,
        ExportStage::Writing => "Failed to write file: "@,
        ExportStage::Flushing => "Failed to write file: "@,
        ExportStage::Finished => Seq::empty(),
    }
}

/// The export after a failure with the message `message`.
pub open spec fn export_failed(s: ExportModel, message: Seq<char>) -> ExportModel {
    ExportModel { stage: ExportStage::Finished, failure: Some(message), ..s }
}

/// The text that the batch `batch` adds to the target: the header line first, where
/// none was sent yet, under the names of the batch's fields; then the lines of the
/// batch's rows, under the names that the header has.
pub open spec fn chunk(s: ExportModel, batch: Batch) -> Seq<char> {
    if s.header_sent {
        row_lines(s.columns, rows_of(batch))
    } else {
        document(field_names(batch.spec_fields()), rows_of(batch))
    }
}

/// The export after `event`.
///
/// A finished export stays as it is. A failure ends the export, its description
/// prefixed by what failed, and so does an event that does not answer the action that
/// the export asked for.
pub open spec fn export_step(s: ExportModel, event: ExportEvent) -> ExportModel {
    if s.stage == ExportStage::Finished {
        s
    } else {
        match event {
            ExportEvent::Failed(message) => export_failed(s, failure_prefix(s.stage) + message@),
            ExportEvent::Opened => if s.stage == ExportStage::AwaitingFile {
                ExportModel { stage: ExportStage::AwaitingReader, ..s }
            } else {
                export_failed(s, out_of_order())
            },
            ExportEvent::ReaderReady => if s.stage == ExportStage::AwaitingReader {
                ExportModel { stage: ExportStage::AwaitingTarget, ..s }
            } else {
                export_failed(s, out_of_order())
            },
            ExportEvent::TargetCreated => if s.stage == ExportStage::AwaitingTarget {
                ExportModel { stage: ExportStage::Reading, ..s }
            } else {
                export_failed(s, out_of_order())
            },
            ExportEvent::Batch(batch) => if s.stage == ExportStage::Reading {
                ExportModel {
                    stage: ExportStage::Writing,
                    header_sent: true,
                    columns: if s.header_sent {
                        s.columns
                    } else {
                        field_names(batch.spec_fields())
                    },
                    ..s
                }
            } else {
                export_failed(s, out_of_order())
            },
            ExportEvent::Written => if s.stage == ExportStage::Writing {
                ExportModel { stage: ExportStage::Reading, ..s }
            } else {
                export_failed(s, out_of_order())
            },
            ExportEvent::EndOfData => if s.stage == ExportStage::Reading {
                ExportModel { stage: ExportStage::Flushing, ..s }
            } else {
                export_failed(s, out_of_order())
            },
            ExportEvent::Flushed => if s.stage == ExportStage::Flushing {
                ExportModel { stage: ExportStage::Finished, ..s }
            } else {
                export_failed(s, out_of_order())
            },
        }
    }
}

/// The action that the export asks for after `event` came in the state `s`.
pub open spec fn export_action(s: ExportModel, event: ExportEvent) -> ActionModel {
    match export_step(s, event).stage {
        ExportStage::AwaitingFile => ActionModel::OpenFile,
        ExportStage::AwaitingReader => ActionModel::BuildReader,
        ExportStage::AwaitingTarget => ActionModel::CreateTarget,
        ExportStage::Reading => ActionModel::NextBatch,
        ExportStage::Writing => match event {
            ExportEvent::Batch(batch) => ActionModel::Write(chunk(s, batch)),
            _ => ActionModel::Write(Seq::empty()),
        },
        ExportStage::Flushing => ActionModel::Flush,
        ExportStage::Finished => ActionModel::Finish,
    }
}

/// The export after `events`, in order, from the state `s`.
pub open spec fn export_replay(s: ExportModel, events: Seq<ExportEvent>) -> ExportModel
    decreases events.len(),
{
    if events.len() == 0 {
        s
    } else {
        export_step(export_replay(s, events.drop_last()), events.last())
    }
}

/// The outcome of a finished export: nothing, or the failure's message.
pub open spec fn export_outcome(s: ExportModel) -> Result<(), Seq<char>> {
    match s.failure {
        Some(message) => Err(message),
        None => Ok(()),
    }
}

/// An export whose target is a text in memory, which never fails.
pub struct Played {
    /// The export.
    pub state: ExportModel,
    /// The text written so far.
    pub text: Seq<char>,
}

/// The export in memory after the decoder's answer `event`: the export takes the
/// answer, and what it then asks of the target is done.
pub open spec fn play_one(p: Played, event: ExportEvent) -> Played {
    let s = export_step(p.state, event);
    match export_action(p.state, event) {
        ActionModel::CreateTarget => Played {
            state: export_step(s, ExportEvent::TargetCreated),
            text: p.text,
        },
        ActionModel::Write(text) => Played {
            state: export_step(s, ExportEvent::Written),
            text: p.text + text,
        },
        ActionModel::Flush => Played { state: export_step(s, ExportEvent::Flushed), text: p.text },
        _ => Played { state: s, text: p.text },
    }
}

/// The export in memory after the decoder's answers `events`, in order.
pub open spec fn play(events: Seq<ExportEvent>) -> Played
    decreases events.len(),
{
    if events.len() == 0 {
        Played { state: export_start(), text: Seq::empty() }
    } else {
        play_one(play(events.drop_last()), events.last())
    }
}

/// The outcome of an export in memory to which the decoder answered with `events`, in
/// order, and then had no more to give: the text written, or the failure's message.
pub open spec fn export_result(events: Seq<ExportEvent>) -> Result<Seq<char>, Seq<char>> {
    let p = play_one(play(events), ExportEvent::EndOfData);
    match p.state.failure {
        Some(message) => Err(message),
        None => Ok(p.text),
    }
}

/// An export in progress.
#[derive(Debug)]
pub struct ExportSession {
    stage: ExportStage,
    header_sent: bool,
    columns: Vec<String>,
    failure: Option<String>,
}

impl View for ExportSession {
    type V = ExportModel;

    closed spec fn view(&self) -> ExportModel {
        ExportModel {
            stage: self.stage,
            header_sent: self.header_sent,
            columns: name_views(self.columns@),
            failure: optional_text(self.failure),
        }
    }
}

/// The names of `fields`, in order.
fn names_of(fields: &Vec<ColumnField>) -> (names: Vec<String>)
    ensures
        name_views(names@) == field_names(fields@),
{
    let mut names: Vec<String> = Vec::with_capacity(fields.len());
    let mut c: usize = 0;
    while c < fields.len()
        invariant
            c <= fields@.len(),
            names@.len() == c,
            forall|k: int| 0 <= k < c ==> (#[trigger] names@[k])@ == fields@[k].name@,
        decreases fields@.len() - c,
    {
        names.push(fields[c].name.clone());
        c = c + 1;
    }
    assert(name_views(names@) =~= field_names(fields@));
    names
}

impl ExportSession {
    /// Starts an export. Its first action is to open the file.
    pub fn new() -> (session: ExportSession)
        ensures
            session@ == export_start(),
    {
        let session = ExportSession {
            stage: ExportStage::AwaitingFile,
            header_sent: false,
            columns: Vec::new(),
            failure: None,
        };
        assert(session@.columns =~= Seq::empty());
        session
    }

    /// Whether the export is over.
    pub fn is_finished(&self) -> (finished: bool)
        ensures
            finished == (self@.stage == ExportStage::Finished),
    {
        match self.stage {
            ExportStage::Finished => true,
            _ => false,
        }
    }

    /// Ends the export with a failure.
    fn fail(&mut self, message: String) -> (action: ExportAction)
        ensures
            final(self)@ == export_failed(old(self)@, message@),
            action@ == ActionModel::Finish,
    {
        self.stage = ExportStage::Finished;
        self.failure = Some(message);
        ExportAction::Finish
    }

    /// Ends the export with the failure of an event out of order.
    fn fail_out_of_order(&mut self) -> (action: ExportAction)
        ensures
            final(self)@ == export_failed(old(self)@, out_of_order()),
            action@ == ActionModel::Finish,
    {
        self.fail("decoder event out of order".to_owned())
    }

    /// The message of a failure described by `description`, in the present stage.
    fn failure_message(&self, description: &String) -> (message: String)
        ensures
            message@ == failure_prefix(self@.stage) + description@,
    {
        let mut message = match self.stage {
            ExportStage::AwaitingFile => "Failed to open file: ".to_owned(),
            ExportStage::AwaitingReader => "Failed to create reader: ".to_owned(),
            ExportStage::AwaitingTarget => "Failed to create file: ".to_owned(),
            ExportStage::Reading => "Failed to read batch: ".to_owned(),
            ExportStage::Writing => "Failed to write file: ".to_owned(),
            ExportStage::Flushing => "Failed to write file: ".to_owned(),
            ExportStage::Finished => String::new(),
        };
        push_text(&mut message, description.as_str());
        message
    }

    /// Takes a batch that was decoded while reading, and gives the text to write.
    fn take_batch(&mut self, batch: &Batch) -> (action: ExportAction)
        requires
            old(self)@.stage == ExportStage::Reading,
        ensures
            final(self)@ == export_step(old(self)@, ExportEvent::Batch(*batch)),
            action@ == ActionModel::Write(chunk(old(self)@, *batch)),
    {
        let mut text = String::new();
        if !self.header_sent {
            self.columns = names_of(batch.fields());
            self.header_sent = true;
            push_header(&mut text, &self.columns);
        }
        let rows = transpose(batch);
        push_rows(&mut text, &self.columns, &rows);
        self.stage = ExportStage::Writing;
        assert(text@ =~= chunk(old(self)@, *batch));
        ExportAction::Write(text)
    }

    /// Takes what came of the last action, and says what is to be done next.
    pub fn handle(&mut self, event: &ExportEvent) -> (action: ExportAction)
        ensures
            final(self)@ == export_step(old(self)@, *event),
            action@ == export_action(old(self)@, *event),
    {
        if self.is_finished() {
            return ExportAction::Finish;
        }
        match event {
            ExportEvent::Failed(description) => {
                let message = self.failure_message(description);
                self.fail(message)
            },
            ExportEvent::Opened => match self.stage {
                ExportStage::AwaitingFile => {
                    self.stage = ExportStage::AwaitingReader;
                    ExportAction::BuildReader
                },
                _ => self.fail_out_of_order(),
            },
            ExportEvent::ReaderReady => match self.stage {
                ExportStage::AwaitingReader => {
                    self.stage = ExportStage::AwaitingTarget;
                    ExportAction::CreateTarget
                },
                _ => self.fail_out_of_order(),
            },
            ExportEvent::TargetCreated => match self.stage {
                ExportStage::AwaitingTarget => {
                    self.stage = ExportStage::Reading;
                    ExportAction::NextBatch
                },
                _ => self.fail_out_of_order(),
            },
            ExportEvent::Batch(batch) => match self.stage {
                ExportStage::Reading => self.take_batch(batch),
                _ => self.fail_out_of_order(),
            },
            ExportEvent::Written => match self.stage {
                ExportStage::Writing => {
                    self.stage = ExportStage::Reading;
                    ExportAction::NextBatch
                },
                _ => self.fail_out_of_order(),
            },
            ExportEvent::EndOfData => match self.stage {
                ExportStage::Reading => {
                    self.stage = ExportStage::Flushing;
                    ExportAction::Flush
                },
                _ => self.fail_out_of_order(),
            },
            ExportEvent::Flushed => match self.stage {
                ExportStage::Flushing => {
                    self.stage = ExportStage::Finished;
                    ExportAction::Finish
                },
                _ => self.fail_out_of_order(),
            },
        }
    }

    /// The outcome of the export, once it is over; `None` before.
    pub fn into_result(self) -> (result: Option<Result<(), String>>)
        ensures
            result is Some <==> self@.stage == ExportStage::Finished,
            result matches Some(r) ==> match r {
                Ok(_) => export_outcome(self@) == Ok::<(), Seq<char>>(()),
                Err(message) => export_outcome(self@) == Err::<(), Seq<char>>(message@),
            },
    {
        if !self.is_finished() {
            return None;
        }
        match self.failure {
            Some(message) => Some(Err(message)),
            None => Some(Ok(())),
        }
    }

    /// Whether the export has failed, and with what message.
    fn failure_text(self) -> (failure: Option<String>)
        ensures
            optional_text(failure) == self@.failure,
    {
        self.failure
    }
}

/// Takes the decoder's answer `event` in an export whose target is the text `text`:
/// what the export then asks of the target is done on `text`.
fn play_event(session: &mut ExportSession, text: &mut String, event: &ExportEvent)
    ensures
        (Played { state: final(session)@, text: final(text)@ }) == play_one(
            Played { state: old(session)@, text: old(text)@ },
            *event,
        ),
{
    let action = session.handle(event);
    match action {
        ExportAction::CreateTarget => {
            let _ = session.handle(&ExportEvent::TargetCreated);
        },
        ExportAction::Write(chunk) => {
            push_text(text, chunk.as_str());
            let _ = session.handle(&ExportEvent::Written);
        },
        ExportAction::Flush => {
            let _ = session.handle(&ExportEvent::Flushed);
        },
        _ => {},
    }
}

/// Exports to a text in memory, from what the decoder answered: `events`, in order.
/// What would follow them counts as the end of data.
///
/// Returns the comma-separated text, or the message of the first failure.
pub fn export_orc_file_csv(events: &Vec<ExportEvent>) -> (result: Result<String, String>)
    ensures
        match result {
            Ok(text) => export_result(events@) == Ok::<Seq<char>, Seq<char>>(text@),
            Err(message) => export_result(events@) == Err::<Seq<char>, Seq<char>>(message@),
        },
{
    let mut session = ExportSession::new();
    let mut text = String::new();
    let mut i: usize = 0;
    assert(events@.take(0) =~= Seq::<ExportEvent>::empty());
    while i < events.len()
        invariant
            i <= events@.len(),
            (Played { state: session@, text: text@ }) == play(events@.take(i as int)),
        decreases events@.len() - i,
    {
        proof {
            assert(events@.take(i as int + 1).drop_last() =~= events@.take(i as int));
            assert(events@.take(i as int + 1).last() == events@[i as int]);
        }
        play_event(&mut session, &mut text, &events[i]);
        i = i + 1;
    }
    assert(events@.take(events@.len() as int) =~= events@);
    play_event(&mut session, &mut text, &ExportEvent::EndOfData);
    match session.failure_text() {
        Some(message) => Err(message),
        None => Ok(text),
    }
}

} // verus!
