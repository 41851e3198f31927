//! One conversion, step by step.
//!
//! A task never touches a file. It says what is to be done next (read the
//! input, create the output, write the stream) and is told how that went.
//! Between two such steps it decodes, names the output and encodes.

use crate::decode::{bmp_colors, bmp_size, decode, decoded, error_text};
use crate::encode::{encode, encoded, png_stream};
use crate::naming::{output_path, target_path};
use crate::outcome::{ConversionOutcome, Failure, FailureKind, FailureView};
use crate::raster::{flatten, RasterImage};
use vstd::prelude::*;

verus! {

/// How far a conversion has come.
#[derive(Debug, PartialEq, Eq)]
pub enum Stage {
    /// The input file is being read.
    Reading,
    /// The input is decoded; the output file is being created.
    Creating(RasterImage),
    /// The image is encoded; the stream is being written.
    Writing,
    /// The outcome has been reported.
    Done,
}

/// What the caller tells a task.
#[derive(Debug, PartialEq, Eq)]
pub enum TaskEvent {
    /// The input file was read; these are its bytes.
    Read(Vec<u8>),
    /// The output file was created.
    Created,
    /// The stream was written.
    Written,
    /// The step asked for failed; this is the system's message.
    Failed(String),
}

/// What a task asks of the caller.
#[derive(Debug, PartialEq, Eq)]
pub enum TaskAction {
    /// Read the file at this path.
    Read(String),
    /// Create the file at this path.
    Create(String),
    /// Write these bytes to the file created.
    Write(Vec<u8>),
    /// The conversion is over; this is its outcome.
    Report(ConversionOutcome),
    /// Nothing: the outcome was reported before.
    Idle,
}

/// The conversion of one file.
#[derive(Debug, PartialEq, Eq)]
pub struct ConversionTask {
    /// The path of the input file.
    pub source: String,
    /// The name of the input file.
    pub name: String,
    /// The directory that receives the output.
    pub out_dir: String,
    pub stage: Stage,
}

/// The message of a failure reported for an event that the stage does
/// not wait for.
pub open spec fn out_of_sequence() -> Seq<char> {
    "step out of sequence"@
}

/// Whether `action` reports this failure at the path `source`.
pub open spec fn reports_failure(
    action: TaskAction,
    kind: FailureKind,
    message: Seq<char>,
    source: Seq<char>,
) -> bool {
    action matches TaskAction::Report(ConversionOutcome::Failure(f)) && f@ == (FailureView {
        kind,
        message,
        path: Some(source),
    })
}

/// The steps left before a stage reaches `Done`.
pub open spec fn steps_left(stage: Stage) -> nat {
    match stage {
        Stage::Reading => 3,
        Stage::Creating(_) => 2,
        Stage::Writing => 1,
        Stage::Done => 0,
    }
}

/// How a task answers an event.
///
/// While reading it waits for the bytes, decodes them and asks for the
/// output file; while creating it waits for the file, encodes the image
/// and asks for the stream to be written; while writing it waits for the
/// end and reports success. A failed step is reported as an I/O failure,
/// a decoding or encoding error under its own kind, each with the input
/// path, and so is an event that the stage does not wait for. Once done,
/// a task stays idle.
pub open spec fn stepped(
    before: ConversionTask,
    event: TaskEvent,
    after: ConversionTask,
    action: TaskAction,
) -> bool {
    &&& after.source == before.source
    &&& after.name == before.name
    &&& after.out_dir == before.out_dir
    &&& match before.stage {
        Stage::Done => after.stage is Done && action is Idle,
        Stage::Reading => match event {
            TaskEvent::Read(bytes) => match decoded(bytes@) {
                Ok(view) => {
                    &&& after.stage matches Stage::Creating(image)
                    &&& image@ == view
                    &&& action matches TaskAction::Create(path)
                    &&& path@ == target_path(before.out_dir@, before.name@)
                },
                Err(e) => after.stage is Done && reports_failure(
                    action,
                    FailureKind::Decode,
                    error_text(e),
                    before.source@,
                ),
            },
            TaskEvent::Failed(text) => after.stage is Done && reports_failure(
                action,
                FailureKind::Io,
                text@,
                before.source@,
            ),
            _ => after.stage is Done && reports_failure(
                action,
                FailureKind::Io,
                out_of_sequence(),
                before.source@,
            ),
        },
        Stage::Creating(image) => match event {
            TaskEvent::Created => match encoded(image@) {
                Ok(stream) => {
                    &&& after.stage is Writing
                    &&& action matches TaskAction::Write(bytes)
                    &&& bytes@ == stream
                },
                Err(text) => after.stage is Done && reports_failure(
                    action,
                    FailureKind::Encode,
                    text,
                    before.source@,
                ),
            },
            TaskEvent::Failed(text) => after.stage is Done && reports_failure(
                action,
                FailureKind::Io,
                text@,
                before.source@,
            ),
            _ => after.stage is Done && reports_failure(
                action,
                FailureKind::Io,
                out_of_sequence(),
                before.source@,
            ),
        },
        Stage::Writing => match event {
            TaskEvent::Written => after.stage is Done && action matches TaskAction::Report(
                ConversionOutcome::Success,
            ),
            TaskEvent::Failed(text) => after.stage is Done && reports_failure(
                action,
                FailureKind::Io,
                text@,
                before.source@,
            ),
            _ => after.stage is Done && reports_failure(
                action,
                FailureKind::Io,
                out_of_sequence(),
                before.source@,
            ),
        },
    }
}

/// Every step brings a task nearer to its end, and the outcome is
/// reported at the one step that ends it: a task reports once.
pub proof fn lemma_reports_once(
    before: ConversionTask,
    event: TaskEvent,
    after: ConversionTask,
    action: TaskAction,
)
    requires
        stepped(before, event, after, action),
    ensures
        before.stage is Done ==> after.stage is Done && action is Idle,
        !(before.stage is Done) ==> steps_left(after.stage) < steps_left(before.stage),
        action is Report <==> !(before.stage is Done) && after.stage is Done,
{
}

/// Nothing is lost between reading and writing: the stream that a task
/// asks to be written is the encoder's stream for the size that the
/// reader found and for the samples of the colours that it yielded, in
/// its order.
pub proof fn lemma_written_stream(
    start: ConversionTask,
    bytes: Vec<u8>,
    decoded_task: ConversionTask,
    create: TaskAction,
    encoded_task: ConversionTask,
    write: TaskAction,
)
    requires
        start.stage is Reading,
        stepped(start, TaskEvent::Read(bytes), decoded_task, create),
        stepped(decoded_task, TaskEvent::Created, encoded_task, write),
        write is Write,
    ensures
        bmp_size(bytes@) matches Some((width, height)) && write matches TaskAction::Write(stream)
            && png_stream(width, height, flatten(bmp_colors(bytes@))) == Ok::<
            Seq<u8>,
            Seq<char>,
        >(stream@),
{
}

impl ConversionTask {
    /// Starts the conversion of the file `name` found at `source`, whose
    /// output goes to `out_dir`: the first thing asked for is the input.
    pub fn begin(source: &str, name: &str, out_dir: &str) -> (r: (ConversionTask, TaskAction))
        ensures
            r.0.stage is Reading,
            r.0.source@ == source@,
            r.0.name@ == name@,
            r.0.out_dir@ == out_dir@,
            r.1 matches TaskAction::Read(path) && path@ == source@,
    {
        let task = ConversionTask {
            source: String::from_str(source),
            name: String::from_str(name),
            out_dir: String::from_str(out_dir),
            stage: Stage::Reading,
        };
        (task, TaskAction::Read(String::from_str(source)))
    }

    /// Ends the task with a failure at its input path.
    fn fail(self, kind: FailureKind, message: String) -> (r: (ConversionTask, TaskAction))
        ensures
            r.0.source == self.source,
            r.0.name == self.name,
            r.0.out_dir == self.out_dir,
            r.0.stage is Done,
            reports_failure(r.1, kind, message@, self.source@),
    {
        let failure = Failure::at(kind, message, self.source.as_str());
        let task = ConversionTask {
            source: self.source,
            name: self.name,
            out_dir: self.out_dir,
            stage: Stage::Done,
        };
        (task, TaskAction::Report(ConversionOutcome::Failure(failure)))
    }

    /// Moves the task to `stage`.
    fn advance(self, stage: Stage) -> (r: ConversionTask)
        ensures
            r.source == self.source,
            r.name == self.name,
            r.out_dir == self.out_dir,
            r.stage == stage,
    {
        ConversionTask { source: self.source, name: self.name, out_dir: self.out_dir, stage }
    }

    /// Answers an event: the task as it is afterwards, and what it asks
    /// for next.
    pub fn step(self, event: TaskEvent) -> (r: (ConversionTask, TaskAction))
        ensures
            stepped(self, event, r.0, r.1),
    {
        match self.stage {
            Stage::Done => (self, TaskAction::Idle),
            Stage::Reading => match event {
                TaskEvent::Read(bytes) => match decode(bytes.as_slice()) {
                    Ok(image) => {
                        let path = output_path(self.out_dir.as_str(), self.name.as_str());
                        (self.advance(Stage::Creating(image)), TaskAction::Create(path))
                    },
                    Err(e) => self.fail(FailureKind::Decode, e.message()),
                },
                TaskEvent::Failed(text) => self.fail(FailureKind::Io, text),
                _ => self.fail(FailureKind::Io, String::from_str("step out of sequence")),
            },
            Stage::Creating(ref image) => match event {
                TaskEvent::Created => match encode(image) {
                    Ok(stream) => (self.advance(Stage::Writing), TaskAction::Write(stream)),
                    Err(e) => self.fail(FailureKind::Encode, e.message),
                },
                TaskEvent::Failed(text) => self.fail(FailureKind::Io, text),
                _ => self.fail(FailureKind::Io, String::from_str("step out of sequence")),
            },
            Stage::Writing => match event {
                TaskEvent::Written => (
                    self.advance(Stage::Done),
                    TaskAction::Report(ConversionOutcome::Success),
                ),
                TaskEvent::Failed(text) => self.fail(FailureKind::Io, text),
                _ => self.fail(FailureKind::Io, String::from_str("step out of sequence")),
            },
        }
    }
}

} // verus!
