//! Extraction from a byte buffer by way of a temporary file.
//!
//! The parser reads from a path, so a buffer is first written to a temporary
//! file. Writing, parsing and removing are the caller's work; what to do next,
//! and what to report in the end, is decided here.

use vstd::prelude::*;
use vstd::string::*;
use crate::cover::{cover_art_outcome, cover_encodable, extract_cover_art};
use crate::duration::{duration_outcome, get_audio_duration};
use crate::model::{AudioContainer, ExtractionError, Failure};

verus! {

/// What is to be extracted.
#[derive(Clone, Copy, Debug, PartialEq, Eq)]
pub enum Operation {
    CoverArt,
    Duration,
}

/// What was extracted.
#[derive(Debug)]
pub enum Extracted {
    /// The data URL of the cover art, if the file holds any.
    CoverArt(Option<String>),
    /// The playback duration in whole seconds.
    Duration(i64),
}

/// An `Extracted` with its text as a sequence of characters.
pub enum Yield {
    CoverArt(Option<Seq<char>>),
    Duration(int),
}

impl View for Extracted {
    type V = Yield;

    open spec fn view(&self) -> Yield {
        match *self {
            Extracted::CoverArt(Some(url)) => Yield::CoverArt(Some(url@)),
            Extracted::CoverArt(None) => Yield::CoverArt(None),
            Extracted::Duration(seconds) => Yield::Duration(seconds as int),
        }
    }
}

/// The view of what an operation reports in the end.
pub open spec fn report_view(report: Result<Extracted, ExtractionError>) -> Result<Yield, Failure> {
    match report {
        Ok(extracted) => Ok(extracted@),
        Err(error) => Err(error@),
    }
}

/// How far an operation has come.
#[derive(Debug)]
pub enum Stage {
    /// Nothing was done yet.
    Ready,
    /// The buffer is being written to the temporary file.
    Writing,
    /// The temporary file is being parsed.
    Parsing,
    /// The temporary file is being removed; holds what will be reported.
    Removing(Result<Extracted, ExtractionError>),
    /// The report was delivered.
    Finished,
}

/// A `Stage` with its texts as sequences of characters.
pub enum StageModel {
    Ready,
    Writing,
    Parsing,
    Removing(Result<Yield, Failure>),
    Finished,
}

impl View for Stage {
    type V = StageModel;

    open spec fn view(&self) -> StageModel {
        match *self {
            Stage::Ready => StageModel::Ready,
            Stage::Writing => StageModel::Writing,
            Stage::Parsing => StageModel::Parsing,
            Stage::Removing(report) => StageModel::Removing(report_view(report)),
            Stage::Finished => StageModel::Finished,
        }
    }
}

/// What the caller has done since the last step.
#[derive(Debug)]
pub enum Event {
    /// The operation was asked for.
    Begin,
    /// The write ended, with the system's words where it failed.
    Written(Result<(), String>),
    /// The parse ended, with the parser's words where it failed.
    Parsed(Result<AudioContainer, String>),
    /// The removal ended, with the system's words where it failed.
    Removed(Result<(), String>),
}

/// What the caller is to do next.
#[derive(Debug)]
pub enum Action {
    /// Write the whole buffer to the temporary file.
    Write,
    /// Parse the temporary file.
    Parse,
    /// Remove the temporary file.
    Remove,
    /// Hand this report to whoever asked; nothing is left to do.
    Deliver(Result<Extracted, ExtractionError>),
    /// The event does not belong to the stage; nothing changed.
    Reject,
}

/// An `Action` with its texts as sequences of characters.
pub enum ActionModel {
    Write,
    Parse,
    Remove,
    Deliver(Result<Yield, Failure>),
    Reject,
}

impl View for Action {
    type V = ActionModel;

    open spec fn view(&self) -> ActionModel {
        match *self {
            Action::Write => ActionModel::Write,
            Action::Parse => ActionModel::Parse,
            Action::Remove => ActionModel::Remove,
            Action::Deliver(report) => ActionModel::Deliver(report_view(report)),
            Action::Reject => ActionModel::Reject,
        }
    }
}

/// What an operation reports for the outcome of parsing the temporary file.
pub open spec fn report_of(operation: Operation, parsed: Result<AudioContainer, String>) -> Result<
    Yield,
    Failure,
> {
    match operation {
        Operation::CoverArt => match cover_art_outcome(parsed) {
            Ok(url) => Ok(Yield::CoverArt(url)),
            Err(failure) => Err(failure),
        },
        Operation::Duration => match duration_outcome(parsed) {
            Ok(seconds) => Ok(Yield::Duration(seconds)),
            Err(failure) => Err(failure),
        },
    }
}

/// The stage and the action that follow a stage and an event.
///
/// A failed write is reported at once, as nothing was created. Once the file
/// was written, it is removed before anything is reported, whatever the parse
/// gave; whether the removal itself succeeded changes nothing.
pub open spec fn step(operation: Operation, stage: StageModel, event: Event) -> (
    StageModel,
    ActionModel,
) {
    match (stage, event) {
        (StageModel::Ready, Event::Begin) => (StageModel::Writing, ActionModel::Write),
        (StageModel::Writing, Event::Written(Ok(_))) => (StageModel::Parsing, ActionModel::Parse),
        (StageModel::Writing, Event::Written(Err(cause))) => (
            StageModel::Finished,
            ActionModel::Deliver(Err(Failure::IoFailed(cause@))),
        ),
        (StageModel::Parsing, Event::Parsed(parsed)) => (
            StageModel::Removing(report_of(operation, parsed)),
            ActionModel::Remove,
        ),
        (StageModel::Removing(report), Event::Removed(_)) => (
            StageModel::Finished,
            ActionModel::Deliver(report),
        ),
        _ => (stage, ActionModel::Reject),
    }
}

/// A parsed container in the event is well formed, and the machine can hold
/// the base64 text of its cover picture.
pub open spec fn event_in_range(event: Event) -> bool {
    match event {
        Event::Parsed(Ok(container)) => container.wf() && cover_encodable(container),
        _ => true,
    }
}

/// The prefix that tells the temporary files of one operation from those of
/// the other.
pub open spec fn temp_prefix(operation: Operation) -> Seq<char> {
    match operation {
        Operation::CoverArt => "nano_cover_extract_"@,
        Operation::Duration => "nano_audio_duration_"@,
    }
}

/// The name of the temporary file for a buffer that goes by `name`.
pub fn temp_file_name(operation: Operation, name: &str) -> (file_name: String)
    ensures
        file_name@ == temp_prefix(operation) + name@,
{
    match operation {
        Operation::CoverArt => String::from_str("nano_cover_extract_").concat(name),
        Operation::Duration => String::from_str("nano_audio_duration_").concat(name),
    }
}

/// Takes one step of an operation: from the stage it is in and what the
/// caller has done, to the next stage and what the caller is to do.
pub fn advance(operation: Operation, stage: Stage, event: Event) -> (next: (Stage, Action))
    requires
        event_in_range(event),
    ensures
        (next.0@, next.1@) == step(operation, stage@, event),
{
    match (stage, event) {
        (Stage::Ready, Event::Begin) => (Stage::Writing, Action::Write),
        (Stage::Writing, Event::Written(Ok(_))) => (Stage::Parsing, Action::Parse),
        (Stage::Writing, Event::Written(Err(cause))) => (
            Stage::Finished,
            Action::Deliver(Err(ExtractionError::IoFailed(cause))),
        ),
        (Stage::Parsing, Event::Parsed(parsed)) => {
            let report = match operation {
                Operation::CoverArt => match extract_cover_art(parsed) {
                    Ok(url) => Ok(Extracted::CoverArt(url)),
                    Err(error) => Err(error),
                },
                Operation::Duration => match get_audio_duration(parsed) {
                    Ok(seconds) => Ok(Extracted::Duration(seconds)),
                    Err(error) => Err(error),
                },
            };
            (Stage::Removing(report), Action::Remove)
        },
        (Stage::Removing(report), Event::Removed(_)) => (Stage::Finished, Action::Deliver(report)),
        (stage, _) => (stage, Action::Reject),
    }
}

/// A report is delivered only for a write that failed or after the removal
/// of the temporary file, and a removal is asked for after every parse.
pub proof fn lemma_removal_precedes_report(operation: Operation, stage: StageModel, event: Event)
    ensures
        step(operation, stage, event).1 is Deliver ==> (stage is Writing && event is Written
            && event->Written_0 is Err) || (stage is Removing && event is Removed),
        stage is Parsing && event is Parsed ==> step(operation, stage, event).1 is Remove && step(
            operation,
            stage,
            event,
        ).0 is Removing,
        step(operation, stage, event).0 is Finished ==> stage is Finished || step(
            operation,
            stage,
            event,
        ).1 is Deliver,
{
}

/// What is delivered after the removal is what the parse gave, whether the
/// removal succeeded or failed.
pub proof fn lemma_removal_never_masks_report(
    operation: Operation,
    parsed: Result<AudioContainer, String>,
    removal: Result<(), String>,
)
    ensures
        ({
            let parsed_step = step(operation, StageModel::Parsing, Event::Parsed(parsed));
            let removed_step = step(operation, parsed_step.0, Event::Removed(removal));
            removed_step.1 == ActionModel::Deliver(report_of(operation, parsed))
        }),
{
}

/// Buffers that go by different names, or that serve different operations,
/// get temporary files of different names.
pub proof fn lemma_temp_names_distinct(
    first: Operation,
    first_name: Seq<char>,
    second: Operation,
    second_name: Seq<char>,
)
    requires
        first != second || first_name != second_name,
    ensures
        temp_prefix(first) + first_name != temp_prefix(second) + second_name,
{
    reveal_strlit("nano_cover_extract_");
    reveal_strlit("nano_audio_duration_");
    let a = temp_prefix(first) + first_name;
    let b = temp_prefix(second) + second_name;
    if first != second {
        assert(a[5] != b[5]);
    } else {
        let n = temp_prefix(first).len() as int;
        if a == b {
            assert(a.subrange(n, a.len() as int) =~= first_name);
            assert(b.subrange(n, b.len() as int) =~= second_name);
        }
    }
}

} // verus!
