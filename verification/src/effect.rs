//! The vocabulary between this crate and its driver: what the driver is asked
//! to do, and what it reports back.

use crate::error::{result_model, ErrorModel, PipelineError};
use crate::text::{bytes_model, decode_text, text_of};
use vstd::prelude::*;

verus! {

/// One piece of work for the driver.
#[derive(Debug, Clone, PartialEq, Eq)]
pub enum Effect {
    /// Read the whole file at `path`; answered by [`Outcome::FileRead`].
    ReadFile { path: Vec<u8> },
    /// Delete the file at `path`; answered by [`Outcome::FileRemoved`].
    RemoveFile { path: Vec<u8> },
    /// Find out whether anything exists at `path`; answered by [`Outcome::FileProbed`].
    ProbeFile { path: Vec<u8> },
    /// Create the file at `path`, write `contents` to it and flush it;
    /// answered by [`Outcome::FileWritten`].
    WriteFile { path: Vec<u8>, contents: Vec<u8> },
    /// Run `program` on this host with `arguments`, one argument each, and
    /// capture what it prints; answered by [`Outcome::Ran`].
    RunLocal { program: String, arguments: Vec<String> },
    /// Open a session to `destination` with strict host-key checking, run
    /// `program` there with `arguments`, capture what it prints, and close the
    /// session; answered by [`Outcome::Ran`].
    RunRemote { destination: String, program: String, arguments: Vec<String> },
    /// Wait for `millis` milliseconds, or until cancelled; answered by
    /// [`Outcome::Slept`] or [`Outcome::Cancelled`].
    Sleep { millis: u64 },
}

/// What a command printed.
#[derive(Debug, Clone, PartialEq, Eq)]
pub struct Captured {
    pub stdout: Vec<u8>,
    pub stderr: Vec<u8>,
}

/// How running a command went.
#[derive(Debug, Clone, PartialEq, Eq)]
pub enum CommandReport {
    /// No session to the remote host could be opened.
    NotConnected,
    /// The command could not be started, or its output could not be collected.
    NotRun,
    /// The command ran. `closed` tells whether the session was closed cleanly
    /// afterwards; for a local command it is `true`.
    Completed { output: Captured, closed: bool },
}

/// The driver's report on the effect it was handed last.
#[derive(Debug, Clone, PartialEq, Eq)]
pub enum Outcome {
    /// The file's contents, or `None` if it could not be read.
    FileRead(Option<Vec<u8>>),
    /// Whether the file was deleted.
    FileRemoved(bool),
    /// Whether something exists at the path, or `None` if that could not be told.
    FileProbed(Option<bool>),
    /// Whether the file was created, written and flushed.
    FileWritten(bool),
    /// How the command went.
    Ran(CommandReport),
    /// The wait is over.
    Slept,
    /// The wait was cancelled from outside.
    Cancelled,
}

/// The mathematical value of an [`Effect`].
pub enum EffectModel {
    ReadFile { path: Seq<u8> },
    RemoveFile { path: Seq<u8> },
    ProbeFile { path: Seq<u8> },
    WriteFile { path: Seq<u8>, contents: Seq<u8> },
    RunLocal { program: Seq<char>, arguments: Seq<Seq<char>> },
    RunRemote { destination: Seq<char>, program: Seq<char>, arguments: Seq<Seq<char>> },
    Sleep { millis: u64 },
}

/// The mathematical value of a [`Captured`].
pub struct CapturedModel {
    pub stdout: Seq<u8>,
    pub stderr: Seq<u8>,
}

/// The mathematical value of a [`CommandReport`].
pub enum CommandReportModel {
    NotConnected,
    NotRun,
    Completed { output: CapturedModel, closed: bool },
}

/// The mathematical value of an [`Outcome`].
pub enum OutcomeModel {
    FileRead(Option<Seq<u8>>),
    FileRemoved(bool),
    FileProbed(Option<bool>),
    FileWritten(bool),
    Ran(CommandReportModel),
    Slept,
    Cancelled,
}

impl DeepView for Effect {
    type V = EffectModel;

    open spec fn deep_view(&self) -> EffectModel {
        match self {
            Effect::ReadFile { path } => EffectModel::ReadFile { path: path@ },
            Effect::RemoveFile { path } => EffectModel::RemoveFile { path: path@ },
            Effect::ProbeFile { path } => EffectModel::ProbeFile { path: path@ },
            Effect::WriteFile { path, contents } => EffectModel::WriteFile {
                path: path@,
                contents: contents@,
            },
            Effect::RunLocal { program, arguments } => EffectModel::RunLocal {
                program: program@,
                arguments: arguments.deep_view(),
            },
            Effect::RunRemote { destination, program, arguments } => EffectModel::RunRemote {
                destination: destination@,
                program: program@,
                arguments: arguments.deep_view(),
            },
            Effect::Sleep { millis } => EffectModel::Sleep { millis: *millis },
        }
    }
}

impl View for Effect {
    type V = EffectModel;

    open spec fn view(&self) -> EffectModel {
        self.deep_view()
    }
}

impl DeepView for Captured {
    type V = CapturedModel;

    open spec fn deep_view(&self) -> CapturedModel {
        CapturedModel { stdout: self.stdout@, stderr: self.stderr@ }
    }
}

impl View for Captured {
    type V = CapturedModel;

    open spec fn view(&self) -> CapturedModel {
        self.deep_view()
    }
}

impl DeepView for CommandReport {
    type V = CommandReportModel;

    open spec fn deep_view(&self) -> CommandReportModel {
        match self {
            CommandReport::NotConnected => CommandReportModel::NotConnected,
            CommandReport::NotRun => CommandReportModel::NotRun,
            CommandReport::Completed { output, closed } => CommandReportModel::Completed {
                output: output@,
                closed: *closed,
            },
        }
    }
}

impl View for CommandReport {
    type V = CommandReportModel;

    open spec fn view(&self) -> CommandReportModel {
        self.deep_view()
    }
}

impl DeepView for Outcome {
    type V = OutcomeModel;

    open spec fn deep_view(&self) -> OutcomeModel {
        match self {
            Outcome::FileRead(contents) => OutcomeModel::FileRead(bytes_model(*contents)),
            Outcome::FileRemoved(done) => OutcomeModel::FileRemoved(*done),
            Outcome::FileProbed(found) => OutcomeModel::FileProbed(*found),
            Outcome::FileWritten(done) => OutcomeModel::FileWritten(*done),
            Outcome::Ran(report) => OutcomeModel::Ran(report@),
            Outcome::Slept => OutcomeModel::Slept,
            Outcome::Cancelled => OutcomeModel::Cancelled,
        }
    }
}

impl View for Outcome {
    type V = OutcomeModel;

    open spec fn view(&self) -> OutcomeModel {
        self.deep_view()
    }
}

/// What a command printed, as text.
#[derive(Debug, Clone, PartialEq, Eq)]
pub struct CapturedText {
    pub stdout: String,
    pub stderr: String,
}

/// The mathematical value of a [`CapturedText`].
pub struct CapturedTextModel {
    pub stdout: Seq<char>,
    pub stderr: Seq<char>,
}

impl DeepView for CapturedText {
    type V = CapturedTextModel;

    open spec fn deep_view(&self) -> CapturedTextModel {
        CapturedTextModel { stdout: self.stdout@, stderr: self.stderr@ }
    }
}

impl View for CapturedText {
    type V = CapturedTextModel;

    open spec fn view(&self) -> CapturedTextModel {
        self.deep_view()
    }
}

/// What a command printed, read as text: a connection failure unless the
/// outcome reports a command that ran, an encoding failure unless both of its
/// streams are UTF-8. Whether the session closed cleanly plays no part.
pub open spec fn printed(outcome: OutcomeModel) -> Result<CapturedTextModel, ErrorModel> {
    match outcome {
        OutcomeModel::Ran(CommandReportModel::Completed { output, closed }) => {
            match (text_of(output.stdout), text_of(output.stderr)) {
                (Some(stdout), Some(stderr)) => Ok(CapturedTextModel { stdout, stderr }),
                _ => Err(ErrorModel::InvalidEncoding),
            }
        },
        _ => Err(ErrorModel::ConnectionFailure),
    }
}

/// Reads what a command printed as text.
pub fn captured_text(outcome: Outcome) -> (res: Result<CapturedText, PipelineError>)
    ensures
        result_model(res) == printed(outcome@),
{
    match outcome {
        Outcome::Ran(CommandReport::Completed { output, closed: _ }) => {
            let Captured { stdout, stderr } = output;
            let stdout_text = match decode_text(stdout) {
                Some(text) => text,
                None => { return Err(PipelineError::InvalidEncoding); },
            };
            let stderr_text = match decode_text(stderr) {
                Some(text) => text,
                None => { return Err(PipelineError::InvalidEncoding); },
            };
            Ok(CapturedText { stdout: stdout_text, stderr: stderr_text })
        },
        _ => Err(PipelineError::ConnectionFailure),
    }
}

/// A session that did not close cleanly changes nothing about what was printed.
pub proof fn unclean_close_is_not_fatal(output: CapturedModel)
    ensures
        printed(OutcomeModel::Ran(CommandReportModel::Completed { output, closed: false }))
            == printed(OutcomeModel::Ran(CommandReportModel::Completed { output, closed: true })),
{
}

} // verus!
