//! The ways in which a pipeline run can fail.

use vstd::prelude::*;

verus! {

/// Why an operation of the pipeline failed.
#[derive(Debug, Clone, PartialEq, Eq)]
pub enum PipelineError {
    /// A local file could not be read, removed or written.
    IoFailure,
    /// The input file's name has no extension.
    MissingExtension,
    /// A file name component or the output of a command is not UTF-8.
    InvalidEncoding,
    /// A transfer was asked for between two local paths.
    InvalidEndpointPairing,
    /// The remote copy wrote diagnostics; they are carried along.
    TransferFailed(String),
    /// The scheduler wrote diagnostics on submission; they are carried along.
    SubmissionFailed(String),
    /// The scheduler's job identifier holds no `.`.
    MalformedJobId,
    /// The remote host could not be reached, or the command could not be run.
    ConnectionFailure,
    /// The deadline passed, or the wait was cancelled, before the output appeared.
    PollTimedOut,
}

/// The mathematical value of a [`PipelineError`]: diagnostics as character sequences.
pub enum ErrorModel {
    IoFailure,
    MissingExtension,
    InvalidEncoding,
    InvalidEndpointPairing,
    TransferFailed(Seq<char>),
    SubmissionFailed(Seq<char>),
    MalformedJobId,
    ConnectionFailure,
    PollTimedOut,
}

impl DeepView for PipelineError {
    type V = ErrorModel;

    open spec fn deep_view(&self) -> ErrorModel {
        match self {
            PipelineError::IoFailure => ErrorModel::IoFailure,
            PipelineError::MissingExtension => ErrorModel::MissingExtension,
            PipelineError::InvalidEncoding => ErrorModel::InvalidEncoding,
            PipelineError::InvalidEndpointPairing => ErrorModel::InvalidEndpointPairing,
            PipelineError::TransferFailed(diagnostics) => ErrorModel::TransferFailed(diagnostics@),
            PipelineError::SubmissionFailed(diagnostics) => ErrorModel::SubmissionFailed(
                diagnostics@,
            ),
            PipelineError::MalformedJobId => ErrorModel::MalformedJobId,
            PipelineError::ConnectionFailure => ErrorModel::ConnectionFailure,
            PipelineError::PollTimedOut => ErrorModel::PollTimedOut,
        }
    }
}

impl View for PipelineError {
    type V = ErrorModel;

    open spec fn view(&self) -> ErrorModel {
        self.deep_view()
    }
}

/// What is said of a failure: a sentence for its kind, followed by the
/// diagnostics where it carries any.
pub open spec fn description(error: ErrorModel) -> Seq<char> {
    match error {
        ErrorModel::IoFailure => "A local file could not be read, removed or written!"@,
        ErrorModel::MissingExtension => "File was missing an extension!"@,
        ErrorModel::InvalidEncoding => "A file name or the output of a command was invalid UTF-8!"@,
        ErrorModel::InvalidEndpointPairing => "Must have differing SSHPath types!"@,
        ErrorModel::TransferFailed(diagnostics) => "Got error output: "@ + diagnostics,
        ErrorModel::SubmissionFailed(diagnostics) => "Server had `stderr`: "@ + diagnostics,
        ErrorModel::MalformedJobId => "Missing job number! Ensure the Job ID is in the form <n>.cm!"@,
        ErrorModel::ConnectionFailure => "The remote host could not be reached, or the command could not be run!"@,
        ErrorModel::PollTimedOut => "Gave up waiting for the output!"@,
    }
}

impl PipelineError {
    /// Says what went wrong, for a person to read.
    pub fn describe(&self) -> (text: String)
        ensures
            text@ == description(self@),
    {
        match self {
            PipelineError::IoFailure => String::from_str(
                "A local file could not be read, removed or written!",
            ),
            PipelineError::MissingExtension => String::from_str("File was missing an extension!"),
            PipelineError::InvalidEncoding => String::from_str(
                "A file name or the output of a command was invalid UTF-8!",
            ),
            PipelineError::InvalidEndpointPairing => String::from_str(
                "Must have differing SSHPath types!",
            ),
            PipelineError::TransferFailed(diagnostics) => {
                let mut text = String::from_str("Got error output: ");
                text.append(diagnostics.as_str());
                text
            },
            PipelineError::SubmissionFailed(diagnostics) => {
                let mut text = String::from_str("Server had `stderr`: ");
                text.append(diagnostics.as_str());
                text
            },
            PipelineError::MalformedJobId => String::from_str(
                "Missing job number! Ensure the Job ID is in the form <n>.cm!",
            ),
            PipelineError::ConnectionFailure => String::from_str(
                "The remote host could not be reached, or the command could not be run!",
            ),
            PipelineError::PollTimedOut => String::from_str("Gave up waiting for the output!"),
        }
    }
}

/// The mathematical value of a `Result`: that of what it holds.
pub open spec fn result_model<T: DeepView, E: DeepView>(result: Result<T, E>) -> Result<T::V, E::V> {
    match result {
        Ok(value) => Ok(value.deep_view()),
        Err(error) => Err(error.deep_view()),
    }
}

} // verus!
