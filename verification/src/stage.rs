//! Stage results and the errors a stage can end with, with their messages.

use vstd::prelude::*;
use vstd::string::*;
use crate::text::{decimal, digits, join, render_signed, render_unsigned};
use crate::upload::FileReport;

verus! {

/// The two operations of the build tool.
#[derive(Clone, Copy, PartialEq, Eq, Structural, Debug)]
pub enum Operation {
    Build,
    Export,
}

/// The two storage credentials.
#[derive(Clone, Copy, PartialEq, Eq, Structural, Debug)]
pub enum Credential {
    AccessKey,
    SecretKey,
}

/// Why a stage failed.
#[derive(Clone, Debug)]
pub enum StageError {
    /// The dependency did not become ready within this many seconds.
    Timeout { seconds: u64 },
    /// The process ended with a non-zero or missing exit code; `signal` is the
    /// number of the signal that ended it, where one did.
    ProcessFailure { operation: Operation, exit_code: Option<i32>, signal: Option<i32> },
    /// The process could not be started.
    LaunchFailure { detail: String },
    /// A storage credential is not configured.
    MissingCredential { credential: Credential },
    /// The storage client could not be set up.
    StorageUnavailable { detail: String },
    /// The export directory does not exist.
    MissingDirectory { directory: String },
    /// One file was not transferred.
    TransferFailure { filename: String, report: FileReport },
}

/// The outcome of one stage.
#[derive(Clone, Debug)]
pub enum StageResult {
    Success { message: Option<String> },
    Failure { error: StageError },
}

/// How an exit status reads: the exit code in decimal; without one, the
/// number of the signal that ended the process; a note where there is neither.
pub open spec fn status_text(exit_code: Option<i32>, signal: Option<i32>) -> Seq<char> {
    match exit_code {
        Some(code) => "exit status: "@ + decimal(code as int),
        None => match signal {
            Some(number) => "signal: "@ + decimal(number as int),
            None => "no exit status"@,
        },
    }
}

/// The name of an operation as it appears in messages.
pub open spec fn operation_name(operation: Operation) -> Seq<char> {
    match operation {
        Operation::Build => "build"@,
        Operation::Export => "export"@,
    }
}

/// How a failed transfer reads.
pub open spec fn transfer_text(report: FileReport) -> Seq<char> {
    match report {
        FileReport::Unreadable => "Failed to read file"@,
        FileReport::TransportFailed => "Request failed"@,
        FileReport::Responded { status } => "Upload failed with status code: "@ + digits(
            status as nat,
        ),
    }
}

/// The message of a stage error.
pub open spec fn error_message(error: StageError) -> Seq<char> {
    match error {
        StageError::Timeout { seconds } => "Docker did not become ready within "@ + digits(
            seconds as nat,
        ) + " seconds"@,
        StageError::ProcessFailure { operation, exit_code, signal } => "Lane "@
            + operation_name(operation) + " failed with exit code "@ + status_text(
            exit_code,
            signal,
        ),
        StageError::LaunchFailure { detail } => detail@,
        StageError::MissingCredential { credential } => match credential {
            Credential::AccessKey => "AWS_ACCESS_KEY_ID or TIGRIS_ACCESS_KEY_ID environment variable not set"@,
            Credential::SecretKey => "AWS_SECRET_ACCESS_KEY or TIGRIS_SECRET_ACCESS_KEY environment variable not set"@,
        },
        StageError::StorageUnavailable { detail } => detail@,
        StageError::MissingDirectory { directory } => "Export directory '"@ + directory@
            + "' does not exist"@,
        StageError::TransferFailure { filename, report } => "Failed to upload "@ + filename@
            + ": "@ + transfer_text(report),
    }
}

/// Renders an exit status.
pub fn render_status(exit_code: Option<i32>, signal: Option<i32>) -> (r: String)
    ensures
        r@ == status_text(exit_code, signal),
{
    match exit_code {
        Some(code) => {
            let number = render_signed(code);
            join("exit status: ", number.as_str())
        },
        None => match signal {
            Some(number) => {
                let text = render_signed(number);
                join("signal: ", text.as_str())
            },
            None => String::from_str("no exit status"),
        },
    }
}

/// Renders a failed transfer.
pub fn render_transfer(report: FileReport) -> (r: String)
    ensures
        r@ == transfer_text(report),
{
    match report {
        FileReport::Unreadable => String::from_str("Failed to read file"),
        FileReport::TransportFailed => String::from_str("Request failed"),
        FileReport::Responded { status } => {
            let number = render_unsigned(status as u64);
            join("Upload failed with status code: ", number.as_str())
        },
    }
}

impl Operation {
    /// The operation's name as it appears in messages and on the command line.
    pub fn name(&self) -> (r: &'static str)
        ensures
            r@ == operation_name(*self),
    {
        match self {
            Operation::Build => "build",
            Operation::Export => "export",
        }
    }
}

impl StageError {
    /// Renders the error for the response and the log.
    pub fn message(&self) -> (r: String)
        ensures
            r@ == error_message(*self),
    {
        match self {
            StageError::Timeout { seconds } => {
                let number = render_unsigned(*seconds);
                String::from_str("Docker did not become ready within ").concat(
                    number.as_str(),
                ).concat(" seconds")
            },
            StageError::ProcessFailure { operation, exit_code, signal } => {
                let status = render_status(*exit_code, *signal);
                String::from_str("Lane ").concat(operation.name()).concat(
                    " failed with exit code ",
                ).concat(status.as_str())
            },
            StageError::LaunchFailure { detail } => detail.clone(),
            StageError::MissingCredential { credential } => match credential {
                Credential::AccessKey => String::from_str(
                    "AWS_ACCESS_KEY_ID or TIGRIS_ACCESS_KEY_ID environment variable not set",
                ),
                Credential::SecretKey => String::from_str(
                    "AWS_SECRET_ACCESS_KEY or TIGRIS_SECRET_ACCESS_KEY environment variable not set",
                ),
            },
            StageError::StorageUnavailable { detail } => detail.clone(),
            StageError::MissingDirectory { directory } => String::from_str(
                "Export directory '",
            ).concat(directory.as_str()).concat("' does not exist"),
            StageError::TransferFailure { filename, report } => {
                let detail = render_transfer(*report);
                String::from_str("Failed to upload ").concat(filename.as_str()).concat(
                    ": ",
                ).concat(detail.as_str())
            },
        }
    }
}

} // verus!
