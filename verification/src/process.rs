//! External processes: their arguments, and how their exit is classified.

use vstd::prelude::*;
use vstd::string::*;
use crate::stage::{Operation, StageError, StageResult};

verus! {

/// What running an external command came to.
#[derive(Clone, Debug)]
pub enum ProcessReport {
    /// The process ran and ended. `code` is absent where it ended without an
    /// exit code; `signal` is the number of the signal that ended it, where
    /// one did.
    Exited { code: Option<i32>, signal: Option<i32> },
    /// The process could not be started.
    LaunchFailed { detail: String },
}

/// A process succeeded exactly when it exited with code zero.
pub open spec fn succeeded(report: ProcessReport) -> bool {
    match report {
        ProcessReport::Exited { code, .. } => code == Some(0i32),
        ProcessReport::LaunchFailed { .. } => false,
    }
}

/// The error that a process report stands for, where it did not succeed.
pub open spec fn failure_of(operation: Operation, report: ProcessReport) -> StageError {
    match report {
        ProcessReport::Exited { code, signal } => StageError::ProcessFailure {
            operation,
            exit_code: code,
            signal,
        },
        ProcessReport::LaunchFailed { detail } => StageError::LaunchFailure { detail },
    }
}

impl ProcessReport {
    /// Tells whether the process exited with code zero.
    pub fn is_success(&self) -> (r: bool)
        ensures
            r == succeeded(*self),
    {
        match self {
            ProcessReport::Exited { code: Some(c), .. } => *c == 0,
            _ => false,
        }
    }
}

/// Classifies the end of a process: success for exit code zero, with the
/// completion message for a build; a failure carrying the exit status or the
/// launch error otherwise.
pub fn classify(operation: Operation, report: ProcessReport) -> (r: StageResult)
    ensures
        succeeded(report) ==> match r {
            StageResult::Success { message } => match operation {
                Operation::Build => message.is_some()
                    && message.unwrap()@ == "Lane build completed successfully"@,
                Operation::Export => message.is_none(),
            },
            StageResult::Failure { .. } => false,
        },
        !succeeded(report) ==> r == (StageResult::Failure {
            error: failure_of(operation, report),
        }),
{
    if report.is_success() {
        match operation {
            Operation::Build => StageResult::Success {
                message: Some(String::from_str("Lane build completed successfully")),
            },
            Operation::Export => StageResult::Success { message: None },
        }
    } else {
        match report {
            ProcessReport::Exited { code, signal } => StageResult::Failure {
                error: StageError::ProcessFailure { operation, exit_code: code, signal },
            },
            ProcessReport::LaunchFailed { detail } => StageResult::Failure {
                error: StageError::LaunchFailure { detail },
            },
        }
    }
}

/// The arguments of the build operation for an image reference:
/// `build prod --image <image>`.
pub fn build_arguments(image: &str) -> (r: Vec<String>)
    ensures
        r@.len() == 4,
        r@[0]@ == "build"@,
        r@[1]@ == "prod"@,
        r@[2]@ == "--image"@,
        r@[3]@ == image@,
{
    let mut r: Vec<String> = Vec::new();
    r.push(String::from_str("build"));
    r.push(String::from_str("prod"));
    r.push(String::from_str("--image"));
    r.push(String::from_str(image));
    r
}

/// The arguments of the export operation into a directory:
/// `export prod <directory>`.
pub fn export_arguments(directory: &str) -> (r: Vec<String>)
    ensures
        r@.len() == 3,
        r@[0]@ == "export"@,
        r@[1]@ == "prod"@,
        r@[2]@ == directory@,
{
    let mut r: Vec<String> = Vec::new();
    r.push(String::from_str("export"));
    r.push(String::from_str("prod"));
    r.push(String::from_str(directory));
    r
}

} // verus!
