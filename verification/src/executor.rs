//! Classification of a finished external process into the structured
//! outcome/error taxonomy.
//!
//! Spawning, waiting and reaping are inherently side-effecting and live
//! outside this crate; whatever ran hands back a [`RawOutcome`], and
//! [`classify_outcome`] turns it into either an [`ExecutionOutcome`]
//! (exit code zero) or a typed [`ExecError`] that never discards the
//! captured stderr bytes.

use vstd::prelude::*;

verus! {

/// What the runner observed of the child process, before classification.
#[derive(Clone, Debug, PartialEq, Eq)]
pub enum RawOutcome {
    /// The child was spawned and exited on its own.
    Completed { code: i32, stdout: Vec<u8>, stderr: Vec<u8> },
    /// The child could not be spawned (binary not found, permission
    /// denied); the cause describes the operating-system error.
    SpawnError { cause: String },
    /// The child exceeded the caller's timeout and was terminated and
    /// reaped.
    TimedOut { stderr: Vec<u8> },
    /// The caller cancelled the wait; the child was terminated and reaped.
    Cancelled { stderr: Vec<u8> },
}

/// A successful execution: exit code zero, with captured output.
#[derive(Clone, Debug, PartialEq, Eq)]
pub struct ExecutionOutcome {
    pub exit_code: i32,
    pub stdout: Vec<u8>,
    pub stderr: Vec<u8>,
}

/// Execution failures.  Every variant that had a child process carries the
/// captured stderr bytes verbatim for caller diagnostics.
#[derive(Clone, Debug, PartialEq, Eq)]
pub enum ExecError {
    /// The binary could not be spawned at all.
    SpawnFailed { cause: String },
    /// The child exited with a nonzero code: generally a semantic
    /// rejection by the daemon, to be inspected before any retry.
    NonZeroExit { code: i32, stderr: Vec<u8> },
    /// The child exceeded the timeout and was terminated and reaped.
    TimedOut { stderr: Vec<u8> },
    /// The wait was cancelled; the child was terminated and reaped.
    Cancelled { stderr: Vec<u8> },
}

/// Model of [`classify_outcome`]: exit code zero is the only success; every
/// failure keeps its code, cause and stderr verbatim.
pub open spec fn spec_classify(raw: RawOutcome) -> Result<ExecutionOutcome, ExecError> {
    match raw {
        RawOutcome::Completed { code, stdout, stderr } => if code == 0 {
            Ok(ExecutionOutcome { exit_code: code, stdout, stderr })
        } else {
            Err(ExecError::NonZeroExit { code, stderr })
        },
        RawOutcome::SpawnError { cause } => Err(ExecError::SpawnFailed { cause }),
        RawOutcome::TimedOut { stderr } => Err(ExecError::TimedOut { stderr }),
        RawOutcome::Cancelled { stderr } => Err(ExecError::Cancelled { stderr }),
    }
}

/// Classify what the runner observed.
pub fn classify_outcome(raw: RawOutcome) -> (r: Result<ExecutionOutcome, ExecError>)
    ensures
        r == spec_classify(raw),
{
    match raw {
        RawOutcome::Completed { code, stdout, stderr } => {
            if code == 0 {
                Ok(ExecutionOutcome { exit_code: code, stdout, stderr })
            } else {
                Err(ExecError::NonZeroExit { code, stderr })
            }
        },
        RawOutcome::SpawnError { cause } => Err(ExecError::SpawnFailed { cause }),
        RawOutcome::TimedOut { stderr } => Err(ExecError::TimedOut { stderr }),
        RawOutcome::Cancelled { stderr } => Err(ExecError::Cancelled { stderr }),
    }
}

} // verus!
