//! What a run of the external tool can produce, and the errors derived from it.
use vstd::prelude::*;

verus! {

/// Raw outcome of one invocation of the external tool.
#[derive(Debug)]
pub enum RunOutcome {
    /// The process ran to completion. `status` is its exit code, absent when
    /// the process was ended by a signal.
    Exited { status: Option<i32>, stdout: String, stderr: String },
    /// The process could not be started at all.
    LaunchFailed { message: String },
}

/// Tagged failure of an invocation.
#[derive(Debug)]
pub enum CommandError {
    /// The tool exited unsuccessfully; `stderr` is its standard error, verbatim.
    Status { status: Option<i32>, stderr: String },
    /// The tool could not be started.
    Launch { message: String },
    /// The tool's output did not have the expected shape.
    Parse { text: String },
}

/// A command error together with a human-readable description of the intent
/// that failed.
#[derive(Debug)]
pub struct ContextError {
    pub context: String,
    pub cause: CommandError,
}

/// Whether an exit code counts as success.
pub open spec fn is_success_status(status: Option<i32>) -> bool {
    status == Some(0i32)
}

impl RunOutcome {
    /// Whether the outcome is a successful completion.
    pub open spec fn spec_succeeded(&self) -> bool {
        match self {
            RunOutcome::Exited { status, .. } => is_success_status(*status),
            RunOutcome::LaunchFailed { .. } => false,
        }
    }

    /// The error that an unsuccessful outcome is reported as.
    pub open spec fn spec_error(self) -> CommandError {
        match self {
            RunOutcome::Exited { status, stderr, .. } => CommandError::Status { status, stderr },
            RunOutcome::LaunchFailed { message } => CommandError::Launch { message },
        }
    }

    #[verifier::when_used_as_spec(spec_succeeded)]
    pub fn succeeded(&self) -> (r: bool)
        ensures
            r == self.spec_succeeded(),
    {
        match self {
            RunOutcome::Exited { status, .. } => match status {
                Some(code) => *code == 0,
                None => false,
            },
            RunOutcome::LaunchFailed { .. } => false,
        }
    }

    /// An exact copy of the outcome.
    pub fn duplicate(&self) -> (r: RunOutcome)
        ensures
            r == *self,
    {
        match self {
            RunOutcome::Exited { status, stdout, stderr } => RunOutcome::Exited {
                status: *status,
                stdout: stdout.clone(),
                stderr: stderr.clone(),
            },
            RunOutcome::LaunchFailed { message } => RunOutcome::LaunchFailed {
                message: message.clone(),
            },
        }
    }

    /// The error this outcome is reported as: the exit code and standard error
    /// of a completed process, or the launch failure.
    pub fn into_error(self) -> (r: CommandError)
        ensures
            r == self.spec_error(),
    {
        match self {
            RunOutcome::Exited { status, stderr, .. } => CommandError::Status { status, stderr },
            RunOutcome::LaunchFailed { message } => CommandError::Launch { message },
        }
    }
}

impl ContextError {
    /// Attach `context` to `cause`.
    pub fn new(context: &str, cause: CommandError) -> (r: ContextError)
        ensures
            r.context@ == context@,
            r.cause == cause,
    {
        ContextError { context: String::from_str(context), cause }
    }
}

} // verus!
