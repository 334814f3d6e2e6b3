//! The outcome classifier and the executor's decisions: how one raw exit
//! status, the captured output, and the timeout race become a typed result.

use vstd::prelude::*;

verus! {

/// The signal whose delivery is positively attributable to a sandbox
/// denial: the filter kills the process with it only on a policy violation.
pub const DENIAL_SIGNAL: i32 = 31;

/// What the operating system reports for a finished process.
#[derive(Clone, Copy, PartialEq, Eq, Structural, Debug)]
pub enum RawExitStatus {
    Exited { code: i32 },
    Signaled { signal: i32 },
}

impl RawExitStatus {
    /// Statuses the operating system can actually report: signals are small
    /// positive numbers.
    pub open spec fn well_formed(&self) -> bool {
        match self {
            RawExitStatus::Exited { .. } => true,
            RawExitStatus::Signaled { signal } => 1 <= *signal <= 64,
        }
    }

    /// The exit code reported to callers: a signal death is folded into the
    /// conventional 128-plus-signal code.
    pub open spec fn spec_exit_code(&self) -> i32 {
        match self {
            RawExitStatus::Exited { code } => *code,
            RawExitStatus::Signaled { signal } => (128 + *signal) as i32,
        }
    }

    pub fn exit_code(&self) -> (c: i32)
        requires
            self.well_formed(),
        ensures
            c == self.spec_exit_code(),
    {
        match self {
            RawExitStatus::Exited { code } => *code,
            RawExitStatus::Signaled { signal } => 128 + *signal,
        }
    }
}

/// A finished command: its exit code and the captured output texts.
pub struct ExecOutput {
    pub exit_code: i32,
    pub stdout: String,
    pub stderr: String,
}

/// Why the helper could not be launched under restrictions; the call fails
/// closed rather than running unconfined.
#[derive(Clone, Copy, PartialEq, Eq, Structural, Debug)]
pub enum SetupFailureKind {
    /// The trusted helper binary is missing.
    HelperMissing,
    /// The trusted helper exists but could not be launched.
    HelperLaunchFailed,
    /// The kernel's filesystem access-control facility is unavailable or
    /// rule installation failed.
    FilesystemRulesUnavailable,
    /// The kernel's syscall-filter facility is unavailable although the
    /// policy requires it.
    SyscallFilterUnavailable,
}

/// The error taxonomy of a sandboxed run.
pub enum SandboxExecError {
    /// A violation positively attributable to the sandbox, with the output
    /// captured up to that point.
    Denied { output: ExecOutput },
    /// The configured deadline elapsed and the process group was
    /// terminated, with the output captured before termination.
    Timeout { output: ExecOutput },
    /// Restrictions could not be applied; nothing was executed.
    SetupFailure { kind: SetupFailureKind },
}

/// Whether a status is positively attributable to a sandbox denial: only
/// death by the filter's dedicated signal is.
pub open spec fn is_denial_status(status: RawExitStatus) -> bool {
    match status {
        RawExitStatus::Exited { .. } => false,
        RawExitStatus::Signaled { signal } => signal == DENIAL_SIGNAL,
    }
}

/// Classifies one finished run. A timeout always reports the Timeout kind;
/// a denial-attributable signal reports Denied; everything else is an
/// ordinary completion, non-zero exit codes included, since a filtered
/// syscall usually surfaces as an ordinary library error.
pub open spec fn classify_model(
    status: RawExitStatus,
    output: ExecOutput,
    timed_out: bool,
) -> Result<ExecOutput, SandboxExecError> {
    if timed_out {
        Result::Err(SandboxExecError::Timeout { output })
    } else if is_denial_status(status) {
        Result::Err(SandboxExecError::Denied { output })
    } else {
        Result::Ok(output)
    }
}

/// Classifies one finished run; see [`classify_model`].
pub fn classify(status: RawExitStatus, output: ExecOutput, timed_out: bool) -> (r: Result<
    ExecOutput,
    SandboxExecError,
>)
    ensures
        r == classify_model(status, output, timed_out),
        timed_out ==> r == Result::<ExecOutput, SandboxExecError>::Err(
            SandboxExecError::Timeout { output },
        ),
{
    if timed_out {
        Result::Err(SandboxExecError::Timeout { output })
    } else {
        let denial = match &status {
            RawExitStatus::Exited { .. } => false,
            RawExitStatus::Signaled { signal } => *signal == DENIAL_SIGNAL,
        };
        if denial {
            Result::Err(SandboxExecError::Denied { output })
        } else {
            Result::Ok(output)
        }
    }
}

} // verus!
