//! The sandboxed executor's decisions. The process work itself — launching
//! the trusted helper, draining the output streams, running the timer —
//! happens outside this crate; the decisions of that loop are functions
//! here, so that the loop only performs the action each decision names.

use vstd::prelude::*;

use crate::outcome::{classify, classify_model, ExecOutput, RawExitStatus};
use crate::outcome::{SandboxExecError, SetupFailureKind};

verus! {

/// What the launcher found while preparing the restricted helper.
#[derive(Clone, Copy, PartialEq, Eq, Structural, Debug)]
pub struct SetupProbe {
    /// The trusted helper binary exists at its configured path.
    pub helper_found: bool,
    /// The kernel's filesystem access-control facility accepted the rules.
    pub fs_rules_applied: bool,
    /// The policy denies network access, so a syscall filter is required.
    pub net_filter_required: bool,
    /// The kernel's syscall-filter facility accepted the filter.
    pub net_filter_applied: bool,
}

/// Whether a probe shows every required restriction in place.
pub open spec fn setup_complete(probe: SetupProbe) -> bool {
    probe.helper_found && probe.fs_rules_applied && (probe.net_filter_required
        ==> probe.net_filter_applied)
}

/// Decides whether execution may proceed: only when the helper exists and
/// every required restriction was applied. Anything less fails closed with
/// the reason, and nothing is executed.
pub fn setup_decision(probe: SetupProbe) -> (r: Result<(), SandboxExecError>)
    ensures
        r is Ok <==> setup_complete(probe),
        !probe.helper_found ==> r == Result::<(), SandboxExecError>::Err(
            SandboxExecError::SetupFailure { kind: SetupFailureKind::HelperMissing },
        ),
        probe.helper_found && !probe.fs_rules_applied ==> r == Result::<(), SandboxExecError>::Err(
            SandboxExecError::SetupFailure { kind: SetupFailureKind::FilesystemRulesUnavailable },
        ),
        probe.helper_found && probe.fs_rules_applied && probe.net_filter_required
            && !probe.net_filter_applied ==> r == Result::<(), SandboxExecError>::Err(
            SandboxExecError::SetupFailure { kind: SetupFailureKind::SyscallFilterUnavailable },
        ),
{
    if !probe.helper_found {
        Result::Err(SandboxExecError::SetupFailure { kind: SetupFailureKind::HelperMissing })
    } else if !probe.fs_rules_applied {
        Result::Err(
            SandboxExecError::SetupFailure {
                kind: SetupFailureKind::FilesystemRulesUnavailable,
            },
        )
    } else if probe.net_filter_required && !probe.net_filter_applied {
        Result::Err(
            SandboxExecError::SetupFailure { kind: SetupFailureKind::SyscallFilterUnavailable },
        )
    } else {
        Result::Ok(())
    }
}

/// Whether the timer fires: only a configured deadline can expire, and only
/// once the elapsed time reaches it.
pub open spec fn deadline_expired(timeout_ms: Option<u64>, elapsed_ms: u64) -> bool {
    match timeout_ms {
        Option::Some(t) => elapsed_ms >= t,
        Option::None => false,
    }
}

/// Decides the timeout race for one poll of the running child.
pub fn timer_fires(timeout_ms: Option<u64>, elapsed_ms: u64) -> (r: bool)
    ensures
        r == deadline_expired(timeout_ms, elapsed_ms),
{
    match timeout_ms {
        Option::Some(t) => elapsed_ms >= t,
        Option::None => false,
    }
}

/// What the executor observes: either the child finished, or the timer won
/// the race while the child was still running.
pub enum ChildEvent {
    Finished { status: RawExitStatus, output: ExecOutput },
    TimerExpired { output: ExecOutput },
}

/// The process-level action the loop must take next.
#[derive(Clone, Copy, PartialEq, Eq, Structural, Debug)]
pub enum ExecAction {
    /// Return the result; the child is gone.
    Report,
    /// Kill the entire process group — descendants included — then return
    /// the result.
    KillProcessGroup,
}

/// What concluding a run yields for each event: a timer expiry terminates
/// the process group and reports the Timeout kind with the output captured
/// so far; a finished child is classified.
pub open spec fn conclude_model(event: ChildEvent) -> (ExecAction, Result<
    ExecOutput,
    SandboxExecError,
>) {
    match event {
        ChildEvent::TimerExpired { output } => (
            ExecAction::KillProcessGroup,
            Result::Err(SandboxExecError::Timeout { output }),
        ),
        ChildEvent::Finished { status, output } => (
            ExecAction::Report,
            classify_model(status, output, false),
        ),
    }
}

/// Concludes one run from the event that won the race; see
/// [`conclude_model`].
pub fn conclude(event: ChildEvent) -> (r: (ExecAction, Result<ExecOutput, SandboxExecError>))
    ensures
        r == conclude_model(event),
{
    match event {
        ChildEvent::TimerExpired { output } => (
            ExecAction::KillProcessGroup,
            Result::Err(SandboxExecError::Timeout { output }),
        ),
        ChildEvent::Finished { status, output } => (
            ExecAction::Report,
            classify(status, output, false),
        ),
    }
}

/// A command that runs past its configured deadline is reported through the
/// Timeout kind, never as an ordinary completion: once the deadline has
/// expired the timer fires, and the conclusion of the expiry is the
/// process-group kill together with a Timeout result carrying the captured
/// output — not an Ok result, whatever the exit code would have been.
pub proof fn lemma_timeout_reported_as_timeout(timeout_ms: u64, elapsed_ms: u64, output: ExecOutput)
    requires
        elapsed_ms >= timeout_ms,
    ensures
        deadline_expired(Option::Some(timeout_ms), elapsed_ms),
        conclude_model(ChildEvent::TimerExpired { output }).0 == ExecAction::KillProcessGroup,
        !(conclude_model(ChildEvent::TimerExpired { output }).1 is Ok),
        conclude_model(ChildEvent::TimerExpired { output }).1 == Result::<
            ExecOutput,
            SandboxExecError,
        >::Err(SandboxExecError::Timeout { output }),
{
}

} // verus!
