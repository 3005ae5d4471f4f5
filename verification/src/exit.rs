//! How a run of the shell ends.

use vstd::prelude::*;

verus! {

/// The two ways a run can end.
#[derive(Clone, Copy, Debug, PartialEq, Eq, Structural, Hash)]
pub enum RunOutcome {
    /// The window opened and was later closed by the user.
    Closed,
    /// The windowing or rendering subsystem could not be initialised, so no
    /// window ever appeared.
    StartupFailed,
}

/// The process exit status owed to each outcome.
pub open spec fn exit_code_spec(outcome: RunOutcome) -> u8 {
    match outcome {
        RunOutcome::Closed => 0u8,
        RunOutcome::StartupFailed => 1u8,
    }
}

/// The exit status with which the process reports `outcome`.
pub fn exit_code(outcome: RunOutcome) -> (code: u8)
    ensures
        code == exit_code_spec(outcome),
{
    match outcome {
        RunOutcome::Closed => 0u8,
        RunOutcome::StartupFailed => 1u8,
    }
}

/// A run exits with status zero exactly when its window was opened and closed
/// normally; a failed start always yields a non-zero status.
pub proof fn lemma_exit_code_zero_iff_closed(outcome: RunOutcome)
    ensures
        exit_code_spec(outcome) == 0 <==> outcome == RunOutcome::Closed,
{
}

} // verus!
