//! Mapping from the caller's command's termination to this tool's own exit
//! status.
//!
//! The command runs as the process's replacement (a child whose status is
//! awaited) after privilege has been dropped. On normal termination its
//! exit code is relayed unchanged; termination by signal, a status with no
//! representable exit code, and a failure to launch at all each yield the
//! tool's distinct failure status.

use vstd::prelude::*;

verus! {

/// The status this tool exits with when it cannot relay a child's own exit
/// code: any fatal error, a signal-terminated child, or a launch failure.
pub const FAILURE_STATUS: i32 = -1;

/// How launching the caller's command ended.
#[derive(Clone, Copy, PartialEq, Eq, Structural, Debug)]
pub enum SpawnOutcome {
    /// The child ran and terminated normally with an exit code.
    Exited { code: i32 },
    /// The child ran but was terminated without a representable exit code
    /// (on the target platform: by a signal).
    SignalTerminated,
    /// The program could not be launched at all (missing, not executable).
    LaunchFailed,
}

/// The exit status owed for each way the launch can end.
pub open spec fn spec_exit_status(o: SpawnOutcome) -> int {
    match o {
        SpawnOutcome::Exited { code } => code as int,
        SpawnOutcome::SignalTerminated => FAILURE_STATUS as int,
        SpawnOutcome::LaunchFailed => FAILURE_STATUS as int,
    }
}

/// Turns the launch's outcome into the status this tool must exit with: a
/// normal exit code is propagated unchanged, everything else becomes the
/// distinct failure status.
pub fn exit_status_for(o: &SpawnOutcome) -> (r: i32)
    ensures
        r as int == spec_exit_status(*o),
{
    match o {
        SpawnOutcome::Exited { code } => *code,
        SpawnOutcome::SignalTerminated => FAILURE_STATUS,
        SpawnOutcome::LaunchFailed => FAILURE_STATUS,
    }
}

} // verus!
