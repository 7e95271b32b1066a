//! Per-stage error taxonomy of the measurement pipeline.
//!
//! Every error is fatal: the pipeline fails fast, aborting the whole
//! run at the first failed stage with no retry and no partial report.

use vstd::prelude::*;
use vstd::string::StringExecFns;

verus! {

/// The stage at which a measurement run failed. Each variant names
/// one stage of the pipeline; the policy for all of them is the same:
/// abort immediately.
#[derive(Clone, Copy, Debug, PartialEq, Eq, Structural)]
pub enum MeasureError {
    /// No reachable target, or the probe connection was denied.
    Attach,
    /// Writing the artifact's image into program memory failed.
    Flash,
    /// The core did not halt within the bounded wait at a
    /// synchronization point: the firmware missed a marker.
    Timeout,
    /// Reading the cycle counter register failed.
    RegisterRead,
    /// The probe rejected or failed an execution-control command
    /// (clear breakpoints, reset, run).
    Probe,
    /// Symbolic exploration failed: unresolved entry symbol,
    /// unsupported instruction, exploration fault, or an entry symbol
    /// with zero explored paths.
    SymbolicExecution,
    /// The corrected counter decrease was negative: the calibration
    /// offset or the instrumentation protocol was violated.
    Calibration,
}

impl MeasureError {
    /// A short human-readable description of the failed stage.
    pub fn message(&self) -> (s: String)
        ensures
            s@.len() > 0,
    {
        let text: &'static str = match self {
            MeasureError::Attach => "could not attach to the target",
            MeasureError::Flash => "could not flash the artifact image",
            MeasureError::Timeout => "core did not halt at a synchronization point",
            MeasureError::RegisterRead => "could not read the cycle counter register",
            MeasureError::Probe => "probe failed an execution-control command",
            MeasureError::SymbolicExecution => "symbolic exploration of the entry symbol failed",
            MeasureError::Calibration => "negative corrected cycle count",
        };
        proof {
            reveal_strlit("could not attach to the target");
            reveal_strlit("could not flash the artifact image");
            reveal_strlit("core did not halt at a synchronization point");
            reveal_strlit("could not read the cycle counter register");
            reveal_strlit("probe failed an execution-control command");
            reveal_strlit("symbolic exploration of the entry symbol failed");
            reveal_strlit("negative corrected cycle count");
        }
        String::from_str(text)
    }
}

} // verus!
