//! The hardware cycle sampler: a state machine over one core handle.
//!
//! One measurement drives the core through a strictly sequential
//! protocol: halt it into a known quiescent state and clear stale
//! breakpoints, reset it so firmware configuration re-executes, wait
//! for the halt produced by the firmware's first trap instruction and
//! sample the cycle counter there, resume, wait for the halt produced
//! by the second trap instruction and sample the counter again, then
//! compute the calibrated elapsed cycles.
//!
//! The machine here makes every decision; the application performs
//! each requested probe command against the physical core and hands
//! back the outcome. Any failure at any step is fatal: the machine
//! moves to a failed state and requests nothing further. Every
//! bounded wait uses the same timeout; exceeding it means the
//! firmware missed a synchronization marker.

use vstd::prelude::*;
use crate::cycles::{hardware_cycles, well_calibrated, checked_hardware_cycles};
use crate::errors::MeasureError;

verus! {

/// Bounded wait, in milliseconds, for every halt synchronization
/// point of the protocol.
pub const HALT_TIMEOUT_MS: u64 = 500;

/// One execution-control command for the application to issue
/// against the core through the debug probe.
#[derive(Clone, Copy, Debug, PartialEq, Eq, Structural)]
pub enum ProbeCommand {
    /// Halt the core, waiting at most `HALT_TIMEOUT_MS`.
    Halt,
    /// Clear every hardware breakpoint left by prior runs.
    ClearBreakpoints,
    /// Reset the core; it re-enters the reset vector.
    Reset,
    /// Wait at most `HALT_TIMEOUT_MS` for the core to halt at a
    /// firmware trap instruction.
    WaitForHalt,
    /// Read the raw 32-bit cycle counter register.
    ReadCycleCounter,
    /// Resume execution.
    Run,
}

/// What the application observed when it performed the pending
/// command.
#[derive(Clone, Copy, Debug, PartialEq, Eq, Structural)]
pub enum StepOutcome {
    /// The command finished successfully and produced no value.
    Completed,
    /// The command was a counter read and returned this raw
    /// register value.
    Sampled { raw: u32 },
    /// The command failed; the application classified the failure.
    Failed { error: MeasureError },
}

/// The sampler's position in the measurement protocol. States before
/// the first counter sample carry no data; once the start of the
/// measured region has been sampled, its raw counter value is carried
/// through to the final computation.
#[derive(Clone, Copy, Debug, PartialEq, Eq, Structural)]
pub enum SamplerState {
    /// Halting the core into a known quiescent state.
    Halting,
    /// Clearing breakpoints left over from prior run history.
    ClearingBreakpoints,
    /// Issuing the core reset.
    Resetting,
    /// Waiting for the halt at the firmware's first trap
    /// instruction: the start marker of the measured region.
    AwaitingStartMarker,
    /// Halted at the start marker; sampling the cycle counter.
    SamplingStart,
    /// Start sample taken; resuming execution of the measured
    /// region.
    Resuming { start_raw: u32 },
    /// Waiting for the halt at the firmware's second trap
    /// instruction: the end marker of the measured region.
    AwaitingEndMarker { start_raw: u32 },
    /// Halted at the end marker; sampling the cycle counter again.
    SamplingEnd { start_raw: u32 },
    /// Measurement complete: the calibrated elapsed cycle count.
    Done { cycles: u64 },
    /// Measurement aborted at some step; no further command is
    /// requested.
    Failed { error: MeasureError },
}

/// Whether the machine has finished, successfully or not.
pub open spec fn is_terminal(s: SamplerState) -> bool {
    s is Done || s is Failed
}

/// The state every measurement starts from.
pub open spec fn initial_state() -> SamplerState {
    SamplerState::Halting
}

/// The command the machine wants performed in state `s`; `None` in
/// the terminal states.
pub open spec fn spec_command_of(s: SamplerState) -> Option<ProbeCommand> {
    match s {
        SamplerState::Halting => Some(ProbeCommand::Halt),
        SamplerState::ClearingBreakpoints => Some(ProbeCommand::ClearBreakpoints),
        SamplerState::Resetting => Some(ProbeCommand::Reset),
        SamplerState::AwaitingStartMarker => Some(ProbeCommand::WaitForHalt),
        SamplerState::SamplingStart => Some(ProbeCommand::ReadCycleCounter),
        SamplerState::Resuming { .. } => Some(ProbeCommand::Run),
        SamplerState::AwaitingEndMarker { .. } => Some(ProbeCommand::WaitForHalt),
        SamplerState::SamplingEnd { .. } => Some(ProbeCommand::ReadCycleCounter),
        SamplerState::Done { .. } => None,
        SamplerState::Failed { .. } => None,
    }
}

/// The transition relation of the protocol, as a total function. A
/// failure outcome moves any live state to `Failed` with the
/// application's classification. A successful outcome advances the
/// protocol by exactly one step; at the final sample the calibrated
/// cycle count is computed, and a negative corrected decrease is a
/// calibration violation, not a result. An outcome of a shape the
/// pending command cannot produce, or any outcome in a terminal
/// state, leaves the state unchanged: the machine consumes only what
/// it asked for.
pub open spec fn spec_step(s: SamplerState, o: StepOutcome) -> SamplerState {
    match s {
        SamplerState::Halting => match o {
            StepOutcome::Completed => SamplerState::ClearingBreakpoints,
            StepOutcome::Sampled { .. } => s,
            StepOutcome::Failed { error } => SamplerState::Failed { error },
        },
        SamplerState::ClearingBreakpoints => match o {
            StepOutcome::Completed => SamplerState::Resetting,
            StepOutcome::Sampled { .. } => s,
            StepOutcome::Failed { error } => SamplerState::Failed { error },
        },
        SamplerState::Resetting => match o {
            StepOutcome::Completed => SamplerState::AwaitingStartMarker,
            StepOutcome::Sampled { .. } => s,
            StepOutcome::Failed { error } => SamplerState::Failed { error },
        },
        SamplerState::AwaitingStartMarker => match o {
            StepOutcome::Completed => SamplerState::SamplingStart,
            StepOutcome::Sampled { .. } => s,
            StepOutcome::Failed { error } => SamplerState::Failed { error },
        },
        SamplerState::SamplingStart => match o {
            StepOutcome::Completed => s,
            StepOutcome::Sampled { raw } => SamplerState::Resuming { start_raw: raw },
            StepOutcome::Failed { error } => SamplerState::Failed { error },
        },
        SamplerState::Resuming { start_raw } => match o {
            StepOutcome::Completed => SamplerState::AwaitingEndMarker { start_raw },
            StepOutcome::Sampled { .. } => s,
            StepOutcome::Failed { error } => SamplerState::Failed { error },
        },
        SamplerState::AwaitingEndMarker { start_raw } => match o {
            StepOutcome::Completed => SamplerState::SamplingEnd { start_raw },
            StepOutcome::Sampled { .. } => s,
            StepOutcome::Failed { error } => SamplerState::Failed { error },
        },
        SamplerState::SamplingEnd { start_raw } => match o {
            StepOutcome::Completed => s,
            StepOutcome::Sampled { raw } => if well_calibrated(start_raw, raw) {
                SamplerState::Done { cycles: hardware_cycles(start_raw, raw) as u64 }
            } else {
                SamplerState::Failed { error: MeasureError::Calibration }
            },
            StepOutcome::Failed { error } => SamplerState::Failed { error },
        },
        SamplerState::Done { .. } => s,
        SamplerState::Failed { .. } => s,
    }
}

impl SamplerState {
    /// The command to perform next, or `None` once the measurement
    /// has finished or failed.
    pub fn next_command(&self) -> (c: Option<ProbeCommand>)
        ensures
            c == spec_command_of(*self),
            c is None <==> is_terminal(*self),
    {
        match self {
            SamplerState::Halting => Some(ProbeCommand::Halt),
            SamplerState::ClearingBreakpoints => Some(ProbeCommand::ClearBreakpoints),
            SamplerState::Resetting => Some(ProbeCommand::Reset),
            SamplerState::AwaitingStartMarker => Some(ProbeCommand::WaitForHalt),
            SamplerState::SamplingStart => Some(ProbeCommand::ReadCycleCounter),
            SamplerState::Resuming { .. } => Some(ProbeCommand::Run),
            SamplerState::AwaitingEndMarker { .. } => Some(ProbeCommand::WaitForHalt),
            SamplerState::SamplingEnd { .. } => Some(ProbeCommand::ReadCycleCounter),
            SamplerState::Done { .. } => None,
            SamplerState::Failed { .. } => None,
        }
    }

    /// Advances the machine by one observed outcome.
    pub fn step(self, outcome: StepOutcome) -> (next: SamplerState)
        ensures
            next == spec_step(self, outcome),
    {
        match self {
            SamplerState::Halting => match outcome {
                StepOutcome::Completed => SamplerState::ClearingBreakpoints,
                StepOutcome::Sampled { .. } => self,
                StepOutcome::Failed { error } => SamplerState::Failed { error },
            },
            SamplerState::ClearingBreakpoints => match outcome {
                StepOutcome::Completed => SamplerState::Resetting,
                StepOutcome::Sampled { .. } => self,
                StepOutcome::Failed { error } => SamplerState::Failed { error },
            },
            SamplerState::Resetting => match outcome {
                StepOutcome::Completed => SamplerState::AwaitingStartMarker,
                StepOutcome::Sampled { .. } => self,
                StepOutcome::Failed { error } => SamplerState::Failed { error },
            },
            SamplerState::AwaitingStartMarker => match outcome {
                StepOutcome::Completed => SamplerState::SamplingStart,
                StepOutcome::Sampled { .. } => self,
                StepOutcome::Failed { error } => SamplerState::Failed { error },
            },
            SamplerState::SamplingStart => match outcome {
                StepOutcome::Completed => self,
                StepOutcome::Sampled { raw } => SamplerState::Resuming { start_raw: raw },
                StepOutcome::Failed { error } => SamplerState::Failed { error },
            },
            SamplerState::Resuming { start_raw } => match outcome {
                StepOutcome::Completed => SamplerState::AwaitingEndMarker { start_raw },
                StepOutcome::Sampled { .. } => self,
                StepOutcome::Failed { error } => SamplerState::Failed { error },
            },
            SamplerState::AwaitingEndMarker { start_raw } => match outcome {
                StepOutcome::Completed => SamplerState::SamplingEnd { start_raw },
                StepOutcome::Sampled { .. } => self,
                StepOutcome::Failed { error } => SamplerState::Failed { error },
            },
            SamplerState::SamplingEnd { start_raw } => match outcome {
                StepOutcome::Completed => self,
                StepOutcome::Sampled { raw } => match checked_hardware_cycles(start_raw, raw) {
                    Some(cycles) => SamplerState::Done { cycles },
                    None => SamplerState::Failed { error: MeasureError::Calibration },
                },
                StepOutcome::Failed { error } => SamplerState::Failed { error },
            },
            SamplerState::Done { .. } => self,
            SamplerState::Failed { .. } => self,
        }
    }

    /// The fresh machine for one artifact's measurement.
    pub fn new() -> (s: SamplerState)
        ensures
            s == initial_state(),
    {
        SamplerState::Halting
    }
}

/// The classification of a command's failure, per stage: a halt or
/// wait that does not come within the bound is a missed
/// synchronization point, a failed counter read is a register read
/// failure, and a rejected execution-control command is a probe
/// failure.
pub open spec fn spec_failure_of(c: ProbeCommand) -> MeasureError {
    match c {
        ProbeCommand::Halt => MeasureError::Timeout,
        ProbeCommand::WaitForHalt => MeasureError::Timeout,
        ProbeCommand::ReadCycleCounter => MeasureError::RegisterRead,
        ProbeCommand::ClearBreakpoints => MeasureError::Probe,
        ProbeCommand::Reset => MeasureError::Probe,
        ProbeCommand::Run => MeasureError::Probe,
    }
}

/// The error with which a failure of command `c` aborts the
/// measurement.
pub fn command_failure_error(c: ProbeCommand) -> (e: MeasureError)
    ensures
        e == spec_failure_of(c),
{
    match c {
        ProbeCommand::Halt => MeasureError::Timeout,
        ProbeCommand::WaitForHalt => MeasureError::Timeout,
        ProbeCommand::ReadCycleCounter => MeasureError::RegisterRead,
        ProbeCommand::ClearBreakpoints => MeasureError::Probe,
        ProbeCommand::Reset => MeasureError::Probe,
        ProbeCommand::Run => MeasureError::Probe,
    }
}

/// The state reached from the initial state after a sequence of
/// observed outcomes, oldest first.
pub open spec fn spec_run(outcomes: Seq<StepOutcome>) -> SamplerState
    decreases outcomes.len(),
{
    if outcomes.len() == 0 {
        initial_state()
    } else {
        spec_step(spec_run(outcomes.drop_last()), outcomes.last())
    }
}

/// Determinism of the measurement protocol: the sampler is a pure
/// function of the outcomes the probe reports, with no hidden state,
/// so repeated measurement of the same artifact on an unchanged
/// target observes the same counter values and yields the same cycle
/// count.
pub proof fn lemma_sampler_deterministic(a: Seq<StepOutcome>, b: Seq<StepOutcome>)
    requires
        a == b,
    ensures
        spec_run(a) == spec_run(b),
{
}

/// The outcomes observed by a measurement in which every probe
/// command succeeds and the two counter reads return `start_raw` and
/// `end_raw`.
pub open spec fn successful_outcomes(start_raw: u32, end_raw: u32) -> Seq<StepOutcome> {
    seq![
        StepOutcome::Completed,
        StepOutcome::Completed,
        StepOutcome::Completed,
        StepOutcome::Completed,
        StepOutcome::Sampled { raw: start_raw },
        StepOutcome::Completed,
        StepOutcome::Completed,
        StepOutcome::Sampled { raw: end_raw },
    ]
}

/// A measurement in which every probe command succeeds ends in `Done`
/// with exactly the calibrated count over the two sampled counter
/// values — unless that count would be negative, in which case it
/// ends in a calibration failure. The result is a function of the
/// two samples alone, so an unchanged target that reports the same
/// counter values yields the same cycle count on every repetition.
pub proof fn lemma_successful_run(start_raw: u32, end_raw: u32)
    ensures
        well_calibrated(start_raw, end_raw) ==> spec_run(successful_outcomes(start_raw, end_raw))
            == (SamplerState::Done { cycles: hardware_cycles(start_raw, end_raw) as u64 }),
        !well_calibrated(start_raw, end_raw) ==> spec_run(
            successful_outcomes(start_raw, end_raw),
        ) == (SamplerState::Failed { error: MeasureError::Calibration }),
{
    let ok = StepOutcome::Completed;
    let s1 = StepOutcome::Sampled { raw: start_raw };
    let s2 = StepOutcome::Sampled { raw: end_raw };
    let o8 = successful_outcomes(start_raw, end_raw);
    let o7 = seq![ok, ok, ok, ok, s1, ok, ok];
    let o6 = seq![ok, ok, ok, ok, s1, ok];
    let o5 = seq![ok, ok, ok, ok, s1];
    let o4 = seq![ok, ok, ok, ok];
    let o3 = seq![ok, ok, ok];
    let o2 = seq![ok, ok];
    let o1 = seq![ok];
    let o0 = Seq::<StepOutcome>::empty();
    assert(o1.drop_last() =~= o0);
    assert(o2.drop_last() =~= o1);
    assert(o3.drop_last() =~= o2);
    assert(o4.drop_last() =~= o3);
    assert(o5.drop_last() =~= o4);
    assert(o6.drop_last() =~= o5);
    assert(o7.drop_last() =~= o6);
    assert(o8.drop_last() =~= o7);
    assert(spec_run(o0) == SamplerState::Halting);
    assert(spec_run(o1) == SamplerState::ClearingBreakpoints);
    assert(spec_run(o2) == SamplerState::Resetting);
    assert(spec_run(o3) == SamplerState::AwaitingStartMarker);
    assert(spec_run(o4) == SamplerState::SamplingStart);
    assert(spec_run(o5) == (SamplerState::Resuming { start_raw }));
    assert(spec_run(o6) == (SamplerState::AwaitingEndMarker { start_raw }));
    assert(spec_run(o7) == (SamplerState::SamplingEnd { start_raw }));
}

/// The only way to finish successfully is through the final counter
/// sample, and the reported count is exactly the calibrated
/// computation over the two samples: the decrease of the down-counter
/// between the start marker and the end marker, minus the calibration
/// offset, which is never negative.
pub proof fn lemma_done_is_calibrated(s: SamplerState, o: StepOutcome)
    requires
        !is_terminal(s),
        spec_step(s, o) is Done,
    ensures
        s is SamplingEnd,
        o is Sampled,
        well_calibrated(s->SamplingEnd_start_raw, o->raw),
        spec_step(s, o)->cycles == hardware_cycles(s->SamplingEnd_start_raw, o->raw),
        spec_step(s, o)->cycles >= 0,
{
}

/// Terminal states are absorbing: once the measurement is done or
/// failed, no outcome changes it.
pub proof fn lemma_terminal_absorbing(s: SamplerState, o: StepOutcome)
    requires
        is_terminal(s),
    ensures
        spec_step(s, o) == s,
{
}

/// Fail-fast propagation: a failure outcome in any live state aborts
/// the measurement with exactly the reported error, immediately.
pub proof fn lemma_failure_is_fatal(s: SamplerState, e: MeasureError)
    requires
        !is_terminal(s),
    ensures
        spec_step(s, StepOutcome::Failed { error: e }) == (SamplerState::Failed { error: e }),
{
}

} // verus!
