//! Calibrated hardware cycle computation.
//!
//! The hardware timing reference is a free-running, memory-mapped
//! down-counter whose usable width is 24 bits inside a 32-bit
//! register: every raw read is masked with `0x00FF_FFFF`. Elapsed
//! cycles over a measured region are the decrease of the counter
//! between the start marker and the end marker, corrected by a fixed
//! calibration offset that accounts for the two trap instructions'
//! own cost.

use vstd::prelude::*;

verus! {

/// Address of the cycle counter register, a fixed platform constant.
pub const CYCLE_COUNTER_ADDRESS: u32 = 0xE000_E018;

/// Mask selecting the 24 usable bits of the cycle counter register.
pub const COUNTER_MASK: u32 = 0x00FF_FFFF;

/// Fixed calibration correction, in cycles, for the overhead of the
/// two trap instructions that mark the measured region.
pub const CALIBRATION_OFFSET: u32 = 6;

/// The usable counter value of a raw register read: its low 24 bits.
pub open spec fn masked(raw: u32) -> u32 {
    raw & COUNTER_MASK
}

/// Elapsed hardware cycles for a measured region, as a mathematical
/// integer: the counter counts down, so elapsed cycles are the
/// decrease between the two sampled values, minus the calibration
/// offset. A negative value indicates a calibration or protocol
/// violation.
pub open spec fn hardware_cycles(start_raw: u32, end_raw: u32) -> int {
    masked(start_raw) - masked(end_raw) - CALIBRATION_OFFSET
}

/// A counter pair is well calibrated when the corrected decrease is
/// not negative, which holds for every correctly instrumented
/// artifact.
pub open spec fn well_calibrated(start_raw: u32, end_raw: u32) -> bool {
    hardware_cycles(start_raw, end_raw) >= 0
}

/// A raw read that already fits in the counter's 24 usable bits is
/// unchanged by masking.
pub proof fn lemma_masked_identity(raw: u32)
    requires
        raw <= COUNTER_MASK,
    ensures
        masked(raw) == raw,
{
    assert(raw <= COUNTER_MASK ==> raw & COUNTER_MASK == raw) by (bit_vector);
}

/// Masks a raw register read down to the counter's usable 24 bits.
pub fn mask_counter(raw: u32) -> (r: u32)
    ensures
        r == masked(raw),
        r <= COUNTER_MASK,
{
    proof {
        assert(raw & COUNTER_MASK <= COUNTER_MASK) by (bit_vector);
    }
    raw & COUNTER_MASK
}

/// Computes the elapsed hardware cycles from the two raw counter
/// samples, for a well-calibrated pair.
pub fn compute_hardware_cycles(start_raw: u32, end_raw: u32) -> (r: u64)
    requires
        well_calibrated(start_raw, end_raw),
    ensures
        r == hardware_cycles(start_raw, end_raw),
{
    let start = mask_counter(start_raw);
    let end = mask_counter(end_raw);
    ((start - end) - CALIBRATION_OFFSET) as u64
}

/// Computes the elapsed hardware cycles from the two raw counter
/// samples, reporting a calibration or protocol violation as `None`
/// instead of a made-up count.
pub fn checked_hardware_cycles(start_raw: u32, end_raw: u32) -> (r: Option<u64>)
    ensures
        r is Some <==> well_calibrated(start_raw, end_raw),
        r is Some ==> r->0 == hardware_cycles(start_raw, end_raw),
{
    let start = mask_counter(start_raw);
    let end = mask_counter(end_raw);
    if start >= end && start - end >= CALIBRATION_OFFSET {
        Some(((start - end) - CALIBRATION_OFFSET) as u64)
    } else {
        None
    }
}

/// The elapsed cycle count of a well-calibrated pair is never
/// negative: the measurement cannot underflow once the calibration
/// invariant holds.
pub proof fn lemma_hardware_cycles_nonnegative(start_raw: u32, end_raw: u32)
    requires
        well_calibrated(start_raw, end_raw),
    ensures
        hardware_cycles(start_raw, end_raw) >= 0,
{
}

} // verus!
