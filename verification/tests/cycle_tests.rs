use cyclebench::cycles::{
    checked_hardware_cycles, compute_hardware_cycles, mask_counter, CALIBRATION_OFFSET,
    COUNTER_MASK, CYCLE_COUNTER_ADDRESS,
};

#[test]
fn platform_constants() {
    assert_eq!(CYCLE_COUNTER_ADDRESS, 0xE000_E018);
    assert_eq!(COUNTER_MASK, 0x00FF_FFFF);
    assert_eq!(CALIBRATION_OFFSET, 6);
}

#[test]
fn masking_keeps_low_24_bits() {
    assert_eq!(mask_counter(0xFF00_0100), 0x0000_0100);
    assert_eq!(mask_counter(0x00FF_FFFF), 0x00FF_FFFF);
    assert_eq!(mask_counter(0xFFFF_FFFF), 0x00FF_FFFF);
    assert_eq!(mask_counter(0), 0);
}

#[test]
fn hardware_cycles_formula() {
    // start_count - end_count - 6, on a down-counter.
    assert_eq!(compute_hardware_cycles(1000, 500), 494);
    assert_eq!(compute_hardware_cycles(6, 0), 0);
}

#[test]
fn hardware_cycles_masks_raw_reads() {
    // High bytes outside the 24-bit counter are discarded before the
    // subtraction.
    assert_eq!(compute_hardware_cycles(0xFF00_0100, 0xAB00_0000), 250);
}

#[test]
fn checked_cycles_match_unchecked() {
    assert_eq!(checked_hardware_cycles(1000, 500), Some(494));
    assert_eq!(checked_hardware_cycles(6, 0), Some(0));
}

#[test]
fn checked_cycles_reject_calibration_violation() {
    // A corrected decrease below zero is a violation, not a count.
    assert_eq!(checked_hardware_cycles(10, 10), None);
    assert_eq!(checked_hardware_cycles(5, 0), None);
    assert_eq!(checked_hardware_cycles(0, 1000), None);
}

#[test]
fn repeated_computation_is_deterministic() {
    // The same pair of counter samples always yields the same count.
    let first = compute_hardware_cycles(123_456, 100_000);
    let second = compute_hardware_cycles(123_456, 100_000);
    assert_eq!(first, second);
    assert_eq!(first, 23_450);
}
