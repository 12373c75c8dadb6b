//! Fault classification from the raw ECC status register value.

use eccprobe::classify::{classify_eccr, verdict_feeds_watchdog, verdict_indicators, FaultVerdict};

const ECCD: u32 = 0x8000_0000;
const ECCD2: u32 = 0x2000_0000;

#[test]
fn ecc_error_at_lower_window_edge_is_the_intended_outcome() {
    // Scenario: ECC detection latched exactly at the first byte of the
    // target window.
    let eccr = ECCD | 0x2000;
    let v = classify_eccr(true, eccr);
    assert_eq!(v, FaultVerdict::Intended);
    assert_eq!(verdict_indicators(v), (true, false, false));
    assert!(verdict_feeds_watchdog(v));
}

#[test]
fn fault_without_ecc_flags_is_unintended() {
    // Scenario: a generic CPU fault, no ECC detection bit set at all.
    let v = classify_eccr(true, 0);
    assert_eq!(v, FaultVerdict::NotEcc);
    assert_eq!(verdict_indicators(v), (false, true, true));
    assert!(!verdict_feeds_watchdog(v));

    // Even an address inside the window means nothing without a
    // detection flag.
    assert_eq!(classify_eccr(true, 0x2004), FaultVerdict::NotEcc);
    assert_eq!(classify_eccr(false, 0x2004), FaultVerdict::NotEcc);
}

#[test]
fn window_edges_are_half_open() {
    assert_eq!(classify_eccr(true, ECCD | 0x1FFF), FaultVerdict::EccOutsideWindow);
    assert_eq!(classify_eccr(true, ECCD | 0x2000), FaultVerdict::Intended);
    assert_eq!(classify_eccr(true, ECCD | 0x2007), FaultVerdict::Intended);
    assert_eq!(classify_eccr(true, ECCD | 0x2008), FaultVerdict::EccOutsideWindow);
}

#[test]
fn ecc_error_outside_window_signals_failure_without_feeding() {
    let v = classify_eccr(true, ECCD | 0x10_0000);
    assert_eq!(v, FaultVerdict::EccOutsideWindow);
    assert_eq!(verdict_indicators(v), (false, true, false));
    assert!(!verdict_feeds_watchdog(v));
}

#[test]
fn second_detection_bit_counts_only_in_single_bank_mode() {
    // In single-bank mode either ECCD or ECCD2 marks a detection; in
    // dual-bank mode bit 29 is reserved and ignored.
    let eccr = ECCD2 | 0x2003;
    assert_eq!(classify_eccr(false, eccr), FaultVerdict::Intended);
    assert_eq!(classify_eccr(true, eccr), FaultVerdict::NotEcc);
}

#[test]
fn address_field_is_masked_out_of_the_raw_value() {
    // Bits above the 21-bit address field must not leak into the
    // faulting address: here every flag bit is set and the address
    // field holds the window's first byte.
    let eccr = 0xFFE0_0000 | 0x2000;
    assert_eq!(classify_eccr(true, eccr), FaultVerdict::Intended);
    assert_eq!(classify_eccr(false, eccr), FaultVerdict::Intended);
}
