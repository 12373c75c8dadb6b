//! Page-geometry behaviour of the flash driver model.

use eccprobe::flash::{address_to_page_in_mode, dualbank_from_optr, page_count_in_mode,
    page_first_address, page_size_in_mode, Flash};

#[test]
fn page_sizes_and_counts_per_mode() {
    assert_eq!(page_size_in_mode(true), 0x1000);
    assert_eq!(page_size_in_mode(false), 0x2000);
    assert_eq!(page_count_in_mode(true), 512);
    assert_eq!(page_count_in_mode(false), 256);
}

#[test]
fn address_to_page_divides_without_rounding() {
    assert_eq!(address_to_page_in_mode(true, 0), 0);
    assert_eq!(address_to_page_in_mode(true, 0xFFF), 0);
    assert_eq!(address_to_page_in_mode(true, 0x1000), 1);
    assert_eq!(address_to_page_in_mode(true, 0x2000), 2);
    assert_eq!(address_to_page_in_mode(false, 0x2000), 1);
    assert_eq!(address_to_page_in_mode(false, 0x3FFF), 1);
}

#[test]
fn page_round_trip_dual_bank() {
    for p in [0u32, 1, 255, 256, 300, 511] {
        let addr = page_first_address(true, p);
        assert_eq!(address_to_page_in_mode(true, addr), p);
    }
}

#[test]
fn page_round_trip_single_bank() {
    for p in [0u32, 1, 127, 128, 200, 255] {
        let addr = page_first_address(false, p);
        assert_eq!(address_to_page_in_mode(false, addr), p);
    }
}

#[test]
fn dualbank_reads_bit_22() {
    assert!(dualbank_from_optr(1 << 22));
    assert!(!dualbank_from_optr(!(1u32 << 22)));
    assert!(!dualbank_from_optr(0));

    let dual = Flash::new(0x0040_0000);
    assert!(dual.is_dualbank());
    assert_eq!(dual.page_size(), 0x1000);
    assert_eq!(dual.address_to_page_number(0x2000), 2);

    let single = Flash::new(0);
    assert!(!single.is_dualbank());
    assert_eq!(single.page_size(), 0x2000);
    assert_eq!(single.address_to_page_number(0x2000), 1);
}
