//! Fixed experiment parameters and hardware constants.
//!
//! The probe targets one fixed address range; the search bounds, the
//! minimum interval width and the wait-loop bound are experiment
//! constants, not a runtime-configurable API.

use vstd::prelude::*;

verus! {

/// First byte of the address window the experiment tries to corrupt.
pub const TARGET_ADDRESS: u32 = 0x2000;

/// Width in bytes of the address window the experiment tries to corrupt.
pub const CORRUPT_RANGE: u32 = 8;

/// Initial lower bound of the binary search over the timing delay.
pub const SEARCH_LO_DEFAULT: u32 = 100;

/// Initial upper bound of the binary search over the timing delay.
pub const SEARCH_HI_DEFAULT: u32 = 1_000_000;

/// Once `bound_hi - bound_lo` falls below this width the timing window was
/// missed entirely; the controller aborts instead of attempting again.
pub const MIN_INTERVAL: u32 = 5;

/// Sentinel stored in the first persistent slot once the search bounds
/// have been initialized; any other value means a cold (first) boot.
pub const MAGIC_VALUE: u32 = 0x9999_9999;

/// Raw phase marker: the previous boot reset before or during the write.
pub const PHASE_BEFORE_WRITE: u32 = 1;

/// Raw phase marker: the previous boot completed the write.
pub const PHASE_AFTER_WRITE: u32 = 2;

/// First word of the hardware flash unlock-key sequence.
pub const FLASH_KEY1: u32 = 0x4567_0123;

/// Second word of the hardware flash unlock-key sequence.
pub const FLASH_KEY2: u32 = 0xCDEF_89AB;

/// Iteration bound of the busy-wait poll, calibrated to exceed the
/// longest documented flash operation at the slowest expected clock
/// (25 ms at the 4 MHz reset clock).
pub const WAIT_ROUNDS: u32 = 100_000;

/// Page size in bytes while the controller is in dual-bank mode.
pub const DUAL_BANK_PAGE_SIZE: u32 = 0x1000;

/// Page size in bytes while the controller is in single-bank mode.
pub const SINGLE_BANK_PAGE_SIZE: u32 = 0x2000;

/// Number of pages in dual-bank mode (256 per bank).
pub const DUAL_BANK_PAGE_COUNT: u32 = 512;

/// Number of pages in single-bank mode.
pub const SINGLE_BANK_PAGE_COUNT: u32 = 256;

/// Number of pages held by one bank in dual-bank mode.
pub const PAGES_PER_BANK: u32 = 256;

/// DBANK bit (bit 22) of the option register: set means dual-bank mode.
/// On a 2 MiB device this bit, not DB1M (bit 21), selects the bank mode.
pub const OPTR_DBANK_MASK: u32 = 0x0040_0000;

/// ECCD bit (bit 31) of the ECC status register: an ECC error was
/// detected. In dual-bank mode bit 29 is reserved and only this bit
/// signals a detection.
pub const ECCR_ECCD_MASK: u32 = 0x8000_0000;

/// ECCD together with ECCD2 (bit 29): in single-bank mode a detection in
/// either the lower or the upper half of the 128-bit read sets one of
/// the two bits.
pub const ECCR_ECCD_ECCD2_MASK: u32 = 0xA000_0000;

/// ADDR_ECC field (bits 0 to 20) of the ECC status register: the
/// faulting address.
pub const ECCR_ADDR_MASK: u32 = 0x001F_FFFF;

/// The probe itself occupies the first pages of flash; the target window
/// must lie above them, and must be non-empty.
pub proof fn lemma_target_window_sane()
    ensures
        CORRUPT_RANGE > 0,
        TARGET_ADDRESS >= 8192,
{
}

} // verus!
