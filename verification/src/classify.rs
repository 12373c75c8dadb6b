//! Fault classifier: decides from the latched ECC status whether an
//! observed exception is the intended outcome of the experiment.
//!
//! The classifier runs inside the lowest-level exception handlers, with
//! the rest of the system in an unknown state; it therefore works on the
//! raw ECC status register value alone, passed in as a plain word, and
//! on the bank mode, which selects the error-bit layout. Its verdict
//! drives the status indicator and the decision whether the timeout
//! reset service keeps being fed.

use vstd::prelude::*;

use crate::params::CORRUPT_RANGE;
use crate::params::ECCR_ADDR_MASK;
use crate::params::ECCR_ECCD_ECCD2_MASK;
use crate::params::ECCR_ECCD_MASK;
use crate::params::TARGET_ADDRESS;

verus! {

/// How a low-level fault is classified.
#[derive(Debug, Clone, Copy, PartialEq, Eq, Structural)]
pub enum FaultVerdict {
    /// An ECC error inside the target window: the corruption the
    /// experiment set out to produce.
    Intended,
    /// An ECC error, but at an address outside the target window.
    EccOutsideWindow,
    /// A fault with no ECC detection flag set at all (for example a
    /// generic CPU fault).
    NotEcc,
}

/// The ECC detection flags that apply in the given bank mode: in
/// dual-bank mode only ECCD (bit 29 is reserved there), in single-bank
/// mode ECCD or ECCD2.
pub open spec fn spec_is_ecc_fault(dual: bool, eccr: u32) -> bool {
    if dual {
        eccr & ECCR_ECCD_MASK != 0
    } else {
        eccr & ECCR_ECCD_ECCD2_MASK != 0
    }
}

/// The faulting address latched in the ADDR_ECC field.
pub open spec fn spec_fault_addr(eccr: u32) -> u32 {
    eccr & ECCR_ADDR_MASK
}

/// The address lies inside the window the experiment corrupts.
pub open spec fn spec_in_target_window(addr: u32) -> bool {
    TARGET_ADDRESS <= addr < TARGET_ADDRESS + CORRUPT_RANGE
}

/// The verdict for a raw ECC status register value in the given bank
/// mode.
pub open spec fn spec_classify(dual: bool, eccr: u32) -> FaultVerdict {
    if !spec_is_ecc_fault(dual, eccr) {
        FaultVerdict::NotEcc
    } else if spec_in_target_window(spec_fault_addr(eccr)) {
        FaultVerdict::Intended
    } else {
        FaultVerdict::EccOutsideWindow
    }
}

/// Classify a fault from the raw ECC status register value.
///
/// The bank mode decides which detection bits are meaningful; the
/// faulting address is compared against the target window. Only a
/// detection inside the window is the intended outcome.
pub fn classify_eccr(dual: bool, eccr: u32) -> (v: FaultVerdict)
    ensures
        v == spec_classify(dual, eccr),
        v is Intended <==> spec_is_ecc_fault(dual, eccr) && spec_in_target_window(
            spec_fault_addr(eccr),
        ),
        v is NotEcc <==> !spec_is_ecc_fault(dual, eccr),
{
    let is_ecc = if dual {
        eccr & ECCR_ECCD_MASK != 0
    } else {
        eccr & ECCR_ECCD_ECCD2_MASK != 0
    };
    let addr = eccr & ECCR_ADDR_MASK;
    if !is_ecc {
        FaultVerdict::NotEcc
    } else if TARGET_ADDRESS <= addr && addr < TARGET_ADDRESS + CORRUPT_RANGE {
        FaultVerdict::Intended
    } else {
        FaultVerdict::EccOutsideWindow
    }
}

/// The status-indicator channels (green, red, blue) asserted for a
/// classification. Success shows green alone, an ECC error outside the
/// window shows red, and a fault that is no ECC error at all shows red
/// and blue.
pub fn verdict_indicators(v: FaultVerdict) -> (leds: (bool, bool, bool))
    ensures
        leds == (if v is Intended {
            (true, false, false)
        } else if v is EccOutsideWindow {
            (false, true, false)
        } else {
            (false, true, true)
        }),
{
    match v {
        FaultVerdict::Intended => (true, false, false),
        FaultVerdict::EccOutsideWindow => (false, true, false),
        FaultVerdict::NotEcc => (false, true, true),
    }
}

/// Whether the handler keeps feeding the timeout-reset service after
/// this verdict. Only the intended outcome is fed forever, freezing the
/// experiment in its success state; on any other verdict the service is
/// left unfed and the system resets after its configured timeout.
pub fn verdict_feeds_watchdog(v: FaultVerdict) -> (feed: bool)
    ensures
        feed <==> v is Intended,
{
    match v {
        FaultVerdict::Intended => true,
        FaultVerdict::EccOutsideWindow => false,
        FaultVerdict::NotEcc => false,
    }
}

} // verus!
