//! Cross-reset experiment controller: a binary search over a timing
//! delay, persisted in five 32-bit register slots that survive a reset
//! but not a power loss.
//!
//! Each boot runs one step: initialize the slots on the first boot after
//! power-on, count the reset, narrow the search interval according to
//! the phase the previous boot reached, and either plan one timed write
//! attempt or abort once the interval has collapsed below the minimum
//! width. The phase marker is always moved to "before write" before the
//! risky operation starts, so a reset at any instant leaves a record
//! that is at worst conservative.

use vstd::prelude::*;

use vstd::arithmetic::power2::lemma2_to64;
use vstd::arithmetic::power2::lemma_pow2_pos;
use vstd::arithmetic::power2::lemma_pow2_unfold;
use vstd::arithmetic::power2::pow2;

use crate::params::MAGIC_VALUE;
use crate::params::MIN_INTERVAL;
use crate::params::PHASE_AFTER_WRITE;
use crate::params::PHASE_BEFORE_WRITE;
use crate::params::SEARCH_HI_DEFAULT;
use crate::params::SEARCH_LO_DEFAULT;

verus! {

broadcast use vstd::seq::group_seq_axioms;

/// How far the previous boot got before the reset that brought us here.
#[derive(Debug, Clone, Copy, PartialEq, Eq, Structural)]
pub enum Phase {
    /// No attempt recorded yet (or an unrecognized marker value).
    Uninitialized,
    /// The reset fired before the programming operation completed.
    BeforeWrite,
    /// The programming operation completed before the reset fired.
    AfterWrite,
}

/// The five persistent slots, in slot order: sentinel, lower bound,
/// upper bound, phase marker, reset counter. All are raw 32-bit values
/// exactly as stored in the reset-surviving registers.
#[derive(Debug, Clone, Copy, PartialEq, Eq, Structural)]
pub struct PersistentState {
    /// Slot 0: [`MAGIC_VALUE`] once the bounds have been initialized.
    pub magic: u32,
    /// Slot 1: lower bound of the search interval.
    pub bound_lo: u32,
    /// Slot 2: upper bound of the search interval.
    pub bound_hi: u32,
    /// Slot 3: raw phase marker of the previous boot.
    pub phase: u32,
    /// Slot 4: number of boots since power-on; diagnostic only.
    pub reset_count: u32,
}

/// What one boot does after reading the persistent state: either one
/// timed write attempt with the given bounds, or no attempt at all.
#[derive(Debug, Clone, Copy, PartialEq, Eq, Structural)]
pub enum BootPlan {
    /// The interval collapsed below the minimum width: the timing window
    /// was missed entirely. No attempt is made.
    Abort,
    /// Run one unlock/erase/delay/program attempt.
    Attempt {
        /// Lower bound after this boot's narrowing.
        lo: u32,
        /// Upper bound after this boot's narrowing.
        hi: u32,
        /// The candidate delay: the midpoint of the narrowed interval.
        middle: u32,
    },
}

/// The phase a raw marker value denotes; any unrecognized value counts
/// as uninitialized.
pub open spec fn spec_phase_from_raw(raw: u32) -> Phase {
    if raw == PHASE_BEFORE_WRITE {
        Phase::BeforeWrite
    } else if raw == PHASE_AFTER_WRITE {
        Phase::AfterWrite
    } else {
        Phase::Uninitialized
    }
}

/// The raw marker value a phase is stored as.
pub open spec fn spec_phase_to_raw(p: Phase) -> u32 {
    match p {
        Phase::Uninitialized => 0,
        Phase::BeforeWrite => PHASE_BEFORE_WRITE,
        Phase::AfterWrite => PHASE_AFTER_WRITE,
    }
}

/// Midpoint of the interval, rounding down.
pub open spec fn spec_middle(lo: int, hi: int) -> int {
    (lo + hi) / 2
}

/// The bound-update rule: a reset before the write means the delay was
/// too long, so the upper bound comes down to the midpoint; a completed
/// write means the reset came too late, so the lower bound goes up to
/// the midpoint; an uninitialized phase leaves the bounds untouched.
pub open spec fn spec_next_bounds(lo: int, hi: int, phase: Phase) -> (int, int) {
    match phase {
        Phase::BeforeWrite => (lo, spec_middle(lo, hi)),
        Phase::AfterWrite => (spec_middle(lo, hi), hi),
        Phase::Uninitialized => (lo, hi),
    }
}

/// The interval is too narrow to keep searching: its width (negative if
/// the slots are inconsistent) is below the minimum.
pub open spec fn spec_collapsed(lo: u32, hi: u32) -> bool {
    hi - lo < MIN_INTERVAL
}

/// The state after the cold-boot check: untouched if the sentinel
/// matches, otherwise the configured defaults with only the reset
/// counter carried over.
pub open spec fn spec_initialized(s: PersistentState) -> PersistentState {
    if s.magic == MAGIC_VALUE {
        s
    } else {
        PersistentState {
            magic: MAGIC_VALUE,
            bound_lo: SEARCH_LO_DEFAULT,
            bound_hi: SEARCH_HI_DEFAULT,
            phase: 0,
            reset_count: s.reset_count,
        }
    }
}

/// One step of the bound-update rule never jumps outside the previous
/// interval, never widens it, and any recorded (non-uninitialized)
/// phase at least halves the width, rounding up — in particular it
/// strictly shrinks an interval of width at least two.
pub proof fn lemma_bound_update_within(lo: int, hi: int, phase: Phase)
    requires
        0 <= lo <= hi,
    ensures
        ({
            let (l2, h2) = spec_next_bounds(lo, hi, phase);
            &&& lo <= l2 <= h2 <= hi
            &&& h2 - l2 <= hi - lo
            &&& !(phase is Uninitialized) ==> 2 * (h2 - l2) <= hi - lo + 1
            &&& !(phase is Uninitialized) && hi - lo >= 2 ==> h2 - l2 < hi - lo
        }),
{
}

/// The bounds after feeding the update rule one recorded phase per
/// reset, in order.
pub open spec fn spec_bounds_after(lo: int, hi: int, phases: Seq<Phase>) -> (int, int)
    decreases phases.len(),
{
    if phases.len() == 0 {
        (lo, hi)
    } else {
        let nb = spec_next_bounds(lo, hi, phases[0]);
        spec_bounds_after(nb.0, nb.1, phases.skip(1))
    }
}

/// The binary search converges: however the resets fall, feeding the
/// bound-update rule one recorded phase per boot keeps the interval
/// inside the original one and, after at most one step per unit of the
/// original width, leaves an interval of at most a single point.
pub proof fn lemma_search_converges(lo: int, hi: int, phases: Seq<Phase>)
    requires
        0 <= lo <= hi,
        forall|i: int| 0 <= i < phases.len() ==> !((#[trigger] phases[i]) is Uninitialized),
        phases.len() + 1 >= hi - lo,
    ensures
        ({
            let b = spec_bounds_after(lo, hi, phases);
            &&& lo <= b.0 <= b.1 <= hi
            &&& b.1 - b.0 <= 1
        }),
    decreases phases.len(),
{
    if phases.len() > 0 {
        let nb = spec_next_bounds(lo, hi, phases[0]);
        lemma_bound_update_within(lo, hi, phases[0]);
        assert forall|i: int| 0 <= i < phases.skip(1).len() implies !((#[trigger] phases.skip(
            1,
        )[i]) is Uninitialized) by {
            assert(phases.skip(1)[i] == phases[i + 1]);
        }
        lemma_search_converges(nb.0, nb.1, phases.skip(1));
    }
}

/// The convergence is logarithmic in the initial width: each recorded
/// phase at least halves the interval, rounding up, so as soon as the
/// number of recorded boots n satisfies 2^n >= bound_hi - bound_lo the
/// interval has shrunk to at most a single point. At most
/// ceiling-log-two of the initial width arming boots can therefore
/// happen before the width falls below the minimum interval and the
/// controller aborts instead of arming again.
pub proof fn lemma_search_converges_log(lo: int, hi: int, phases: Seq<Phase>)
    requires
        0 <= lo <= hi,
        forall|i: int| 0 <= i < phases.len() ==> !((#[trigger] phases[i]) is Uninitialized),
        pow2(phases.len()) >= hi - lo,
    ensures
        ({
            let b = spec_bounds_after(lo, hi, phases);
            &&& lo <= b.0 <= b.1 <= hi
            &&& b.1 - b.0 <= 1
        }),
    decreases phases.len(),
{
    if phases.len() == 0 {
        lemma2_to64();
    } else {
        let nb = spec_next_bounds(lo, hi, phases[0]);
        lemma_bound_update_within(lo, hi, phases[0]);
        lemma_pow2_unfold(phases.len());
        lemma_pow2_pos((phases.len() - 1) as nat);
        assert(2 * (nb.1 - nb.0) <= hi - lo + 1);
        assert(pow2((phases.len() - 1) as nat) >= nb.1 - nb.0);
        assert forall|i: int| 0 <= i < phases.skip(1).len() implies !((#[trigger] phases.skip(
            1,
        )[i]) is Uninitialized) by {
            assert(phases.skip(1)[i] == phases[i + 1]);
        }
        lemma_search_converges_log(nb.0, nb.1, phases.skip(1));
    }
}

/// Parse a raw phase marker.
pub fn phase_from_raw(raw: u32) -> (p: Phase)
    ensures
        p == spec_phase_from_raw(raw),
{
    if raw == PHASE_BEFORE_WRITE {
        Phase::BeforeWrite
    } else if raw == PHASE_AFTER_WRITE {
        Phase::AfterWrite
    } else {
        Phase::Uninitialized
    }
}

/// The raw marker value a phase is stored as.
pub fn phase_to_raw(p: Phase) -> (raw: u32)
    ensures
        raw == spec_phase_to_raw(p),
{
    match p {
        Phase::Uninitialized => 0,
        Phase::BeforeWrite => PHASE_BEFORE_WRITE,
        Phase::AfterWrite => PHASE_AFTER_WRITE,
    }
}

/// Storing a phase and parsing it back returns the same phase.
pub proof fn lemma_phase_round_trip(p: Phase)
    ensures
        spec_phase_from_raw(spec_phase_to_raw(p)) == p,
{
}

impl PersistentState {
    /// Initialize the search on the very first boot after power-on:
    /// when the sentinel does not match, set the bounds to the
    /// configured defaults, clear the phase and mark the slots as
    /// initialized. When the sentinel already matches, every slot is
    /// left exactly as it was, so running this again changes nothing.
    pub fn cold_boot_init(&mut self)
        ensures
            *final(self) == spec_initialized(*old(self)),
            old(self).magic == MAGIC_VALUE ==> *final(self) == *old(self),
    {
        if self.magic != MAGIC_VALUE {
            self.magic = MAGIC_VALUE;
            self.bound_lo = SEARCH_LO_DEFAULT;
            self.bound_hi = SEARCH_HI_DEFAULT;
            self.phase = 0;
        }
    }

    /// Count this boot. The counter is diagnostic only and wraps around
    /// at its maximum; no control flow depends on it.
    pub fn count_reset(&mut self)
        ensures
            final(self).reset_count == (if old(self).reset_count == u32::MAX {
                0u32
            } else {
                (old(self).reset_count + 1) as u32
            }),
            final(self).magic == old(self).magic,
            final(self).bound_lo == old(self).bound_lo,
            final(self).bound_hi == old(self).bound_hi,
            final(self).phase == old(self).phase,
    {
        self.reset_count = if self.reset_count == u32::MAX {
            0
        } else {
            self.reset_count + 1
        };
    }

    /// Record that the programming operation completed before any reset
    /// fired.
    pub fn record_after_write(&mut self)
        ensures
            final(self).phase == PHASE_AFTER_WRITE,
            final(self).magic == old(self).magic,
            final(self).bound_lo == old(self).bound_lo,
            final(self).bound_hi == old(self).bound_hi,
            final(self).reset_count == old(self).reset_count,
    {
        self.phase = PHASE_AFTER_WRITE;
    }
}

/// Decide this boot's attempt from the persisted interval and the phase
/// the previous boot reached.
///
/// If the interval has collapsed below the minimum width the search has
/// missed its window and the boot aborts. Otherwise the bounds are
/// narrowed by the update rule, and the new midpoint becomes the
/// candidate delay; the narrowed interval never leaves the previous one,
/// and any recorded phase strictly shrinks it.
pub fn plan_attempt(lo: u32, hi: u32, phase: Phase) -> (p: BootPlan)
    ensures
        p is Abort <==> spec_collapsed(lo, hi),
        p matches BootPlan::Attempt { lo: l2, hi: h2, middle: m } ==> {
            &&& (l2 as int, h2 as int) == spec_next_bounds(lo as int, hi as int, phase)
            &&& m == spec_middle(l2 as int, h2 as int)
            &&& lo <= l2 <= m < h2 <= hi
            &&& !(phase is Uninitialized) ==> h2 - l2 < hi - lo
        },
{
    if hi < lo || hi - lo < MIN_INTERVAL {
        return BootPlan::Abort;
    }
    let middle = lo + (hi - lo) / 2;
    let (new_lo, new_hi) = match phase {
        Phase::BeforeWrite => (lo, middle),
        Phase::AfterWrite => (middle, hi),
        Phase::Uninitialized => (lo, hi),
    };
    let new_middle = new_lo + (new_hi - new_lo) / 2;
    BootPlan::Attempt { lo: new_lo, hi: new_hi, middle: new_middle }
}

/// One full boot of the controller's persistent logic: cold-boot
/// initialization, reset counting, interval narrowing and the decision
/// whether to attempt. When an attempt is planned, the narrowed bounds
/// are persisted and the phase marker is set to "before write" ahead of
/// the risky operation; on abort the bounds and phase stay as the
/// previous boot left them.
pub fn boot_step(s: &mut PersistentState) -> (p: BootPlan)
    ensures
        ({
            let s0 = spec_initialized(*old(s));
            &&& final(s).magic == MAGIC_VALUE
            &&& final(s).reset_count == (if s0.reset_count == u32::MAX {
                0u32
            } else {
                (s0.reset_count + 1) as u32
            })
            &&& (p is Abort <==> spec_collapsed(s0.bound_lo, s0.bound_hi))
            &&& (p is Abort ==> final(s).bound_lo == s0.bound_lo && final(s).bound_hi
                == s0.bound_hi && final(s).phase == s0.phase)
            &&& (p matches BootPlan::Attempt { lo, hi, middle } ==> {
                &&& final(s).bound_lo == lo
                &&& final(s).bound_hi == hi
                &&& final(s).phase == PHASE_BEFORE_WRITE
                &&& (lo as int, hi as int) == spec_next_bounds(
                    s0.bound_lo as int,
                    s0.bound_hi as int,
                    spec_phase_from_raw(s0.phase),
                )
                &&& middle == spec_middle(lo as int, hi as int)
                &&& s0.bound_lo <= lo <= middle < hi <= s0.bound_hi
                &&& !(spec_phase_from_raw(s0.phase) is Uninitialized) ==> hi - lo < s0.bound_hi
                    - s0.bound_lo
            })
        }),
{
    s.cold_boot_init();
    s.count_reset();
    let phase = phase_from_raw(s.phase);
    let plan = plan_attempt(s.bound_lo, s.bound_hi, phase);
    match plan {
        BootPlan::Attempt { lo, hi, middle: _ } => {
            s.bound_lo = lo;
            s.bound_hi = hi;
            s.phase = PHASE_BEFORE_WRITE;
        },
        BootPlan::Abort => {},
    }
    plan
}

} // verus!
