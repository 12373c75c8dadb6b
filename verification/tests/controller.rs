//! The cross-reset experiment controller: cold-boot initialization,
//! bound narrowing, phase recording and the abort boundary.

use eccprobe::flash::Flash;
use eccprobe::params::{MAGIC_VALUE, PHASE_AFTER_WRITE, PHASE_BEFORE_WRITE, SEARCH_HI_DEFAULT,
    SEARCH_LO_DEFAULT};
use eccprobe::search::{boot_step, phase_from_raw, phase_to_raw, plan_attempt, BootPlan,
    PersistentState, Phase};

fn state(magic: u32, lo: u32, hi: u32, phase: u32, resets: u32) -> PersistentState {
    PersistentState { magic, bound_lo: lo, bound_hi: hi, phase, reset_count: resets }
}

#[test]
fn cold_boot_initializes_once_and_only_once() {
    // First-ever boot: the sentinel does not match, so the defaults go in.
    let mut s = state(0, 0, 0, 0, 0);
    s.cold_boot_init();
    assert_eq!(s.magic, MAGIC_VALUE);
    assert_eq!(s.bound_lo, SEARCH_LO_DEFAULT);
    assert_eq!(s.bound_hi, SEARCH_HI_DEFAULT);
    assert_eq!(s.phase, 0);

    // Re-running the initialization with the sentinel in place must not
    // reset anything.
    let mut t = state(MAGIC_VALUE, 4321, 8765, PHASE_AFTER_WRITE, 17);
    let before = t;
    t.cold_boot_init();
    assert_eq!(t, before);
    t.cold_boot_init();
    assert_eq!(t, before);
}

#[test]
fn first_boot_scenario() {
    // Scenario: very first boot after power-on, all slots zeroed.
    let mut s = state(0, 0, 0, 0, 0);
    let plan = boot_step(&mut s);
    assert_eq!(s.magic, MAGIC_VALUE);
    assert_eq!(s.reset_count, 1);
    assert_eq!(s.phase, PHASE_BEFORE_WRITE);
    assert_eq!(s.bound_lo, SEARCH_LO_DEFAULT);
    assert_eq!(s.bound_hi, SEARCH_HI_DEFAULT);
    assert_eq!(
        plan,
        BootPlan::Attempt { lo: SEARCH_LO_DEFAULT, hi: SEARCH_HI_DEFAULT, middle: 500_050 }
    );

    // The attempt then drives the flash through exactly one erase and
    // one program operation.
    let flash = Flash::new(0x0040_0000);
    let page = flash.address_to_page_number(0x2000);
    let mut u = flash.unlock().ok().expect("unlock succeeds");
    assert_eq!(u.erase_page(page), Ok(()));
    assert_eq!(u.write_dwords(0x2000, &vec![0u64, 0]), Ok(()));
    let f = u.relock();
    assert_eq!(f.erase_count, 1);
    assert_eq!(f.word_writes.len(), 4);
}

#[test]
fn boot_after_reset_before_write_lowers_upper_bound() {
    // Scenario: the previous boot persisted "before write" with bounds
    // 100..1_000_000; its midpoint becomes the new upper bound.
    let mut s = state(MAGIC_VALUE, 100, 1_000_000, PHASE_BEFORE_WRITE, 3);
    let plan = boot_step(&mut s);
    assert_eq!(s.bound_lo, 100);
    assert_eq!(s.bound_hi, 500_050);
    assert_eq!(s.phase, PHASE_BEFORE_WRITE);
    assert_eq!(s.reset_count, 4);
    assert_eq!(plan, BootPlan::Attempt { lo: 100, hi: 500_050, middle: 250_075 });
}

#[test]
fn boot_after_completed_write_raises_lower_bound() {
    let mut s = state(MAGIC_VALUE, 100, 1_000_000, PHASE_AFTER_WRITE, 3);
    let plan = boot_step(&mut s);
    assert_eq!(s.bound_lo, 500_050);
    assert_eq!(s.bound_hi, 1_000_000);
    assert_eq!(s.phase, PHASE_BEFORE_WRITE);
    assert_eq!(plan, BootPlan::Attempt { lo: 500_050, hi: 1_000_000, middle: 750_025 });
}

#[test]
fn unrecognized_phase_marker_leaves_bounds_untouched() {
    let mut s = state(MAGIC_VALUE, 100, 1_000_000, 77, 0);
    let plan = boot_step(&mut s);
    assert_eq!(s.bound_lo, 100);
    assert_eq!(s.bound_hi, 1_000_000);
    assert_eq!(plan, BootPlan::Attempt { lo: 100, hi: 1_000_000, middle: 500_050 });
}

#[test]
fn collapsed_interval_aborts_without_an_attempt() {
    // Width 4 is below the minimum width of 5: no timed write attempt.
    let mut s = state(MAGIC_VALUE, 100, 104, 0, 9);
    let plan = boot_step(&mut s);
    assert_eq!(plan, BootPlan::Abort);
    assert_eq!(s.bound_lo, 100);
    assert_eq!(s.bound_hi, 104);
    assert_eq!(s.phase, 0);
    assert_eq!(s.reset_count, 10);

    // Inconsistent slots (upper below lower) abort too.
    let mut s = state(MAGIC_VALUE, 104, 100, 0, 0);
    assert_eq!(boot_step(&mut s), BootPlan::Abort);

    // Width 5 still attempts: only a collapse below the minimum aborts.
    let mut s = state(MAGIC_VALUE, 100, 105, 0, 0);
    assert_eq!(plan_attempt(100, 105, Phase::Uninitialized), BootPlan::Attempt {
        lo: 100,
        hi: 105,
        middle: 102,
    });
    assert!(matches!(boot_step(&mut s), BootPlan::Attempt { .. }));
}

#[test]
fn repeated_boots_converge_within_the_original_interval() {
    // Always resetting before the write narrows the interval from above;
    // every interval stays inside its predecessor and strictly shrinks
    // until the controller aborts.
    let mut s = state(0, 0, 0, 0, 0);
    let mut prev_lo = 0u32;
    let mut prev_hi = u32::MAX;
    let mut boots = 0u32;
    loop {
        match boot_step(&mut s) {
            BootPlan::Abort => break,
            BootPlan::Attempt { lo, hi, middle } => {
                assert!(prev_lo <= lo && hi <= prev_hi);
                assert!(lo <= middle && middle < hi);
                assert!(boots == 0 || hi - lo < prev_hi - prev_lo);
                prev_lo = lo;
                prev_hi = hi;
            },
        }
        boots += 1;
        assert!(boots < 40, "the search must converge quickly");
    }
    assert!(s.bound_hi - s.bound_lo < 5);
}

#[test]
fn recording_after_write_touches_only_the_phase_slot() {
    let mut s = state(MAGIC_VALUE, 1, 2, PHASE_BEFORE_WRITE, 5);
    s.record_after_write();
    assert_eq!(s, state(MAGIC_VALUE, 1, 2, PHASE_AFTER_WRITE, 5));
}

#[test]
fn phase_markers_round_trip() {
    for p in [Phase::Uninitialized, Phase::BeforeWrite, Phase::AfterWrite] {
        assert_eq!(phase_from_raw(phase_to_raw(p)), p);
    }
    assert_eq!(phase_from_raw(1), Phase::BeforeWrite);
    assert_eq!(phase_from_raw(2), Phase::AfterWrite);
    assert_eq!(phase_from_raw(0), Phase::Uninitialized);
    assert_eq!(phase_from_raw(0xDEAD), Phase::Uninitialized);
}

#[test]
fn reset_counter_wraps_at_its_maximum() {
    let mut s = state(MAGIC_VALUE, 100, 1_000_000, 0, u32::MAX);
    s.count_reset();
    assert_eq!(s.reset_count, 0);
}
