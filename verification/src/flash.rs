//! Flash-controller driver, verified over a plain-data register model.
//!
//! The driver must follow the hardware-mandated sequences exactly: the
//! two-word unlock key, the erase sequence (busy check, flag clear, page
//! select, start, busy wait, deselect) and the double-word programming
//! sequence. [`Flash`] models the controller's registers and the little
//! latched state the sequences depend on as plain values, so every step
//! of the driver is stated and proved. The model device is deterministic
//! and ideal: an operation started with a correct configuration completes
//! at once and without error, while stale error flags, a stuck busy bit
//! or a blocked unlock latch must be handled exactly as on hardware.
//!
//! The binding that performs the same sequence on the memory-mapped
//! registers lives outside this crate; it reuses the pure helpers
//! ([`erase_plan`], [`dword_halves`], [`status_from_flags`],
//! [`dualbank_from_optr`]) so that every decision stays verified.

use vstd::prelude::*;

use crate::params::DUAL_BANK_PAGE_COUNT;
use crate::params::DUAL_BANK_PAGE_SIZE;
use crate::params::FLASH_KEY1;
use crate::params::FLASH_KEY2;
use crate::params::OPTR_DBANK_MASK;
use crate::params::PAGES_PER_BANK;
use crate::params::SINGLE_BANK_PAGE_COUNT;
use crate::params::SINGLE_BANK_PAGE_SIZE;
use crate::params::WAIT_ROUNDS;

verus! {

broadcast use vstd::seq::group_seq_axioms;

/// Ways a flash operation can fail.
#[derive(Debug, Clone, Copy, PartialEq, Eq, Structural)]
pub enum Error {
    /// Unlocking the flash failed. This should never happen and requires
    /// a reset to escape from.
    UnlockFailed,
    /// The flash is currently busy. This should go away after some time
    /// or indicates a timeout.
    Busy,
    /// Flash programming failed due to a software implementation error.
    Illegal,
    /// The given page number does not exist in the current bank mode.
    InvalidPage,
}

/// One 32-bit half-word the driver programmed into flash memory:
/// the model's record of a volatile write performed by [`FlashUnlocked::write_dwords`].
#[derive(Debug, Clone, Copy, PartialEq, Eq, Structural)]
pub struct WordWrite {
    /// Byte address the half-word was written to.
    pub addr: u32,
    /// The 32-bit value written there.
    pub value: u32,
}

/// Plain-data model of the flash controller, together with the record of
/// the operations the driver performed on it.
///
/// Register state:
/// * `optr` — raw option register; bit 22 (DBANK) selects the bank mode.
/// * `cr_lock` — the configuration register's LOCK bit. While it is set
///   the erase/program fields cannot be changed; hardware clears it only
///   after the two-word key sequence.
/// * `cr_per`, `cr_bker`, `cr_pnb` — page-erase enable, bank select and
///   bank-local page number.
/// * `cr_pg` — programming enable.
/// * `sr_bsy` — operation in progress. The model device never completes
///   an operation that was already running at entry, so a set busy bit
///   models a stuck or foreign operation and makes the bounded wait time
///   out.
/// * `sr_eop` and the seven sticky error flags of the status register.
///
/// Latched unlock state:
/// * `key_stage` — 1 after the first key word was accepted, else 0.
/// * `unlock_blocked` — set once a wrong key sequence was written; the
///   hardware then keeps LOCK set until the next system reset.
///
/// Operation record (what the driver did to the device):
/// * `erase_count`, `last_erase_bker`, `last_erase_pnb` — how many page
///   erases were started, and the bank/page selection of the last one.
/// * `word_writes` — every 32-bit half-word programmed, in order.
pub struct Flash {
    /// Raw option register.
    pub optr: u32,
    /// LOCK bit of the configuration register.
    pub cr_lock: bool,
    /// PER (page erase enable) bit.
    pub cr_per: bool,
    /// PG (programming enable) bit.
    pub cr_pg: bool,
    /// BKER (bank select for erase) bit.
    pub cr_bker: bool,
    /// PNB (bank-local page number) field.
    pub cr_pnb: u8,
    /// BSY bit of the status register.
    pub sr_bsy: bool,
    /// EOP (end of operation) flag.
    pub sr_eop: bool,
    /// PROGERR sticky error flag.
    pub sr_progerr: bool,
    /// SIZERR sticky error flag.
    pub sr_sizerr: bool,
    /// PGAERR sticky error flag.
    pub sr_pgaerr: bool,
    /// PGSERR sticky error flag.
    pub sr_pgserr: bool,
    /// WRPERR sticky error flag.
    pub sr_wrperr: bool,
    /// MISERR sticky error flag.
    pub sr_miserr: bool,
    /// FASTERR sticky error flag.
    pub sr_fasterr: bool,
    /// Unlock latch: 1 after the first key word was accepted.
    pub key_stage: u8,
    /// Set once a wrong key sequence blocked unlocking until reset.
    pub unlock_blocked: bool,
    /// Number of page erases started on this device.
    pub erase_count: u32,
    /// BKER selection of the most recent erase.
    pub last_erase_bker: bool,
    /// PNB selection of the most recent erase.
    pub last_erase_pnb: u8,
    /// Every 32-bit half-word programmed into flash memory, in order.
    pub word_writes: Vec<WordWrite>,
}

/// A [`Flash`] whose configuration register has been unlocked for
/// erasing and programming.
///
/// The handle is obtained only from [`Flash::unlock`] and owns the flash
/// exclusively; releasing it through [`FlashUnlocked::relock`] sets the
/// LOCK bit again unconditionally, so the flash is protected again on
/// every path on which the capability is given back. It also exposes the
/// read-only queries of [`Flash`] without re-exposing the unlock key.
pub struct FlashUnlocked {
    /// The unlocked controller.
    pub flash: Flash,
}

/// True if bit 22 (DBANK) is set in the given raw option-register value.
pub open spec fn spec_dualbank_from_optr(optr: u32) -> bool {
    optr & OPTR_DBANK_MASK != 0
}

/// Page size in bytes for the given bank mode.
pub open spec fn spec_page_size(dual: bool) -> u32 {
    if dual {
        DUAL_BANK_PAGE_SIZE
    } else {
        SINGLE_BANK_PAGE_SIZE
    }
}

/// Number of pages for the given bank mode.
pub open spec fn spec_page_count(dual: bool) -> u32 {
    if dual {
        DUAL_BANK_PAGE_COUNT
    } else {
        SINGLE_BANK_PAGE_COUNT
    }
}

/// The page index holding `addr`: address divided by the page size.
pub open spec fn spec_page_of(dual: bool, addr: u32) -> int {
    addr as int / spec_page_size(dual) as int
}

/// What reading the status register yields: busy wins, and any of the
/// seven sticky error flags makes the status illegal — a stale flag
/// from a prior attempt blocks the next operation until it is cleared.
pub open spec fn spec_status(f: Flash) -> Result<(), Error> {
    if f.sr_bsy {
        Err(Error::Busy)
    } else if !spec_flags_cleared(f) {
        Err(Error::Illegal)
    } else {
        Ok(())
    }
}

/// All seven sticky programming-error flags are clear.
pub open spec fn spec_flags_cleared(f: Flash) -> bool {
    &&& !f.sr_progerr
    &&& !f.sr_sizerr
    &&& !f.sr_pgaerr
    &&& !f.sr_pgserr
    &&& !f.sr_wrperr
    &&& !f.sr_miserr
    &&& !f.sr_fasterr
}

/// The two model states describe the same device: every register,
/// latch and record field agrees.
pub open spec fn spec_same_state(a: Flash, b: Flash) -> bool {
    &&& a.optr == b.optr
    &&& a.cr_lock == b.cr_lock
    &&& a.cr_per == b.cr_per
    &&& a.cr_pg == b.cr_pg
    &&& a.cr_bker == b.cr_bker
    &&& a.cr_pnb == b.cr_pnb
    &&& a.sr_bsy == b.sr_bsy
    &&& a.sr_eop == b.sr_eop
    &&& a.sr_progerr == b.sr_progerr
    &&& a.sr_sizerr == b.sr_sizerr
    &&& a.sr_pgaerr == b.sr_pgaerr
    &&& a.sr_pgserr == b.sr_pgserr
    &&& a.sr_wrperr == b.sr_wrperr
    &&& a.sr_miserr == b.sr_miserr
    &&& a.sr_fasterr == b.sr_fasterr
    &&& a.key_stage == b.key_stage
    &&& a.unlock_blocked == b.unlock_blocked
    &&& a.erase_count == b.erase_count
    &&& a.last_erase_bker == b.last_erase_bker
    &&& a.last_erase_pnb == b.last_erase_pnb
    &&& a.word_writes@ == b.word_writes@
}

/// The parts of the state no driver operation but the unlock/lock
/// sequence may touch: option register, lock, latch and record.
pub open spec fn spec_frame_unchanged(a: Flash, b: Flash) -> bool {
    &&& a.optr == b.optr
    &&& a.cr_lock == b.cr_lock
    &&& a.key_stage == b.key_stage
    &&& a.unlock_blocked == b.unlock_blocked
}

impl Flash {
    /// Well-formed model: no key word is half-latched.
    pub open spec fn wf(self) -> bool {
        self.key_stage == 0
    }

    /// Whether the model describes a dual-bank device.
    pub open spec fn spec_is_dualbank(self) -> bool {
        spec_dualbank_from_optr(self.optr)
    }

    /// Create a flash model for a controller at rest: locked, idle, no
    /// sticky flags set, nothing erased or programmed yet.
    pub fn new(optr: u32) -> (f: Flash)
        ensures
            f.wf(),
            f.optr == optr,
            f.cr_lock,
            !f.cr_per,
            !f.cr_pg,
            !f.cr_bker,
            f.cr_pnb == 0,
            !f.sr_bsy,
            !f.sr_eop,
            spec_flags_cleared(f),
            !f.unlock_blocked,
            f.erase_count == 0,
            f.word_writes@ == Seq::<WordWrite>::empty(),
    {
        Flash {
            optr,
            cr_lock: true,
            cr_per: false,
            cr_pg: false,
            cr_bker: false,
            cr_pnb: 0,
            sr_bsy: false,
            sr_eop: false,
            sr_progerr: false,
            sr_sizerr: false,
            sr_pgaerr: false,
            sr_pgserr: false,
            sr_wrperr: false,
            sr_miserr: false,
            sr_fasterr: false,
            key_stage: 0,
            unlock_blocked: false,
            erase_count: 0,
            last_erase_bker: false,
            last_erase_pnb: 0,
            word_writes: Vec::new(),
        }
    }

    /// True if the device is in dual-bank mode. The configuration bit is
    /// read fresh on each query, never cached.
    pub fn is_dualbank(&self) -> (r: bool)
        ensures
            r == self.spec_is_dualbank(),
    {
        dualbank_from_optr(self.optr)
    }

    /// Page size in bytes in the current bank mode.
    pub fn page_size(&self) -> (r: u32)
        ensures
            r == spec_page_size(self.spec_is_dualbank()),
    {
        page_size_in_mode(self.is_dualbank())
    }

    /// The page number holding the given address in the current bank
    /// mode. The same address maps to different page numbers in the two
    /// modes.
    pub fn address_to_page_number(&self, address: u32) -> (r: u32)
        ensures
            r == spec_page_of(self.spec_is_dualbank(), address),
    {
        address_to_page_in_mode(self.is_dualbank(), address)
    }

    /// Current status: busy, illegal (a sticky error flag is set), or
    /// ready.
    pub fn status(&self) -> (r: Result<(), Error>)
        ensures
            r == spec_status(*self),
    {
        if self.sr_bsy {
            Err(Error::Busy)
        } else {
            status_from_flags(
                self.sr_progerr,
                self.sr_sizerr,
                self.sr_pgaerr,
                self.sr_pgserr,
                self.sr_wrperr,
                self.sr_miserr,
                self.sr_fasterr,
            )
        }
    }
}

/// True if bit 22 (DBANK) is set in the raw option-register value: the
/// device is in dual-bank mode.
pub fn dualbank_from_optr(optr: u32) -> (r: bool)
    ensures
        r == spec_dualbank_from_optr(optr),
{
    optr & OPTR_DBANK_MASK != 0
}

/// Page size in bytes for the given bank mode.
pub fn page_size_in_mode(dual: bool) -> (r: u32)
    ensures
        r == spec_page_size(dual),
{
    if dual {
        DUAL_BANK_PAGE_SIZE
    } else {
        SINGLE_BANK_PAGE_SIZE
    }
}

/// Number of pages for the given bank mode.
pub fn page_count_in_mode(dual: bool) -> (r: u32)
    ensures
        r == spec_page_count(dual),
{
    if dual {
        DUAL_BANK_PAGE_COUNT
    } else {
        SINGLE_BANK_PAGE_COUNT
    }
}

/// The page index holding `addr` in the given bank mode: the address
/// divided by the page size, with no rounding.
pub fn address_to_page_in_mode(dual: bool, addr: u32) -> (r: u32)
    ensures
        r == spec_page_of(dual, addr),
{
    addr / page_size_in_mode(dual)
}

/// First byte address of the page with the given index.
pub fn page_first_address(dual: bool, page: u32) -> (addr: u32)
    requires
        page < spec_page_count(dual),
    ensures
        addr == page * spec_page_size(dual),
{
    proof {
        lemma_page_bounds(dual, page);
    }
    page * page_size_in_mode(dual)
}

/// Page size and page count are consistent with the bank mode at all
/// times: together they always cover exactly the 2 MiB device.
pub proof fn lemma_geometry_consistent(dual: bool)
    ensures
        spec_page_count(dual) * spec_page_size(dual) == 0x20_0000,
{
    if dual {
        assert(spec_page_count(dual) == 512 && spec_page_size(dual) == 0x1000);
    } else {
        assert(spec_page_count(dual) == 256 && spec_page_size(dual) == 0x2000);
    }
}

/// A valid page index times the page size stays inside the 2 MiB device.
proof fn lemma_page_bounds(dual: bool, page: u32)
    requires
        page < spec_page_count(dual),
    ensures
        page * spec_page_size(dual) <= 0x20_0000,
{
    let count = spec_page_count(dual) as int;
    let size = spec_page_size(dual) as int;
    lemma_geometry_consistent(dual);
    assert(page * size <= 0x20_0000) by (nonlinear_arith)
        requires
            page < count,
            count * size == 0x20_0000,
            size > 0,
    ;
}

/// Page geometry is a bijection on valid pages: mapping a page index to
/// its first address and that address back to a page index returns the
/// original index, in both bank modes.
pub proof fn lemma_page_address_round_trip(dual: bool, page: u32)
    requires
        page < spec_page_count(dual),
    ensures
        spec_page_of(dual, (page * spec_page_size(dual)) as u32) == page,
{
    lemma_page_bounds(dual, page);
    let s = spec_page_size(dual) as int;
    assert((page * s) / s == page) by (nonlinear_arith)
        requires
            s > 0,
    ;
}

/// BKER selection for erasing the given page: in dual-bank mode pages
/// 256 and up live in the second bank; in single-bank mode the bit must
/// be kept cleared. The hardware calls the banks 1 and 2; the driver
/// numbers them 0 and 1 throughout.
pub open spec fn spec_erase_bker(dual: bool, page: u32) -> bool {
    dual && page as int / PAGES_PER_BANK as int == 1
}

/// Bank-local page number for erasing the given page.
pub open spec fn spec_erase_pnb(page: u32) -> u8 {
    (page as int % PAGES_PER_BANK as int) as u8
}

/// Low 32-bit half of a double word, written first when programming.
pub open spec fn spec_dword_lo(d: u64) -> u32 {
    (d & 0xFFFF_FFFF) as u32
}

/// High 32-bit half of a double word, written second.
pub open spec fn spec_dword_hi(d: u64) -> u32 {
    (d >> 32) as u32
}

impl Flash {
    /// Model of writing one word to the key register. Hardware latches
    /// each key word separately: the first correct word arms the latch,
    /// the second clears LOCK. A wrong sequence blocks unlocking until
    /// the next system reset; while the controller is already unlocked
    /// or blocked, key words are ignored.
    fn write_key(&mut self, key: u32)
        ensures
            final(self).cr_lock == (if !old(self).cr_lock || old(self).unlock_blocked {
                old(self).cr_lock
            } else {
                !(old(self).key_stage == 1 && key == FLASH_KEY2)
            }),
            final(self).key_stage == (if old(self).cr_lock && !old(self).unlock_blocked
                && old(self).key_stage == 0 && key == FLASH_KEY1 {
                1u8
            } else {
                0u8
            }),
            final(self).unlock_blocked == (old(self).unlock_blocked || (old(self).cr_lock
                && !old(self).unlock_blocked && !(old(self).key_stage == 0 && key == FLASH_KEY1)
                && !(old(self).key_stage == 1 && key == FLASH_KEY2))),
            spec_frame_unchanged_but_lock(*old(self), *final(self)),
    {
        if !self.cr_lock || self.unlock_blocked {
            self.key_stage = 0;
        } else if self.key_stage == 0 && key == FLASH_KEY1 {
            self.key_stage = 1;
        } else if self.key_stage == 1 && key == FLASH_KEY2 {
            self.cr_lock = false;
            self.key_stage = 0;
        } else {
            self.unlock_blocked = true;
            self.key_stage = 0;
        }
    }

    /// Unlock the flash by writing the two-word key sequence, then check
    /// that the LOCK bit really cleared. On correct hardware the check
    /// never fails; if it does (the unlock latch was blocked by an
    /// earlier wrong sequence), the locked flash comes back together
    /// with [`Error::UnlockFailed`], a condition only a reset clears.
    ///
    /// The binding that performs this on the memory-mapped registers
    /// must put a completion barrier between the two key writes: the
    /// controller latches each word separately.
    pub fn unlock(self) -> (r: Result<FlashUnlocked, (Flash, Error)>)
        requires
            self.wf(),
        ensures
            r is Ok <==> (!self.cr_lock || !self.unlock_blocked),
            r matches Ok(u) ==> {
                &&& u.wf()
                &&& !u.flash.cr_lock
                &&& spec_frame_unchanged_but_lock(self, u.flash)
            },
            r matches Err(p) ==> {
                &&& p.1 == Error::UnlockFailed
                &&& spec_same_state(p.0, self)
                &&& p.0.wf()
            },
    {
        let mut f = self;
        f.write_key(FLASH_KEY1);
        f.write_key(FLASH_KEY2);
        // LOCK stays set until the next reset after an unsuccessful
        // unlock attempt.
        if f.cr_lock {
            return Err((f, Error::UnlockFailed));
        }
        Ok(FlashUnlocked { flash: f })
    }
}

/// Everything but the LOCK bit and the key latch agrees between the two
/// model states.
pub open spec fn spec_frame_unchanged_but_lock(a: Flash, b: Flash) -> bool {
    &&& a.optr == b.optr
    &&& a.cr_per == b.cr_per
    &&& a.cr_pg == b.cr_pg
    &&& a.cr_bker == b.cr_bker
    &&& a.cr_pnb == b.cr_pnb
    &&& a.sr_bsy == b.sr_bsy
    &&& a.sr_eop == b.sr_eop
    &&& a.sr_progerr == b.sr_progerr
    &&& a.sr_sizerr == b.sr_sizerr
    &&& a.sr_pgaerr == b.sr_pgaerr
    &&& a.sr_pgserr == b.sr_pgserr
    &&& a.sr_wrperr == b.sr_wrperr
    &&& a.sr_miserr == b.sr_miserr
    &&& a.sr_fasterr == b.sr_fasterr
    &&& a.erase_count == b.erase_count
    &&& a.last_erase_bker == b.last_erase_bker
    &&& a.last_erase_pnb == b.last_erase_pnb
    &&& a.word_writes@ == b.word_writes@
}

impl FlashUnlocked {
    /// Well-formed capability: the controller it owns really is
    /// unlocked, and no key word is half-latched.
    pub open spec fn wf(self) -> bool {
        &&& !self.flash.cr_lock
        &&& self.flash.key_stage == 0
    }

    /// Give the capability back, setting the LOCK bit again
    /// unconditionally. Whatever sequence of driver calls ran while the
    /// capability was held, the flash is locked once it is released, as
    /// it was before [`Flash::unlock`].
    pub fn relock(self) -> (f: Flash)
        ensures
            f.cr_lock,
            f.wf(),
            spec_frame_unchanged_but_lock(self.flash, f),
    {
        let mut f = self.flash;
        f.cr_lock = true;
        f.key_stage = 0;
        f
    }

    /// True if the device is in dual-bank mode (read-only query,
    /// exposed without re-exposing the unlock key).
    pub fn is_dualbank(&self) -> (r: bool)
        ensures
            r == self.flash.spec_is_dualbank(),
    {
        self.flash.is_dualbank()
    }

    /// Page size in bytes in the current bank mode.
    pub fn page_size(&self) -> (r: u32)
        ensures
            r == spec_page_size(self.flash.spec_is_dualbank()),
    {
        self.flash.page_size()
    }

    /// The page number holding the given address in the current bank
    /// mode.
    pub fn address_to_page_number(&self, address: u32) -> (r: u32)
        ensures
            r == spec_page_of(self.flash.spec_is_dualbank(), address),
    {
        self.flash.address_to_page_number(address)
    }

    /// Clear every sticky programming-error flag (on hardware: one
    /// atomic update of the status register). A stale flag from an
    /// earlier attempt would otherwise block the next erase or program
    /// operation.
    pub fn clear_programming_flags(&mut self)
        requires
            old(self).wf(),
        ensures
            final(self).wf(),
            spec_flags_cleared(final(self).flash),
            final(self).flash.sr_bsy == old(self).flash.sr_bsy,
            final(self).flash.sr_eop == old(self).flash.sr_eop,
            final(self).flash.cr_per == old(self).flash.cr_per,
            final(self).flash.cr_pg == old(self).flash.cr_pg,
            final(self).flash.cr_bker == old(self).flash.cr_bker,
            final(self).flash.cr_pnb == old(self).flash.cr_pnb,
            spec_frame_unchanged(old(self).flash, final(self).flash),
            spec_history_unchanged(old(self).flash, final(self).flash),
    {
        self.flash.sr_progerr = false;
        self.flash.sr_sizerr = false;
        self.flash.sr_pgaerr = false;
        self.flash.sr_pgserr = false;
        self.flash.sr_wrperr = false;
        self.flash.sr_miserr = false;
        self.flash.sr_fasterr = false;
    }

    /// Busy-poll the BSY bit for a bounded number of iterations, then
    /// report the status: the bound is the only timeout mechanism, there
    /// is no completion interrupt in scope. A still-busy controller
    /// yields [`Error::Busy`], any sticky error flag [`Error::Illegal`].
    pub fn wait(&mut self) -> (r: Result<(), Error>)
        requires
            old(self).wf(),
        ensures
            spec_same_state(old(self).flash, final(self).flash),
            final(self).wf(),
            r == spec_status(old(self).flash),
    {
        let ghost f0 = self.flash;
        let mut rounds: u32 = 0;
        while rounds < WAIT_ROUNDS && self.flash.sr_bsy
            invariant
                spec_same_state(f0, self.flash),
                rounds <= WAIT_ROUNDS,
            decreases WAIT_ROUNDS - rounds,
        {
            rounds = rounds + 1;
        }
        self.flash.status()
    }

    /// Model of setting the STRT bit while PER is set on an idle
    /// controller: the device starts the selected page erase. The model
    /// device is ideal, so the operation completes at once and without
    /// error; the record keeps count and remembers the selection.
    fn start_erase(&mut self)
        requires
            old(self).wf(),
            old(self).flash.cr_per,
            !old(self).flash.sr_bsy,
        ensures
            final(self).wf(),
            final(self).flash == (Flash {
                erase_count: if old(self).flash.erase_count == u32::MAX {
                    0u32
                } else {
                    (old(self).flash.erase_count + 1) as u32
                },
                last_erase_bker: old(self).flash.cr_bker,
                last_erase_pnb: old(self).flash.cr_pnb,
                ..old(self).flash
            }),
    {
        self.flash.erase_count = if self.flash.erase_count == u32::MAX {
            0
        } else {
            self.flash.erase_count + 1
        };
        self.flash.last_erase_bker = self.flash.cr_bker;
        self.flash.last_erase_pnb = self.flash.cr_pnb;
    }
}

impl FlashUnlocked {
    /// Erase the flash page with the given number, following the
    /// hardware's erase sequence: validate the index, wait for any
    /// in-flight operation, clear the sticky flags, select bank and
    /// page, start, wait for completion and deselect again whatever the
    /// outcome.
    ///
    /// An out-of-range index is rejected before any register is
    /// touched. The page number is recommended to come from
    /// [`Flash::address_to_page_number`], since the same address maps to
    /// different page numbers in the two bank modes.
    pub fn erase_page(&mut self, page_number: u32) -> (r: Result<(), Error>)
        requires
            old(self).wf(),
        ensures
            final(self).wf(),
            ({
                let f0 = old(self).flash;
                let dual = f0.spec_is_dualbank();
                &&& (r is Ok <==> page_number < spec_page_count(dual) && spec_status(f0) is Ok)
                &&& (page_number >= spec_page_count(dual) ==> r == Err::<(), Error>(
                    Error::InvalidPage,
                ) && spec_same_state(f0, final(self).flash))
                &&& (page_number < spec_page_count(dual) && spec_status(f0) is Err ==> r
                    == spec_status(f0) && spec_same_state(f0, final(self).flash))
                &&& (r is Ok ==> {
                    let f1 = final(self).flash;
                    &&& f1.erase_count == (if f0.erase_count == u32::MAX {
                        0u32
                    } else {
                        (f0.erase_count + 1) as u32
                    })
                    &&& f1.last_erase_bker == spec_erase_bker(dual, page_number)
                    &&& f1.last_erase_pnb == spec_erase_pnb(page_number)
                    &&& f1.cr_bker == spec_erase_bker(dual, page_number)
                    &&& f1.cr_pnb == spec_erase_pnb(page_number)
                    &&& !f1.cr_per
                    &&& f1.cr_pg == f0.cr_pg
                    &&& !f1.sr_bsy
                    &&& f1.sr_eop == f0.sr_eop
                    &&& spec_flags_cleared(f1)
                    &&& spec_frame_unchanged(f0, f1)
                    &&& f1.word_writes@ == f0.word_writes@
                })
            }),
    {
        // Validate and translate the page index before any register is
        // touched: pages 256 and up live in the second bank in
        // dual-bank mode, and BKER must be kept cleared in single-bank
        // mode.
        let dual = self.is_dualbank();
        let (bker, pnb) = match erase_plan(dual, page_number) {
            Err(e) => {
                return Err(e);
            },
            Ok(sel) => sel,
        };

        // Check that no flash memory operation is ongoing, and that no
        // stale error flag blocks a new one.
        self.wait()?;

        // Clear all sticky error flags due to a previous programming;
        // otherwise the new operation would fault with a sequence error.
        self.clear_programming_flags();

        // Select page erase, the bank and the bank-local page (one
        // register update on hardware).
        self.flash.cr_per = true;
        self.flash.cr_bker = bker;
        self.flash.cr_pnb = pnb;

        // Start the erase and wait for the BSY bit to clear.
        self.start_erase();
        let result = self.wait();

        // Disable page erase again regardless of the outcome.
        self.flash.cr_per = false;

        result
    }

    /// Program an array of double words starting at the given byte
    /// address, following the standard programming sequence: wait for
    /// idle, clear the sticky flags, enable programming, then write each
    /// double word as two consecutive 32-bit writes (low half first) and
    /// wait for completion after every double word — each unit programs
    /// independently, so an error must be caught before the next unit is
    /// attempted. A spurious end-of-operation flag is cleared inline,
    /// and programming is disabled again at the end.
    ///
    /// The target page must have been erased beforehand, and the binding
    /// that performs this on the memory-mapped device must put a
    /// completion barrier between the two halves of each double word.
    pub fn write_dwords(&mut self, address: u32, words: &Vec<u64>) -> (r: Result<(), Error>)
        requires
            old(self).wf(),
            address != 0,
            address + 8 * words@.len() <= 0x1_0000_0000,
        ensures
            final(self).wf(),
            r is Ok <==> spec_status(old(self).flash) is Ok,
            r is Err ==> r == spec_status(old(self).flash) && spec_same_state(
                old(self).flash,
                final(self).flash,
            ),
            r is Ok ==> ({
                let f0 = old(self).flash;
                let f1 = final(self).flash;
                let n0 = f0.word_writes@.len() as int;
                &&& f1.word_writes@.len() == n0 + 2 * words@.len()
                &&& (forall|j: int|
                    0 <= j < n0 ==> f1.word_writes@[j] == f0.word_writes@[j])
                &&& (forall|i: int|
                    0 <= i < words@.len() ==> f1.word_writes@[n0 + 2 * i] == (WordWrite {
                        addr: (address + 8 * i) as u32,
                        value: spec_dword_lo(#[trigger] words@[i]),
                    }) && f1.word_writes@[n0 + 2 * i + 1] == (WordWrite {
                        addr: (address + 8 * i + 4) as u32,
                        value: spec_dword_hi(words@[i]),
                    }))
                &&& !f1.cr_pg
                &&& f1.cr_per == f0.cr_per
                &&& f1.cr_bker == f0.cr_bker
                &&& f1.cr_pnb == f0.cr_pnb
                &&& !f1.sr_bsy
                &&& f1.sr_eop == (if words@.len() == 0 {
                    f0.sr_eop
                } else {
                    false
                })
                &&& spec_flags_cleared(f1)
                &&& spec_frame_unchanged(f0, f1)
                &&& f1.erase_count == f0.erase_count
                &&& f1.last_erase_bker == f0.last_erase_bker
                &&& f1.last_erase_pnb == f0.last_erase_pnb
            }),
    {
        // Check that no flash memory operation is ongoing, and clear
        // stale error flags from a previous programming.
        self.wait()?;
        self.clear_programming_flags();

        // Enable programming.
        self.flash.cr_pg = true;

        let ghost f1 = self.flash;
        let ghost n0 = f1.word_writes@.len() as int;
        let mut i: usize = 0;
        while i < words.len()
            invariant
                self.wf(),
                0 <= n0,
                !self.flash.sr_bsy,
                spec_flags_cleared(self.flash),
                i <= words@.len(),
                address != 0,
                address + 8 * words@.len() <= 0x1_0000_0000,
                self.flash == (Flash {
                    sr_eop: self.flash.sr_eop,
                    word_writes: self.flash.word_writes,
                    ..f1
                }),
                self.flash.sr_eop == (if i == 0 {
                    f1.sr_eop
                } else {
                    false
                }),
                self.flash.word_writes@.len() == n0 + 2 * i,
                forall|j: int| 0 <= j < n0 ==> self.flash.word_writes@[j] == f1.word_writes@[j],
                forall|k: int|
                    0 <= k < i ==> self.flash.word_writes@[n0 + 2 * k] == (WordWrite {
                        addr: (address + 8 * k) as u32,
                        value: spec_dword_lo(#[trigger] words@[k]),
                    }) && self.flash.word_writes@[n0 + 2 * k + 1] == (WordWrite {
                        addr: (address + 8 * k + 4) as u32,
                        value: spec_dword_hi(words@[k]),
                    }),
            decreases words@.len() - i,
        {
            let d = words[i];
            let halves = dword_halves(d);
            let a = address + (i as u32) * 8;
            let ghost w_before = self.flash.word_writes@;

            // The two 32-bit halves of one program unit, low half then
            // high half at the next word address; the hardware latches
            // the unit only once both halves arrived.
            self.flash.word_writes.push(WordWrite { addr: a, value: halves.0 });
            self.flash.word_writes.push(WordWrite { addr: a + 4, value: halves.1 });

            // Wait until the BSY bit is cleared: each double word
            // programs independently, and programming is disabled
            // again even when a unit fails.
            match self.wait() {
                Ok(_) => {},
                Err(e) => {
                    self.flash.cr_pg = false;
                    return Err(e);
                },
            }

            // The end-of-operation flag is only raised with its
            // interrupt enabled; clear a spurious one inline.
            if self.flash.sr_eop {
                self.flash.sr_eop = false;
            }

            proof {
                let w = self.flash.word_writes@;
                let x = WordWrite { addr: a, value: halves.0 };
                let y = WordWrite { addr: (a + 4) as u32, value: halves.1 };
                assert(w == w_before.push(x).push(y));
                assert forall|k: int| 0 <= k < i + 1 implies w[n0 + 2 * k] == (WordWrite {
                    addr: (address + 8 * k) as u32,
                    value: spec_dword_lo(#[trigger] words@[k]),
                }) && w[n0 + 2 * k + 1] == (WordWrite {
                    addr: (address + 8 * k + 4) as u32,
                    value: spec_dword_hi(words@[k]),
                }) by {
                    if k < i {
                        assert(n0 + 2 * k + 1 < w_before.len());
                        assert(w_before.push(x).push(y)[n0 + 2 * k] == w_before.push(x)[n0 + 2
                            * k]);
                        assert(w_before.push(x)[n0 + 2 * k] == w_before[n0 + 2 * k]);
                        assert(w_before.push(x).push(y)[n0 + 2 * k + 1] == w_before.push(x)[n0 + 2
                            * k + 1]);
                        assert(w_before.push(x)[n0 + 2 * k + 1] == w_before[n0 + 2 * k + 1]);
                    } else {
                        assert(w_before.push(x).push(y)[n0 + 2 * k] == w_before.push(x)[n0 + 2
                            * k]);
                        assert(w_before.push(x)[n0 + 2 * k] == x);
                        assert(w_before.push(x).push(y)[n0 + 2 * k + 1] == y);
                    }
                }
            }
            i = i + 1;
        }

        // Disable programming again now that there is no more request.
        self.flash.cr_pg = false;

        Ok(())
    }
}

/// The operation record agrees between the two model states: nothing
/// was erased or programmed in between.
pub open spec fn spec_history_unchanged(a: Flash, b: Flash) -> bool {
    &&& a.erase_count == b.erase_count
    &&& a.last_erase_bker == b.last_erase_bker
    &&& a.last_erase_pnb == b.last_erase_pnb
    &&& a.word_writes@ == b.word_writes@
}

/// Validate a page index against the bank mode and translate it into
/// the hardware's bank select and bank-local page number. Fails with
/// [`Error::InvalidPage`] exactly when the index is at or beyond the
/// mode's page count; the check involves no hardware state at all.
pub fn erase_plan(dual: bool, page_number: u32) -> (r: Result<(bool, u8), Error>)
    ensures
        r is Err <==> page_number >= spec_page_count(dual),
        r is Err ==> r == Err::<(bool, u8), Error>(Error::InvalidPage),
        r matches Ok(sel) ==> sel.0 == spec_erase_bker(dual, page_number) && sel.1
            == spec_erase_pnb(page_number),
{
    if page_number >= page_count_in_mode(dual) {
        return Err(Error::InvalidPage);
    }
    let bank = page_number / PAGES_PER_BANK;
    let pnb = (page_number % PAGES_PER_BANK) as u8;
    Ok((dual && bank == 1, pnb))
}

/// Split a double word into the two 32-bit halves the programming
/// sequence writes, low half first.
pub fn dword_halves(d: u64) -> (r: (u32, u32))
    ensures
        r.0 == spec_dword_lo(d),
        r.1 == spec_dword_hi(d),
{
    ((d & 0xFFFF_FFFF) as u32, (d >> 32) as u32)
}

/// Status decision from the seven sticky error flags of an idle
/// controller: illegal if any is set, ready otherwise.
pub fn status_from_flags(
    progerr: bool,
    sizerr: bool,
    pgaerr: bool,
    pgserr: bool,
    wrperr: bool,
    miserr: bool,
    fasterr: bool,
) -> (r: Result<(), Error>)
    ensures
        r == (if progerr || sizerr || pgaerr || pgserr || wrperr || miserr || fasterr {
            Err::<(), Error>(Error::Illegal)
        } else {
            Ok::<(), Error>(())
        }),
{
    if progerr || sizerr || pgaerr || pgserr || wrperr || miserr || fasterr {
        Err(Error::Illegal)
    } else {
        Ok(())
    }
}

} // verus!
