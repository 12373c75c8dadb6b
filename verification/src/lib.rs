//! Logic of a flash fault-injection probe: a firmware experiment that
//! corrupts one word of its own flash at a precisely timed instant in order
//! to provoke a detectable ECC fault inside a known address window.
//!
//! The crate verifies the three algorithmic parts of that firmware:
//!
//! * [`flash`] — the flash-controller driver (unlock sequence, page erase,
//!   double-word programming, bounded busy-wait), stated and proved over a
//!   plain-data model of the controller's registers;
//! * [`search`] — the cross-reset experiment controller: a binary search
//!   over a timing parameter, persisted in reset-surviving register slots;
//! * [`classify`] — the fault classifier that decides, from the latched
//!   ECC status, whether an observed exception is the intended outcome.
//!
//! The memory-mapped register pokes themselves are I/O and live outside
//! this crate; everything here is a function from plain values to plain
//! values.

pub mod classify;
pub mod flash;
pub mod params;
pub mod search;
