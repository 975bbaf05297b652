//! Register-level shell for an OPL3-style FM sound chip.
//!
//! The synthesis core proper (the numerical simulation that turns register
//! writes into PCM samples) lives outside this crate; the shell models
//! everything the core does not: a readable shadow of every register ever
//! written, the two hardware timers with their enable/mask/overflow
//! semantics, the status register derived from them, and the bookkeeping
//! that converts elapsed wall time into timer ticks and due sample frames.

use vstd::prelude::*;

pub mod timer;
pub mod shadow;
pub mod device;

pub use timer::OplTimer;
pub use shadow::RegisterShadow;
pub use device::CoreWrite;
pub use device::DeviceView;
pub use device::Opl3Device;
pub use device::Opl3DeviceStats;

verus! {

/// Errors surfaced by the shell. Only the buffer-shape checks that guard
/// the synthesis core's generation entry points can actually fail; all
/// register, timer and statistics operations are total.
#[derive(Debug, PartialEq, Eq, Structural, Clone, Copy)]
pub enum OplError {
    /// The buffer slice provided was too small to hold the requested frames.
    BufferUndersized,
    /// Two related buffer slices were not equal in length.
    BufferMismatch,
    /// The specified register number is out of range.
    RegisterOutOfRange,
    /// A lock guarding a shared device instance could not be acquired.
    MutexLockFailed,
}

/// Selects one of the chip's two register files. The primary file is the
/// OPL2-compatible bank; the secondary file is the OPL3 extension bank.
#[derive(Debug, PartialEq, Eq, Structural, Clone, Copy)]
pub enum OplRegisterFile {
    /// The OPL2-compatible register file.
    Primary,
    /// The extended OPL3 register file.
    Secondary,
}

} // verus!

