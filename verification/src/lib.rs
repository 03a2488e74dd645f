//! Instruction-execution core of a 6502-style processor emulator.
//!
//! The crate models a flat 16-bit address space, an addressing-mode
//! resolver, a register file with packed status flags, and a
//! fetch-decode-execute loop, each with a verified contract. The spec-level
//! machine model lives in [`machine`]; the executable processor in [`cpu`].

pub mod addressing_mode;
pub mod cpu;
pub mod machine;

pub use addressing_mode::AddressingMode;
pub use cpu::CPU;

use vstd::prelude::*;

verus! {

/// Failures of the core. Unmapped opcodes are deliberately not here: they
/// decode to a no-op, an extension seam for the rest of the instruction
/// set.
#[derive(Debug, Clone, Copy, PartialEq, Eq, Structural)]
pub enum EmuError {
    /// The `NoneAddressing` sentinel was resolved to an address: a
    /// dispatch-table bug, unreachable from a correct decode table.
    UnsupportedAddressingMode,
    /// A program longer than the space between the load origin and the top
    /// of memory was rejected before any byte was written.
    ProgramTooLarge,
}

} // verus!
