//! The closed set of operand addressing modes.

use vstd::prelude::*;

verus! {

/// How an instruction's trailing bytes are interpreted as an operand.
///
/// `NoneAddressing` is a sentinel for instructions that take no operand;
/// resolving it is an error, never a valid code path.
#[allow(non_camel_case_types)]
#[derive(Debug, Clone, Copy, PartialEq, Eq, Structural)]
pub enum AddressingMode {
    Immediate,
    ZeroPage,
    ZeroPage_X,
    ZeroPage_Y,
    Absolute,
    Absolute_X,
    Absolute_Y,
    Indirect_X,
    Indirect_Y,
    NoneAddressing,
}

} // verus!
