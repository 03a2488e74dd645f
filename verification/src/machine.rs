//! Mathematical model of the processor: a ghost view of the register file
//! and address space, the semantics of each addressing mode and instruction,
//! and the small-step fetch-decode-execute relation that `CPU::run` is
//! proved against.

use vstd::prelude::*;

use crate::addressing_mode::AddressingMode;
use crate::EmuError;

verus! {

/// Size of the flat address space: the full 16-bit range.
pub const MEM_SIZE: usize = 0x10000;

/// Fixed origin where programs are installed.
pub const PROGRAM_ORIGIN: u16 = 0x8000;

/// Largest program that fits between the origin and the top of memory.
pub const MAX_PROGRAM_LEN: usize = 0x8000;

/// Address of the little-endian reset vector.
pub const RESET_VECTOR_ADDR: u16 = 0xfffc;

/// Status-byte bit recording that the last result was zero.
pub const FLAG_ZERO: u8 = 0b0000_0010;

/// Status-byte bit recording that the last result had its high bit set.
pub const FLAG_NEGATIVE: u8 = 0b1000_0000;

/// Opcode bytes decoded by this core.
pub const OP_BRK: u8 = 0x00;

pub const OP_LDA_IMMEDIATE: u8 = 0xa9;

pub const OP_LDA_ZERO_PAGE: u8 = 0xa5;

pub const OP_LDA_ABSOLUTE: u8 = 0xad;

pub const OP_TAX: u8 = 0xaa;

pub const OP_INX: u8 = 0xe8;

/// Wrapping 8-bit addition, as index-register arithmetic performs it.
pub open spec fn add8(a: u8, b: u8) -> u8 {
    if a + b > 0xff {
        (a + b - 0x100) as u8
    } else {
        (a + b) as u8
    }
}

/// Wrapping 16-bit addition, as program-counter and absolute-address
/// arithmetic perform it.
pub open spec fn add16(a: u16, b: u16) -> u16 {
    if a + b > 0xffff {
        (a + b - 0x10000) as u16
    } else {
        (a + b) as u16
    }
}

/// The processor state as the contracts speak of it: registers, packed
/// status byte, program counter, and the full address space.
pub struct CpuView {
    pub a: u8,
    pub x: u8,
    pub y: u8,
    pub status: u8,
    pub pc: u16,
    pub mem: Seq<u8>,
}

impl CpuView {
    /// The address space always covers the full 16-bit range.
    pub open spec fn wf(self) -> bool {
        self.mem.len() == MEM_SIZE
    }
}

/// The power-on state: zeroed registers, cleared status, and a zeroed
/// address space.
pub open spec fn initial_view() -> CpuView {
    CpuView {
        a: 0,
        x: 0,
        y: 0,
        status: 0,
        pc: 0,
        mem: Seq::new(MEM_SIZE as nat, |j: int| 0u8),
    }
}

/// Byte at `addr`.
pub open spec fn read8(m: Seq<u8>, addr: u16) -> u8 {
    m[addr as int]
}

/// 16-bit value assembled from a low and a high byte.
pub open spec fn word(lo: u8, hi: u8) -> u16 {
    (hi * 0x100 + lo) as u16
}

/// Little-endian 16-bit read: low byte at `addr`, high byte at `addr + 1`
/// (the successor wrapping within the 16-bit address space).
pub open spec fn read16(m: Seq<u8>, addr: u16) -> u16 {
    word(read8(m, addr), read8(m, add16(addr, 1)))
}

/// Little-endian 16-bit read whose high-byte fetch wraps within page zero,
/// as the pre- and post-indexed indirect modes require.
pub open spec fn read16_zero_page(m: Seq<u8>, ptr: u8) -> u16 {
    word(read8(m, ptr as u16), read8(m, add8(ptr, 1) as u16))
}

pub open spec fn low_byte(w: u16) -> u8 {
    (w % 0x100) as u8
}

pub open spec fn high_byte(w: u16) -> u8 {
    (w / 0x100) as u8
}

/// Little-endian 16-bit store: low byte at `addr`, high byte at `addr + 1`.
pub open spec fn store16(m: Seq<u8>, addr: u16, w: u16) -> Seq<u8> {
    m.update(addr as int, low_byte(w)).update(add16(addr, 1) as int, high_byte(w))
}

/// Whether the zero flag is set in a status byte.
pub open spec fn zero_flag(status: u8) -> bool {
    status & FLAG_ZERO != 0
}

/// Whether the negative flag is set in a status byte.
pub open spec fn negative_flag(status: u8) -> bool {
    status & FLAG_NEGATIVE != 0
}

/// The single flag-update rule every result-producing instruction routes
/// through: the zero and negative bits are recomputed from `result`, all
/// other bits are left untouched.
pub open spec fn update_flags(status: u8, result: u8) -> u8 {
    let with_zero = if result == 0 {
        status | FLAG_ZERO
    } else {
        status & !FLAG_ZERO
    };
    if result & 0x80 != 0 {
        with_zero | FLAG_NEGATIVE
    } else {
        with_zero & !FLAG_NEGATIVE
    }
}

/// What `update_flags` does, bit by bit: the zero flag is set iff the
/// result is zero, the negative flag iff its high bit is set, and every
/// other status bit keeps its old value.
pub proof fn lemma_update_flags(status: u8, result: u8)
    ensures
        zero_flag(update_flags(status, result)) <==> result == 0,
        negative_flag(update_flags(status, result)) <==> result & 0x80 != 0,
        update_flags(status, result) & 0x7d == status & 0x7d,
{
    if result == 0 {
        assert(result & 0x80 == 0) by (bit_vector)
            requires
                result == 0,
        ;
        assert(((status | 0x02u8) & !0x80u8) & 0x02u8 != 0) by (bit_vector);
        assert(((status | 0x02u8) & !0x80u8) & 0x80u8 == 0) by (bit_vector);
        assert(((status | 0x02u8) & !0x80u8) & 0x7du8 == status & 0x7du8) by (bit_vector);
    } else if result & 0x80 != 0 {
        assert(((status & !0x02u8) | 0x80u8) & 0x02u8 == 0) by (bit_vector);
        assert(((status & !0x02u8) | 0x80u8) & 0x80u8 != 0) by (bit_vector);
        assert(((status & !0x02u8) | 0x80u8) & 0x7du8 == status & 0x7du8) by (bit_vector);
    } else {
        assert(((status & !0x02u8) & !0x80u8) & 0x02u8 == 0) by (bit_vector);
        assert(((status & !0x02u8) & !0x80u8) & 0x80u8 == 0) by (bit_vector);
        assert(((status & !0x02u8) & !0x80u8) & 0x7du8 == status & 0x7du8) by (bit_vector);
    }
}

/// Effective address of an operand, per addressing mode, with the program
/// counter standing at the operand bytes. Resolving the `NoneAddressing`
/// sentinel is a dispatch-table bug and yields the error instead of an
/// address.
pub open spec fn resolve_spec(v: CpuView, mode: AddressingMode) -> Result<u16, EmuError> {
    match mode {
        AddressingMode::Immediate => Ok(v.pc),
        AddressingMode::ZeroPage => Ok(read8(v.mem, v.pc) as u16),
        AddressingMode::ZeroPage_X => Ok(add8(read8(v.mem, v.pc), v.x) as u16),
        AddressingMode::ZeroPage_Y => Ok(add8(read8(v.mem, v.pc), v.y) as u16),
        AddressingMode::Absolute => Ok(read16(v.mem, v.pc)),
        AddressingMode::Absolute_X => Ok(add16(read16(v.mem, v.pc), v.x as u16)),
        AddressingMode::Absolute_Y => Ok(add16(read16(v.mem, v.pc), v.y as u16)),
        AddressingMode::Indirect_X => Ok(
            read16_zero_page(v.mem, add8(read8(v.mem, v.pc), v.x)),
        ),
        AddressingMode::Indirect_Y => Ok(
            add16(read16_zero_page(v.mem, read8(v.mem, v.pc)), v.y as u16),
        ),
        AddressingMode::NoneAddressing => Err(EmuError::UnsupportedAddressingMode),
    }
}

/// State after advancing the program counter by `k`, wrapping.
pub open spec fn advance_pc(v: CpuView, k: u16) -> CpuView {
    CpuView { pc: add16(v.pc, k), ..v }
}

/// LDA: accumulator loaded from the effective address, flags recomputed
/// from the loaded value. The program counter still stands at the operand.
pub open spec fn lda_apply(v: CpuView, mode: AddressingMode) -> CpuView {
    let value = read8(v.mem, resolve_spec(v, mode)->Ok_0);
    CpuView { a: value, status: update_flags(v.status, value), ..v }
}

/// TAX: X loaded from the accumulator, flags recomputed from X.
pub open spec fn tax_apply(v: CpuView) -> CpuView {
    CpuView { x: v.a, status: update_flags(v.status, v.a), ..v }
}

/// INX: X incremented with 8-bit wrap-around, flags recomputed from X.
pub open spec fn inx_apply(v: CpuView) -> CpuView {
    let incremented = add8(v.x, 1);
    CpuView { x: incremented, status: update_flags(v.status, incremented), ..v }
}

/// One fetch-decode-execute step: fetch the opcode at the program counter,
/// advance past it, apply the instruction, and advance past its operand
/// bytes. The halt opcode and every unmapped byte leave the state alone
/// beyond the fetch itself.
pub open spec fn step(v: CpuView) -> CpuView {
    let code = read8(v.mem, v.pc);
    let fetched = advance_pc(v, 1);
    if code == OP_LDA_IMMEDIATE {
        advance_pc(lda_apply(fetched, AddressingMode::Immediate), 1)
    } else if code == OP_LDA_ZERO_PAGE {
        advance_pc(lda_apply(fetched, AddressingMode::ZeroPage), 1)
    } else if code == OP_LDA_ABSOLUTE {
        advance_pc(lda_apply(fetched, AddressingMode::Absolute), 2)
    } else if code == OP_TAX {
        tax_apply(fetched)
    } else if code == OP_INX {
        inx_apply(fetched)
    } else {
        fetched
    }
}

/// State after `n` fetch-decode-execute steps.
pub open spec fn run_steps(v: CpuView, n: nat) -> CpuView
    decreases n,
{
    if n == 0 {
        v
    } else {
        step(run_steps(v, (n - 1) as nat))
    }
}

/// The byte at the program counter is the halt opcode, so the next fetch
/// ends the dispatch loop.
pub open spec fn is_halt(v: CpuView) -> bool {
    read8(v.mem, v.pc) == OP_BRK
}

/// Execution from `v` reaches the halt opcode after some number of steps.
pub open spec fn halts(v: CpuView) -> bool {
    exists|n: nat| is_halt(#[trigger] run_steps(v, n))
}

/// `n` is the exact number of steps until the halt opcode is first fetched.
pub open spec fn is_first_halt(v: CpuView, n: nat) -> bool {
    &&& is_halt(run_steps(v, n))
    &&& forall|m: nat| m < n ==> !is_halt(#[trigger] run_steps(v, m))
}

proof fn lemma_first_halt_before(v: CpuView, n: nat)
    requires
        is_halt(run_steps(v, n)),
    ensures
        exists|k: nat| #[trigger] is_first_halt(v, k),
    decreases n,
{
    if exists|m: nat| m < n && is_halt(#[trigger] run_steps(v, m)) {
        let m = choose|m: nat| m < n && is_halt(#[trigger] run_steps(v, m));
        lemma_first_halt_before(v, m);
    } else {
        assert(is_first_halt(v, n));
    }
}

/// A halting execution has a well-defined first halt point.
pub proof fn lemma_first_halt_exists(v: CpuView)
    requires
        halts(v),
    ensures
        exists|k: nat| #[trigger] is_first_halt(v, k),
{
    let n = choose|n: nat| is_halt(#[trigger] run_steps(v, n));
    lemma_first_halt_before(v, n);
}

/// State after a reset: registers and status cleared, the program counter
/// reloaded from the reset vector, memory untouched.
pub open spec fn reset_spec(v: CpuView) -> CpuView {
    CpuView {
        a: 0,
        x: 0,
        y: 0,
        status: 0,
        pc: read16(v.mem, RESET_VECTOR_ADDR),
        ..v
    }
}

/// Memory with `bytes` spliced in starting at `at`, everything else kept.
pub open spec fn splice(m: Seq<u8>, at: int, bytes: Seq<u8>) -> Seq<u8> {
    Seq::new(
        m.len(),
        |j: int|
            if at <= j < at + bytes.len() {
                bytes[j - at]
            } else {
                m[j]
            },
    )
}

/// State after a successful load: the program installed at the origin, the
/// origin written to the reset vector, and the program counter placed at
/// the origin. Registers are untouched.
pub open spec fn load_spec(v: CpuView, prog: Seq<u8>) -> CpuView {
    CpuView {
        pc: PROGRAM_ORIGIN,
        mem: store16(
            splice(v.mem, PROGRAM_ORIGIN as int, prog),
            RESET_VECTOR_ADDR,
            PROGRAM_ORIGIN,
        ),
        ..v
    }
}

/// Resetting twice with nothing in between is the same as resetting once:
/// a reset only reads memory, which it leaves untouched.
pub proof fn lemma_reset_idempotent(v: CpuView)
    ensures
        reset_spec(reset_spec(v)) == reset_spec(v),
{
}

/// LDA in immediate mode loads the operand byte into the accumulator; the
/// zero flag ends up set iff that byte is zero and the negative flag iff
/// its high bit is set. Index registers and memory are untouched.
pub proof fn lemma_lda_immediate(v: CpuView)
    requires
        v.wf(),
        read8(v.mem, v.pc) == OP_LDA_IMMEDIATE,
    ensures
        step(v).a == read8(v.mem, add16(v.pc, 1)),
        zero_flag(step(v).status) <==> read8(v.mem, add16(v.pc, 1)) == 0,
        negative_flag(step(v).status) <==> read8(v.mem, add16(v.pc, 1)) & 0x80 != 0,
        step(v).x == v.x,
        step(v).y == v.y,
        step(v).mem == v.mem,
{
    lemma_update_flags(v.status, read8(v.mem, add16(v.pc, 1)));
}

/// TAX copies the accumulator into X and recomputes the flags from the new
/// X value. The accumulator and memory are untouched.
pub proof fn lemma_tax(v: CpuView)
    requires
        v.wf(),
        read8(v.mem, v.pc) == OP_TAX,
    ensures
        step(v).x == v.a,
        step(v).a == v.a,
        zero_flag(step(v).status) <==> step(v).x == 0,
        negative_flag(step(v).status) <==> step(v).x & 0x80 != 0,
        step(v).mem == v.mem,
{
    lemma_update_flags(v.status, v.a);
}

/// INX increments X modulo 256: 0xff wraps to 0x00 rather than saturating,
/// and 0x00 goes to 0x01. Flags are recomputed from the new X value.
pub proof fn lemma_inx(v: CpuView)
    requires
        v.wf(),
        read8(v.mem, v.pc) == OP_INX,
    ensures
        step(v).x == add8(v.x, 1),
        v.x == 0xff ==> step(v).x == 0x00,
        v.x == 0x00 ==> step(v).x == 0x01,
        zero_flag(step(v).status) <==> step(v).x == 0,
        negative_flag(step(v).status) <==> step(v).x & 0x80 != 0,
        step(v).mem == v.mem,
{
    lemma_update_flags(v.status, add8(v.x, 1));
}

} // verus!

