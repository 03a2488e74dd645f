//! The executable processor: register file, address space, program
//! loader, and the fetch-decode-execute loop, each verified against the
//! model in [`crate::machine`].

use vstd::prelude::*;

use crate::EmuError;
use crate::addressing_mode::AddressingMode;
use crate::machine::CpuView;
use crate::machine::MEM_SIZE;
use crate::machine::MAX_PROGRAM_LEN;
use crate::machine::PROGRAM_ORIGIN;
use crate::machine::RESET_VECTOR_ADDR;
use crate::machine::FLAG_ZERO;
use crate::machine::FLAG_NEGATIVE;
use crate::machine::OP_BRK;
use crate::machine::OP_LDA_IMMEDIATE;
use crate::machine::OP_LDA_ZERO_PAGE;
use crate::machine::OP_LDA_ABSOLUTE;
use crate::machine::OP_TAX;
use crate::machine::OP_INX;
use crate::machine::halts;
use crate::machine::initial_view;
use crate::machine::inx_apply;
use crate::machine::is_first_halt;
use crate::machine::is_halt;
use crate::machine::lda_apply;
use crate::machine::lemma_first_halt_exists;
use crate::machine::load_spec;
use crate::machine::read8;
use crate::machine::read16;
use crate::machine::reset_spec;
use crate::machine::resolve_spec;
use crate::machine::run_steps;
use crate::machine::splice;
use crate::machine::step;
use crate::machine::store16;
use crate::machine::tax_apply;
use crate::machine::update_flags;

verus! {

/// The processor: accumulator, index registers, packed status byte,
/// program counter, and the flat byte-addressable address space.
pub struct CPU {
    pub register_a: u8,
    pub register_x: u8,
    pub register_y: u8,
    pub status: u8,
    pub program_counter: u16,
    memory: Vec<u8>,
}

impl View for CPU {
    type V = CpuView;

    closed spec fn view(&self) -> CpuView {
        CpuView {
            a: self.register_a,
            x: self.register_x,
            y: self.register_y,
            status: self.status,
            pc: self.program_counter,
            mem: self.memory@,
        }
    }
}

impl CPU {
    /// The address space covers the full 16-bit range, so every address is
    /// readable and writable.
    pub open spec fn wf(&self) -> bool {
        self@.wf()
    }

    /// A processor with zeroed registers, cleared status, and a zeroed
    /// address space.
    pub fn new() -> (cpu: CPU)
        ensures
            cpu.wf(),
            cpu@ == initial_view(),
    {
        let mut memory: Vec<u8> = Vec::new();
        let mut i: usize = 0;
        while i < MEM_SIZE
            invariant
                i <= MEM_SIZE,
                memory@.len() == i,
                forall|j: int| 0 <= j < i ==> memory@[j] == 0u8,
            decreases MEM_SIZE - i,
        {
            memory.push(0);
            i = i + 1;
        }
        let cpu = CPU {
            register_a: 0,
            register_x: 0,
            register_y: 0,
            status: 0,
            program_counter: 0,
            memory,
        };
        proof {
            assert(cpu@.mem =~= initial_view().mem);
        }
        cpu
    }

    /// Byte read: every address is valid, the read is pure.
    pub fn mem_read(&self, addr: u16) -> (data: u8)
        requires
            self.wf(),
        ensures
            data == read8(self@.mem, addr),
    {
        self.memory[addr as usize]
    }

    /// Byte write: every address is valid; only the addressed byte changes.
    pub fn mem_write(&mut self, addr: u16, data: u8)
        requires
            old(self).wf(),
        ensures
            final(self).wf(),
            final(self)@ == (CpuView { mem: old(self)@.mem.update(addr as int, data), ..old(self)@ }),
    {
        self.memory[addr as usize] = data;
    }

    /// Little-endian 16-bit read: low byte at `pos`, high byte at the
    /// wrapping successor of `pos`.
    fn mem_read_u16(&self, pos: u16) -> (data: u16)
        requires
            self.wf(),
        ensures
            data == read16(self@.mem, pos),
    {
        let lo = self.mem_read(pos);
        let hi = self.mem_read(pos.wrapping_add(1));
        proof {
            assert(((hi as u16) << 8) | (lo as u16) == (hi as u16) * 0x100 + (lo as u16))
                by (bit_vector);
        }
        ((hi as u16) << 8) | (lo as u16)
    }

    /// Little-endian 16-bit write: low byte at `pos`, high byte at the
    /// wrapping successor of `pos`.
    fn mem_write_u16(&mut self, pos: u16, data: u16)
        requires
            old(self).wf(),
        ensures
            final(self).wf(),
            final(self)@ == (CpuView { mem: store16(old(self)@.mem, pos, data), ..old(self)@ }),
    {
        let hi = (data >> 8) as u8;
        let lo = (data & 0xff) as u8;
        proof {
            assert((data >> 8) == data / 0x100 && (data & 0xff) == data % 0x100) by (bit_vector);
        }
        self.mem_write(pos, lo);
        self.mem_write(pos.wrapping_add(1), hi);
    }

    /// Effective address of the operand the program counter stands at,
    /// per addressing mode. Resolving the `NoneAddressing` sentinel is a
    /// dispatch-table bug and fails instead of returning a bogus address.
    pub fn get_operand_address(&self, mode: &AddressingMode) -> (result: Result<u16, EmuError>)
        requires
            self.wf(),
        ensures
            result == resolve_spec(self@, *mode),
            result is Err <==> *mode is NoneAddressing,
    {
        match mode {
            AddressingMode::Immediate => Ok(self.program_counter),
            AddressingMode::ZeroPage => Ok(self.mem_read(self.program_counter) as u16),
            AddressingMode::ZeroPage_X => {
                let pos = self.mem_read(self.program_counter);
                Ok(pos.wrapping_add(self.register_x) as u16)
            },
            AddressingMode::ZeroPage_Y => {
                let pos = self.mem_read(self.program_counter);
                Ok(pos.wrapping_add(self.register_y) as u16)
            },
            AddressingMode::Absolute => Ok(self.mem_read_u16(self.program_counter)),
            AddressingMode::Absolute_X => {
                let base = self.mem_read_u16(self.program_counter);
                Ok(base.wrapping_add(self.register_x as u16))
            },
            AddressingMode::Absolute_Y => {
                let base = self.mem_read_u16(self.program_counter);
                Ok(base.wrapping_add(self.register_y as u16))
            },
            AddressingMode::Indirect_X => {
                let base = self.mem_read(self.program_counter);
                let ptr = base.wrapping_add(self.register_x);
                let lo = self.mem_read(ptr as u16);
                let hi = self.mem_read(ptr.wrapping_add(1) as u16);
                proof {
                    assert(((hi as u16) << 8) | (lo as u16) == (hi as u16) * 0x100 + (lo as u16))
                        by (bit_vector);
                }
                Ok(((hi as u16) << 8) | (lo as u16))
            },
            AddressingMode::Indirect_Y => {
                let base = self.mem_read(self.program_counter);
                let lo = self.mem_read(base as u16);
                let hi = self.mem_read(base.wrapping_add(1) as u16);
                proof {
                    assert(((hi as u16) << 8) | (lo as u16) == (hi as u16) * 0x100 + (lo as u16))
                        by (bit_vector);
                }
                let deref_base = ((hi as u16) << 8) | (lo as u16);
                Ok(deref_base.wrapping_add(self.register_y as u16))
            },
            AddressingMode::NoneAddressing => Err(EmuError::UnsupportedAddressingMode),
        }
    }

    /// Recomputes exactly the zero and negative bits of the status byte
    /// from a result value; every other bit keeps its old value.
    fn update_zero_and_negative_flags(&mut self, result: u8)
        ensures
            final(self)@ == (CpuView { status: update_flags(old(self).status, result), ..old(self)@ }),
    {
        if result == 0 {
            self.status = self.status | FLAG_ZERO;
        } else {
            self.status = self.status & !FLAG_ZERO;
        }
        if result & 0x80 != 0 {
            self.status = self.status | FLAG_NEGATIVE;
        } else {
            self.status = self.status & !FLAG_NEGATIVE;
        }
    }

    /// LDA: loads the byte at the operand's effective address into the
    /// accumulator and recomputes the flags from it.
    fn lda(&mut self, mode: &AddressingMode)
        requires
            old(self).wf(),
            !(*mode is NoneAddressing),
        ensures
            final(self).wf(),
            final(self)@ == lda_apply(old(self)@, *mode),
    {
        let addr = match self.get_operand_address(mode) {
            Ok(addr) => addr,
            Err(_) => {
                proof {
                    assert(false);
                }
                0
            },
        };
        let value = self.mem_read(addr);
        self.register_a = value;
        self.update_zero_and_negative_flags(value);
    }

    /// TAX: copies the accumulator into X and recomputes the flags from X.
    fn tax(&mut self)
        ensures
            final(self)@ == tax_apply(old(self)@),
    {
        self.register_x = self.register_a;
        self.update_zero_and_negative_flags(self.register_x);
    }

    /// INX: increments X with 8-bit wrap-around and recomputes the flags
    /// from X.
    fn inx(&mut self)
        ensures
            final(self)@ == inx_apply(old(self)@),
    {
        self.register_x = self.register_x.wrapping_add(1);
        self.update_zero_and_negative_flags(self.register_x);
    }

    /// Installs the program at the fixed origin, writes the origin to the
    /// reset vector, and points the program counter at the origin. A
    /// program that would run past the top of memory is rejected whole:
    /// nothing is written.
    #[verifier::loop_isolation(false)]
    pub fn load(&mut self, program: Vec<u8>) -> (result: Result<(), EmuError>)
        requires
            old(self).wf(),
        ensures
            final(self).wf(),
            program@.len() <= MAX_PROGRAM_LEN ==> result == Ok::<(), EmuError>(())
                && final(self)@ == load_spec(old(self)@, program@),
            program@.len() > MAX_PROGRAM_LEN ==> result == Err::<(), EmuError>(
                EmuError::ProgramTooLarge,
            ) && *final(self) == *old(self),
    {
        if program.len() > MAX_PROGRAM_LEN {
            return Err(EmuError::ProgramTooLarge);
        }
        let mut i: usize = 0;
        while i < program.len()
            invariant
                i <= program@.len(),
                self.wf(),
                self@.mem == splice(old(self)@.mem, PROGRAM_ORIGIN as int, program@.take(i as int)),
                self@ == (CpuView { mem: self@.mem, ..old(self)@ }),
            decreases program@.len() - i,
        {
            let addr = (PROGRAM_ORIGIN as usize + i) as u16;
            self.mem_write(addr, program[i]);
            proof {
                assert(self@.mem =~= splice(
                    old(self)@.mem,
                    PROGRAM_ORIGIN as int,
                    program@.take(i as int + 1),
                ));
            }
            i = i + 1;
        }
        proof {
            assert(program@.take(program@.len() as int) =~= program@);
        }
        self.program_counter = PROGRAM_ORIGIN;
        self.mem_write_u16(RESET_VECTOR_ADDR, PROGRAM_ORIGIN);
        Ok(())
    }

    /// Restores the power-on register state and jumps to the address held
    /// in the reset vector. Memory is untouched.
    pub fn reset(&mut self)
        requires
            old(self).wf(),
        ensures
            final(self).wf(),
            final(self)@ == reset_spec(old(self)@),
    {
        self.register_a = 0;
        self.register_x = 0;
        self.register_y = 0;
        self.status = 0;
        self.program_counter = self.mem_read_u16(RESET_VECTOR_ADDR);
    }

    /// The fetch-decode-execute loop: runs steps of the machine model
    /// until the halt opcode is fetched, then returns with the program
    /// counter just past it. Unmapped opcodes are deliberate no-ops.
    #[verifier::loop_isolation(false)]
    pub fn run(&mut self)
        requires
            old(self).wf(),
            halts(old(self)@),
        ensures
            final(self).wf(),
            exists|n: nat|
                #[trigger] is_first_halt(old(self)@, n) && final(self)@ == step(
                    run_steps(old(self)@, n),
                ),
    {
        proof {
            lemma_first_halt_exists(self@);
        }
        let ghost fuel: nat = choose|n: nat| is_first_halt(old(self)@, n);
        let ghost mut steps: nat = 0;
        loop
            invariant
                self.wf(),
                steps <= fuel,
                self@ == run_steps(old(self)@, steps),
                forall|m: nat| m < steps ==> !is_halt(#[trigger] run_steps(old(self)@, m)),
            decreases fuel - steps,
        {
            let ghost pre = self@;
            let code = self.mem_read(self.program_counter);
            self.program_counter = self.program_counter.wrapping_add(1);
            match code {
                OP_LDA_IMMEDIATE => {
                    self.lda(&AddressingMode::Immediate);
                    self.program_counter = self.program_counter.wrapping_add(1);
                },
                OP_LDA_ZERO_PAGE => {
                    self.lda(&AddressingMode::ZeroPage);
                    self.program_counter = self.program_counter.wrapping_add(1);
                },
                OP_LDA_ABSOLUTE => {
                    self.lda(&AddressingMode::Absolute);
                    self.program_counter = self.program_counter.wrapping_add(2);
                },
                OP_TAX => {
                    self.tax();
                },
                OP_INX => {
                    self.inx();
                },
                OP_BRK => {
                    proof {
                        assert(is_halt(pre));
                        assert(self@ == step(pre));
                        assert(is_first_halt(old(self)@, steps));
                    }
                    return;
                },
                _ => {},
            }
            proof {
                assert(!is_halt(pre));
                assert(self@ == step(pre));
                if steps == fuel {
                    assert(is_halt(run_steps(old(self)@, fuel)));
                }
                steps = steps + 1;
            }
        }
    }

    /// Load, reset, run: every execution starts from a clean register
    /// state pointed at the freshly loaded program. A too-large program is
    /// rejected whole and nothing runs.
    pub fn load_and_run(&mut self, program: Vec<u8>) -> (result: Result<(), EmuError>)
        requires
            old(self).wf(),
            program@.len() <= MAX_PROGRAM_LEN ==> halts(
                reset_spec(load_spec(old(self)@, program@)),
            ),
        ensures
            final(self).wf(),
            program@.len() <= MAX_PROGRAM_LEN ==> result == Ok::<(), EmuError>(()) && exists|n: nat|
                #[trigger] is_first_halt(reset_spec(load_spec(old(self)@, program@)), n)
                    && final(self)@ == step(
                    run_steps(reset_spec(load_spec(old(self)@, program@)), n),
                ),
            program@.len() > MAX_PROGRAM_LEN ==> result == Err::<(), EmuError>(
                EmuError::ProgramTooLarge,
            ) && *final(self) == *old(self),
    {
        match self.load(program) {
            Ok(()) => {},
            Err(e) => {
                return Err(e);
            },
        }
        self.reset();
        self.run();
        Ok(())
    }
}

} // verus!
