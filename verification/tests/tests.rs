use nes_emulator::AddressingMode;
use nes_emulator::CPU;
use nes_emulator::EmuError;

#[test]
fn test_0xa9_lda_immediate_load_data() {
    let mut cpu = CPU::new();
    cpu.load_and_run(vec![0xa9, 0x05, 0x00]).unwrap();
    assert_eq!(cpu.register_a, 0x05);
    assert!(cpu.status & 0x02 == 0x0);
    assert!(cpu.status & 0x80 == 0);
}

#[test]
fn test_0xa9_lda_zero_flag() {
    let mut cpu = CPU::new();
    cpu.load_and_run(vec![0xa9, 0x00, 0x00]).unwrap();
    assert!(cpu.status & 0x02 == 0x2)
}

#[test]
fn test_0xaa_tax_move_a_to_a() {
    let mut cpu = CPU::new();
    cpu.register_a = 10;
    cpu.load(vec![0xaa, 0x00]).unwrap();
    cpu.run();

    assert_eq!(cpu.register_x, 10)
}

#[test]
fn test_5_ops_working_together() {
    let mut cpu = CPU::new();
    cpu.load_and_run(vec![0xa9, 0xc0, 0xaa, 0xe8, 0x00]).unwrap();

    assert_eq!(cpu.register_x, 0xc1);
}

#[test]
fn test_inx_overflow() {
    let mut cpu = CPU::new();
    cpu.load(vec![0xe8, 0xe8, 0x00]).unwrap();
    cpu.register_x = 0xff;
    cpu.run();

    assert_eq!(cpu.register_x, 1);
}

#[test]
fn test_lda_negative_flag() {
    let mut cpu = CPU::new();
    cpu.load_and_run(vec![0xa9, 0xff, 0x00]).unwrap();
    assert_eq!(cpu.register_a, 0xff);
    assert!(cpu.status & 0x80 != 0);
    assert!(cpu.status & 0x02 == 0);
}

#[test]
fn test_lda_zero_page() {
    let mut cpu = CPU::new();
    cpu.mem_write(0x10, 0x55);
    cpu.load_and_run(vec![0xa5, 0x10, 0x00]).unwrap();
    assert_eq!(cpu.register_a, 0x55);
}

#[test]
fn test_lda_absolute_consumes_two_operand_bytes() {
    let mut cpu = CPU::new();
    cpu.mem_write(0xe834, 0x77);
    // The high operand byte is the INX opcode: were the program counter
    // advanced by only one byte, it would be executed and X would change.
    cpu.load_and_run(vec![0xad, 0x34, 0xe8, 0x00]).unwrap();
    assert_eq!(cpu.register_a, 0x77);
    assert_eq!(cpu.register_x, 0x00);
}

#[test]
fn test_inx_wraps_to_zero() {
    let mut cpu = CPU::new();
    cpu.load(vec![0xe8, 0x00]).unwrap();
    cpu.register_x = 0xff;
    cpu.run();
    assert_eq!(cpu.register_x, 0x00);
    assert!(cpu.status & 0x02 != 0);
}

#[test]
fn test_inx_from_zero() {
    let mut cpu = CPU::new();
    cpu.load_and_run(vec![0xe8, 0x00]).unwrap();
    assert_eq!(cpu.register_x, 0x01);
    assert!(cpu.status & 0x02 == 0);
    assert!(cpu.status & 0x80 == 0);
}

#[test]
fn test_tax_zero_flag_from_x() {
    let mut cpu = CPU::new();
    cpu.register_a = 0;
    cpu.load(vec![0xaa, 0x00]).unwrap();
    cpu.run();
    assert_eq!(cpu.register_x, 0);
    assert!(cpu.status & 0x02 != 0);
    assert!(cpu.status & 0x80 == 0);
}

#[test]
fn test_tax_negative_flag_from_x() {
    let mut cpu = CPU::new();
    cpu.register_a = 0x80;
    cpu.load(vec![0xaa, 0x00]).unwrap();
    cpu.run();
    assert_eq!(cpu.register_x, 0x80);
    assert!(cpu.status & 0x80 != 0);
    assert!(cpu.status & 0x02 == 0);
}

#[test]
fn test_unmapped_opcode_is_noop() {
    let mut cpu = CPU::new();
    cpu.load_and_run(vec![0x40, 0x40, 0x00]).unwrap();
    assert_eq!(cpu.register_a, 0);
    assert_eq!(cpu.register_x, 0);
    assert_eq!(cpu.register_y, 0);
    assert_eq!(cpu.status, 0);
}

#[test]
fn test_mem_read_write_roundtrip() {
    let mut cpu = CPU::new();
    cpu.mem_write(0x0000, 0x11);
    cpu.mem_write(0xffff, 0xab);
    assert_eq!(cpu.mem_read(0x0000), 0x11);
    assert_eq!(cpu.mem_read(0xffff), 0xab);
    assert_eq!(cpu.mem_read(0x1234), 0x00);
}

#[test]
fn test_load_sets_origin_and_reset_vector() {
    let mut cpu = CPU::new();
    cpu.load(vec![0xa9, 0x05, 0x00]).unwrap();
    assert_eq!(cpu.program_counter, 0x8000);
    assert_eq!(cpu.mem_read(0x8000), 0xa9);
    assert_eq!(cpu.mem_read(0x8001), 0x05);
    assert_eq!(cpu.mem_read(0x8002), 0x00);
    assert_eq!(cpu.mem_read(0xfffc), 0x00);
    assert_eq!(cpu.mem_read(0xfffd), 0x80);
}

#[test]
fn test_load_too_large_is_rejected_whole() {
    let mut cpu = CPU::new();
    let program = vec![0xe8; 0x8001];
    assert_eq!(cpu.load(program), Err(EmuError::ProgramTooLarge));
    // No partial write: the origin and the reset vector are untouched.
    assert_eq!(cpu.mem_read(0x8000), 0x00);
    assert_eq!(cpu.mem_read(0xfffc), 0x00);
    assert_eq!(cpu.mem_read(0xfffd), 0x00);
    assert_eq!(cpu.program_counter, 0x0000);
}

#[test]
fn test_load_largest_program_fits() {
    let mut cpu = CPU::new();
    let program = vec![0xea; 0x8000];
    assert_eq!(cpu.load(program), Ok(()));
    assert_eq!(cpu.mem_read(0x8000), 0xea);
    // The reset vector is written after the copy and wins the overlap.
    assert_eq!(cpu.mem_read(0xfffc), 0x00);
    assert_eq!(cpu.mem_read(0xfffd), 0x80);
}

#[test]
fn test_reset_twice_identical() {
    let mut cpu = CPU::new();
    cpu.load(vec![0xa9, 0x05, 0x00]).unwrap();
    cpu.register_a = 3;
    cpu.register_x = 4;
    cpu.register_y = 5;
    cpu.status = 0x82;
    cpu.reset();
    let first = (
        cpu.register_a,
        cpu.register_x,
        cpu.register_y,
        cpu.status,
        cpu.program_counter,
    );
    cpu.reset();
    let second = (
        cpu.register_a,
        cpu.register_x,
        cpu.register_y,
        cpu.status,
        cpu.program_counter,
    );
    assert_eq!(first, second);
    assert_eq!(first, (0, 0, 0, 0, 0x8000));
}

#[test]
fn test_resolve_immediate_and_zero_page_modes() {
    let mut cpu = CPU::new();
    cpu.program_counter = 0x20;
    cpu.mem_write(0x20, 0x40);
    cpu.register_x = 0x0f;
    cpu.register_y = 0xff;
    assert_eq!(cpu.get_operand_address(&AddressingMode::Immediate), Ok(0x20));
    assert_eq!(cpu.get_operand_address(&AddressingMode::ZeroPage), Ok(0x40));
    assert_eq!(cpu.get_operand_address(&AddressingMode::ZeroPage_X), Ok(0x4f));
    // 0x40 + 0xff wraps within page zero: no carry into the high byte.
    assert_eq!(cpu.get_operand_address(&AddressingMode::ZeroPage_Y), Ok(0x3f));
}

#[test]
fn test_resolve_absolute_modes() {
    let mut cpu = CPU::new();
    cpu.program_counter = 0x20;
    cpu.mem_write(0x20, 0x40);
    cpu.mem_write(0x21, 0x80);
    cpu.register_x = 0x0f;
    cpu.register_y = 0xff;
    assert_eq!(cpu.get_operand_address(&AddressingMode::Absolute), Ok(0x8040));
    assert_eq!(cpu.get_operand_address(&AddressingMode::Absolute_X), Ok(0x804f));
    assert_eq!(cpu.get_operand_address(&AddressingMode::Absolute_Y), Ok(0x813f));
}

#[test]
fn test_resolve_indirect_modes() {
    let mut cpu = CPU::new();
    cpu.program_counter = 0x20;
    cpu.mem_write(0x20, 0x40);
    cpu.register_x = 0x0f;
    cpu.register_y = 0xff;
    // Pre-indexed: pointer 0x40 + X = 0x4f holds 0x1234.
    cpu.mem_write(0x4f, 0x34);
    cpu.mem_write(0x50, 0x12);
    assert_eq!(cpu.get_operand_address(&AddressingMode::Indirect_X), Ok(0x1234));
    // Post-indexed: the unmodified pointer 0x40 holds 0x9000; Y is added
    // only after the dereference.
    cpu.mem_write(0x40, 0x00);
    cpu.mem_write(0x41, 0x90);
    assert_eq!(cpu.get_operand_address(&AddressingMode::Indirect_Y), Ok(0x90ff));
}

#[test]
fn test_resolve_indirect_x_pointer_wraps_in_page_zero() {
    let mut cpu = CPU::new();
    cpu.program_counter = 0x20;
    cpu.mem_write(0x20, 0x40);
    cpu.register_x = 0xbf;
    // Pointer 0x40 + 0xbf = 0xff: the high byte comes from 0x00, not 0x100.
    cpu.mem_write(0xff, 0xcd);
    cpu.mem_write(0x00, 0xab);
    assert_eq!(cpu.get_operand_address(&AddressingMode::Indirect_X), Ok(0xabcd));
}

#[test]
fn test_resolve_none_addressing_fails() {
    let cpu = CPU::new();
    assert_eq!(
        cpu.get_operand_address(&AddressingMode::NoneAddressing),
        Err(EmuError::UnsupportedAddressingMode)
    );
}
