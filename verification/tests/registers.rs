use emulator::cpu::Cpu;
use emulator::csr::{CsrBank, CSR_CAPACITY};
use emulator::registers::{RegisterFile, REGISTER_COUNT};

#[test]
fn new_registers_hold_zero() {
    let registers = RegisterFile::new();
    assert_eq!(REGISTER_COUNT, 32);
    for index in 0..32 {
        assert_eq!(registers.read(index), 0);
    }
}

#[test]
fn register_zero_always_reads_zero() {
    let mut registers = RegisterFile::new();
    assert_eq!(registers.read(0), 0);
    for value in [1, -1, 42, i32::MIN, i32::MAX] {
        registers.write(0, value);
        assert_eq!(registers.read(0), 0);
    }
    registers.write(1, 7);
    registers.write(0, 9);
    assert_eq!(registers.read(0), 0);
    assert_eq!(registers.read(1), 7);
}

#[test]
fn the_other_registers_keep_what_was_written() {
    let mut registers = RegisterFile::new();
    for index in 1..32u32 {
        registers.write(index, (index as i32) * -1000 + 3);
    }
    for index in 1..32u32 {
        assert_eq!(registers.read(index), (index as i32) * -1000 + 3);
    }
    registers.write(31, i32::MIN);
    registers.write(30, i32::MAX);
    assert_eq!(registers.read(31), i32::MIN);
    assert_eq!(registers.read(30), i32::MAX);
    assert_eq!(registers.read(29), -28997);
}

#[test]
fn the_machine_discards_writes_to_register_zero() {
    let mut cpu = Cpu::new();
    cpu.write_register(0, 123);
    assert_eq!(cpu.read_register(0), 0);
    cpu.write_register(10, -5);
    assert_eq!(cpu.read_register(10), -5);
    assert_eq!(cpu.read_register(0), 0);
}

#[test]
fn control_and_status_registers_keep_what_was_written() {
    let mut bank = CsrBank::new();
    assert_eq!(CSR_CAPACITY, 4096);
    assert_eq!(bank.read(0), 0);
    assert_eq!(bank.read(4095), 0);
    bank.write(0, 0xffff_ffff);
    bank.write(4095, 0x1234_5678);
    bank.write(0x300, 8);
    assert_eq!(bank.read(0), 0xffff_ffff);
    assert_eq!(bank.read(4095), 0x1234_5678);
    assert_eq!(bank.read(0x300), 8);
    assert_eq!(bank.read(0x301), 0);
    bank.write(0x300, 0);
    assert_eq!(bank.read(0x300), 0);
}

#[test]
fn the_machine_reaches_its_control_and_status_registers() {
    let mut cpu = Cpu::new();
    assert_eq!(cpu.read_csr(0x340), 0);
    cpu.write_csr(0x340, 0xdead_beef);
    assert_eq!(cpu.read_csr(0x340), 0xdead_beef);
    assert_eq!(cpu.read_csr(0x341), 0);
}

#[test]
fn a_new_machine_starts_at_zero() {
    let cpu = Cpu::new();
    assert_eq!(cpu.pc(), 0);
    for index in 0..32 {
        assert_eq!(cpu.read_register(index), 0);
    }
    assert_eq!(cpu.read_csr(0), 0);
    assert_eq!(cpu.read_csr(4095), 0);
    assert_eq!(cpu.load_word(0), Ok(0));
    assert_eq!(cpu.load_word(16380), Ok(0));
}

#[test]
fn two_machines_are_independent() {
    let mut first = Cpu::new();
    let second = Cpu::new();
    first.write_register(3, 9);
    first.set_pc(64);
    assert_eq!(first.store_byte(0, 1), Ok(()));
    assert_eq!(second.read_register(3), 0);
    assert_eq!(second.pc(), 0);
    assert_eq!(second.load_byte(0), Ok(0));
}
