use emulator::cpu::Cpu;
use emulator::fault::Fault;
use emulator::memory::{Memory, MEMORY_CAPACITY};

#[test]
fn new_memory_is_zero() {
    let memory = Memory::new();
    assert_eq!(MEMORY_CAPACITY, 16 * 1024);
    assert_eq!(memory.load_word(0), Ok(0));
    assert_eq!(memory.load_byte(16383), Ok(0));
    assert_eq!(memory.load_halfword(8000), Ok(0));
}

#[test]
fn words_are_little_endian() {
    let mut memory = Memory::new();
    assert_eq!(memory.store_word(0x100, 0x1234_5678), Ok(()));
    assert_eq!(memory.load_byte(0x100), Ok(0x78));
    assert_eq!(memory.load_byte(0x101), Ok(0x56));
    assert_eq!(memory.load_byte(0x102), Ok(0x34));
    assert_eq!(memory.load_byte(0x103), Ok(0x12));
    assert_eq!(memory.load_halfword(0x100), Ok(0x5678));
    assert_eq!(memory.load_halfword(0x102), Ok(0x1234));
    assert_eq!(memory.load_halfword(0x101), Ok(0x3456));
    assert_eq!(memory.load_word(0x100), Ok(0x1234_5678));
    // the neighbours are untouched
    assert_eq!(memory.load_byte(0xff), Ok(0));
    assert_eq!(memory.load_byte(0x104), Ok(0));
}

#[test]
fn halfwords_are_little_endian() {
    let mut memory = Memory::new();
    assert_eq!(memory.store_halfword(0x20, 0xbeef), Ok(()));
    assert_eq!(memory.load_byte(0x20), Ok(0xef));
    assert_eq!(memory.load_byte(0x21), Ok(0xbe));
    assert_eq!(memory.load_byte(0x22), Ok(0));
    assert_eq!(memory.load_halfword(0x20), Ok(0xbeef));
    assert_eq!(memory.load_word(0x20), Ok(0x0000_beef));
}

#[test]
fn bytes_assemble_into_words() {
    let mut memory = Memory::new();
    assert_eq!(memory.store_byte(4, 0x01), Ok(()));
    assert_eq!(memory.store_byte(5, 0x02), Ok(()));
    assert_eq!(memory.store_byte(6, 0x03), Ok(()));
    assert_eq!(memory.store_byte(7, 0x84), Ok(()));
    assert_eq!(memory.load_word(4), Ok(0x8403_0201));
    assert_eq!(memory.load_halfword(6), Ok(0x8403));
}

#[test]
fn stored_values_are_loaded_again() {
    let mut memory = Memory::new();
    let mut v: u32 = 0xdead_beef;
    for a in [0u32, 1, 2, 3, 4, 1000, 8191, 16380] {
        v = v.wrapping_mul(1664525).wrapping_add(1013904223);
        assert_eq!(memory.store_word(a, v), Ok(()));
        assert_eq!(memory.load_word(a), Ok(v));
        assert_eq!(memory.store_halfword(a, (v >> 7) as u16), Ok(()));
        assert_eq!(memory.load_halfword(a), Ok((v >> 7) as u16));
        assert_eq!(memory.store_byte(a, (v >> 13) as u8), Ok(()));
        assert_eq!(memory.load_byte(a), Ok((v >> 13) as u8));
    }
    for v in [0u32, 1, 0xff, 0x100, 0xffff, 0x1_0000, 0x7fff_ffff, 0x8000_0000, 0xffff_ffff] {
        assert_eq!(memory.store_word(12, v), Ok(()));
        assert_eq!(memory.load_word(12), Ok(v));
    }
}

#[test]
fn unaligned_accesses_are_performed_bytewise() {
    let mut memory = Memory::new();
    assert_eq!(memory.store_word(1, 0xa1b2_c3d4), Ok(()));
    assert_eq!(memory.load_word(0), Ok(0xb2c3_d400));
    assert_eq!(memory.load_word(1), Ok(0xa1b2_c3d4));
    assert_eq!(memory.load_word(4), Ok(0x0000_00a1));
    assert_eq!(memory.store_halfword(3, 0x1122), Ok(()));
    assert_eq!(memory.load_word(1), Ok(0x1122_c3d4));
}

#[test]
fn accesses_beyond_the_capacity_are_out_of_bounds() {
    let mut memory = Memory::new();
    let end = MEMORY_CAPACITY as u32;
    assert_eq!(memory.load_byte(end - 1), Ok(0));
    assert_eq!(memory.load_byte(end), Err(Fault::OutOfBounds { address: end }));
    assert_eq!(memory.load_halfword(end - 2), Ok(0));
    assert_eq!(memory.load_halfword(end - 1), Err(Fault::OutOfBounds { address: end - 1 }));
    assert_eq!(memory.load_word(end - 4), Ok(0));
    assert_eq!(memory.load_word(end - 3), Err(Fault::OutOfBounds { address: end - 3 }));
    assert_eq!(memory.load_word(end), Err(Fault::OutOfBounds { address: end }));
    assert_eq!(memory.load_word(0xffff_fffe), Err(Fault::OutOfBounds { address: 0xffff_fffe }));
    assert_eq!(memory.store_byte(end - 1, 7), Ok(()));
    assert_eq!(memory.store_byte(end, 7), Err(Fault::OutOfBounds { address: end }));
    assert_eq!(memory.store_halfword(end - 2, 7), Ok(()));
    assert_eq!(memory.store_halfword(end - 1, 7), Err(Fault::OutOfBounds { address: end - 1 }));
    assert_eq!(memory.store_word(end - 4, 7), Ok(()));
    assert_eq!(memory.store_word(end - 3, 7), Err(Fault::OutOfBounds { address: end - 3 }));
    assert_eq!(memory.store_word(0xffff_ffff, 7), Err(Fault::OutOfBounds { address: 0xffff_ffff }));
}

#[test]
fn a_refused_store_writes_nothing() {
    let mut memory = Memory::new();
    let end = MEMORY_CAPACITY as u32;
    assert_eq!(memory.store_word(end - 4, 0x0102_0304), Ok(()));
    assert_eq!(
        memory.store_word(end - 2, 0xffff_ffff),
        Err(Fault::OutOfBounds { address: end - 2 })
    );
    assert_eq!(
        memory.store_halfword(end - 1, 0xffff),
        Err(Fault::OutOfBounds { address: end - 1 })
    );
    assert_eq!(memory.load_word(end - 4), Ok(0x0102_0304));
}

#[test]
fn an_image_is_copied_from_address_zero() {
    let mut memory = Memory::new();
    assert_eq!(memory.store_word(0, 0xffff_ffff), Ok(()));
    assert_eq!(memory.store_word(4, 0xffff_ffff), Ok(()));
    memory.load_image(&vec![1, 2, 3, 4, 5]);
    assert_eq!(memory.load_word(0), Ok(0x0403_0201));
    assert_eq!(memory.load_word(4), Ok(0xffff_ff05));
    memory.load_image(&vec![]);
    assert_eq!(memory.load_word(0), Ok(0x0403_0201));
    let full = vec![0xabu8; MEMORY_CAPACITY];
    memory.load_image(&full);
    assert_eq!(memory.load_word(0), Ok(0xabab_abab));
    assert_eq!(memory.load_byte(MEMORY_CAPACITY as u32 - 1), Ok(0xab));
}

#[test]
fn the_machine_reaches_its_memory_the_same_way() {
    let mut cpu = Cpu::new();
    assert_eq!(cpu.store_word(8, 0xcafe_f00d), Ok(()));
    assert_eq!(cpu.load_word(8), Ok(0xcafe_f00d));
    assert_eq!(cpu.load_halfword(8), Ok(0xf00d));
    assert_eq!(cpu.load_halfword(10), Ok(0xcafe));
    assert_eq!(cpu.load_byte(11), Ok(0xca));
    assert_eq!(cpu.store_halfword(8, 0x1234), Ok(()));
    assert_eq!(cpu.load_word(8), Ok(0xcafe_1234));
    assert_eq!(cpu.store_byte(11, 0x00), Ok(()));
    assert_eq!(cpu.load_word(8), Ok(0x00fe_1234));
    assert_eq!(cpu.load_word(16381), Err(Fault::OutOfBounds { address: 16381 }));
    assert_eq!(cpu.load_halfword(16383), Err(Fault::OutOfBounds { address: 16383 }));
    assert_eq!(cpu.load_byte(16384), Err(Fault::OutOfBounds { address: 16384 }));
    assert_eq!(cpu.store_word(16381, 1), Err(Fault::OutOfBounds { address: 16381 }));
    assert_eq!(cpu.store_halfword(16383, 1), Err(Fault::OutOfBounds { address: 16383 }));
    assert_eq!(cpu.store_byte(16384, 1), Err(Fault::OutOfBounds { address: 16384 }));
    assert_eq!(cpu.pc(), 0);
}
