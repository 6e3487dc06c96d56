use emulator::cpu::Cpu;
use emulator::fault::{Fault, Trap};
use emulator::harness::{Retired, Verdict, ECALL_WORD, RESULT_REGISTER};
use emulator::instruction::Instruction;
use emulator::semantics::Signal;

fn image(words: &[u32]) -> Vec<u8> {
    let mut bytes = Vec::new();
    for w in words {
        bytes.push(*w as u8);
        bytes.push((*w >> 8) as u8);
        bytes.push((*w >> 16) as u8);
        bytes.push((*w >> 24) as u8);
    }
    bytes
}

#[test]
fn a_lone_ecall_passes_with_zero_in_x10() {
    let mut cpu = Cpu::new();
    cpu.write_register(10, 0);
    assert_eq!(cpu.run_test(vec![0x73, 0x00, 0x00, 0x00], 100), Ok(Some(Verdict::Pass)));
    assert_eq!(cpu.pc(), 4);
}

#[test]
fn a_lone_ecall_fails_with_one_in_x10() {
    let mut cpu = Cpu::new();
    cpu.write_register(10, 1);
    assert_eq!(cpu.run_test(vec![0x73, 0x00, 0x00, 0x00], 100), Ok(Some(Verdict::Fail)));
    assert_eq!(cpu.pc(), 4);
}

#[test]
fn any_other_value_in_x10_fails() {
    for value in [-1, 2, i32::MIN, i32::MAX, 0x100] {
        let mut cpu = Cpu::new();
        cpu.write_register(10, value);
        assert_eq!(cpu.run_test(image(&[0x0000_0073]), 1), Ok(Some(Verdict::Fail)));
    }
}

#[test]
fn the_constants_of_the_protocol() {
    assert_eq!(ECALL_WORD, 0x0000_0073);
    assert_eq!(RESULT_REGISTER, 10);
}

#[test]
fn a_program_runs_to_its_ecall() {
    // x1 = 10; x10 = 0; loop: x10 += x1; x1 -= 1; bne x1, x0, loop; x10 -= 55; ecall
    let program = image(&[
        0x00a0_0093, // addi x1, x0, 10
        0x0000_0513, // addi x10, x0, 0
        0x0015_0533, // add x10, x10, x1
        0xfff0_8093, // addi x1, x1, -1
        0xfe00_9ce3, // bne x1, x0, -8
        0xfc95_0513, // addi x10, x10, -55
        0x0000_0073, // ecall
    ]);
    let mut cpu = Cpu::new();
    cpu.write_register(10, 99);
    assert_eq!(cpu.run_test(program.clone(), 1000), Ok(Some(Verdict::Pass)));
    assert_eq!(cpu.read_register(10), 0);
    assert_eq!(cpu.read_register(1), 0);
    assert_eq!(cpu.pc(), 28);
    // exactly 2 + 3 * 10 + 2 steps are needed
    let mut cpu = Cpu::new();
    assert_eq!(cpu.run_test(program.clone(), 34), Ok(Some(Verdict::Pass)));
    let mut cpu = Cpu::new();
    assert_eq!(cpu.run_test(program, 33), Ok(None));
    assert_eq!(cpu.pc(), 24);
    assert_eq!(cpu.read_register(10), 0);
}

#[test]
fn a_wrong_sum_fails() {
    let program = image(&[
        0x0070_0513, // addi x10, x0, 7
        0xffa5_0513, // addi x10, x10, -6
        0x0000_0073, // ecall
    ]);
    let mut cpu = Cpu::new();
    assert_eq!(cpu.run_test(program, 10), Ok(Some(Verdict::Fail)));
    assert_eq!(cpu.read_register(10), 1);
}

#[test]
fn no_steps_give_no_verdict() {
    let mut cpu = Cpu::new();
    cpu.set_pc(64);
    cpu.write_register(4, 4);
    assert_eq!(cpu.run_test(image(&[0x0000_0073]), 0), Ok(None));
    // the image is loaded and the program counter is at its start all the same
    assert_eq!(cpu.pc(), 0);
    assert_eq!(cpu.load_word(0), Ok(0x0000_0073));
    assert_eq!(cpu.read_register(4), 4);
}

#[test]
fn an_endless_loop_runs_out_of_steps() {
    // jal x0, 0
    let mut cpu = Cpu::new();
    assert_eq!(cpu.run_test(image(&[0x0000_006f]), 10_000), Ok(None));
    assert_eq!(cpu.pc(), 0);
}

#[test]
fn an_illegal_word_stops_the_run_with_its_address() {
    let program = image(&[0x0010_0093, 0xffff_ffff, 0x0000_0073]);
    let mut cpu = Cpu::new();
    assert_eq!(
        cpu.run_test(program, 10),
        Err(Trap { pc: 4, fault: Fault::IllegalInstruction { word: 0xffff_ffff } })
    );
    assert_eq!(cpu.pc(), 4);
    assert_eq!(cpu.read_register(1), 1);
}

#[test]
fn an_empty_image_stops_at_the_first_word() {
    let mut cpu = Cpu::new();
    assert_eq!(
        cpu.run_test(vec![], 10),
        Err(Trap { pc: 0, fault: Fault::IllegalInstruction { word: 0 } })
    );
}

#[test]
fn running_off_the_end_of_memory_is_out_of_bounds() {
    // a full image of ADDI x0, x0, 0
    let program = image(&vec![0x0000_0013; 4096]);
    assert_eq!(program.len(), 16384);
    let mut cpu = Cpu::new();
    assert_eq!(
        cpu.run_test(program.clone(), 5000),
        Err(Trap { pc: 16384, fault: Fault::OutOfBounds { address: 16384 } })
    );
    assert_eq!(cpu.pc(), 16384);
    let mut cpu = Cpu::new();
    assert_eq!(cpu.run_test(program, 4096), Ok(None));
}

#[test]
fn a_load_out_of_bounds_stops_the_run() {
    let program = image(&[
        0x0000_40b7, // lui x1, 4  (x1 = 16384)
        0x0000_a103, // lw x2, 0(x1)
        0x0000_0073,
    ]);
    let mut cpu = Cpu::new();
    assert_eq!(
        cpu.run_test(program, 10),
        Err(Trap { pc: 4, fault: Fault::OutOfBounds { address: 16384 } })
    );
    assert_eq!(cpu.read_register(1), 16384);
    assert_eq!(cpu.read_register(2), 0);
}

#[test]
fn the_terminating_instruction_is_executed_before_the_verdict() {
    let mut cpu = Cpu::new();
    assert_eq!(cpu.run_test(image(&[0x0000_0013, 0x0000_0073]), 10), Ok(Some(Verdict::Pass)));
    // the program counter is behind the ECALL
    assert_eq!(cpu.pc(), 8);
}

#[test]
fn only_the_exact_ecall_word_terminates() {
    // an ECALL with a destination field set is executed and the run goes on; EBREAK too
    let program = image(&[0x0000_00f3, 0x0010_0073, 0x0010_0513, 0x0000_0073]);
    let mut cpu = Cpu::new();
    assert_eq!(cpu.run_test(program, 10), Ok(Some(Verdict::Fail)));
    assert_eq!(cpu.pc(), 16);
    assert_eq!(cpu.read_register(10), 1);
}

#[test]
fn a_run_keeps_the_registers_and_overwrites_the_image_only() {
    let mut cpu = Cpu::new();
    assert_eq!(cpu.store_word(0, 0x1111_1111), Ok(()));
    assert_eq!(cpu.store_word(4, 0x2222_2222), Ok(()));
    assert_eq!(cpu.store_word(100, 0x3333_3333), Ok(()));
    cpu.write_register(7, 7);
    cpu.write_csr(9, 9);
    cpu.set_pc(0x80);
    cpu.load_program(&image(&[0x0000_0073]));
    assert_eq!(cpu.pc(), 0);
    assert_eq!(cpu.load_word(0), Ok(0x0000_0073));
    assert_eq!(cpu.load_word(4), Ok(0x2222_2222));
    assert_eq!(cpu.load_word(100), Ok(0x3333_3333));
    assert_eq!(cpu.read_register(7), 7);
    assert_eq!(cpu.read_csr(9), 9);
}

#[test]
fn test_steps_report_each_instruction() {
    let mut cpu = Cpu::new();
    cpu.load_program(&image(&[0x0010_0093, 0x0000_0073]));
    assert_eq!(
        cpu.test_step(),
        Ok((
            Retired {
                pc: 0,
                word: 0x0010_0093,
                instruction: Instruction::ADDI,
                signal: Signal::Continue
            },
            None
        ))
    );
    assert_eq!(
        cpu.test_step(),
        Ok((
            Retired {
                pc: 4,
                word: 0x0000_0073,
                instruction: Instruction::ECALL,
                signal: Signal::EnvironmentCall
            },
            Some(Verdict::Pass)
        ))
    );
    assert_eq!(
        cpu.test_step(),
        Err(Trap { pc: 8, fault: Fault::IllegalInstruction { word: 0 } })
    );
}
