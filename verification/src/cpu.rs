//! The machine itself: one owner of registers, program counter, control and
//! status registers and memory, which fetches, decodes and executes.

use vstd::prelude::*;
use crate::alu::{alu, branch};
use crate::csr::{CsrBank, CSR_CAPACITY};
use crate::decode::{decode_of, decoded, imm12, imm_b, imm_i, imm_j, imm_s, imm_u, rd, rs1, rs2};
use crate::fault::{Fault, Trap};
use crate::harness::{
    run_of,
    step_of,
    test_start,
    verdict_of,
    Retired,
    Verdict,
    ECALL_WORD,
    RESULT_REGISTER,
};
use crate::instruction::{format_of, get_instruction_format, Instruction, InstructionFormat};
use crate::memory::{
    halfword_at,
    in_bounds,
    with_halfword,
    with_word,
    word_at,
    Memory,
    MEMORY_CAPACITY,
};
use crate::registers::{RegisterFile, REGISTER_COUNT};
use crate::semantics::{
    execute_of,
    executes,
    lemma_shift_by_constant,
    signal_of,
    Signal,
    State,
};
use crate::word::{
    address,
    clear_low_bit,
    extend_byte,
    extend_halfword,
    low_byte,
    low_halfword,
    offset,
    to_signed,
    to_unsigned,
};

verus! {

/// An RV32I machine with one hart.
pub struct Cpu {
    x: RegisterFile,
    pc: u32,
    csr: CsrBank,
    memory: Memory,
}

impl Cpu {
    /// The state of the machine.
    pub closed spec fn view(&self) -> State {
        State { x: self.x@, pc: self.pc, csr: self.csr@, memory: self.memory@ }
    }

    /// The state of a machine always has the shape of a machine state.
    pub proof fn lemma_wf(&self)
        ensures
            self@.wf(),
    {
        self.x.lemma_view();
        self.csr.lemma_len();
        self.memory.lemma_len();
    }

    /// A machine at address 0 whose registers, control and status registers
    /// and memory all hold zero.
    pub fn new() -> (cpu: Self)
        ensures
            cpu@ == (State {
                x: Seq::new(REGISTER_COUNT as nat, |i: int| 0i32),
                pc: 0,
                csr: Seq::new(CSR_CAPACITY as nat, |i: int| 0u32),
                memory: Seq::new(MEMORY_CAPACITY as nat, |i: int| 0u8),
            }),
    {
        Cpu { x: RegisterFile::new(), pc: 0, csr: CsrBank::new(), memory: Memory::new() }
    }

    /// The program counter.
    pub fn pc(&self) -> (pc: u32)
        ensures
            pc == self@.pc,
    {
        self.pc
    }

    /// Moves the program counter to `pc`.
    pub fn set_pc(&mut self, pc: u32)
        ensures
            final(self)@ == old(self)@.with_pc(pc),
    {
        self.pc = pc;
    }

    /// The value of register `index`; register 0 always reads as zero.
    pub fn read_register(&self, index: u32) -> (value: i32)
        requires
            index < REGISTER_COUNT,
        ensures
            value == self@.x[index as int],
            index == 0 ==> value == 0,
    {
        self.x.read(index)
    }

    /// Sets register `index` to `value`; a write to register 0 is discarded.
    pub fn write_register(&mut self, index: u32, value: i32)
        requires
            index < REGISTER_COUNT,
        ensures
            final(self)@ == old(self)@.with_x(index, value),
            final(self)@.x[0] == 0,
    {
        self.x.write(index, value);
    }

    /// The value of control and status register `index`.
    pub fn read_csr(&self, index: u32) -> (value: u32)
        requires
            index < CSR_CAPACITY,
        ensures
            value == self@.csr[index as int],
    {
        self.csr.read(index)
    }

    /// Sets control and status register `index` to `value`.
    pub fn write_csr(&mut self, index: u32, value: u32)
        requires
            index < CSR_CAPACITY,
        ensures
            final(self)@ == old(self)@.with_csr(index, value),
    {
        self.csr.write(index, value);
    }

    /// Reads the instruction word at the program counter, which stays where
    /// it is. Programs keep their instructions at multiples of 4; the fetch
    /// does not ask for it and reads the four bytes from wherever the program
    /// counter points.
    pub fn fetch(&self) -> (r: Result<u32, Fault>)
        ensures
            in_bounds(self@.pc, 4) ==> r == Ok::<u32, Fault>(word_at(self@.memory, self@.pc as int)),
            !in_bounds(self@.pc, 4) ==> r == Err::<u32, Fault>(
                Fault::OutOfBounds { address: self@.pc },
            ),
    {
        self.memory.load_word(self.pc)
    }

    /// Reads the word at `address`, low-order byte first.
    pub fn load_word(&self, address: u32) -> (r: Result<u32, Fault>)
        ensures
            in_bounds(address, 4) ==> r == Ok::<u32, Fault>(
                word_at(self@.memory, address as int),
            ),
            !in_bounds(address, 4) ==> r == Err::<u32, Fault>(Fault::OutOfBounds { address }),
    {
        self.memory.load_word(address)
    }

    /// Reads the halfword at `address`, low-order byte first.
    pub fn load_halfword(&self, address: u32) -> (r: Result<u16, Fault>)
        ensures
            in_bounds(address, 2) ==> r == Ok::<u16, Fault>(
                halfword_at(self@.memory, address as int),
            ),
            !in_bounds(address, 2) ==> r == Err::<u16, Fault>(Fault::OutOfBounds { address }),
    {
        self.memory.load_halfword(address)
    }

    /// Reads the byte at `address`.
    pub fn load_byte(&self, address: u32) -> (r: Result<u8, Fault>)
        ensures
            in_bounds(address, 1) ==> r == Ok::<u8, Fault>(self@.memory[address as int]),
            !in_bounds(address, 1) ==> r == Err::<u8, Fault>(Fault::OutOfBounds { address }),
    {
        self.memory.load_byte(address)
    }

    /// Writes the four bytes of `value` at `address`, low-order byte first.
    /// The machine is unchanged where the access is out of bounds.
    pub fn store_word(&mut self, address: u32, value: u32) -> (r: Result<(), Fault>)
        ensures
            in_bounds(address, 4) ==> r == Ok::<(), Fault>(()) && final(self)@ == old(
                self,
            )@.with_memory(with_word(old(self)@.memory, address as int, value)),
            !in_bounds(address, 4) ==> r == Err::<(), Fault>(Fault::OutOfBounds { address })
                && final(self)@ == old(self)@,
    {
        self.memory.store_word(address, value)
    }

    /// Writes the two bytes of `value` at `address`, low-order byte first.
    /// The machine is unchanged where the access is out of bounds.
    pub fn store_halfword(&mut self, address: u32, value: u16) -> (r: Result<(), Fault>)
        ensures
            in_bounds(address, 2) ==> r == Ok::<(), Fault>(()) && final(self)@ == old(
                self,
            )@.with_memory(with_halfword(old(self)@.memory, address as int, value)),
            !in_bounds(address, 2) ==> r == Err::<(), Fault>(Fault::OutOfBounds { address })
                && final(self)@ == old(self)@,
    {
        self.memory.store_halfword(address, value)
    }

    /// Writes `value` at `address`. The machine is unchanged where the
    /// access is out of bounds.
    pub fn store_byte(&mut self, address: u32, value: u8) -> (r: Result<(), Fault>)
        ensures
            in_bounds(address, 1) ==> r == Ok::<(), Fault>(()) && final(self)@ == old(
                self,
            )@.with_memory(old(self)@.memory.update(address as int, value)),
            !in_bounds(address, 1) ==> r == Err::<(), Fault>(Fault::OutOfBounds { address })
                && final(self)@ == old(self)@,
    {
        self.memory.store_byte(address, value)
    }

    /// Decodes an instruction word; the result depends on the word alone.
    pub fn decode(&self, word: u32) -> (r: Result<Instruction, Fault>)
        ensures
            decoded(word, r),
            r == match decode_of(word) {
                Some(instruction) => Ok::<Instruction, Fault>(instruction),
                None => Err(Fault::IllegalInstruction { word }),
            },
    {
        crate::decode::decode(word)
    }

    /// Executes `instruction` with the operands that `word` carries. On
    /// success the machine is in the state that follows and the result is
    /// the instruction's signal to the harness; on a fault the machine is
    /// unchanged.
    pub fn operate(&mut self, word: u32, instruction: Instruction) -> (r: Result<Signal, Fault>)
        ensures
            match execute_of(old(self)@, word, instruction) {
                Ok(s) => r == Ok::<Signal, Fault>(signal_of(instruction)) && final(self)@ == s,
                Err(fault) => r == Err::<Signal, Fault>(fault) && final(self)@ == old(self)@,
            },
    {
        match get_instruction_format(&instruction) {
            InstructionFormat::R => self.operate_r(word, instruction),
            InstructionFormat::I => self.operate_i(word, instruction),
            InstructionFormat::S => self.operate_s(word, instruction),
            InstructionFormat::B => self.operate_b(word, instruction),
            InstructionFormat::U => self.operate_u(word, instruction),
            InstructionFormat::J => self.operate_j(word, instruction),
        }
    }

    /// Register-register instructions.
    fn operate_r(&mut self, word: u32, instruction: Instruction) -> (r: Result<Signal, Fault>)
        requires
            format_of(instruction) == InstructionFormat::R,
        ensures
            executes(old(self)@, word, instruction, final(self)@, r),
    {
        let a: i32 = self.x.read(rs1(word));
        let b: i32 = self.x.read(rs2(word));
        self.x.write(rd(word), alu(instruction, a, b));
        self.pc = self.pc.wrapping_add(4);
        Ok(Signal::Continue)
    }

    /// Instructions with a 12-bit immediate: arithmetic and shifts by a
    /// constant, loads, JALR, the control and status register instructions,
    /// fences and environment instructions.
    fn operate_i(&mut self, word: u32, instruction: Instruction) -> (r: Result<Signal, Fault>)
        requires
            format_of(instruction) == InstructionFormat::I,
        ensures
            executes(old(self)@, word, instruction, final(self)@, r),
    {
        match instruction {
            Instruction::LB
            | Instruction::LBU
            | Instruction::LH
            | Instruction::LHU
            | Instruction::LW => self.operate_load(word, instruction),
            Instruction::CSRRW
            | Instruction::CSRRS
            | Instruction::CSRRC
            | Instruction::CSRRWI
            | Instruction::CSRRSI
            | Instruction::CSRRCI => self.operate_csr(word, instruction),
            Instruction::JALR => {
                let target: u32 = clear_low_bit(address(self.x.read(rs1(word)), imm_i(word)));
                self.x.write(rd(word), to_signed(self.pc.wrapping_add(4)));
                self.pc = target;
                Ok(Signal::Continue)
            },
            Instruction::FENCE | Instruction::FENCE_I => {
                self.pc = self.pc.wrapping_add(4);
                Ok(Signal::Continue)
            },
            Instruction::ECALL => {
                self.pc = self.pc.wrapping_add(4);
                Ok(Signal::EnvironmentCall)
            },
            Instruction::EBREAK => {
                self.pc = self.pc.wrapping_add(4);
                Ok(Signal::Breakpoint)
            },
            _ => {
                // A shift takes its amount from the low five bits of the
                // immediate, as every shift does from its second operand.
                proof {
                    lemma_shift_by_constant(word);
                }
                let a: i32 = self.x.read(rs1(word));
                self.x.write(rd(word), alu(instruction, a, imm_i(word)));
                self.pc = self.pc.wrapping_add(4);
                Ok(Signal::Continue)
            },
        }
    }

    /// Loads: the destination takes what the memory holds at the address
    /// that the base register and the immediate give.
    fn operate_load(&mut self, word: u32, instruction: Instruction) -> (r: Result<Signal, Fault>)
        requires
            instruction == Instruction::LB || instruction == Instruction::LBU || instruction
                == Instruction::LH || instruction == Instruction::LHU || instruction
                == Instruction::LW,
        ensures
            executes(old(self)@, word, instruction, final(self)@, r),
    {
        let at: u32 = address(self.x.read(rs1(word)), imm_i(word));
        let value: i32 = match instruction {
            Instruction::LB => match self.memory.load_byte(at) {
                Ok(byte) => extend_byte(byte),
                Err(fault) => {
                    return Err(fault);
                },
            },
            Instruction::LBU => match self.memory.load_byte(at) {
                Ok(byte) => byte as i32,
                Err(fault) => {
                    return Err(fault);
                },
            },
            Instruction::LH => match self.memory.load_halfword(at) {
                Ok(halfword) => extend_halfword(halfword),
                Err(fault) => {
                    return Err(fault);
                },
            },
            Instruction::LHU => match self.memory.load_halfword(at) {
                Ok(halfword) => halfword as i32,
                Err(fault) => {
                    return Err(fault);
                },
            },
            _ => match self.memory.load_word(at) {
                Ok(loaded) => to_signed(loaded),
                Err(fault) => {
                    return Err(fault);
                },
            },
        };
        self.x.write(rd(word), value);
        self.pc = self.pc.wrapping_add(4);
        Ok(Signal::Continue)
    }

    /// Control and status register instructions: the destination takes the
    /// value held, and the register the value that the instruction makes of
    /// it and of the source.
    fn operate_csr(&mut self, word: u32, instruction: Instruction) -> (r: Result<Signal, Fault>)
        requires
            instruction == Instruction::CSRRW || instruction == Instruction::CSRRS || instruction
                == Instruction::CSRRC || instruction == Instruction::CSRRWI || instruction
                == Instruction::CSRRSI || instruction == Instruction::CSRRCI,
        ensures
            executes(old(self)@, word, instruction, final(self)@, r),
    {
        let index: u32 = imm12(word);
        let held: u32 = self.csr.read(index);
        let source: u32 = match instruction {
            Instruction::CSRRW | Instruction::CSRRS | Instruction::CSRRC => to_unsigned(
                self.x.read(rs1(word)),
            ),
            _ => rs1(word),
        };
        let value: u32 = match instruction {
            Instruction::CSRRW | Instruction::CSRRWI => source,
            Instruction::CSRRS | Instruction::CSRRSI => held | source,
            _ => held & !source,
        };
        self.csr.write(index, value);
        self.x.write(rd(word), to_signed(held));
        self.pc = self.pc.wrapping_add(4);
        Ok(Signal::Continue)
    }

    /// Stores: the memory takes the low bytes of the second source at the
    /// address that the base register and the immediate give.
    fn operate_s(&mut self, word: u32, instruction: Instruction) -> (r: Result<Signal, Fault>)
        requires
            format_of(instruction) == InstructionFormat::S,
        ensures
            executes(old(self)@, word, instruction, final(self)@, r),
    {
        let at: u32 = address(self.x.read(rs1(word)), imm_s(word));
        let value: i32 = self.x.read(rs2(word));
        let done: Result<(), Fault> = match instruction {
            Instruction::SB => self.memory.store_byte(at, low_byte(value)),
            Instruction::SH => self.memory.store_halfword(at, low_halfword(value)),
            _ => self.memory.store_word(at, to_unsigned(value)),
        };
        match done {
            Ok(()) => {
                self.pc = self.pc.wrapping_add(4);
                Ok(Signal::Continue)
            },
            Err(fault) => Err(fault),
        }
    }

    /// Conditional branches: the program counter moves by the immediate
    /// where the condition holds, and to the next instruction where not.
    fn operate_b(&mut self, word: u32, instruction: Instruction) -> (r: Result<Signal, Fault>)
        requires
            format_of(instruction) == InstructionFormat::B,
        ensures
            executes(old(self)@, word, instruction, final(self)@, r),
    {
        let a: i32 = self.x.read(rs1(word));
        let b: i32 = self.x.read(rs2(word));
        if branch(instruction, a, b) {
            self.pc = offset(self.pc, imm_b(word));
        } else {
            self.pc = self.pc.wrapping_add(4);
        }
        Ok(Signal::Continue)
    }

    /// LUI and AUIPC: the destination takes the upper immediate, alone or
    /// added to the program counter.
    fn operate_u(&mut self, word: u32, instruction: Instruction) -> (r: Result<Signal, Fault>)
        requires
            format_of(instruction) == InstructionFormat::U,
        ensures
            executes(old(self)@, word, instruction, final(self)@, r),
    {
        let value: i32 = match instruction {
            Instruction::LUI => imm_u(word),
            _ => to_signed(offset(self.pc, imm_u(word))),
        };
        self.x.write(rd(word), value);
        self.pc = self.pc.wrapping_add(4);
        Ok(Signal::Continue)
    }

    /// JAL: the destination takes the address of the next instruction, and
    /// the program counter moves by the immediate.
    fn operate_j(&mut self, word: u32, instruction: Instruction) -> (r: Result<Signal, Fault>)
        requires
            format_of(instruction) == InstructionFormat::J,
        ensures
            executes(old(self)@, word, instruction, final(self)@, r),
    {
        self.x.write(rd(word), to_signed(self.pc.wrapping_add(4)));
        self.pc = offset(self.pc, imm_j(word));
        Ok(Signal::Continue)
    }

    /// Advances the machine by one instruction: fetches the word at the
    /// program counter, decodes it and executes it. On success the result
    /// is the record of the instruction; on a trap the machine is unchanged,
    /// so that the program counter still addresses the offending
    /// instruction.
    pub fn tick(&mut self) -> (r: Result<Retired, Trap>)
        ensures
            match step_of(old(self)@) {
                Ok((after, retired)) => r == Ok::<Retired, Trap>(retired) && final(self)@ == after,
                Err(trap) => r == Err::<Retired, Trap>(trap) && final(self)@ == old(self)@,
            },
    {
        let pc: u32 = self.pc;
        let word: u32 = match self.fetch() {
            Ok(word) => word,
            Err(fault) => {
                return Err(Trap { pc, fault });
            },
        };
        let instruction: Instruction = match self.decode(word) {
            Ok(instruction) => instruction,
            Err(fault) => {
                return Err(Trap { pc, fault });
            },
        };
        match self.operate(word, instruction) {
            Ok(signal) => Ok(Retired { pc, word, instruction, signal }),
            Err(fault) => Err(Trap { pc, fault }),
        }
    }

    /// Copies a program image into memory from address 0 and moves the
    /// program counter there. Registers keep their values.
    pub fn load_program(&mut self, image: &Vec<u8>)
        requires
            image@.len() <= MEMORY_CAPACITY,
        ensures
            final(self)@ == test_start(old(self)@, image@),
    {
        self.memory.load_image(image);
        self.pc = 0;
    }

    /// One step of a test: a tick, and the verdict where the word executed
    /// was the terminating one.
    pub fn test_step(&mut self) -> (r: Result<(Retired, Option<Verdict>), Trap>)
        ensures
            match step_of(old(self)@) {
                Ok((after, retired)) => r == Ok::<(Retired, Option<Verdict>), Trap>(
                    (retired, verdict_of(retired.word, after)),
                ) && final(self)@ == after,
                Err(trap) => r == Err::<(Retired, Option<Verdict>), Trap>(trap) && final(self)@
                    == old(self)@,
            },
    {
        match self.tick() {
            Ok(retired) => {
                let verdict: Option<Verdict> = if retired.word != ECALL_WORD {
                    None
                } else if self.x.read(RESULT_REGISTER) == 0 {
                    Some(Verdict::Pass)
                } else {
                    Some(Verdict::Fail)
                };
                Ok((retired, verdict))
            },
            Err(trap) => Err(trap),
        }
    }

    /// Runs a test program: loads `data` at address 0, starts at address 0
    /// and steps until the terminating instruction has been executed, for at
    /// most `max_steps` steps. The result is the verdict, or nothing where
    /// the steps ran out first, or the trap that stopped the run; the machine
    /// is left in the state that the run reached.
    pub fn run_test(&mut self, data: Vec<u8>, max_steps: u64) -> (r: Result<Option<Verdict>, Trap>)
        requires
            data@.len() <= MEMORY_CAPACITY,
        ensures
            (final(self)@, r) == run_of(test_start(old(self)@, data@), max_steps as nat),
    {
        self.load_program(&data);
        let ghost start = self@;
        let mut steps: u64 = 0;
        while steps < max_steps
            invariant
                steps <= max_steps,
                start == test_start(old(self)@, data@),
                run_of(start, max_steps as nat) == run_of(self@, (max_steps - steps) as nat),
            decreases max_steps - steps,
        {
            match self.test_step() {
                Ok((_, Some(verdict))) => {
                    return Ok(Some(verdict));
                },
                Ok((_, None)) => {},
                Err(trap) => {
                    return Err(trap);
                },
            }
            steps += 1;
        }
        Ok(None)
    }
}

} // verus!
