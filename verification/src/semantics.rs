//! What executing an instruction means: the machine's state as a
//! mathematical value, and the state that follows from a state and an
//! instruction word.

use vstd::prelude::*;
use crate::alu::{alu_of, branch_taken, is_branch, shift_amount};
use crate::csr::CSR_CAPACITY;
use crate::decode::{
    imm12_of,
    imm_b_of,
    imm_i_of,
    imm_j_of,
    imm_s_of,
    imm_u_of,
    lemma_field_ranges,
    rd_of,
    rs1_of,
    rs2_of,
};
use crate::fault::Fault;
use crate::instruction::Instruction;
use crate::memory::{
    halfword_at,
    in_bounds,
    lemma_store_load_halfword,
    lemma_store_load_word,
    with_halfword,
    with_word,
    word_at,
    MEMORY_CAPACITY,
};
use crate::registers::{written, REGISTER_COUNT};
use crate::word::{lemma_signed_unsigned, sign_extend, signed, unsigned, wrap};

verus! {

/// The state of the machine: registers, program counter, control and status
/// registers, and memory.
pub struct State {
    pub x: Seq<i32>,
    pub pc: u32,
    pub csr: Seq<u32>,
    pub memory: Seq<u8>,
}

impl State {
    /// The shape of every machine state: the three stores have their fixed
    /// sizes, and register 0 holds zero.
    pub open spec fn wf(self) -> bool {
        &&& self.x.len() == REGISTER_COUNT
        &&& self.x[0] == 0
        &&& self.csr.len() == CSR_CAPACITY
        &&& self.memory.len() == MEMORY_CAPACITY
    }

    /// The state after a write to a register; register 0 keeps its zero.
    pub open spec fn with_x(self, index: u32, value: i32) -> State {
        State { x: written(self.x, index as int, value), ..self }
    }

    /// The state with another program counter.
    pub open spec fn with_pc(self, pc: u32) -> State {
        State { pc, ..self }
    }

    /// The state after a write to a control and status register.
    pub open spec fn with_csr(self, index: u32, value: u32) -> State {
        State { csr: self.csr.update(index as int, value), ..self }
    }

    /// The state with other memory contents.
    pub open spec fn with_memory(self, memory: Seq<u8>) -> State {
        State { memory, ..self }
    }

    /// The address of the instruction that follows the current one in
    /// memory; it wraps at 2^32.
    pub open spec fn next_pc(self) -> u32 {
        wrap(self.pc + 4)
    }
}

/// What a retired instruction tells the harness.
#[derive(Clone, Copy, Debug, PartialEq, Eq, Structural)]
pub enum Signal {
    /// Nothing to report: an ordinary instruction.
    Continue,
    /// An ECALL was executed.
    EnvironmentCall,
    /// An EBREAK was executed.
    Breakpoint,
}

/// The signal that `instruction` raises when it retires.
pub open spec fn signal_of(instruction: Instruction) -> Signal {
    match instruction {
        Instruction::ECALL => Signal::EnvironmentCall,
        Instruction::EBREAK => Signal::Breakpoint,
        _ => Signal::Continue,
    }
}

/// The number of bytes that a load or store accesses.
pub open spec fn access_size(instruction: Instruction) -> nat {
    match instruction {
        Instruction::LB | Instruction::LBU | Instruction::SB => 1,
        Instruction::LH | Instruction::LHU | Instruction::SH => 2,
        _ => 4,
    }
}

/// The register value that a load reads at `address`: LB and LH extend the
/// sign of what they read, LBU and LHU fill with zeros, LW reads a whole
/// word.
pub open spec fn loaded(instruction: Instruction, memory: Seq<u8>, address: int) -> i32 {
    match instruction {
        Instruction::LB => sign_extend(memory[address] as u32, 8),
        Instruction::LBU => memory[address] as i32,
        Instruction::LH => sign_extend(halfword_at(memory, address) as u32, 16),
        Instruction::LHU => halfword_at(memory, address) as i32,
        _ => signed(word_at(memory, address)),
    }
}

/// The memory after a store of `value` at `address`: SB writes its low byte,
/// SH its low two bytes, SW all four.
pub open spec fn stored(instruction: Instruction, memory: Seq<u8>, address: int, value: i32) -> Seq<
    u8,
> {
    match instruction {
        Instruction::SB => memory.update(address, (unsigned(value) % 0x100) as u8),
        Instruction::SH => with_halfword(memory, address, (unsigned(value) % 0x1_0000) as u16),
        _ => with_word(memory, address, unsigned(value)),
    }
}

/// The value that a control and status register instruction leaves in the
/// register, from the value held before and the source operand: CSRRW and
/// CSRRWI write the source, CSRRS and CSRRSI set the bits that are set in it,
/// CSRRC and CSRRCI clear them.
pub open spec fn csr_value(instruction: Instruction, held: u32, source: u32) -> u32 {
    match instruction {
        Instruction::CSRRW | Instruction::CSRRWI => source,
        Instruction::CSRRS | Instruction::CSRRSI => held | source,
        _ => held & !source,
    }
}

/// The state that follows from `s` when `instruction` is executed with the
/// operands that `word` carries, or the fault that stops it. Every operand
/// is read from `s`, so an instruction may name one register as source and
/// destination.
pub open spec fn execute_of(s: State, word: u32, instruction: Instruction) -> Result<State, Fault> {
    let rd = rd_of(word);
    let a = s.x[rs1_of(word) as int];
    let b = s.x[rs2_of(word) as int];
    match instruction {
        Instruction::ADD
        | Instruction::SUB
        | Instruction::SLL
        | Instruction::SLT
        | Instruction::SLTU
        | Instruction::XOR
        | Instruction::SRL
        | Instruction::SRA
        | Instruction::OR
        | Instruction::AND => Ok(s.with_x(rd, alu_of(instruction, a, b)).with_pc(s.next_pc())),
        Instruction::SLLI | Instruction::SRLI | Instruction::SRAI => Ok(
            s.with_x(rd, alu_of(instruction, a, rs2_of(word) as i32)).with_pc(s.next_pc()),
        ),
        Instruction::ADDI
        | Instruction::SLTI
        | Instruction::SLTIU
        | Instruction::XORI
        | Instruction::ORI
        | Instruction::ANDI => Ok(
            s.with_x(rd, alu_of(instruction, a, imm_i_of(word))).with_pc(s.next_pc()),
        ),
        Instruction::LUI => Ok(s.with_x(rd, imm_u_of(word)).with_pc(s.next_pc())),
        Instruction::AUIPC => Ok(
            s.with_x(rd, signed(wrap(s.pc + imm_u_of(word)))).with_pc(s.next_pc()),
        ),
        Instruction::JAL => Ok(
            s.with_x(rd, signed(s.next_pc())).with_pc(wrap(s.pc + imm_j_of(word))),
        ),
        Instruction::JALR => {
            let target = wrap(a + imm_i_of(word));
            Ok(s.with_x(rd, signed(s.next_pc())).with_pc((target - target % 2) as u32))
        },
        Instruction::BEQ
        | Instruction::BNE
        | Instruction::BLT
        | Instruction::BGE
        | Instruction::BLTU
        | Instruction::BGEU => Ok(
            s.with_pc(
                if branch_taken(instruction, a, b) {
                    wrap(s.pc + imm_b_of(word))
                } else {
                    s.next_pc()
                },
            ),
        ),
        Instruction::LB
        | Instruction::LBU
        | Instruction::LH
        | Instruction::LHU
        | Instruction::LW => {
            let address = wrap(a + imm_i_of(word));
            if in_bounds(address, access_size(instruction)) {
                Ok(s.with_x(rd, loaded(instruction, s.memory, address as int)).with_pc(s.next_pc()))
            } else {
                Err(Fault::OutOfBounds { address })
            }
        },
        Instruction::SB | Instruction::SH | Instruction::SW => {
            let address = wrap(a + imm_s_of(word));
            if in_bounds(address, access_size(instruction)) {
                Ok(
                    s.with_memory(stored(instruction, s.memory, address as int, b)).with_pc(
                        s.next_pc(),
                    ),
                )
            } else {
                Err(Fault::OutOfBounds { address })
            }
        },
        Instruction::CSRRW | Instruction::CSRRS | Instruction::CSRRC => {
            let index = imm12_of(word);
            let held = s.csr[index as int];
            Ok(
                s.with_csr(index, csr_value(instruction, held, unsigned(a))).with_x(
                    rd,
                    signed(held),
                ).with_pc(s.next_pc()),
            )
        },
        Instruction::CSRRWI | Instruction::CSRRSI | Instruction::CSRRCI => {
            let index = imm12_of(word);
            let held = s.csr[index as int];
            Ok(
                s.with_csr(index, csr_value(instruction, held, rs1_of(word))).with_x(
                    rd,
                    signed(held),
                ).with_pc(s.next_pc()),
            )
        },
        Instruction::FENCE
        | Instruction::FENCE_I
        | Instruction::ECALL
        | Instruction::EBREAK => Ok(s.with_pc(s.next_pc())),
    }
}

/// Whether executing `instruction` with the operands of `word` leads from
/// `before` to `after` with the result `r`: on success the state is the one
/// that `execute_of` gives and the result is the instruction's signal; on a
/// fault nothing has changed.
pub open spec fn executes(
    before: State,
    word: u32,
    instruction: Instruction,
    after: State,
    r: Result<Signal, Fault>,
) -> bool {
    match execute_of(before, word, instruction) {
        Ok(s) => r == Ok::<Signal, Fault>(signal_of(instruction)) && after == s,
        Err(fault) => r == Err::<Signal, Fault>(fault) && after == before,
    }
}

/// The amount of a shift by a constant, `word[24:20]`, is the low five bits
/// of the immediate of the word: the shift gives what the same shift gives
/// with the sign-extended immediate as its second operand.
pub proof fn lemma_shift_by_constant(word: u32)
    ensures
        shift_amount(imm_i_of(word)) == rs2_of(word),
        shift_amount(rs2_of(word) as i32) == rs2_of(word),
        forall|a: i32|
            #![trigger alu_of(Instruction::SLLI, a, imm_i_of(word))]
            #![trigger alu_of(Instruction::SRLI, a, imm_i_of(word))]
            #![trigger alu_of(Instruction::SRAI, a, imm_i_of(word))]
            {
                &&& alu_of(Instruction::SLLI, a, imm_i_of(word)) == alu_of(
                    Instruction::SLLI,
                    a,
                    rs2_of(word) as i32,
                )
                &&& alu_of(Instruction::SRLI, a, imm_i_of(word)) == alu_of(
                    Instruction::SRLI,
                    a,
                    rs2_of(word) as i32,
                )
                &&& alu_of(Instruction::SRAI, a, imm_i_of(word)) == alu_of(
                    Instruction::SRAI,
                    a,
                    rs2_of(word) as i32,
                )
            },
{
    assert(shift_amount(imm_i_of(word)) == rs2_of(word) && shift_amount(rs2_of(word) as i32)
        == rs2_of(word)) by (bit_vector);
}

/// What a store writes, a load at the same address reads back: SW and LW
/// the whole register; SH and SB the low halfword and the low byte, which
/// LHU and LBU read as they are and LH and LB with their sign extended.
pub proof fn lemma_store_then_load(memory: Seq<u8>, address: int, value: i32)
    requires
        0 <= address,
    ensures
        address + 4 <= memory.len() ==> loaded(
            Instruction::LW,
            stored(Instruction::SW, memory, address, value),
            address,
        ) == value,
        address + 2 <= memory.len() ==> loaded(
            Instruction::LHU,
            stored(Instruction::SH, memory, address, value),
            address,
        ) == unsigned(value) % 0x1_0000,
        address + 2 <= memory.len() ==> loaded(
            Instruction::LH,
            stored(Instruction::SH, memory, address, value),
            address,
        ) == sign_extend((unsigned(value) % 0x1_0000) as u32, 16),
        address + 1 <= memory.len() ==> loaded(
            Instruction::LBU,
            stored(Instruction::SB, memory, address, value),
            address,
        ) == unsigned(value) % 0x100,
        address + 1 <= memory.len() ==> loaded(
            Instruction::LB,
            stored(Instruction::SB, memory, address, value),
            address,
        ) == sign_extend((unsigned(value) % 0x100) as u32, 8),
{
    lemma_signed_unsigned(value, 0);
    if address + 4 <= memory.len() {
        lemma_store_load_word(memory, address, unsigned(value));
    }
    if address + 2 <= memory.len() {
        lemma_store_load_halfword(memory, address, (unsigned(value) % 0x1_0000) as u16);
    }
}

/// Register 0 holds zero whatever is written: a write to it leaves the
/// state as it was, and a write to any register leaves register 0 at zero.
pub proof fn lemma_register_zero(s: State, index: u32, value: i32)
    requires
        s.wf(),
        index < REGISTER_COUNT,
    ensures
        s.with_x(0, value) == s,
        s.with_x(index, value).x[0] == 0,
        s.with_x(index, value).wf(),
{
}

/// Executing an instruction leads from a machine state to a machine state:
/// the stores keep their sizes and register 0 its zero.
pub proof fn lemma_execute_wf(s: State, word: u32, instruction: Instruction)
    requires
        s.wf(),
    ensures
        execute_of(s, word, instruction) matches Ok(after) ==> after.wf(),
{
    lemma_field_ranges(word);
}

/// Where instructions stand at multiples of 4, they stay there: from an
/// aligned program counter, every instruction but a jump or a taken branch
/// to a target that is itself not aligned leads to an aligned one.
pub proof fn lemma_pc_stays_aligned(s: State, word: u32, instruction: Instruction)
    requires
        s.pc % 4 == 0,
        instruction == Instruction::JAL ==> imm_j_of(word) % 4 == 0,
        instruction == Instruction::JALR ==> wrap(s.x[rs1_of(word) as int] + imm_i_of(word)) % 4
            <= 1,
        is_branch(instruction) ==> imm_b_of(word) % 4 == 0,
    ensures
        execute_of(s, word, instruction) matches Ok(after) ==> after.pc % 4 == 0,
{
}

} // verus!
