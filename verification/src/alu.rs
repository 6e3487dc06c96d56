//! The arithmetic and logic of the integer instructions, and the conditions
//! of the branches.

use vstd::prelude::*;
use crate::instruction::Instruction;
use crate::word::{signed, to_signed, to_unsigned, unsigned, wrap};

verus! {

/// Whether `instruction` computes a register value from two operands.
pub open spec fn is_alu(instruction: Instruction) -> bool {
    match instruction {
        Instruction::ADD
        | Instruction::ADDI
        | Instruction::SUB
        | Instruction::SLT
        | Instruction::SLTI
        | Instruction::SLTU
        | Instruction::SLTIU
        | Instruction::AND
        | Instruction::ANDI
        | Instruction::OR
        | Instruction::ORI
        | Instruction::XOR
        | Instruction::XORI
        | Instruction::SLL
        | Instruction::SLLI
        | Instruction::SRL
        | Instruction::SRLI
        | Instruction::SRA
        | Instruction::SRAI => true,
        _ => false,
    }
}

/// Whether `instruction` is a conditional branch.
pub open spec fn is_branch(instruction: Instruction) -> bool {
    match instruction {
        Instruction::BEQ
        | Instruction::BNE
        | Instruction::BLT
        | Instruction::BGE
        | Instruction::BLTU
        | Instruction::BGEU => true,
        _ => false,
    }
}

/// The number of places by which a shift moves: the low five bits of the
/// second operand.
pub open spec fn shift_amount(b: i32) -> u32 {
    unsigned(b) % 32
}

/// The value that `instruction` computes from the operands `a` and `b`.
/// Sums and differences wrap to 32 bits; a logical right shift fills with
/// zeros, an arithmetic one with the sign.
pub open spec fn alu_of(instruction: Instruction, a: i32, b: i32) -> i32
    recommends
        is_alu(instruction),
{
    match instruction {
        Instruction::ADD | Instruction::ADDI => signed(wrap(a + b)),
        Instruction::SUB => signed(wrap(a - b)),
        Instruction::SLT | Instruction::SLTI => if a < b {
            1
        } else {
            0
        },
        Instruction::SLTU | Instruction::SLTIU => if unsigned(a) < unsigned(b) {
            1
        } else {
            0
        },
        Instruction::AND | Instruction::ANDI => a & b,
        Instruction::OR | Instruction::ORI => a | b,
        Instruction::XOR | Instruction::XORI => a ^ b,
        Instruction::SLL | Instruction::SLLI => signed(unsigned(a) << shift_amount(b)),
        Instruction::SRL | Instruction::SRLI => signed(unsigned(a) >> shift_amount(b)),
        Instruction::SRA | Instruction::SRAI => a >> shift_amount(b),
        _ => 0,
    }
}

/// Whether the branch `instruction` is taken on the operands `a` and `b`.
pub open spec fn branch_taken(instruction: Instruction, a: i32, b: i32) -> bool
    recommends
        is_branch(instruction),
{
    match instruction {
        Instruction::BEQ => a == b,
        Instruction::BNE => a != b,
        Instruction::BLT => a < b,
        Instruction::BGE => a >= b,
        Instruction::BLTU => unsigned(a) < unsigned(b),
        Instruction::BGEU => unsigned(a) >= unsigned(b),
        _ => false,
    }
}

/// Computes the result of an integer instruction.
pub fn alu(instruction: Instruction, a: i32, b: i32) -> (r: i32)
    requires
        is_alu(instruction),
    ensures
        r == alu_of(instruction, a, b),
{
    match instruction {
        Instruction::ADD | Instruction::ADDI => a.wrapping_add(b),
        Instruction::SUB => a.wrapping_sub(b),
        Instruction::SLT | Instruction::SLTI => if a < b {
            1
        } else {
            0
        },
        Instruction::SLTU | Instruction::SLTIU => if to_unsigned(a) < to_unsigned(b) {
            1
        } else {
            0
        },
        Instruction::AND | Instruction::ANDI => a & b,
        Instruction::OR | Instruction::ORI => a | b,
        Instruction::XOR | Instruction::XORI => a ^ b,
        Instruction::SLL | Instruction::SLLI => to_signed(to_unsigned(a) << shift(b)),
        Instruction::SRL | Instruction::SRLI => to_signed(to_unsigned(a) >> shift(b)),
        Instruction::SRA | Instruction::SRAI => a >> shift(b),
        _ => 0,
    }
}

/// Takes the shift amount out of the second operand.
fn shift(b: i32) -> (r: u32)
    ensures
        r == shift_amount(b),
        r < 32,
{
    let ub: u32 = to_unsigned(b);
    let r: u32 = ub & 0x1f;
    assert(r == ub % 32 && r < 32) by (bit_vector)
        requires
            r == ub & 0x1f,
    ;
    r
}

/// Decides a conditional branch.
pub fn branch(instruction: Instruction, a: i32, b: i32) -> (taken: bool)
    requires
        is_branch(instruction),
    ensures
        taken == branch_taken(instruction, a, b),
{
    match instruction {
        Instruction::BEQ => a == b,
        Instruction::BNE => a != b,
        Instruction::BLT => a < b,
        Instruction::BGE => a >= b,
        Instruction::BLTU => to_unsigned(a) < to_unsigned(b),
        Instruction::BGEU => to_unsigned(a) >= to_unsigned(b),
        _ => false,
    }
}

/// AND, OR and XOR give the same value whichever way round their operands
/// stand.
pub proof fn lemma_logic_commutative(a: i32, b: i32)
    ensures
        alu_of(Instruction::AND, a, b) == alu_of(Instruction::AND, b, a),
        alu_of(Instruction::OR, a, b) == alu_of(Instruction::OR, b, a),
        alu_of(Instruction::XOR, a, b) == alu_of(Instruction::XOR, b, a),
{
    assert(a & b == b & a && a | b == b | a && a ^ b == b ^ a) by (bit_vector);
}

/// SLT compares its operands as signed 32-bit numbers and SLTU as unsigned
/// ones, as the machine's own casts and comparisons do. The most negative
/// signed value is the unsigned value 2^31: below every other signed value,
/// and above every unsigned value that has the top bit clear.
pub proof fn lemma_set_less_than(a: i32, b: i32)
    ensures
        alu_of(Instruction::SLT, a, b) == 1 <==> a < b,
        alu_of(Instruction::SLT, a, b) == 0 <==> a >= b,
        alu_of(Instruction::SLTU, a, b) == 1 <==> (a as u32) < (b as u32),
        alu_of(Instruction::SLTU, a, b) == 0 <==> (a as u32) >= (b as u32),
        unsigned(i32::MIN) == 0x8000_0000,
        b != i32::MIN ==> alu_of(Instruction::SLT, i32::MIN, b) == 1,
        b >= 0 ==> alu_of(Instruction::SLTU, i32::MIN, b) == 0,
        b >= 0 ==> alu_of(Instruction::SLTU, b, i32::MIN) == 1,
{
    assert(unsigned(a) == a as u32 && unsigned(b) == b as u32) by (bit_vector);
}

} // verus!
