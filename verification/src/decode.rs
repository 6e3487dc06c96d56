//! The decoder: the fields of an instruction word, its immediates, and the
//! mnemonic that a word encodes.

use vstd::prelude::*;
use crate::fault::Fault;
use crate::instruction::{format_of, Instruction, InstructionFormat};
use crate::word::{sign_extend, signed, to_signed, unsigned};

verus! {

/// The `width` bits of `word` from bit `low` upwards, as a number.
pub open spec fn bits(word: u32, low: u32, width: u32) -> u32
    recommends
        low + width <= 32,
        width < 32,
{
    (word >> low) % (1u32 << width)
}

/// `word[6:0]`: selects the group of the instruction.
pub open spec fn opcode_of(word: u32) -> u32 {
    bits(word, 0, 7)
}

/// `word[11:7]`: the destination register.
pub open spec fn rd_of(word: u32) -> u32 {
    bits(word, 7, 5)
}

/// `word[14:12]`: selects the instruction within its group.
pub open spec fn funct3_of(word: u32) -> u32 {
    bits(word, 12, 3)
}

/// `word[19:15]`: the first source register.
pub open spec fn rs1_of(word: u32) -> u32 {
    bits(word, 15, 5)
}

/// `word[24:20]`: the second source register, or the amount of a shift by a
/// constant.
pub open spec fn rs2_of(word: u32) -> u32 {
    bits(word, 20, 5)
}

/// `word[31:25]`: tells apart instructions that share opcode and funct3.
pub open spec fn funct7_of(word: u32) -> u32 {
    bits(word, 25, 7)
}

/// `word[31:20]` unextended: the index of a control and status register, and
/// the field that tells ECALL from EBREAK.
pub open spec fn imm12_of(word: u32) -> u32 {
    bits(word, 20, 12)
}

/// The I-type immediate: `word[31:20]`, sign-extended from 12 bits.
pub open spec fn imm_i_of(word: u32) -> i32 {
    sign_extend(bits(word, 20, 12), 12)
}

/// The S-type immediate: `word[31:25]` above `word[11:7]`, sign-extended from
/// 12 bits.
pub open spec fn imm_s_of(word: u32) -> i32 {
    sign_extend((bits(word, 25, 7) * 32 + bits(word, 7, 5)) as u32, 12)
}

/// The B-type immediate: bits 12, 11, 10:5 and 4:1 of the offset are
/// `word[31]`, `word[7]`, `word[30:25]` and `word[11:8]`; bit 0 is zero. The
/// 13 bits are sign-extended.
pub open spec fn imm_b_of(word: u32) -> i32 {
    sign_extend(
        (bits(word, 31, 1) * 4096 + bits(word, 7, 1) * 2048 + bits(word, 25, 6) * 32 + bits(
            word,
            8,
            4,
        ) * 2) as u32,
        13,
    )
}

/// The U-type immediate: `word[31:12]` in the upper 20 bits of a register, the
/// lower 12 bits zero.
pub open spec fn imm_u_of(word: u32) -> i32 {
    (sign_extend(bits(word, 12, 20), 20) * 4096) as i32
}

/// The J-type immediate: bits 20, 19:12, 11 and 10:1 of the offset are
/// `word[31]`, `word[19:12]`, `word[20]` and `word[30:21]`; bit 0 is zero. The
/// 21 bits are sign-extended.
pub open spec fn imm_j_of(word: u32) -> i32 {
    sign_extend(
        (bits(word, 31, 1) * 1048576 + bits(word, 12, 8) * 4096 + bits(word, 20, 1) * 2048 + bits(
            word,
            21,
            10,
        ) * 2) as u32,
        21,
    )
}

/// What fixes a mnemonic in an instruction word: the opcode, and for most
/// mnemonics further fields that must hold a given value.
pub struct Encoding {
    pub opcode: u32,
    pub funct3: Option<u32>,
    pub funct7: Option<u32>,
    pub imm12: Option<u32>,
}

/// A mnemonic that the opcode alone selects.
pub open spec fn by_opcode(opcode: u32) -> Encoding {
    Encoding { opcode, funct3: None, funct7: None, imm12: None }
}

/// A mnemonic selected by opcode and funct3.
pub open spec fn by_funct3(opcode: u32, funct3: u32) -> Encoding {
    Encoding { opcode, funct3: Some(funct3), funct7: None, imm12: None }
}

/// A mnemonic selected by opcode, funct3 and funct7.
pub open spec fn by_funct7(opcode: u32, funct3: u32, funct7: u32) -> Encoding {
    Encoding { opcode, funct3: Some(funct3), funct7: Some(funct7), imm12: None }
}

/// A mnemonic selected by opcode, funct3 and the whole of `word[31:20]`.
pub open spec fn by_imm12(opcode: u32, funct3: u32, imm12: u32) -> Encoding {
    Encoding { opcode, funct3: Some(funct3), funct7: None, imm12: Some(imm12) }
}

/// The RV32I encoding table.
pub open spec fn encoding_of(instruction: Instruction) -> Encoding {
    match instruction {
        Instruction::LUI => by_opcode(0x37),
        Instruction::AUIPC => by_opcode(0x17),
        Instruction::JAL => by_opcode(0x6f),
        Instruction::JALR => by_funct3(0x67, 0),
        Instruction::BEQ => by_funct3(0x63, 0),
        Instruction::BNE => by_funct3(0x63, 1),
        Instruction::BLT => by_funct3(0x63, 4),
        Instruction::BGE => by_funct3(0x63, 5),
        Instruction::BLTU => by_funct3(0x63, 6),
        Instruction::BGEU => by_funct3(0x63, 7),
        Instruction::LB => by_funct3(0x03, 0),
        Instruction::LH => by_funct3(0x03, 1),
        Instruction::LW => by_funct3(0x03, 2),
        Instruction::LBU => by_funct3(0x03, 4),
        Instruction::LHU => by_funct3(0x03, 5),
        Instruction::SB => by_funct3(0x23, 0),
        Instruction::SH => by_funct3(0x23, 1),
        Instruction::SW => by_funct3(0x23, 2),
        Instruction::ADDI => by_funct3(0x13, 0),
        Instruction::SLTI => by_funct3(0x13, 2),
        Instruction::SLTIU => by_funct3(0x13, 3),
        Instruction::XORI => by_funct3(0x13, 4),
        Instruction::ORI => by_funct3(0x13, 6),
        Instruction::ANDI => by_funct3(0x13, 7),
        Instruction::SLLI => by_funct7(0x13, 1, 0x00),
        Instruction::SRLI => by_funct7(0x13, 5, 0x00),
        Instruction::SRAI => by_funct7(0x13, 5, 0x20),
        Instruction::ADD => by_funct7(0x33, 0, 0x00),
        Instruction::SUB => by_funct7(0x33, 0, 0x20),
        Instruction::SLL => by_funct7(0x33, 1, 0x00),
        Instruction::SLT => by_funct7(0x33, 2, 0x00),
        Instruction::SLTU => by_funct7(0x33, 3, 0x00),
        Instruction::XOR => by_funct7(0x33, 4, 0x00),
        Instruction::SRL => by_funct7(0x33, 5, 0x00),
        Instruction::SRA => by_funct7(0x33, 5, 0x20),
        Instruction::OR => by_funct7(0x33, 6, 0x00),
        Instruction::AND => by_funct7(0x33, 7, 0x00),
        Instruction::FENCE => by_funct3(0x0f, 0),
        Instruction::FENCE_I => by_funct3(0x0f, 1),
        Instruction::ECALL => by_imm12(0x73, 0, 0),
        Instruction::EBREAK => by_imm12(0x73, 0, 1),
        Instruction::CSRRW => by_funct3(0x73, 1),
        Instruction::CSRRS => by_funct3(0x73, 2),
        Instruction::CSRRC => by_funct3(0x73, 3),
        Instruction::CSRRWI => by_funct3(0x73, 5),
        Instruction::CSRRSI => by_funct3(0x73, 6),
        Instruction::CSRRCI => by_funct3(0x73, 7),
    }
}

/// Whether `word` is an encoding of `instruction`: each field that the table
/// fixes for the mnemonic holds the value given there.
pub open spec fn encodes(word: u32, instruction: Instruction) -> bool {
    let e = encoding_of(instruction);
    &&& opcode_of(word) == e.opcode
    &&& (e.funct3 matches Some(f) ==> funct3_of(word) == f)
    &&& (e.funct7 matches Some(f) ==> funct7_of(word) == f)
    &&& (e.imm12 matches Some(i) ==> imm12_of(word) == i)
}

/// The mnemonic that `word` encodes, if it encodes one.
pub open spec fn decode_of(word: u32) -> Option<Instruction> {
    if exists|i: Instruction| encodes(word, i) {
        Some(choose|i: Instruction| encodes(word, i))
    } else {
        None
    }
}

/// Every field is a number of as many bits as it is wide.
pub proof fn lemma_field_ranges(word: u32)
    ensures
        opcode_of(word) < 128,
        rd_of(word) < 32,
        funct3_of(word) < 8,
        rs1_of(word) < 32,
        rs2_of(word) < 32,
        funct7_of(word) < 128,
        imm12_of(word) < 4096,
{
    assert(opcode_of(word) < 128 && rd_of(word) < 32 && funct3_of(word) < 8 && rs1_of(word) < 32
        && rs2_of(word) < 32 && funct7_of(word) < 128 && imm12_of(word) < 4096) by (bit_vector);
}

/// No word encodes two mnemonics.
pub proof fn lemma_encoding_unique(word: u32, a: Instruction, b: Instruction)
    requires
        encodes(word, a),
        encodes(word, b),
    ensures
        a == b,
{
}

/// `decode_of` is the mnemonic that the table gives.
pub proof fn lemma_decode_of(word: u32, instruction: Instruction)
    ensures
        decode_of(word) == Some(instruction) <==> encodes(word, instruction),
{
    if encodes(word, instruction) {
        lemma_encoding_unique(word, instruction, choose|i: Instruction| encodes(word, i));
    }
}

/// The opcode fixes the format: an instruction that a word encodes has
/// format R where the opcode is 0x33, S where it is 0x23, B where it is 0x63,
/// U where it is 0x37 or 0x17, J where it is 0x6f, and I in every other
/// group.
pub proof fn lemma_format_by_opcode(word: u32, instruction: Instruction)
    requires
        encodes(word, instruction),
    ensures
        format_of(instruction) == (if opcode_of(word) == 0x33 {
            InstructionFormat::R
        } else if opcode_of(word) == 0x23 {
            InstructionFormat::S
        } else if opcode_of(word) == 0x63 {
            InstructionFormat::B
        } else if opcode_of(word) == 0x37 || opcode_of(word) == 0x17 {
            InstructionFormat::U
        } else if opcode_of(word) == 0x6f {
            InstructionFormat::J
        } else {
            InstructionFormat::I
        }),
{
}

/// What `decode` promises of its result for `word`: an instruction is one
/// that the word encodes, and a refusal names the word and comes only where
/// the word encodes no instruction.
pub open spec fn decoded(word: u32, r: Result<Instruction, Fault>) -> bool {
    match r {
        Ok(instruction) => encodes(word, instruction),
        Err(fault) => fault == (Fault::IllegalInstruction { word }) && forall|i: Instruction|
            !encodes(word, i),
    }
}

/// Decoding is a function of the word: two results for one word are the
/// same result, and so give the same instruction and the same format.
pub proof fn lemma_decode_is_a_function(
    word: u32,
    first: Result<Instruction, Fault>,
    second: Result<Instruction, Fault>,
)
    requires
        decoded(word, first),
        decoded(word, second),
    ensures
        first == second,
        first == match decode_of(word) {
            Some(instruction) => Ok::<Instruction, Fault>(instruction),
            None => Err(Fault::IllegalInstruction { word }),
        },
        first matches Ok(a) ==> second matches Ok(b) && format_of(a) == format_of(b),
{
    match first {
        Ok(a) => {
            lemma_decode_of(word, a);
            match second {
                Ok(b) => {
                    lemma_encoding_unique(word, a, b);
                },
                Err(_) => {},
            }
        },
        Err(_) => {},
    }
}

/// Cuts `word[6:0]` out of the word.
pub fn opcode(word: u32) -> (r: u32)
    ensures
        r == opcode_of(word),
        r < 128,
{
    let r: u32 = word & 0x7f;
    assert(r == opcode_of(word) && r < 128) by (bit_vector)
        requires
            r == word & 0x7f,
    ;
    r
}

/// Cuts `word[14:12]` out of the word.
pub fn funct3(word: u32) -> (r: u32)
    ensures
        r == funct3_of(word),
        r < 8,
{
    let r: u32 = (word >> 12) & 0x7;
    assert(r == funct3_of(word) && r < 8) by (bit_vector)
        requires
            r == (word >> 12) & 0x7,
    ;
    r
}

/// Cuts `word[31:25]` out of the word.
pub fn funct7(word: u32) -> (r: u32)
    ensures
        r == funct7_of(word),
        r < 128,
{
    let r: u32 = (word >> 25) & 0x7f;
    assert(r == funct7_of(word) && r < 128) by (bit_vector)
        requires
            r == (word >> 25) & 0x7f,
    ;
    r
}

/// Cuts `word[31:20]` out of the word, without extending it.
pub fn imm12(word: u32) -> (r: u32)
    ensures
        r == imm12_of(word),
        r < 4096,
{
    let r: u32 = (word >> 20) & 0xfff;
    assert(r == imm12_of(word) && r < 4096) by (bit_vector)
        requires
            r == (word >> 20) & 0xfff,
    ;
    r
}

/// Cuts the index of the destination register out of the word.
pub fn rd(word: u32) -> (r: u32)
    ensures
        r == rd_of(word),
        r < 32,
{
    let r: u32 = (word >> 7) & 0x1f;
    assert(r == rd_of(word) && r < 32) by (bit_vector)
        requires
            r == (word >> 7) & 0x1f,
    ;
    r
}

/// Cuts the index of the first source register out of the word.
pub fn rs1(word: u32) -> (r: u32)
    ensures
        r == rs1_of(word),
        r < 32,
{
    let r: u32 = (word >> 15) & 0x1f;
    assert(r == rs1_of(word) && r < 32) by (bit_vector)
        requires
            r == (word >> 15) & 0x1f,
    ;
    r
}

/// Cuts the index of the second source register out of the word.
pub fn rs2(word: u32) -> (r: u32)
    ensures
        r == rs2_of(word),
        r < 32,
{
    let r: u32 = (word >> 20) & 0x1f;
    assert(r == rs2_of(word) && r < 32) by (bit_vector)
        requires
            r == (word >> 20) & 0x1f,
    ;
    r
}

/// An instruction that has no variant: its funct7 must be zero.
fn base(funct7: u32, instruction: Instruction) -> (r: Option<Instruction>)
    ensures
        r == (if funct7 == 0 {
            Some(instruction)
        } else {
            None
        }),
{
    if funct7 == 0 {
        Some(instruction)
    } else {
        None
    }
}

/// Decodes an instruction word: the opcode selects the group, funct3 the
/// instruction within it, and funct7 or `word[31:20]` decides where two
/// instructions share both. A word outside the table is refused.
pub fn decode(word: u32) -> (r: Result<Instruction, Fault>)
    ensures
        decoded(word, r),
        r == match decode_of(word) {
            Some(instruction) => Ok::<Instruction, Fault>(instruction),
            None => Err(Fault::IllegalInstruction { word }),
        },
{
    let op: u32 = opcode(word);
    let f3: u32 = funct3(word);
    let f7: u32 = funct7(word);
    let found: Option<Instruction> = match op {
        0x37 => Some(Instruction::LUI),
        0x17 => Some(Instruction::AUIPC),
        0x6f => Some(Instruction::JAL),
        0x67 => match f3 {
            0 => Some(Instruction::JALR),
            _ => None,
        },
        0x63 => match f3 {
            0 => Some(Instruction::BEQ),
            1 => Some(Instruction::BNE),
            4 => Some(Instruction::BLT),
            5 => Some(Instruction::BGE),
            6 => Some(Instruction::BLTU),
            7 => Some(Instruction::BGEU),
            _ => None,
        },
        0x03 => match f3 {
            0 => Some(Instruction::LB),
            1 => Some(Instruction::LH),
            2 => Some(Instruction::LW),
            4 => Some(Instruction::LBU),
            5 => Some(Instruction::LHU),
            _ => None,
        },
        0x23 => match f3 {
            0 => Some(Instruction::SB),
            1 => Some(Instruction::SH),
            2 => Some(Instruction::SW),
            _ => None,
        },
        0x13 => match f3 {
            0 => Some(Instruction::ADDI),
            1 => base(f7, Instruction::SLLI),
            2 => Some(Instruction::SLTI),
            3 => Some(Instruction::SLTIU),
            4 => Some(Instruction::XORI),
            5 => match f7 {
                0x00 => Some(Instruction::SRLI),
                0x20 => Some(Instruction::SRAI),
                _ => None,
            },
            6 => Some(Instruction::ORI),
            _ => Some(Instruction::ANDI),
        },
        0x33 => match f3 {
            0 => match f7 {
                0x00 => Some(Instruction::ADD),
                0x20 => Some(Instruction::SUB),
                _ => None,
            },
            1 => base(f7, Instruction::SLL),
            2 => base(f7, Instruction::SLT),
            3 => base(f7, Instruction::SLTU),
            4 => base(f7, Instruction::XOR),
            5 => match f7 {
                0x00 => Some(Instruction::SRL),
                0x20 => Some(Instruction::SRA),
                _ => None,
            },
            6 => base(f7, Instruction::OR),
            _ => base(f7, Instruction::AND),
        },
        0x0f => match f3 {
            0 => Some(Instruction::FENCE),
            1 => Some(Instruction::FENCE_I),
            _ => None,
        },
        0x73 => match f3 {
            0 => match imm12(word) {
                0 => Some(Instruction::ECALL),
                1 => Some(Instruction::EBREAK),
                _ => None,
            },
            1 => Some(Instruction::CSRRW),
            2 => Some(Instruction::CSRRS),
            3 => Some(Instruction::CSRRC),
            5 => Some(Instruction::CSRRWI),
            6 => Some(Instruction::CSRRSI),
            7 => Some(Instruction::CSRRCI),
            _ => None,
        },
        _ => None,
    };
    match found {
        Some(instruction) => {
            proof {
                lemma_decode_of(word, instruction);
            }
            Ok(instruction)
        },
        None => {
            assert forall|i: Instruction| !encodes(word, i) by {}
            Err(Fault::IllegalInstruction { word })
        },
    }
}

/// Computes the immediate of an I-type word.
pub fn imm_i(word: u32) -> (r: i32)
    ensures
        r == imm_i_of(word),
        -2048 <= r < 2048,
{
    let raw: u32 = word >> 20;
    let extended: u32 = if raw & 0x800 != 0 {
        raw | 0xffff_f000
    } else {
        raw
    };
    let r: i32 = to_signed(extended);
    assert(r == imm_i_of(word) && -2048 <= r < 2048) by (bit_vector)
        requires
            raw == word >> 20,
            extended == (if raw & 0x800 != 0 {
                raw | 0xffff_f000
            } else {
                raw
            }),
            r == signed(extended),
    ;
    r
}

/// Computes the offset of a B-type word; it is even.
pub fn imm_b(word: u32) -> (r: i32)
    ensures
        r == imm_b_of(word),
        -4096 <= r < 4096,
        r % 2 == 0,
{
    let raw: u32 = ((word >> 19) & 0x1000) | ((word << 4) & 0x800) | ((word >> 20) & 0x7e0) | ((word
        >> 7) & 0x1e);
    let extended: u32 = if raw & 0x1000 != 0 {
        raw | 0xffff_e000
    } else {
        raw
    };
    let r: i32 = to_signed(extended);
    assert(r == imm_b_of(word) && -4096 <= r < 4096 && r % 2 == 0) by (bit_vector)
        requires
            raw == ((word >> 19) & 0x1000) | ((word << 4) & 0x800) | ((word >> 20) & 0x7e0) | ((word
                >> 7) & 0x1e),
            extended == (if raw & 0x1000 != 0 {
                raw | 0xffff_e000
            } else {
                raw
            }),
            r == signed(extended),
    ;
    r
}

/// Computes the immediate of an S-type word.
pub fn imm_s(word: u32) -> (r: i32)
    ensures
        r == imm_s_of(word),
        -2048 <= r < 2048,
{
    let raw: u32 = ((word >> 20) & 0xfe0) | ((word >> 7) & 0x1f);
    let extended: u32 = if raw & 0x800 != 0 {
        raw | 0xffff_f000
    } else {
        raw
    };
    let r: i32 = to_signed(extended);
    assert(r == imm_s_of(word) && -2048 <= r < 2048) by (bit_vector)
        requires
            raw == ((word >> 20) & 0xfe0) | ((word >> 7) & 0x1f),
            extended == (if raw & 0x800 != 0 {
                raw | 0xffff_f000
            } else {
                raw
            }),
            r == signed(extended),
    ;
    r
}

/// Computes the immediate of a U-type word; its low 12 bits are zero.
pub fn imm_u(word: u32) -> (r: i32)
    ensures
        r == imm_u_of(word),
        r % 4096 == 0,
{
    let upper: u32 = word & 0xffff_f000;
    let r: i32 = to_signed(upper);
    assert(r == imm_u_of(word) && r % 4096 == 0) by (bit_vector)
        requires
            upper == word & 0xffff_f000,
            r == signed(upper),
    ;
    r
}

/// Computes the offset of a J-type word; it is even.
pub fn imm_j(word: u32) -> (r: i32)
    ensures
        r == imm_j_of(word),
        -1048576 <= r < 1048576,
        r % 2 == 0,
{
    let raw: u32 = ((word >> 11) & 0x10_0000) | (word & 0xf_f000) | ((word >> 9) & 0x800) | ((word
        >> 20) & 0x7fe);
    let extended: u32 = if raw & 0x10_0000 != 0 {
        raw | 0xffe0_0000
    } else {
        raw
    };
    let r: i32 = to_signed(extended);
    assert(r == imm_j_of(word) && -1048576 <= r < 1048576 && r % 2 == 0) by (bit_vector)
        requires
            raw == ((word >> 11) & 0x10_0000) | (word & 0xf_f000) | ((word >> 9) & 0x800) | ((word
                >> 20) & 0x7fe),
            extended == (if raw & 0x10_0000 != 0 {
                raw | 0xffe0_0000
            } else {
                raw
            }),
            r == signed(extended),
    ;
    r
}

/// Sign extension of the 12-bit immediate: where bit 11 of `word[31:20]` is
/// set, the bit pattern of the immediate is the field with the upper 20 bits
/// set; otherwise it is the field itself.
pub proof fn lemma_imm_i_sign_extension(word: u32)
    ensures
        imm12_of(word) & 0x800 != 0 ==> unsigned(imm_i_of(word)) == imm12_of(word) | 0xffff_f000,
        imm12_of(word) & 0x800 == 0 ==> unsigned(imm_i_of(word)) == imm12_of(word),
{
    assert((imm12_of(word) & 0x800 != 0 ==> unsigned(imm_i_of(word)) == imm12_of(word)
        | 0xffff_f000) && (imm12_of(word) & 0x800 == 0 ==> unsigned(imm_i_of(word)) == imm12_of(
        word,
    ))) by (bit_vector);
}

/// Branch and jump offsets are even.
pub proof fn lemma_offsets_even(word: u32)
    ensures
        imm_b_of(word) % 2 == 0,
        imm_j_of(word) % 2 == 0,
{
    assert(imm_b_of(word) % 2 == 0 && imm_j_of(word) % 2 == 0) by (bit_vector);
}

} // verus!
