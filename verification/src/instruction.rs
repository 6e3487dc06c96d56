//! The RV32I instruction set: mnemonics, their names and their encoding formats.

use vstd::prelude::*;

verus! {

/// One RV32I mnemonic.
#[allow(non_camel_case_types)]
#[derive(Clone, Copy, Debug, PartialEq, Eq, Structural)]
pub enum Instruction {
    // Integer register-immediate instructions
    ADDI,
    SLTI,
    SLTIU,
    ANDI,
    ORI,
    XORI,
    SLLI,
    SRLI,
    SRAI,
    LUI,
    AUIPC,
    // Integer register-register instructions
    ADD,
    SLT,
    SLTU,
    AND,
    OR,
    XOR,
    SLL,
    SRL,
    SUB,
    SRA,
    // Unconditional jumps
    JAL,
    JALR,
    // Conditional branches
    BEQ,
    BNE,
    BLT,
    BLTU,
    BGE,
    BGEU,
    // Loads and stores
    LW,
    LH,
    LHU,
    LB,
    LBU,
    SW,
    SH,
    SB,
    // Memory ordering
    FENCE,
    FENCE_I,
    // Control and status register instructions
    CSRRW,
    CSRRS,
    CSRRC,
    CSRRWI,
    CSRRSI,
    CSRRCI,
    // Environment call and breakpoint
    ECALL,
    EBREAK,
}

/// The shape of an instruction word: which bit ranges carry registers and
/// which carry the immediate.
#[derive(Clone, Copy, Debug, PartialEq, Eq, Structural)]
pub enum InstructionFormat {
    /// Two source registers and a destination.
    R,
    /// One source register, a destination and a 12-bit immediate.
    I,
    /// Two source registers and a 12-bit immediate split around them.
    S,
    /// Two source registers and a 13-bit even immediate.
    B,
    /// A destination and the upper 20 bits of a word.
    U,
    /// A destination and a 21-bit even immediate.
    J,
}

/// The name under which `instruction` appears in a trace.
pub open spec fn name_of(instruction: Instruction) -> Seq<char> {
    match instruction {
        Instruction::ADDI => "ADDI"@,
        Instruction::SLTI => "SLTI"@,
        Instruction::SLTIU => "SLTIU"@,
        Instruction::ANDI => "ANDI"@,
        Instruction::ORI => "ORI"@,
        Instruction::XORI => "XORI"@,
        Instruction::SLLI => "SLLI"@,
        Instruction::SRLI => "SRLI"@,
        Instruction::SRAI => "SRAI"@,
        Instruction::LUI => "LUI"@,
        Instruction::AUIPC => "AUIPC"@,
        Instruction::ADD => "ADD"@,
        Instruction::SLT => "SLT"@,
        Instruction::SLTU => "SLTU"@,
        Instruction::AND => "AND"@,
        Instruction::OR => "OR"@,
        Instruction::XOR => "XOR"@,
        Instruction::SLL => "SLL"@,
        Instruction::SRL => "SRL"@,
        Instruction::SUB => "SUB"@,
        Instruction::SRA => "SRA"@,
        Instruction::JAL => "JAL"@,
        Instruction::JALR => "JALR"@,
        Instruction::BEQ => "BEQ"@,
        Instruction::BNE => "BNE"@,
        Instruction::BLT => "BLT"@,
        Instruction::BLTU => "BLTU"@,
        Instruction::BGE => "BGE"@,
        Instruction::BGEU => "BGEU"@,
        Instruction::LW => "LW"@,
        Instruction::LH => "LH"@,
        Instruction::LHU => "LHU"@,
        Instruction::LB => "LB"@,
        Instruction::LBU => "LBU"@,
        Instruction::SW => "SW"@,
        Instruction::SH => "SH"@,
        Instruction::SB => "SB"@,
        Instruction::FENCE => "FENCE"@,
        Instruction::FENCE_I => "FENCE_I"@,
        Instruction::CSRRW => "CSRRW"@,
        Instruction::CSRRS => "CSRRS"@,
        Instruction::CSRRC => "CSRRC"@,
        Instruction::CSRRWI => "CSRRWI"@,
        Instruction::CSRRSI => "CSRRSI"@,
        Instruction::CSRRCI => "CSRRCI"@,
        Instruction::ECALL => "ECALL"@,
        Instruction::EBREAK => "EBREAK"@,
    }
}

/// The format in which `instruction` is encoded. Format R is that of the ten
/// register-register instructions and of no other; the shifts by a constant
/// have format I like the rest of the register-immediate arithmetic, with
/// their shift amount in the low five bits of the immediate.
pub open spec fn format_of(instruction: Instruction) -> InstructionFormat {
    match instruction {
        Instruction::ADD
        | Instruction::SUB
        | Instruction::SLL
        | Instruction::SLT
        | Instruction::SLTU
        | Instruction::XOR
        | Instruction::SRA
        | Instruction::SRL
        | Instruction::OR
        | Instruction::AND => InstructionFormat::R,
        Instruction::LB
        | Instruction::LH
        | Instruction::LW
        | Instruction::LBU
        | Instruction::LHU
        | Instruction::ADDI
        | Instruction::SLTI
        | Instruction::SLTIU
        | Instruction::JALR
        | Instruction::XORI
        | Instruction::ORI
        | Instruction::ANDI
        | Instruction::SLLI
        | Instruction::SRLI
        | Instruction::SRAI
        | Instruction::CSRRW
        | Instruction::CSRRS
        | Instruction::CSRRC
        | Instruction::CSRRWI
        | Instruction::CSRRSI
        | Instruction::CSRRCI
        | Instruction::ECALL
        | Instruction::EBREAK
        | Instruction::FENCE
        | Instruction::FENCE_I => InstructionFormat::I,
        Instruction::SW | Instruction::SH | Instruction::SB => InstructionFormat::S,
        Instruction::BEQ
        | Instruction::BNE
        | Instruction::BLT
        | Instruction::BGE
        | Instruction::BLTU
        | Instruction::BGEU => InstructionFormat::B,
        Instruction::LUI | Instruction::AUIPC => InstructionFormat::U,
        Instruction::JAL => InstructionFormat::J,
    }
}

/// Looks up the mnemonic's name for a trace line.
pub fn get_instruction_name(instruction: &Instruction) -> (name: &'static str)
    ensures
        name@ == name_of(*instruction),
{
    match instruction {
        Instruction::ADDI => "ADDI",
        Instruction::SLTI => "SLTI",
        Instruction::SLTIU => "SLTIU",
        Instruction::ANDI => "ANDI",
        Instruction::ORI => "ORI",
        Instruction::XORI => "XORI",
        Instruction::SLLI => "SLLI",
        Instruction::SRLI => "SRLI",
        Instruction::SRAI => "SRAI",
        Instruction::LUI => "LUI",
        Instruction::AUIPC => "AUIPC",
        Instruction::ADD => "ADD",
        Instruction::SLT => "SLT",
        Instruction::SLTU => "SLTU",
        Instruction::AND => "AND",
        Instruction::OR => "OR",
        Instruction::XOR => "XOR",
        Instruction::SLL => "SLL",
        Instruction::SRL => "SRL",
        Instruction::SUB => "SUB",
        Instruction::SRA => "SRA",
        Instruction::JAL => "JAL",
        Instruction::JALR => "JALR",
        Instruction::BEQ => "BEQ",
        Instruction::BNE => "BNE",
        Instruction::BLT => "BLT",
        Instruction::BLTU => "BLTU",
        Instruction::BGE => "BGE",
        Instruction::BGEU => "BGEU",
        Instruction::LW => "LW",
        Instruction::LH => "LH",
        Instruction::LHU => "LHU",
        Instruction::LB => "LB",
        Instruction::LBU => "LBU",
        Instruction::SW => "SW",
        Instruction::SH => "SH",
        Instruction::SB => "SB",
        Instruction::FENCE => "FENCE",
        Instruction::FENCE_I => "FENCE_I",
        Instruction::CSRRW => "CSRRW",
        Instruction::CSRRS => "CSRRS",
        Instruction::CSRRC => "CSRRC",
        Instruction::CSRRWI => "CSRRWI",
        Instruction::CSRRSI => "CSRRSI",
        Instruction::CSRRCI => "CSRRCI",
        Instruction::ECALL => "ECALL",
        Instruction::EBREAK => "EBREAK",
    }
}

/// Classifies `instruction` by the format of its encoding.
pub fn get_instruction_format(instruction: &Instruction) -> (format: InstructionFormat)
    ensures
        format == format_of(*instruction),
{
    match instruction {
        Instruction::ADD
        | Instruction::SUB
        | Instruction::SLL
        | Instruction::SLT
        | Instruction::SLTU
        | Instruction::XOR
        | Instruction::SRA
        | Instruction::SRL
        | Instruction::OR
        | Instruction::AND => InstructionFormat::R,
        Instruction::LB
        | Instruction::LH
        | Instruction::LW
        | Instruction::LBU
        | Instruction::LHU
        | Instruction::ADDI
        | Instruction::SLTI
        | Instruction::SLTIU
        | Instruction::JALR
        | Instruction::XORI
        | Instruction::ORI
        | Instruction::ANDI
        | Instruction::SLLI
        | Instruction::SRLI
        | Instruction::SRAI
        | Instruction::CSRRW
        | Instruction::CSRRS
        | Instruction::CSRRC
        | Instruction::CSRRWI
        | Instruction::CSRRSI
        | Instruction::CSRRCI
        | Instruction::ECALL
        | Instruction::EBREAK
        | Instruction::FENCE
        | Instruction::FENCE_I => InstructionFormat::I,
        Instruction::SW | Instruction::SH | Instruction::SB => InstructionFormat::S,
        Instruction::BEQ
        | Instruction::BNE
        | Instruction::BLT
        | Instruction::BGE
        | Instruction::BLTU
        | Instruction::BGEU => InstructionFormat::B,
        Instruction::LUI | Instruction::AUIPC => InstructionFormat::U,
        Instruction::JAL => InstructionFormat::J,
    }
}

} // verus!
