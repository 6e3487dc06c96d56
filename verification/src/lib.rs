//! An emulator of the RV32I base integer instruction set.
//!
//! A [`cpu::Cpu`] owns the registers, the program counter, the control and
//! status registers and the memory of one hart. It fetches 32-bit
//! instruction words from memory, decodes them and executes them. What a
//! word encodes is stated by the encoding table in [`decode`], what an
//! instruction does by [`semantics::execute_of`], and how a test program
//! runs to its verdict by [`harness::run_of`]; the executable functions are
//! proved to compute exactly that.

pub mod alu;
pub mod cpu;
pub mod csr;
pub mod decode;
pub mod fault;
pub mod harness;
pub mod instruction;
pub mod listing;
pub mod memory;
pub mod registers;
pub mod semantics;
pub mod word;
