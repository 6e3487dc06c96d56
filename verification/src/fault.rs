//! The conditions that end a run.

use vstd::prelude::*;

verus! {

/// A condition under which execution cannot go on.
#[derive(Clone, Copy, Debug, PartialEq, Eq, Structural)]
pub enum Fault {
    /// The word encodes no RV32I instruction.
    IllegalInstruction { word: u32 },
    /// A fetch, load or store reaches beyond the memory's capacity; `address`
    /// is the address of the first byte of the access.
    OutOfBounds { address: u32 },
}

/// A fault together with the address of the instruction at which it arose.
#[derive(Clone, Copy, Debug, PartialEq, Eq, Structural)]
pub struct Trap {
    pub pc: u32,
    pub fault: Fault,
}

} // verus!
