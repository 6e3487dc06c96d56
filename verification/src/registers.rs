//! The register file: 32 signed 32-bit registers, the first of which is
//! hardwired to zero.

use vstd::prelude::*;

verus! {

/// The number of general-purpose registers.
pub const REGISTER_COUNT: usize = 32;

/// `registers` after a write of `value` to register `index`: a write to
/// register 0 is discarded.
pub open spec fn written(registers: Seq<i32>, index: int, value: i32) -> Seq<i32> {
    if index == 0 {
        registers
    } else {
        registers.update(index, value)
    }
}

/// The general-purpose registers of one machine.
pub struct RegisterFile {
    x: [i32; REGISTER_COUNT],
}

impl RegisterFile {
    /// The values that the registers read as, by index.
    pub closed spec fn view(&self) -> Seq<i32> {
        Seq::new(
            REGISTER_COUNT as nat,
            |i: int|
                if i == 0 {
                    0i32
                } else {
                    self.x@[i]
                },
        )
    }

    /// There are always 32 registers, and register 0 reads as zero.
    pub proof fn lemma_view(&self)
        ensures
            self@.len() == REGISTER_COUNT,
            self@[0] == 0,
    {
    }

    /// A register file in which every register holds zero.
    pub fn new() -> (registers: Self)
        ensures
            registers@ == Seq::new(REGISTER_COUNT as nat, |i: int| 0i32),
    {
        let registers = RegisterFile { x: [0i32; REGISTER_COUNT] };
        assert(registers@ =~= Seq::new(REGISTER_COUNT as nat, |i: int| 0i32));
        registers
    }

    /// The value of register `index`; register 0 always reads as zero.
    pub fn read(&self, index: u32) -> (value: i32)
        requires
            index < REGISTER_COUNT,
        ensures
            value == self@[index as int],
            index == 0 ==> value == 0,
    {
        if index == 0 {
            0
        } else {
            self.x[index as usize]
        }
    }

    /// Sets register `index` to `value`; a write to register 0 is discarded.
    pub fn write(&mut self, index: u32, value: i32)
        requires
            index < REGISTER_COUNT,
        ensures
            final(self)@ == written(old(self)@, index as int, value),
            final(self)@[0] == 0,
    {
        if index != 0 {
            self.x[index as usize] = value;
            assert(self@ =~= written(old(self)@, index as int, value));
        }
    }
}

} // verus!
