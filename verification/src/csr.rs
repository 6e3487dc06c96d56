//! The bank of control and status registers: 4096 unsigned 32-bit values,
//! indexed by the 12-bit field of the instructions that access them.

use vstd::prelude::*;

verus! {

/// The number of control and status registers.
pub const CSR_CAPACITY: usize = 4096;

/// The control and status registers of one machine. Reading or writing one
/// has no effect beyond the value stored.
pub struct CsrBank {
    values: [u32; CSR_CAPACITY],
}

impl CsrBank {
    /// The stored values, by index.
    pub closed spec fn view(&self) -> Seq<u32> {
        self.values@
    }

    /// The bank always holds `CSR_CAPACITY` registers.
    pub proof fn lemma_len(&self)
        ensures
            self@.len() == CSR_CAPACITY,
    {
    }

    /// A bank in which every register holds zero.
    pub fn new() -> (bank: Self)
        ensures
            bank@ == Seq::new(CSR_CAPACITY as nat, |i: int| 0u32),
    {
        let bank = CsrBank { values: [0u32; CSR_CAPACITY] };
        assert(bank@ =~= Seq::new(CSR_CAPACITY as nat, |i: int| 0u32));
        bank
    }

    /// The value of register `index`.
    pub fn read(&self, index: u32) -> (value: u32)
        requires
            index < CSR_CAPACITY,
        ensures
            value == self@[index as int],
    {
        self.values[index as usize]
    }

    /// Sets register `index` to `value`.
    pub fn write(&mut self, index: u32, value: u32)
        requires
            index < CSR_CAPACITY,
        ensures
            final(self)@ == old(self)@.update(index as int, value),
    {
        self.values[index as usize] = value;
    }
}

} // verus!
