//! The memory: a fixed number of bytes, addressed by byte, with little-endian
//! access to halfwords and words.
//!
//! An access may start at any address. A halfword or word that is not
//! naturally aligned is read and written byte by byte like any other; the
//! only access that is refused is one that reaches beyond the capacity.

use vstd::prelude::*;
use crate::fault::Fault;

verus! {

/// The number of bytes in the memory.
pub const MEMORY_CAPACITY: usize = 16384;

/// Whether the `size` bytes from `address` on all lie inside the memory.
pub open spec fn in_bounds(address: u32, size: nat) -> bool {
    address + size <= MEMORY_CAPACITY
}

/// The halfword whose low-order byte is at `address` and whose high-order
/// byte follows it.
pub open spec fn halfword_at(bytes: Seq<u8>, address: int) -> u16 {
    (bytes[address] + 0x100 * bytes[address + 1]) as u16
}

/// The word whose four bytes start at `address`, low-order byte first.
pub open spec fn word_at(bytes: Seq<u8>, address: int) -> u32 {
    (bytes[address] + 0x100 * bytes[address + 1] + 0x1_0000 * bytes[address + 2] + 0x100_0000
        * bytes[address + 3]) as u32
}

/// `bytes` with the two bytes of `value` at `address`, low-order byte first.
pub open spec fn with_halfword(bytes: Seq<u8>, address: int, value: u16) -> Seq<u8> {
    bytes.update(address, (value % 0x100) as u8).update(address + 1, (value / 0x100) as u8)
}

/// `bytes` with the four bytes of `value` at `address`, low-order byte first.
pub open spec fn with_word(bytes: Seq<u8>, address: int, value: u32) -> Seq<u8> {
    bytes.update(address, (value % 0x100) as u8).update(
        address + 1,
        (value / 0x100 % 0x100) as u8,
    ).update(address + 2, (value / 0x1_0000 % 0x100) as u8).update(
        address + 3,
        (value / 0x100_0000) as u8,
    )
}

/// `memory` with `image` written over it from address 0.
pub open spec fn with_image(memory: Seq<u8>, image: Seq<u8>) -> Seq<u8> {
    image + memory.subrange(image.len() as int, memory.len() as int)
}

/// A byte that was stored is the byte that is loaded.
pub proof fn lemma_store_load_byte(bytes: Seq<u8>, address: int, value: u8)
    requires
        0 <= address < bytes.len(),
    ensures
        bytes.update(address, value)[address] == value,
{
}

/// A halfword that was stored is the halfword that is loaded.
pub proof fn lemma_store_load_halfword(bytes: Seq<u8>, address: int, value: u16)
    requires
        0 <= address,
        address + 2 <= bytes.len(),
    ensures
        halfword_at(with_halfword(bytes, address, value), address) == value,
{
}

/// A word that was stored is the word that is loaded.
pub proof fn lemma_store_load_word(bytes: Seq<u8>, address: int, value: u32)
    requires
        0 <= address,
        address + 4 <= bytes.len(),
    ensures
        word_at(with_word(bytes, address, value), address) == value,
{
}

/// The memory of one machine.
pub struct Memory {
    bytes: [u8; MEMORY_CAPACITY],
}

impl Memory {
    /// The bytes of the memory, by address.
    pub closed spec fn view(&self) -> Seq<u8> {
        self.bytes@
    }

    /// The memory always holds `MEMORY_CAPACITY` bytes.
    pub proof fn lemma_len(&self)
        ensures
            self@.len() == MEMORY_CAPACITY,
    {
    }

    /// A memory of zeros.
    pub fn new() -> (memory: Self)
        ensures
            memory@ == Seq::new(MEMORY_CAPACITY as nat, |i: int| 0u8),
    {
        let memory = Memory { bytes: [0u8; MEMORY_CAPACITY] };
        assert(memory@ =~= Seq::new(MEMORY_CAPACITY as nat, |i: int| 0u8));
        memory
    }

    /// Reads the byte at `address`.
    pub fn load_byte(&self, address: u32) -> (r: Result<u8, Fault>)
        ensures
            in_bounds(address, 1) ==> r == Ok::<u8, Fault>(self@[address as int]),
            !in_bounds(address, 1) ==> r == Err::<u8, Fault>(Fault::OutOfBounds { address }),
    {
        if address as usize >= MEMORY_CAPACITY {
            return Err(Fault::OutOfBounds { address });
        }
        Ok(self.bytes[address as usize])
    }

    /// Reads the halfword at `address`.
    pub fn load_halfword(&self, address: u32) -> (r: Result<u16, Fault>)
        ensures
            in_bounds(address, 2) ==> r == Ok::<u16, Fault>(halfword_at(self@, address as int)),
            !in_bounds(address, 2) ==> r == Err::<u16, Fault>(Fault::OutOfBounds { address }),
    {
        if address as usize > MEMORY_CAPACITY - 2 {
            return Err(Fault::OutOfBounds { address });
        }
        let at: usize = address as usize;
        let low: u16 = self.bytes[at] as u16;
        let high: u16 = self.bytes[at + 1] as u16;
        let value: u16 = (high << 8) | low;
        assert(value == low + 0x100 * high) by (bit_vector)
            requires
                value == (high << 8) | low,
                low < 0x100,
                high < 0x100,
        ;
        Ok(value)
    }

    /// Reads the word at `address`.
    pub fn load_word(&self, address: u32) -> (r: Result<u32, Fault>)
        ensures
            in_bounds(address, 4) ==> r == Ok::<u32, Fault>(word_at(self@, address as int)),
            !in_bounds(address, 4) ==> r == Err::<u32, Fault>(Fault::OutOfBounds { address }),
    {
        if address as usize > MEMORY_CAPACITY - 4 {
            return Err(Fault::OutOfBounds { address });
        }
        let at: usize = address as usize;
        let b0: u32 = self.bytes[at] as u32;
        let b1: u32 = self.bytes[at + 1] as u32;
        let b2: u32 = self.bytes[at + 2] as u32;
        let b3: u32 = self.bytes[at + 3] as u32;
        let value: u32 = (b3 << 24) | (b2 << 16) | (b1 << 8) | b0;
        assert(value == b0 + 0x100 * b1 + 0x1_0000 * b2 + 0x100_0000 * b3) by (bit_vector)
            requires
                value == (b3 << 24) | (b2 << 16) | (b1 << 8) | b0,
                b0 < 0x100,
                b1 < 0x100,
                b2 < 0x100,
                b3 < 0x100,
        ;
        Ok(value)
    }

    /// Writes `value` at `address`. Nothing is written where the access is
    /// out of bounds.
    pub fn store_byte(&mut self, address: u32, value: u8) -> (r: Result<(), Fault>)
        ensures
            in_bounds(address, 1) ==> r == Ok::<(), Fault>(()) && final(self)@ == old(self)@.update(
                address as int,
                value,
            ),
            !in_bounds(address, 1) ==> r == Err::<(), Fault>(Fault::OutOfBounds { address })
                && final(self)@ == old(self)@,
    {
        if address as usize >= MEMORY_CAPACITY {
            return Err(Fault::OutOfBounds { address });
        }
        self.bytes[address as usize] = value;
        Ok(())
    }

    /// Writes the two bytes of `value` at `address`, low-order byte first.
    /// Nothing is written where the access is out of bounds.
    pub fn store_halfword(&mut self, address: u32, value: u16) -> (r: Result<(), Fault>)
        ensures
            in_bounds(address, 2) ==> r == Ok::<(), Fault>(()) && final(self)@ == with_halfword(
                old(self)@,
                address as int,
                value,
            ),
            !in_bounds(address, 2) ==> r == Err::<(), Fault>(Fault::OutOfBounds { address })
                && final(self)@ == old(self)@,
    {
        if address as usize > MEMORY_CAPACITY - 2 {
            return Err(Fault::OutOfBounds { address });
        }
        let at: usize = address as usize;
        let low: u16 = value & 0xff;
        let high: u16 = value >> 8;
        assert(low == value % 0x100 && high == value / 0x100 && high < 0x100) by (bit_vector)
            requires
                low == value & 0xff,
                high == value >> 8,
        ;
        self.bytes[at] = low as u8;
        self.bytes[at + 1] = high as u8;
        Ok(())
    }

    /// Writes the four bytes of `value` at `address`, low-order byte first.
    /// Nothing is written where the access is out of bounds.
    pub fn store_word(&mut self, address: u32, value: u32) -> (r: Result<(), Fault>)
        ensures
            in_bounds(address, 4) ==> r == Ok::<(), Fault>(()) && final(self)@ == with_word(
                old(self)@,
                address as int,
                value,
            ),
            !in_bounds(address, 4) ==> r == Err::<(), Fault>(Fault::OutOfBounds { address })
                && final(self)@ == old(self)@,
    {
        if address as usize > MEMORY_CAPACITY - 4 {
            return Err(Fault::OutOfBounds { address });
        }
        let at: usize = address as usize;
        let b0: u32 = value & 0xff;
        let b1: u32 = (value >> 8) & 0xff;
        let b2: u32 = (value >> 16) & 0xff;
        let b3: u32 = value >> 24;
        assert(b0 == value % 0x100 && b1 == value / 0x100 % 0x100 && b2 == value / 0x1_0000 % 0x100
            && b3 == value / 0x100_0000 && b3 < 0x100) by (bit_vector)
            requires
                b0 == value & 0xff,
                b1 == (value >> 8) & 0xff,
                b2 == (value >> 16) & 0xff,
                b3 == value >> 24,
        ;
        self.bytes[at] = b0 as u8;
        self.bytes[at + 1] = b1 as u8;
        self.bytes[at + 2] = b2 as u8;
        self.bytes[at + 3] = b3 as u8;
        Ok(())
    }

    /// Copies `image` into the memory from address 0; the bytes behind it
    /// keep their values.
    pub fn load_image(&mut self, image: &Vec<u8>)
        requires
            image@.len() <= MEMORY_CAPACITY,
        ensures
            final(self)@ == with_image(old(self)@, image@),
    {
        let mut i: usize = 0;
        while i < image.len()
            invariant
                i <= image@.len() <= MEMORY_CAPACITY,
                self@ == with_image(old(self)@, image@.subrange(0, i as int)),
            decreases image@.len() - i,
        {
            self.bytes[i] = image[i];
            i += 1;
            assert(self@ =~= with_image(old(self)@, image@.subrange(0, i as int)));
        }
        assert(image@.subrange(0, i as int) =~= image@);
    }
}

} // verus!
