//! Readings of 32-bit machine words as numbers: the signed and unsigned value
//! of a bit pattern, and wrapping to 32 bits.

use vstd::prelude::*;

verus! {

/// The unsigned number that has the bit pattern of the signed value `a`.
pub open spec fn unsigned(a: i32) -> u32 {
    (if a < 0 {
        a + 0x1_0000_0000
    } else {
        a as int
    }) as u32
}

/// The signed number that has the bit pattern of the unsigned value `u`.
pub open spec fn signed(u: u32) -> i32 {
    (if u >= 0x8000_0000 {
        u - 0x1_0000_0000
    } else {
        u as int
    }) as i32
}

/// The unsigned 32-bit value congruent to `n` modulo 2^32.
pub open spec fn wrap(n: int) -> u32 {
    (n % 0x1_0000_0000) as u32
}

/// The `width`-bit two's-complement number whose bit pattern is `value`.
pub open spec fn sign_extend(value: u32, width: u32) -> i32
    recommends
        0 < width < 32,
        value < (1u32 << width),
{
    (if value >= (1u32 << ((width - 1) as u32)) {
        value - (1u32 << width)
    } else {
        value as int
    }) as i32
}

/// Reinterprets a register value as an unsigned word.
pub fn to_unsigned(a: i32) -> (r: u32)
    ensures
        r == unsigned(a),
{
    let r: u32 = a as u32;
    assert(r == unsigned(a)) by (bit_vector)
        requires
            r == a as u32,
    ;
    r
}

/// Reinterprets an unsigned word as a register value.
pub fn to_signed(u: u32) -> (r: i32)
    ensures
        r == signed(u),
{
    let r: i32 = u as i32;
    assert(r == signed(u)) by (bit_vector)
        requires
            r == u as i32,
    ;
    r
}

/// Widens a byte to a register value, extending its sign.
pub fn extend_byte(byte: u8) -> (r: i32)
    ensures
        r == sign_extend(byte as u32, 8),
        -0x80 <= r < 0x80,
{
    let r: i32 = (byte as i8) as i32;
    assert(r == sign_extend(byte as u32, 8) && -0x80 <= r < 0x80) by (bit_vector)
        requires
            r == (byte as i8) as i32,
    ;
    r
}

/// Widens a halfword to a register value, extending its sign.
pub fn extend_halfword(halfword: u16) -> (r: i32)
    ensures
        r == sign_extend(halfword as u32, 16),
        -0x8000 <= r < 0x8000,
{
    let r: i32 = (halfword as i16) as i32;
    assert(r == sign_extend(halfword as u32, 16) && -0x8000 <= r < 0x8000) by (bit_vector)
        requires
            r == (halfword as i16) as i32,
    ;
    r
}

/// The low-order byte of a register value.
pub fn low_byte(a: i32) -> (r: u8)
    ensures
        r == unsigned(a) % 0x100,
{
    let u: u32 = to_unsigned(a);
    let low: u32 = u & 0xff;
    assert(low == u % 0x100) by (bit_vector)
        requires
            low == u & 0xff,
    ;
    low as u8
}

/// The low-order halfword of a register value.
pub fn low_halfword(a: i32) -> (r: u16)
    ensures
        r == unsigned(a) % 0x1_0000,
{
    let u: u32 = to_unsigned(a);
    let low: u32 = u & 0xffff;
    assert(low == u % 0x1_0000) by (bit_vector)
        requires
            low == u & 0xffff,
    ;
    low as u16
}

/// The address `by` bytes from `base`, wrapping at 2^32.
pub fn offset(base: u32, by: i32) -> (r: u32)
    ensures
        r == wrap(base + by),
{
    base.wrapping_add_signed(by)
}

/// The address that a base register and an immediate give, wrapping at 2^32.
pub fn address(base: i32, by: i32) -> (r: u32)
    ensures
        r == wrap(base + by),
{
    to_unsigned(base.wrapping_add(by))
}

/// `value` with its lowest bit cleared.
pub fn clear_low_bit(value: u32) -> (r: u32)
    ensures
        r == value - value % 2,
{
    let r: u32 = value & 0xffff_fffe;
    assert(r == value - value % 2) by (bit_vector)
        requires
            r == value & 0xffff_fffe,
    ;
    r
}

/// The two readings are inverse to each other.
pub proof fn lemma_signed_unsigned(a: i32, u: u32)
    ensures
        signed(unsigned(a)) == a,
        unsigned(signed(u)) == u,
{
}

} // verus!
