//! How numbers change width and sign on their way to and from the protocol's
//! fixed-width fields.
//!
//! A length that does not fit a field is cut down to the field's width, and a
//! signed number travels as the unsigned number with the same bits.

use vstd::prelude::*;

verus! {

/// The 32 bits of a signed number, read as an unsigned one.
pub open spec fn u32_of_i32(x: i32) -> u32 {
    if x >= 0 {
        x as u32
    } else {
        (x + 0x1_0000_0000) as u32
    }
}

/// The 32 bits of an unsigned number, read as a signed one.
pub open spec fn i32_of_u32(x: u32) -> i32 {
    if x < 0x8000_0000 {
        x as i32
    } else {
        (x - 0x1_0000_0000) as i32
    }
}

/// The low 16 bits of a length.
pub open spec fn low_u16(n: nat) -> u16 {
    (n % 0x1_0000) as u16
}

/// The low 32 bits of a length.
pub open spec fn low_u32(n: nat) -> u32 {
    (n % 0x1_0000_0000) as u32
}

/// A signed number as the unsigned number with the same bits.
pub fn i32_to_u32(x: i32) -> (r: u32)
    ensures
        r == u32_of_i32(x),
{
    let r: u32 = #[verifier::truncate] (x as u32);
    assert(x >= 0 ==> r == x) by (bit_vector)
        requires
            r == x as u32,
    ;
    assert(x < 0 ==> r == x + 0x1_0000_0000) by (bit_vector)
        requires
            r == x as u32,
    ;
    r
}

/// An unsigned number as the signed number with the same bits.
pub fn u32_to_i32(x: u32) -> (r: i32)
    ensures
        r == i32_of_u32(x),
{
    let r: i32 = #[verifier::truncate] (x as i32);
    assert(x < 0x8000_0000 ==> r == x) by (bit_vector)
        requires
            r == x as i32,
    ;
    assert(x >= 0x8000_0000 ==> r == x - 0x1_0000_0000) by (bit_vector)
        requires
            r == x as i32,
    ;
    r
}

/// A length cut down to a 16-bit field.
pub fn len_to_u16(n: usize) -> (r: u16)
    ensures
        r == low_u16(n as nat),
        n <= 0xffff ==> r == n,
{
    let wide: u64 = n as u64;
    let r: u16 = #[verifier::truncate] (wide as u16);
    assert(r == wide % 0x1_0000) by (bit_vector)
        requires
            r == wide as u16,
    ;
    r
}

/// A length cut down to a 32-bit field.
pub fn len_to_u32(n: usize) -> (r: u32)
    ensures
        r == low_u32(n as nat),
        n <= 0xffff_ffff ==> r == n,
{
    let wide: u64 = n as u64;
    let r: u32 = #[verifier::truncate] (wide as u32);
    assert(r == wide % 0x1_0000_0000) by (bit_vector)
        requires
            r == wide as u32,
    ;
    r
}

/// Sending a signed number and reading it back gives the same number, and so
/// does the other way round.
pub proof fn lemma_sign_round_trip(x: i32, y: u32)
    ensures
        i32_of_u32(u32_of_i32(x)) == x,
        u32_of_i32(i32_of_u32(y)) == y,
{
}

} // verus!
