//! Conversions between integer types that keep the low bits.
use vstd::prelude::*;

verus! {

/// The unsigned 32-bit integer with the bits of `x`: negative numbers come out above `i32::MAX`.
pub open spec fn unsigned_32(x: i32) -> int {
    if x < 0 {
        x + 0x1_0000_0000
    } else {
        x as int
    }
}

/// The signed 32-bit integer with the low bits of `x`.
pub open spec fn low_signed_32(x: u64) -> int {
    let low = x as int % 0x1_0000_0000;
    if low < 0x8000_0000 {
        low
    } else {
        low - 0x1_0000_0000
    }
}

/// The unsigned 32-bit integer with the low bits of `x`.
pub open spec fn low_unsigned_32(x: usize) -> int {
    x as int % 0x1_0000_0000
}

/// `x` read as unsigned.
pub fn to_unsigned_32(x: i32) -> (r: u32)
    ensures
        r == unsigned_32(x),
{
    let r: u32 = #[verifier::truncate]
    (x as u32);
    assert(x < 0 ==> x as u32 == x + 0x1_0000_0000) by (bit_vector);
    assert(x >= 0 ==> x as u32 == x) by (bit_vector);
    r
}

/// The low 32 bits of `x`, read as signed.
pub fn to_low_signed_32(x: u64) -> (r: i32)
    ensures
        r == low_signed_32(x),
{
    let r: i32 = #[verifier::truncate]
    (x as i32);
    assert(x % 0x1_0000_0000 < 0x8000_0000 ==> x as i32 == x % 0x1_0000_0000) by (bit_vector);
    assert(x % 0x1_0000_0000 >= 0x8000_0000 ==> x as i32 == (x % 0x1_0000_0000) - 0x1_0000_0000)
        by (bit_vector);
    r
}

/// The low 32 bits of `x`.
pub fn to_low_unsigned_32(x: usize) -> (r: u32)
    ensures
        r == low_unsigned_32(x),
{
    let wide: u64 = x as u64;
    let r: u32 = #[verifier::truncate]
    (wide as u32);
    assert(wide as u32 == wide % 0x1_0000_0000) by (bit_vector);
    r
}

} // verus!
