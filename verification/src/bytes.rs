//! Little-endian integer decoding, as the sensors' register maps use it.

use vstd::prelude::*;

verus! {

/// The unsigned value of two bytes in little-endian order.
pub open spec fn le_u16(lo: u8, hi: u8) -> int {
    lo as int + 256 * hi as int
}

/// The two's-complement value of two bytes in little-endian order.
pub open spec fn le_i16(lo: u8, hi: u8) -> int {
    let u = le_u16(lo, hi);
    if u >= 32768 { u - 65536 } else { u }
}

/// `u16::from_le_bytes`: the integer whose little-endian representation is
/// `bytes`, i.e. `bytes[0] + 256 * bytes[1]`.
#[verifier::external_body]
pub(crate) fn u16_from_le_bytes(bytes: [u8; 2]) -> (r: u16)
    ensures
        r as int == le_u16(bytes[0], bytes[1]),
{
    u16::from_le_bytes(bytes)
}

/// `i16::from_le_bytes`: the two's-complement integer whose little-endian
/// representation is `bytes`.
#[verifier::external_body]
pub(crate) fn i16_from_le_bytes(bytes: [u8; 2]) -> (r: i16)
    ensures
        r as int == le_i16(bytes[0], bytes[1]),
{
    i16::from_le_bytes(bytes)
}

} // verus!
