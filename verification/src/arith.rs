//! Facts about shifts of signed integers: an arithmetic right shift is a
//! division rounded toward negative infinity, and a left shift is a
//! multiplication by a power of two, truncated to the type's width.

use vstd::prelude::*;

verus! {

/// Whether `x` is a value of `i32`.
pub open spec fn fits_i32(x: int) -> bool {
    i32::MIN <= x <= i32::MAX
}

/// Whether `x` is a value of `i64`.
pub open spec fn fits_i64(x: int) -> bool {
    i64::MIN <= x <= i64::MAX
}

/// `x` reduced to the 32-bit two's-complement range, as a left shift of an
/// `i32` truncates.
pub open spec fn wrap_i32(x: int) -> int {
    (x as i32) as int
}

/// `x` reduced to the 64-bit two's-complement range.
pub open spec fn wrap_i64(x: int) -> int {
    (x as i64) as int
}

/// The right shifts of `i32` used by the compensation formulas are floor
/// divisions.
pub proof fn lemma_i32_shr(x: i32)
    ensures
        (x >> 3u32) as int == x as int / 8,
        (x >> 4u32) as int == x as int / 16,
        (x >> 7u32) as int == x as int / 128,
        (x >> 8u32) as int == x as int / 256,
        (x >> 10u32) as int == x as int / 1024,
        (x >> 11u32) as int == x as int / 2048,
        (x >> 12u32) as int == x as int / 4096,
        (x >> 14u32) as int == x as int / 16384,
        (x >> 15u32) as int == x as int / 32768,
{
    assert((x >> 3u32) as int == x as int / 8) by (bit_vector);
    assert((x >> 4u32) as int == x as int / 16) by (bit_vector);
    assert((x >> 7u32) as int == x as int / 128) by (bit_vector);
    assert((x >> 8u32) as int == x as int / 256) by (bit_vector);
    assert((x >> 10u32) as int == x as int / 1024) by (bit_vector);
    assert((x >> 11u32) as int == x as int / 2048) by (bit_vector);
    assert((x >> 12u32) as int == x as int / 4096) by (bit_vector);
    assert((x >> 14u32) as int == x as int / 16384) by (bit_vector);
    assert((x >> 15u32) as int == x as int / 32768) by (bit_vector);
}

/// The right shifts of `i64` used by the pressure formula are floor
/// divisions.
pub proof fn lemma_i64_shr(x: i64)
    ensures
        (x >> 8u32) as int == x as int / 256,
        (x >> 13u32) as int == x as int / 8192,
        (x >> 19u32) as int == x as int / 524288,
        (x >> 25u32) as int == x as int / 33554432,
        (x >> 33u32) as int == x as int / 8589934592,
{
    assert((x >> 8u32) as int == x as int / 256) by (bit_vector);
    assert((x >> 13u32) as int == x as int / 8192) by (bit_vector);
    assert((x >> 19u32) as int == x as int / 524288) by (bit_vector);
    assert((x >> 25u32) as int == x as int / 33554432) by (bit_vector);
    assert((x >> 33u32) as int == x as int / 8589934592) by (bit_vector);
}

/// A left shift of an `i32` is a multiplication truncated to 32 bits.
pub proof fn lemma_i32_shl(x: i32)
    ensures
        (x << 1u32) as int == wrap_i32(x * 2),
        (x << 14u32) as int == wrap_i32(x * 16384),
        (x << 20u32) as int == wrap_i32(x * 1048576),
{
    assert((x << 1u32) == (x * 2) as i32) by (bit_vector);
    assert((x << 14u32) == (x * 16384) as i32) by (bit_vector);
    assert((x << 20u32) == (x * 1048576) as i32) by (bit_vector);
}

/// A left shift of an `i64` is a multiplication truncated to 64 bits.
pub proof fn lemma_i64_shl(x: i64)
    ensures
        (x << 4u32) as int == wrap_i64(x * 16),
        (x << 12u32) as int == wrap_i64(x * 4096),
        (x << 17u32) as int == wrap_i64(x * 131072),
        (x << 31u32) as int == wrap_i64(x * 2147483648),
        (x << 35u32) as int == wrap_i64(x * 34359738368),
{
    assert((x << 4u32) == (x * 16) as i64) by (bit_vector);
    assert((x << 12u32) == (x * 4096) as i64) by (bit_vector);
    assert((x << 17u32) == (x * 131072) as i64) by (bit_vector);
    assert((x << 31u32) == (x * 2147483648) as i64) by (bit_vector);
    assert((x << 35u32) == (x * 34359738368) as i64) by (bit_vector);
}

} // verus!

verus! {

/// Bounds on the factors bound the product.
pub proof fn lemma_mul_bound(a: int, b: int, ba: int, bb: int)
    by (nonlinear_arith)
    requires
        -ba <= a <= ba,
        -bb <= b <= bb,
    ensures
        -(ba * bb) <= a * b <= ba * bb,
{
}

} // verus!
