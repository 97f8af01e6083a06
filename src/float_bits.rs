//! Ordering of single-precision values held as IEEE-754 bit patterns.
//!
//! The comparisons here are those of `f32`'s `<=` and `<`: a NaN compares
//! false with everything, and `-0.0` equals `0.0`.
use vstd::prelude::*;

verus! {

/// Bit pattern of the sign.
pub const SIGN_BIT: u32 = 0x8000_0000;

/// Bit pattern of positive infinity; magnitudes above it are NaNs.
pub const INFINITY_BITS: u32 = 0x7f80_0000;

/// Whether the pattern encodes a NaN.
pub open spec fn is_nan(b: u32) -> bool {
    b % SIGN_BIT > INFINITY_BITS
}

/// Where a non-NaN pattern lies on the number line: the magnitude bits,
/// negated when the sign is set. Both zeros map to 0.
pub open spec fn order_key(b: u32) -> int {
    if b < SIGN_BIT {
        b as int
    } else {
        -((b - SIGN_BIT) as int)
    }
}

/// `a <= b` on the values that the patterns encode.
pub open spec fn le(a: u32, b: u32) -> bool {
    !is_nan(a) && !is_nan(b) && order_key(a) <= order_key(b)
}

/// `a < b` on the values that the patterns encode.
pub open spec fn lt(a: u32, b: u32) -> bool {
    !is_nan(a) && !is_nan(b) && order_key(a) < order_key(b)
}

/// Whether `b` encodes a NaN.
pub fn bits_is_nan(b: u32) -> (r: bool)
    ensures
        r == is_nan(b),
{
    b % SIGN_BIT > INFINITY_BITS
}

fn key(b: u32) -> (r: i64)
    ensures
        r as int == order_key(b),
{
    if b < SIGN_BIT {
        b as i64
    } else {
        -((b - SIGN_BIT) as i64)
    }
}

/// `a <= b` on the encoded values.
pub fn bits_le(a: u32, b: u32) -> (r: bool)
    ensures
        r == le(a, b),
{
    !bits_is_nan(a) && !bits_is_nan(b) && key(a) <= key(b)
}

/// `a < b` on the encoded values.
pub fn bits_lt(a: u32, b: u32) -> (r: bool)
    ensures
        r == lt(a, b),
{
    !bits_is_nan(a) && !bits_is_nan(b) && key(a) < key(b)
}

} // verus!
