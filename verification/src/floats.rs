//! 32-bit floating-point samples, read as bit patterns: whether such a
//! sample can be turned into a 32-bit integer, and which integer it gives.

use vstd::prelude::*;

verus! {

/// The pattern of the float -2147483648, the one float of that magnitude
/// that still fits a 32-bit integer.
pub const LOWEST_WHOLE: u32 = 0xcf00_0000;

/// Whether the sign bit of the pattern is set.
pub open spec fn float_is_negative(bits: u32) -> bool {
    bits >> 31 == 1
}

/// The eight exponent bits of the pattern.
pub open spec fn float_exponent(bits: u32) -> u32 {
    (bits >> 23) & 0xff
}

/// The 23 fraction bits of the pattern under the leading one.
pub open spec fn float_significand(bits: u32) -> u64 {
    ((bits & 0x7f_ffff) | 0x80_0000) as u64
}

/// Whether the float lies from -2147483648 up to, but not at, 2147483648:
/// the floats that turn into a 32-bit integer. No NaN and no infinity does.
pub open spec fn float_fits_i32(bits: u32) -> bool {
    float_exponent(bits) <= 157 || bits == LOWEST_WHOLE
}

/// The whole part of the float's magnitude, for a float that fits.
pub open spec fn float_whole_part(bits: u32) -> u64 {
    let e = float_exponent(bits);
    if e < 127 {
        0
    } else if e <= 150 {
        float_significand(bits) >> ((150 - e) as u64)
    } else {
        float_significand(bits) << ((e - 150) as u64)
    }
}

/// The integer that the float is rounded to, towards zero.
pub open spec fn float_truncation(bits: u32) -> int {
    if float_is_negative(bits) {
        -(float_whole_part(bits) as int)
    } else {
        float_whole_part(bits) as int
    }
}

/// Whether `delta` can be added to the float as 32-bit integers: the float
/// fits, and so does the sum.
pub open spec fn float_takes_delta(bits: u32, delta: int) -> bool {
    &&& float_fits_i32(bits)
    &&& i32::MIN <= float_truncation(bits) + delta <= i32::MAX
}

/// Decides `float_takes_delta` for one sample.
pub fn sample_takes_delta(bits: u32, delta: i32) -> (ok: bool)
    ensures
        ok == float_takes_delta(bits, delta as int),
{
    let e: u32 = (bits >> 23) & 0xff;
    if !(e <= 157 || bits == LOWEST_WHOLE) {
        return false;
    }
    assert(e <= 158) by (bit_vector)
        requires
            e == (bits >> 23) & 0xff,
            e <= 157 || bits == 0xcf00_0000u32,
    ;
    let significand: u64 = ((bits & 0x7f_ffff) | 0x80_0000) as u64;
    let whole: u64 = if e < 127 {
        0
    } else if e <= 150 {
        significand >> ((150 - e) as u64)
    } else {
        significand << ((e - 150) as u64)
    };
    assert(whole <= 0x1_0000_0000) by (bit_vector)
        requires
            e <= 158,
            significand == ((bits & 0x7f_ffff) | 0x80_0000) as u64,
            whole == if e < 127 {
                0
            } else if e <= 150 {
                significand >> ((150 - e) as u64)
            } else {
                significand << ((e - 150) as u64)
            },
    ;
    let value: i64 = if bits >> 31 == 1 {
        -(whole as i64)
    } else {
        whole as i64
    };
    let sum: i64 = value + delta as i64;
    -2147483648 <= sum && sum <= 2147483647
}

} // verus!
