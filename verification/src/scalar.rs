use vstd::prelude::*;

verus! {

// The numeric entries of matrices and vectors are IEEE 754 binary64 values.
// Inside the library they are carried as their 64-bit patterns, so that the
// only two questions the validation logic ever asks of a value -- is it an
// exact zero, and how do two values compare -- can be answered and specified
// over plain integers.  Callers obtain the patterns with `f64::to_bits` and
// turn results back with `f64::from_bits`; both conversions are lossless.

/// Mask of the sign bit of a binary64 pattern.
pub const SIGN_MASK: u64 = 0x8000_0000_0000_0000;

/// Mask of the magnitude (exponent and fraction) bits of a binary64 pattern.
pub const MAG_MASK: u64 = 0x7FFF_FFFF_FFFF_FFFF;

/// Mask of the exponent bits of a binary64 pattern.
pub const EXP_MASK: u64 = 0x7FF0_0000_0000_0000;

/// Mask of the fraction bits of a binary64 pattern.
pub const FRAC_MASK: u64 = 0x000F_FFFF_FFFF_FFFF;

/// Whether the pattern denotes a NaN: all exponent bits set and a non-zero
/// fraction.
pub open spec fn is_nan_bits(b: u64) -> bool {
    b & EXP_MASK == EXP_MASK && b & FRAC_MASK != 0
}

/// Whether the pattern denotes an exact zero.  Both `+0.0` and `-0.0`
/// qualify, matching the behaviour of `== 0.0` on the values themselves.
pub open spec fn is_zero_bits(b: u64) -> bool {
    b & MAG_MASK == 0
}

/// A signed-magnitude key that orders non-NaN binary64 patterns exactly as
/// the values they denote are ordered: within one sign the magnitude bits are
/// monotone in the value, and the two zeros both map to key 0.
pub open spec fn float_key(b: u64) -> int {
    if b & SIGN_MASK == SIGN_MASK {
        -((b & MAG_MASK) as int)
    } else {
        (b & MAG_MASK) as int
    }
}

/// The `<=` relation of the denoted values: false whenever either side is a
/// NaN, and the key order otherwise.
pub open spec fn float_le(a: u64, b: u64) -> bool {
    &&& !is_nan_bits(a)
    &&& !is_nan_bits(b)
    &&& float_key(a) <= float_key(b)
}

/// Whether the pattern denotes a NaN.
pub fn nan_bits(b: u64) -> (r: bool)
    ensures
        r == is_nan_bits(b),
{
    b & EXP_MASK == EXP_MASK && b & FRAC_MASK != 0
}

/// Whether the pattern denotes an exact zero (of either sign).
pub fn zero_bits(b: u64) -> (r: bool)
    ensures
        r == is_zero_bits(b),
{
    b & MAG_MASK == 0
}

/// Compares two binary64 patterns as the values they denote, returning
/// `a <= b`.
pub fn le_bits(a: u64, b: u64) -> (r: bool)
    ensures
        r == float_le(a, b),
{
    if nan_bits(a) || nan_bits(b) {
        return false;
    }
    let a_neg = a & SIGN_MASK == SIGN_MASK;
    let b_neg = b & SIGN_MASK == SIGN_MASK;
    let a_mag = a & MAG_MASK;
    let b_mag = b & MAG_MASK;
    if a_neg && b_neg {
        a_mag >= b_mag
    } else if a_neg {
        true
    } else if b_neg {
        a_mag == 0 && b_mag == 0
    } else {
        a_mag <= b_mag
    }
}

} // verus!
