//! Opacity values.
//!
//! An opacity is a double-precision number between 0 and 1. This library
//! holds it by its IEEE 754 bit pattern, a `u64`, which is what
//! `f64::to_bits` gives and `f64::from_bits` takes: one sign bit, eleven
//! exponent bits, fifty-two fraction bits. Among the patterns without the
//! sign bit, a larger pattern is a larger number, so the range from 0 to 1 is
//! the range of patterns from [`FULLY_TRANSPARENT`] to [`FULLY_OPAQUE`].

use vstd::prelude::*;

verus! {

/// The bit pattern of 0.0.
pub const FULLY_TRANSPARENT: u64 = 0;

/// The bit pattern of 1.0.
pub const FULLY_OPAQUE: u64 = 0x3FF0_0000_0000_0000;

/// The sign bit of a double.
pub const SIGN_BIT: u64 = 0x8000_0000_0000_0000;

/// The bit pattern of positive infinity: every exponent bit set, no fraction
/// bit set.
pub const INFINITY: u64 = 0x7FF0_0000_0000_0000;

/// Whether the pattern has its sign bit set.
pub open spec fn has_sign(bits: u64) -> bool {
    bits >= SIGN_BIT
}

/// The pattern without its sign bit: the pattern of the number's magnitude.
pub open spec fn magnitude(bits: u64) -> u64 {
    if has_sign(bits) {
        (bits - SIGN_BIT) as u64
    } else {
        bits
    }
}

/// Whether the pattern is not a number: every exponent bit set and some
/// fraction bit set.
pub open spec fn is_nan(bits: u64) -> bool {
    magnitude(bits) > INFINITY
}

/// Whether the pattern is a number below zero (negative zero is not).
pub open spec fn is_below_zero(bits: u64) -> bool {
    !is_nan(bits) && has_sign(bits) && magnitude(bits) > 0
}

/// Whether the pattern is a number above one.
pub open spec fn is_above_one(bits: u64) -> bool {
    !is_nan(bits) && !has_sign(bits) && bits > FULLY_OPAQUE
}

/// Whether the pattern is a number from 0 to 1, both included; negative zero
/// counts as zero.
pub open spec fn in_unit_range(bits: u64) -> bool {
    !is_nan(bits) && !is_below_zero(bits) && !is_above_one(bits)
}

/// The opacity that is stored for a requested one: a number from 0 to 1 is
/// kept, a number below zero becomes 0 and a number above one becomes 1. A
/// pattern that is not a number says nothing of how opaque the crosshair
/// should be; it is stored as 1, the opacity of a fresh installation.
pub open spec fn clamped(bits: u64) -> u64 {
    if is_nan(bits) {
        FULLY_OPAQUE
    } else if is_below_zero(bits) {
        FULLY_TRANSPARENT
    } else if is_above_one(bits) {
        FULLY_OPAQUE
    } else {
        bits
    }
}

/// Limits an opacity to the range from 0 to 1.
pub fn clamp_opacity(bits: u64) -> (r: u64)
    ensures
        r == clamped(bits),
        in_unit_range(r),
        in_unit_range(bits) ==> r == bits,
{
    let magnitude: u64 = if bits >= SIGN_BIT {
        bits - SIGN_BIT
    } else {
        bits
    };
    if magnitude > INFINITY {
        FULLY_OPAQUE
    } else if bits >= SIGN_BIT {
        if magnitude > 0 {
            FULLY_TRANSPARENT
        } else {
            bits
        }
    } else if bits > FULLY_OPAQUE {
        FULLY_OPAQUE
    } else {
        bits
    }
}

/// Whatever is asked for, the opacity that is stored is a number from 0 to 1.
pub proof fn lemma_clamped_in_unit_range(bits: u64)
    ensures
        in_unit_range(clamped(bits)),
        in_unit_range(bits) ==> clamped(bits) == bits,
{
}

} // verus!
