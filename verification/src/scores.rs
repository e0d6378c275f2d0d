//! Scores and thresholds arrive as IEEE-754 single-precision numbers. The
//! library holds each one as its bit pattern (`f32::to_bits`), which keeps
//! every value, NaN and infinities included, and decides on those bits.
//!
//! For a non-negative `f32` the numeric order is the order of the bit
//! patterns, NaN and the infinities have all exponent bits set, and `-0.0`
//! (`0x8000_0000`) compares equal to `0.0`. So a value is finite and lies in
//! `[0, 1]` exactly when its bits are at most those of `1.0` or are those of
//! `-0.0`.
use vstd::prelude::*;

verus! {

/// The bits of `1.0f32`.
pub const ONE_BITS: u32 = 0x3F80_0000;

/// The bits of `-0.0f32`.
pub const NEGATIVE_ZERO_BITS: u32 = 0x8000_0000;

/// The exponent field of an `f32` bit pattern.
pub open spec fn exponent_of(bits: u32) -> nat {
    ((bits as nat) / 0x80_0000) % 0x100
}

/// Whether the bit pattern is a finite number (not NaN, not infinite).
pub open spec fn finite_bits(bits: u32) -> bool {
    exponent_of(bits) != 0xFF
}

/// Whether the sign bit is set.
pub open spec fn negative_bits(bits: u32) -> bool {
    bits >= 0x8000_0000
}

/// Whether the bit pattern is a finite number between 0 and 1 inclusive.
pub open spec fn unit_bits(bits: u32) -> bool {
    bits <= ONE_BITS || bits == NEGATIVE_ZERO_BITS
}

/// Whether `bits` is a finite number between 0 and 1 inclusive.
pub fn is_unit_interval(bits: u32) -> (b: bool)
    ensures
        b == unit_bits(bits),
        b ==> finite_bits(bits),
{
    bits <= ONE_BITS || bits == NEGATIVE_ZERO_BITS
}

/// The bits that a score is shown with: a non-finite score counts as zero,
/// a finite one in `[0, 1]` is kept, one below zero becomes `0.0` and one
/// above one becomes `1.0`.
pub open spec fn clamped(bits: u32) -> u32 {
    if !finite_bits(bits) {
        0
    } else if unit_bits(bits) {
        bits
    } else if negative_bits(bits) {
        0
    } else {
        ONE_BITS
    }
}

/// A score as the console shows it: a non-finite score counts as zero, and a
/// finite one is clamped to `[0, 1]` (with `-0.0` kept, as `f32::clamp` keeps it).
pub fn clamp_score_bits(bits: u32) -> (out: u32)
    ensures
        out == clamped(bits),
        unit_bits(out),
        !finite_bits(bits) ==> out == 0,
        finite_bits(bits) && unit_bits(bits) ==> out == bits,
        finite_bits(bits) && !unit_bits(bits) && negative_bits(bits) ==> out == 0,
        finite_bits(bits) && !unit_bits(bits) && !negative_bits(bits) ==> out == ONE_BITS,
{
    let exponent: u32 = (bits / 0x80_0000) % 0x100;
    if exponent == 0xFF {
        0
    } else if bits <= ONE_BITS || bits == NEGATIVE_ZERO_BITS {
        bits
    } else if bits >= 0x8000_0000 {
        0
    } else {
        ONE_BITS
    }
}

/// Clamping a shown score again changes nothing.
pub proof fn clamp_is_idempotent(bits: u32)
    ensures
        clamped(clamped(bits)) == clamped(bits),
{
}

} // verus!
