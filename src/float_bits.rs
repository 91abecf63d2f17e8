//! Single-precision values carried as their IEEE-754 bit patterns.
//!
//! The library never computes with floating point. Callers hand over
//! `f32::to_bits` of a value and get bit patterns back; the decisions that the
//! normalizer makes (is it finite, is it below a bound, which bound replaces it)
//! are made on the encoding, where they can be proved.
use vstd::prelude::*;

verus! {

/// Bit pattern of `0.0`.
pub const ZERO: u32 = 0x0000_0000;

/// Bit pattern of `1.0`.
pub const ONE: u32 = 0x3f80_0000;

/// Bit pattern of `-1.0`.
pub const MINUS_ONE: u32 = 0xbf80_0000;

/// The 8-bit exponent field.
pub open spec fn exponent_field(b: u32) -> u32 {
    (b >> 23u32) & 0xffu32
}

/// The encoding without its sign bit: the absolute value's bit pattern.
pub open spec fn magnitude(b: u32) -> u32 {
    b & 0x7fff_ffffu32
}

/// Whether the sign bit is set.
pub open spec fn sign_set(b: u32) -> bool {
    (b >> 31u32) == 1u32
}

/// Neither an infinity nor a NaN: the exponent field is not all ones.
pub open spec fn is_finite(b: u32) -> bool {
    exponent_field(b) != 0xffu32
}

/// A NaN: the exponent field is all ones and the fraction is not zero.
pub open spec fn is_nan(b: u32) -> bool {
    exponent_field(b) == 0xffu32 && (b & 0x7f_ffffu32) != 0u32
}

/// Where a non-NaN value stands on the number line. For non-negative values
/// the encoding grows with the value, and a negative value mirrors its
/// absolute value; so two non-NaN values compare as their keys do (and `0.0`
/// and `-0.0` share a key, as they compare equal).
pub open spec fn key(b: u32) -> int {
    if sign_set(b) {
        -(magnitude(b) as int)
    } else {
        magnitude(b) as int
    }
}

/// `f32::clamp` on a value that is not NaN: below `lo` gives `lo`, above `hi`
/// gives `hi`, anything else is kept as it is.
pub open spec fn clamp_spec(b: u32, lo: u32, hi: u32) -> u32 {
    if key(b) < key(lo) {
        lo
    } else if key(b) > key(hi) {
        hi
    } else {
        b
    }
}

/// The value itself when it is finite, else `fallback`.
pub open spec fn finite_or_spec(b: u32, fallback: u32) -> u32 {
    if is_finite(b) {
        b
    } else {
        fallback
    }
}

/// A finite value whose key lies between those of `lo` and `hi`.
pub open spec fn within(b: u32, lo: u32, hi: u32) -> bool {
    is_finite(b) && key(lo) <= key(b) && key(b) <= key(hi)
}

/// Whether the value is finite.
pub fn f32_is_finite(b: u32) -> (r: bool)
    ensures
        r == is_finite(b),
{
    (b >> 23u32) & 0xffu32 != 0xffu32
}

/// The key of a value, see [`key`].
pub fn order_key(b: u32) -> (r: i64)
    ensures
        r as int == key(b),
{
    let m = b & 0x7fff_ffffu32;
    if (b >> 31u32) == 1u32 {
        -(m as i64)
    } else {
        m as i64
    }
}

/// Replaces NaN and the infinities by `fallback`.
pub fn finite_or(b: u32, fallback: u32) -> (r: u32)
    ensures
        r == finite_or_spec(b, fallback),
{
    if f32_is_finite(b) {
        b
    } else {
        fallback
    }
}

/// `f32::clamp` on the encoding. The bounds are finite and ordered, so the
/// call that this stands for would not panic either.
pub fn clamp_bits(b: u32, lo: u32, hi: u32) -> (r: u32)
    requires
        !is_nan(b),
        is_finite(lo),
        is_finite(hi),
        key(lo) <= key(hi),
    ensures
        r == clamp_spec(b, lo, hi),
{
    let k = order_key(b);
    if k < order_key(lo) {
        lo
    } else if k > order_key(hi) {
        hi
    } else {
        b
    }
}

/// Replaces a non-finite value by `fallback`, then clamps it into `[lo, hi]`.
/// Whatever comes in, what comes out is finite and in range.
pub fn sanitize(b: u32, fallback: u32, lo: u32, hi: u32) -> (r: u32)
    requires
        is_finite(fallback),
        is_finite(lo),
        is_finite(hi),
        key(lo) <= key(hi),
    ensures
        r == clamp_spec(finite_or_spec(b, fallback), lo, hi),
        within(r, lo, hi),
{
    let v = finite_or(b, fallback);
    proof {
        lemma_finite_not_nan(v);
    }
    let r = clamp_bits(v, lo, hi);
    proof {
        lemma_clamp_within(finite_or_spec(b, fallback), lo, hi);
    }
    r
}

/// Whether the absolute value is below that of `bound`.
pub fn abs_below(b: u32, bound: u32) -> (r: bool)
    ensures
        r == (magnitude(b) < magnitude(bound)),
{
    (b & 0x7fff_ffffu32) < (bound & 0x7fff_ffffu32)
}

/// A finite value is not a NaN.
pub proof fn lemma_finite_not_nan(b: u32)
    ensures
        is_finite(b) ==> !is_nan(b),
{
}

/// Clamping a finite value between finite bounds lands within them.
pub proof fn lemma_clamp_within(b: u32, lo: u32, hi: u32)
    requires
        is_finite(lo),
        is_finite(hi),
        key(lo) <= key(hi),
        is_finite(b),
    ensures
        within(clamp_spec(b, lo, hi), lo, hi),
{
}

} // verus!
