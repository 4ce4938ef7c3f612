//! A 3D vector primitive.
//!
//! Components are carried as IEEE-754 single-precision bit patterns (`u32`),
//! because Verus does not model floating-point arithmetic. This crate verifies
//! the part of the vector algebra that is exact on that representation:
//! construction, the zero vector, flattening onto the xy-plane, negation
//! (a pure sign-bit flip under IEEE-754), componentwise min, max and clamp
//! (pure comparison and selection), and the comparisons with zero that
//! the degenerate-input guards of the geometric operations rest on. The
//! rounding arithmetic (componentwise `+`, `-`, `*`, `/`, dot products,
//! magnitudes, angles and rotation) cannot be stated exactly on bit patterns
//! and is left to callers, which convert with `f32::to_bits` / `f32::from_bits`.

use vstd::prelude::*;

verus! {

/// Bit mask of the IEEE-754 single-precision sign bit.
pub const SIGN_BIT: u32 = 0x8000_0000;

/// Bit mask of the exponent and mantissa, everything but the sign.
pub const ABS_MASK: u32 = 0x7FFF_FFFF;

/// Magnitude bits of infinity: exponent all ones, mantissa zero. A pattern is
/// NaN exactly when its magnitude bits lie strictly above this.
pub const INF_BITS: u32 = 0x7F80_0000;

/// Holds of the bit patterns of positive and negative zero, which are exactly
/// the single-precision values that compare equal to `0.0`.
pub open spec fn is_zero_bits(b: u32) -> bool {
    b & ABS_MASK == 0
}

/// Holds of the bit patterns whose magnitude bits are those of NaN: exponent
/// all ones and a nonzero mantissa, whatever the sign.
pub open spec fn is_nan_bits(b: u32) -> bool {
    b & ABS_MASK > INF_BITS
}

/// Holds of the bit patterns that compare strictly less than `0.0`: the sign
/// bit is set and the magnitude bits are those of a nonzero number or of
/// infinity, not of NaN and not of negative zero.
pub open spec fn is_negative_bits(b: u32) -> bool {
    &&& b & SIGN_BIT == SIGN_BIT
    &&& b & ABS_MASK != 0
    &&& b & ABS_MASK <= INF_BITS
}

/// A key under which the non-NaN bit patterns order as their values do:
/// negative patterns are complemented, which reverses them below the
/// positives; positive patterns get the high bit set, which lifts them above.
/// Only the two zeros, which compare equal despite distinct keys, and the NaN
/// patterns fall outside this order.
pub open spec fn order_key(b: u32) -> u32 {
    if b & SIGN_BIT == SIGN_BIT {
        !b
    } else {
        b | SIGN_BIT
    }
}

/// Holds when the single-precision value with bit pattern `a` compares
/// strictly less than the one with bit pattern `b`. A comparison with NaN on
/// either side is false, positive and negative zero compare equal, and all
/// other patterns follow the sign-magnitude order of their keys.
pub open spec fn is_lt_bits(a: u32, b: u32) -> bool {
    &&& !is_nan_bits(a)
    &&& !is_nan_bits(b)
    &&& !(is_zero_bits(a) && is_zero_bits(b))
    &&& order_key(a) < order_key(b)
}

/// The smaller of two single-precision values, on bit patterns. NaN is never
/// selected unless both operands are NaN; on ties (equal values, the two
/// zeros included) the first operand is kept. That fixes one convention for
/// the cases IEEE-754 min leaves open.
pub open spec fn min_bits(a: u32, b: u32) -> u32 {
    if is_nan_bits(b) {
        a
    } else if is_nan_bits(a) {
        b
    } else if is_lt_bits(b, a) {
        b
    } else {
        a
    }
}

/// The larger of two single-precision values, on bit patterns, under the same
/// convention as `min_bits`: NaN is never selected unless both operands are
/// NaN, and ties keep the first operand.
pub open spec fn max_bits(a: u32, b: u32) -> u32 {
    if is_nan_bits(b) {
        a
    } else if is_nan_bits(a) {
        b
    } else if is_lt_bits(a, b) {
        b
    } else {
        a
    }
}

/// `v` restricted to [`lo`, `hi`], on bit patterns: `lo` if `v` compares below
/// it, `hi` if `v` compares above it, otherwise `v` itself — so NaN, which
/// compares with nothing, passes through unchanged.
pub open spec fn clamp_bits(v: u32, lo: u32, hi: u32) -> u32 {
    if is_lt_bits(v, lo) {
        lo
    } else if is_lt_bits(hi, v) {
        hi
    } else {
        v
    }
}

/// Whether the single-precision value with bit pattern `b` compares equal to
/// zero. Negative zero compares equal to zero; NaN does not, whatever its
/// payload. This is the test that guards normalization against a zero-length
/// input.
pub fn scalar_eq_zero(b: u32) -> (r: bool)
    ensures
        r == is_zero_bits(b),
{
    b & ABS_MASK == 0
}

/// Whether the single-precision value with bit pattern `b` compares strictly
/// less than zero. Negative zero and NaN (of either sign) do not. This is the
/// test that decides whether a signed angle difference must be wrapped up by
/// one full turn.
pub fn scalar_lt_zero(b: u32) -> (r: bool)
    ensures
        r == is_negative_bits(b),
{
    let mag: u32 = b & ABS_MASK;
    (b & SIGN_BIT) == SIGN_BIT && mag != 0 && mag <= INF_BITS
}

/// Whether the single-precision value with bit pattern `a` compares strictly
/// less than the one with bit pattern `b`, for every pair of patterns, NaN and
/// the two zeros included. This is the comparison behind the guard that clamps
/// a rounded dot product back into [-1, 1] before taking its arc cosine.
pub fn scalar_lt(a: u32, b: u32) -> (r: bool)
    ensures
        r == is_lt_bits(a, b),
{
    if a & ABS_MASK > INF_BITS || b & ABS_MASK > INF_BITS {
        return false;
    }
    if a & ABS_MASK == 0 && b & ABS_MASK == 0 {
        return false;
    }
    let ka: u32 = if (a & SIGN_BIT) == SIGN_BIT { !a } else { a | SIGN_BIT };
    let kb: u32 = if (b & SIGN_BIT) == SIGN_BIT { !b } else { b | SIGN_BIT };
    ka < kb
}

/// The smaller of the two single-precision values with bit patterns `a` and
/// `b`, under the convention of `min_bits`: NaN loses to a number, both-NaN
/// keeps the first, and ties keep the first.
pub fn scalar_min(a: u32, b: u32) -> (r: u32)
    ensures
        r == min_bits(a, b),
{
    if b & ABS_MASK > INF_BITS {
        a
    } else if a & ABS_MASK > INF_BITS {
        b
    } else if scalar_lt(b, a) {
        b
    } else {
        a
    }
}

/// The larger of the two single-precision values with bit patterns `a` and
/// `b`, under the convention of `max_bits`: NaN loses to a number, both-NaN
/// keeps the first, and ties keep the first.
pub fn scalar_max(a: u32, b: u32) -> (r: u32)
    ensures
        r == max_bits(a, b),
{
    if b & ABS_MASK > INF_BITS {
        a
    } else if a & ABS_MASK > INF_BITS {
        b
    } else if scalar_lt(a, b) {
        b
    } else {
        a
    }
}

/// The single-precision value with bit pattern `v` restricted to the interval
/// from `lo` to `hi`. The bounds must be numbers in order, as the interval has
/// no meaning otherwise; a NaN `v` passes through. When `v` is a number the
/// result compares within the interval.
pub fn scalar_clamp(v: u32, lo: u32, hi: u32) -> (r: u32)
    requires
        !is_nan_bits(lo),
        !is_nan_bits(hi),
        !is_lt_bits(hi, lo),
    ensures
        r == clamp_bits(v, lo, hi),
        !is_nan_bits(v) ==> !is_lt_bits(r, lo) && !is_lt_bits(hi, r),
{
    if scalar_lt(v, lo) {
        lo
    } else if scalar_lt(hi, v) {
        hi
    } else {
        v
    }
}

/// Comparing with the pattern of positive zero through `is_lt_bits` agrees
/// with the dedicated below-zero test: the two spec-level readings of
/// "strictly negative" cannot drift apart.
pub proof fn lemma_lt_zero_agrees(b: u32)
    by (bit_vector)
    ensures
        is_negative_bits(b) == is_lt_bits(b, 0),
{
}

/// a 3d vector
///
/// Each field is the IEEE-754 single-precision bit pattern of one component.
/// The derived equality is bitwise: it tells positive zero from negative zero
/// and equates equal NaN patterns, unlike the comparison of the values, for
/// which `scalar_eq_zero` and `scalar_lt` are the exact tests.
#[derive(Clone, Copy, Debug, PartialEq, Eq, Structural)]
pub struct Vec3 {
    /// Position on the x-axis
    pub x: u32,
    /// Position on the y-axis
    pub y: u32,
    /// Position on the z-axis
    pub z: u32,
}

impl Vec3 {
    /// Get a new instance of Vec3
    ///
    /// Any bit pattern is accepted, NaN and infinity included; nothing is
    /// validated or altered.
    pub fn new(x: u32, y: u32, z: u32) -> (v: Self)
        ensures
            v.x == x,
            v.y == y,
            v.z == z,
    {
        Self { x, y, z }
    }

    /// Get a vector with minimum values set
    ///
    /// Componentwise: NaN is never selected unless both operands are NaN, and
    /// ties — the two zeros among them — keep the component of `self`.
    pub fn min(&self, vec: &Self) -> (r: Self)
        ensures
            r.x == min_bits(self.x, vec.x),
            r.y == min_bits(self.y, vec.y),
            r.z == min_bits(self.z, vec.z),
    {
        Self {
            x: scalar_min(self.x, vec.x),
            y: scalar_min(self.y, vec.y),
            z: scalar_min(self.z, vec.z),
        }
    }

    /// Get a vector with maximum values set
    ///
    /// Componentwise: NaN is never selected unless both operands are NaN, and
    /// ties — the two zeros among them — keep the component of `self`.
    pub fn max(&self, vec: &Self) -> (r: Self)
        ensures
            r.x == max_bits(self.x, vec.x),
            r.y == max_bits(self.y, vec.y),
            r.z == max_bits(self.z, vec.z),
    {
        Self {
            x: scalar_max(self.x, vec.x),
            y: scalar_max(self.y, vec.y),
            z: scalar_max(self.z, vec.z),
        }
    }

    /// Get a vector with maximum and minimum values set
    ///
    /// Componentwise clamp to [`min`, `max`]. The bounds must be numbers in
    /// order per component; a NaN component of `self` passes through, and a
    /// numeric one comes out within its interval.
    pub fn clamp(&self, min: &Self, max: &Self) -> (r: Self)
        requires
            !is_nan_bits(min.x) && !is_nan_bits(min.y) && !is_nan_bits(min.z),
            !is_nan_bits(max.x) && !is_nan_bits(max.y) && !is_nan_bits(max.z),
            !is_lt_bits(max.x, min.x) && !is_lt_bits(max.y, min.y) && !is_lt_bits(max.z, min.z),
        ensures
            r.x == clamp_bits(self.x, min.x, max.x),
            r.y == clamp_bits(self.y, min.y, max.y),
            r.z == clamp_bits(self.z, min.z, max.z),
            !is_nan_bits(self.x) ==> !is_lt_bits(r.x, min.x) && !is_lt_bits(max.x, r.x),
            !is_nan_bits(self.y) ==> !is_lt_bits(r.y, min.y) && !is_lt_bits(max.y, r.y),
            !is_nan_bits(self.z) ==> !is_lt_bits(r.z, min.z) && !is_lt_bits(max.z, r.z),
    {
        Self {
            x: scalar_clamp(self.x, min.x, max.x),
            y: scalar_clamp(self.y, min.y, max.y),
            z: scalar_clamp(self.z, min.z, max.z),
        }
    }

    /// Get the vector with a z value of 0
    ///
    /// The z component becomes positive zero whatever it held, NaN included;
    /// x and y are carried through unchanged.
    pub fn flatten(self) -> (r: Self)
        ensures
            r.x == self.x,
            r.y == self.y,
            r.z == 0,
    {
        Self { x: self.x, y: self.y, z: 0 }
    }

    /// Get the vector with every component's sign flipped
    ///
    /// IEEE-754 negation is a pure sign-bit flip, so each component keeps its
    /// magnitude bits exactly: zero stays zero (of the other sign) and NaN
    /// stays NaN.
    pub fn neg(self) -> (r: Self)
        ensures
            r.x == self.x ^ SIGN_BIT,
            r.y == self.y ^ SIGN_BIT,
            r.z == self.z ^ SIGN_BIT,
            r.x & ABS_MASK == self.x & ABS_MASK,
            r.y & ABS_MASK == self.y & ABS_MASK,
            r.z & ABS_MASK == self.z & ABS_MASK,
    {
        proof {
            assert(forall|b: u32| (b ^ 0x8000_0000u32) & 0x7FFF_FFFFu32 == b & 0x7FFF_FFFFu32)
                by (bit_vector);
        }
        Self { x: self.x ^ SIGN_BIT, y: self.y ^ SIGN_BIT, z: self.z ^ SIGN_BIT }
    }
}

impl Default for Vec3 {
    /// Get the zero vector, (0, 0, 0): the bit pattern of positive zero in
    /// every component.
    fn default() -> (v: Self)
        ensures
            v.x == 0,
            v.y == 0,
            v.z == 0,
    {
        Self { x: 0, y: 0, z: 0 }
    }
}

} // verus!
