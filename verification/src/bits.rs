//! Bit-level view of IEEE-754 double-precision values.
//!
//! Every real-valued quantity in this crate is carried as the 64-bit pattern of
//! an IEEE-754 double (1 sign bit, 11 exponent bits, 52 fraction bits). The
//! classification predicates, the total order on non-NaN values, absolute
//! value, negation and truncation are pure bit arithmetic, so they are defined
//! and verified here without any help from the platform's floating-point unit.

use vstd::prelude::*;

verus! {

use vstd::arithmetic::power2::{pow2, lemma_pow2_unfold, lemma2_to64, lemma2_to64_rest};

/// Mask of the sign bit.
pub const F64_SIGN_MASK: u64 = 0x8000_0000_0000_0000;
/// Mask of everything but the sign bit (the magnitude).
pub const F64_ABS_MASK: u64 = 0x7FFF_FFFF_FFFF_FFFF;
/// Mask of the 11 exponent bits.
pub const F64_EXP_MASK: u64 = 0x7FF0_0000_0000_0000;
/// Mask of the 52 fraction bits.
pub const F64_FRAC_MASK: u64 = 0x000F_FFFF_FFFF_FFFF;
/// The implicit leading bit of a normal double's significand.
pub const F64_IMPLICIT_BIT: u64 = 0x0010_0000_0000_0000;

/// The pattern of `0.0`.
pub const F64_ZERO: u64 = 0x0000_0000_0000_0000;
/// The pattern of `0.5`.
pub const F64_HALF: u64 = 0x3FE0_0000_0000_0000;
/// The pattern of `-0.5`.
pub const F64_NEG_HALF: u64 = 0xBFE0_0000_0000_0000;
/// The pattern of `1.0`.
pub const F64_ONE: u64 = 0x3FF0_0000_0000_0000;
/// The pattern of `-1.0`.
pub const F64_NEG_ONE: u64 = 0xBFF0_0000_0000_0000;
/// The pattern of `2.0`.
pub const F64_TWO: u64 = 0x4000_0000_0000_0000;
/// The pattern of `3.0`.
pub const F64_THREE: u64 = 0x4008_0000_0000_0000;
/// The pattern of `4.0`.
pub const F64_FOUR: u64 = 0x4010_0000_0000_0000;
/// The pattern of `5.0`.
pub const F64_FIVE: u64 = 0x4014_0000_0000_0000;
/// The pattern of `8.0`.
pub const F64_EIGHT: u64 = 0x4020_0000_0000_0000;
/// The pattern of the double closest to pi.
pub const F64_PI: u64 = 0x4009_21FB_5444_2D18;
/// The pattern of the double closest to Euler's number e.
pub const F64_E: u64 = 0x4005_BF0A_8B14_5769;
/// The pattern of the double closest to the square root of 2.
pub const F64_SQRT_2: u64 = 0x3FF6_A09E_667F_3BCD;
/// The pattern of positive infinity.
pub const F64_INFINITY: u64 = 0x7FF0_0000_0000_0000;
/// The pattern of negative infinity.
pub const F64_NEG_INFINITY: u64 = 0xFFF0_0000_0000_0000;
/// The canonical quiet NaN pattern, returned for invalid parameters.
pub const F64_NAN: u64 = 0x7FF8_0000_0000_0000;

/// True when the pattern encodes a NaN: exponent all ones, fraction non-zero.
pub open spec fn f64_is_nan(b: u64) -> bool {
    b & F64_EXP_MASK == F64_EXP_MASK && b & F64_FRAC_MASK != 0
}

/// True when the sign bit is set.
pub open spec fn f64_is_sign_negative(b: u64) -> bool {
    b & F64_SIGN_MASK != 0
}

/// The biased exponent field of the pattern, in `[0, 0x7FF]`.
pub open spec fn f64_exponent(b: u64) -> u64 {
    (b & F64_EXP_MASK) >> 52u64
}

/// The magnitude of a pattern: its bits with the sign cleared.
pub open spec fn abs_bits(b: u64) -> u64 {
    b & F64_ABS_MASK
}

/// The pattern with the sign bit flipped (IEEE-754 negation).
pub open spec fn neg_bits(b: u64) -> u64 {
    b ^ F64_SIGN_MASK
}

/// The signed key that orders non-NaN doubles: non-negative patterns sort by
/// magnitude, negative patterns by descending magnitude, and the two zeroes
/// share the key 0.
pub open spec fn f64_key(b: u64) -> int {
    if f64_is_sign_negative(b) {
        -(abs_bits(b) as int)
    } else {
        abs_bits(b) as int
    }
}

/// IEEE-754 `<` on doubles: false whenever either side is NaN.
pub open spec fn f64_lt(a: u64, b: u64) -> bool {
    !f64_is_nan(a) && !f64_is_nan(b) && f64_key(a) < f64_key(b)
}

/// IEEE-754 `<=` on doubles: false whenever either side is NaN.
pub open spec fn f64_le(a: u64, b: u64) -> bool {
    !f64_is_nan(a) && !f64_is_nan(b) && f64_key(a) <= f64_key(b)
}

/// IEEE-754 `==` on doubles: NaN equals nothing, and `-0.0 == 0.0`.
pub open spec fn f64_eq(a: u64, b: u64) -> bool {
    !f64_is_nan(a) && !f64_is_nan(b) && f64_key(a) == f64_key(b)
}

/// The pattern of the double truncated towards zero: values below 1 in
/// magnitude become a signed zero, values with no fractional bits (among them
/// the infinities and NaNs) stay as they are, and for the rest the fractional
/// part of the significand is cleared.
pub open spec fn trunc_bits(b: u64) -> u64 {
    let e = f64_exponent(b);
    if e >= 1075 {
        b
    } else if e <= 1022 {
        b & F64_SIGN_MASK
    } else {
        let low = ((1u64 << ((1075 - e) as u64)) - 1) as u64;
        b & !low
    }
}

/// The magnitude of a pattern that encodes a whole number, as an unsigned
/// integer: 0 for magnitudes below 1, the exact value for magnitudes up to
/// 2^53, and `u64::MAX` as a saturation marker beyond that (among them the
/// infinities and NaNs).
pub open spec fn whole_magnitude(b: u64) -> u64 {
    let e = f64_exponent(b);
    if e < 1023 {
        0u64
    } else if e <= 1075 {
        ((b & F64_FRAC_MASK) | F64_IMPLICIT_BIT) >> ((1075 - e) as u64)
    } else {
        u64::MAX
    }
}

/// NaN classification test, verified against [`f64_is_nan`].
pub fn is_nan64(b: u64) -> (r: bool)
    ensures
        r == f64_is_nan(b),
{
    b & F64_EXP_MASK == F64_EXP_MASK && b & F64_FRAC_MASK != 0
}

/// Absolute value of a double, computed by clearing the sign bit.
pub fn fabs(b: u64) -> (r: u64)
    ensures
        r == abs_bits(b),
{
    b & F64_ABS_MASK
}

/// Negation of a double, computed by flipping the sign bit.
pub fn neg64(b: u64) -> (r: u64)
    ensures
        r == neg_bits(b),
{
    b ^ F64_SIGN_MASK
}

/// IEEE-754 `<` on doubles, verified against [`f64_lt`].
pub fn lt64(a: u64, b: u64) -> (r: bool)
    ensures
        r == f64_lt(a, b),
{
    if is_nan64(a) || is_nan64(b) {
        return false;
    }
    let sa: bool = a & F64_SIGN_MASK != 0;
    let sb: bool = b & F64_SIGN_MASK != 0;
    let ma: u64 = a & F64_ABS_MASK;
    let mb: u64 = b & F64_ABS_MASK;
    if sa && sb {
        mb < ma
    } else if sa {
        !(ma == 0 && mb == 0)
    } else if sb {
        false
    } else {
        ma < mb
    }
}

/// IEEE-754 `<=` on doubles, verified against [`f64_le`].
pub fn le64(a: u64, b: u64) -> (r: bool)
    ensures
        r == f64_le(a, b),
{
    if is_nan64(a) || is_nan64(b) {
        return false;
    }
    let sa: bool = a & F64_SIGN_MASK != 0;
    let sb: bool = b & F64_SIGN_MASK != 0;
    let ma: u64 = a & F64_ABS_MASK;
    let mb: u64 = b & F64_ABS_MASK;
    if sa && sb {
        mb <= ma
    } else if sa {
        true
    } else if sb {
        ma == 0 && mb == 0
    } else {
        ma <= mb
    }
}

/// IEEE-754 `==` on doubles, verified against [`f64_eq`].
pub fn eq64(a: u64, b: u64) -> (r: bool)
    ensures
        r == f64_eq(a, b),
{
    if is_nan64(a) || is_nan64(b) {
        return false;
    }
    let sa: bool = a & F64_SIGN_MASK != 0;
    let sb: bool = b & F64_SIGN_MASK != 0;
    let ma: u64 = a & F64_ABS_MASK;
    let mb: u64 = b & F64_ABS_MASK;
    (sa == sb && ma == mb) || (ma == 0 && mb == 0)
}

/// Truncation towards zero, verified against [`trunc_bits`].
pub fn trunc(b: u64) -> (r: u64)
    ensures
        r == trunc_bits(b),
{
    let e: u64 = (b & F64_EXP_MASK) >> 52u64;
    proof {
        assert((b & F64_EXP_MASK) >> 52u64 <= 0x7FF) by (bit_vector);
    }
    if e >= 1075 {
        b
    } else if e <= 1022 {
        b & F64_SIGN_MASK
    } else {
        let k: u64 = 1075 - e;
        proof {
            assert(k <= 52 ==> (1u64 << k) >= 1) by (bit_vector);
        }
        let low: u64 = (1u64 << k) - 1;
        b & !low
    }
}

/// The whole-number magnitude of a pattern, verified against
/// [`whole_magnitude`].
pub fn whole_to_u64(b: u64) -> (r: u64)
    ensures
        r == whole_magnitude(b),
{
    let e: u64 = (b & F64_EXP_MASK) >> 52u64;
    proof {
        assert((b & F64_EXP_MASK) >> 52u64 <= 0x7FF) by (bit_vector);
    }
    if e < 1023 {
        0u64
    } else if e <= 1075 {
        ((b & F64_FRAC_MASK) | F64_IMPLICIT_BIT) >> (1075 - e)
    } else {
        u64::MAX
    }
}

/// The position of the highest set bit of `v`: the number of halvings that
/// reduce `v` to 1.
pub open spec fn floor_log2(v: u64) -> nat
    decreases v,
{
    if v <= 1 {
        0
    } else {
        1 + floor_log2(v / 2)
    }
}

/// The pattern of the whole number `v`, for `v` between 1 and 2^52: the bits
/// of `v` are shifted until the highest one becomes the significand's
/// implicit bit, and the exponent records the shift.
pub open spec fn encode_whole(v: u64) -> u64 {
    let h = floor_log2(v);
    (((1023 + h) as u64) << 52u64) | ((v << ((52 - h) as u64)) & F64_FRAC_MASK)
}

/// The pattern of the double rounded towards negative infinity: magnitudes
/// below 1 become a signed zero or -1 by sign, patterns with no fractional
/// bits (among them the infinities and NaNs) stay as they are, and a negative
/// value with a fractional part steps past its truncation to the next whole
/// number down.
pub open spec fn floor_bits(b: u64) -> u64 {
    let e = f64_exponent(b);
    if e >= 1075 {
        b
    } else if e <= 1022 {
        if f64_is_sign_negative(b) && abs_bits(b) != 0 {
            F64_NEG_ONE
        } else {
            b & F64_SIGN_MASK
        }
    } else {
        let t = trunc_bits(b);
        if !f64_is_sign_negative(b) || t == b {
            t
        } else {
            encode_whole((whole_magnitude(t) + 1) as u64) | F64_SIGN_MASK
        }
    }
}

/// A value below a power of two has its highest set bit below the exponent.
proof fn lemma_floor_log2_bound(v: u64, k: nat)
    requires
        (v as nat) < pow2(k + 1),
    ensures
        floor_log2(v) <= k,
    decreases v,
{
    if v > 1 {
        lemma_pow2_unfold(k + 1);
        if k == 0 {
            assert(pow2(1) == 2) by {
                lemma2_to64();
            }
        }
        lemma_floor_log2_bound(v / 2, (k - 1) as nat);
    }
}

fn log2_floor(v: u64) -> (h: u64)
    requires
        1 <= v,
    ensures
        h as nat == floor_log2(v),
{
    proof {
        lemma2_to64();
        lemma_floor_log2_bound(v, 63);
    }
    let mut w: u64 = v;
    let mut h: u64 = 0;
    while w > 1
        invariant
            1 <= w,
            floor_log2(v) == floor_log2(w) + h,
            h <= 63,
            floor_log2(v) <= 63,
        decreases w,
    {
        w = w / 2;
        h = h + 1;
    }
    h
}

fn whole_from_u64(v: u64) -> (r: u64)
    requires
        1 <= v,
        v <= 0x0010_0000_0000_0000,
    ensures
        r == encode_whole(v),
{
    proof {
        lemma2_to64();
        lemma2_to64_rest();
        lemma_floor_log2_bound(v, 52);
    }
    let h: u64 = log2_floor(v);
    ((1023 + h) << 52u64) | ((v << (52 - h)) & F64_FRAC_MASK)
}

/// Rounding towards negative infinity, verified against [`floor_bits`].
pub fn floor(b: u64) -> (r: u64)
    ensures
        r == floor_bits(b),
{
    let e: u64 = (b & F64_EXP_MASK) >> 52u64;
    proof {
        assert((b & F64_EXP_MASK) >> 52u64 <= 0x7FF) by (bit_vector);
    }
    if e >= 1075 {
        b
    } else if e <= 1022 {
        if b & F64_SIGN_MASK != 0 && b & F64_ABS_MASK != 0 {
            F64_NEG_ONE
        } else {
            b & F64_SIGN_MASK
        }
    } else {
        let t: u64 = trunc(b);
        if b & F64_SIGN_MASK == 0 || t == b {
            t
        } else {
            let kk: u64 = 1075 - e;
            proof {
                assert(
                    1 <= kk && kk <= 52 && t == b & !(((1u64 << kk) - 1) as u64)
                        ==> (t & F64_EXP_MASK) == (b & F64_EXP_MASK)
                            && ((t & F64_FRAC_MASK) | F64_IMPLICIT_BIT) >> kk >= 1
                            && ((t & F64_FRAC_MASK) | F64_IMPLICIT_BIT) >> kk
                                <= 0x000F_FFFF_FFFF_FFFF
                ) by (bit_vector);
            }
            let m: u64 = whole_to_u64(t);
            whole_from_u64(m + 1) | F64_SIGN_MASK
        }
    }
}

/// Negation is an involution on bit patterns.
pub proof fn lemma_neg_bits_involution(b: u64)
    by (bit_vector)
    ensures
        neg_bits(neg_bits(b)) == b,
{
}

/// Negation changes only the sign bit, so it preserves NaN-ness.
pub proof fn lemma_neg_bits_nan(b: u64)
    by (bit_vector)
    ensures
        f64_is_nan(neg_bits(b)) == f64_is_nan(b),
{
}

/// Classification of the named constants used throughout the crate.
pub proof fn lemma_const_classification()
    by (bit_vector)
    ensures
        f64_is_nan(F64_NAN),
        !f64_is_nan(F64_ZERO),
        !f64_is_nan(F64_ONE),
        !f64_is_nan(F64_NEG_ONE),
        !f64_is_nan(F64_HALF),
        !f64_is_nan(F64_TWO),
        !f64_is_nan(F64_INFINITY),
        !f64_is_nan(F64_NEG_INFINITY),
        abs_bits(F64_ZERO) == 0,
        !f64_is_sign_negative(F64_ZERO),
        !f64_is_sign_negative(F64_ONE),
        abs_bits(F64_ONE) == F64_ONE,
        abs_bits(F64_INFINITY) == F64_INFINITY,
        abs_bits(F64_NEG_INFINITY) == F64_INFINITY,
        !f64_is_sign_negative(F64_INFINITY),
        f64_is_sign_negative(F64_NEG_INFINITY),
        abs_bits(F64_NEG_ONE) == F64_ONE,
        f64_is_sign_negative(F64_NEG_ONE),
        abs_bits(F64_HALF) == F64_HALF,
        !f64_is_sign_negative(F64_HALF),
        abs_bits(F64_TWO) == F64_TWO,
        !f64_is_sign_negative(F64_TWO),
{
}

} // verus!
