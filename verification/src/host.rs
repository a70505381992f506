//! The platform math capability.
//!
//! The distribution code needs IEEE-754 double-precision arithmetic and a
//! handful of transcendental primitives. Verified code cannot perform those
//! operations itself, so they are abstracted as the [`HostMath`] trait: each
//! operation is a function from bit patterns to bit patterns, paired with a
//! spec-level name that pins the result down as a pure function of the
//! arguments (IEEE-754 operations are deterministic). An implementation is
//! expected to forward to the platform's double-precision arithmetic, for
//! example through `libm`; such an implementation lives outside the verified
//! code, so each contract below is trusted to the extent that the backing
//! operations honour IEEE-754.

use vstd::prelude::*;

verus! {

use crate::bits::{f64_is_nan, neg_bits};

/// Double-precision arithmetic and transcendentals supplied by the platform,
/// over bit patterns.
///
/// Each `*_spec` function names the bit pattern the corresponding operation
/// returns; the operation's only promise is to agree with its name, which
/// makes every operation referentially transparent. The proof obligations at
/// the bottom record algebraic identities of IEEE-754 multiplication and
/// division that hold whenever the result is a number: the sign of a product
/// or quotient is the exclusive or of the operands' signs, and its magnitude
/// does not depend on them.
pub trait HostMath {
    /// The bit pattern of `a + b`.
    spec fn add_spec(a: u64, b: u64) -> u64;

    /// The bit pattern of `a - b`.
    spec fn sub_spec(a: u64, b: u64) -> u64;

    /// The bit pattern of `a * b`.
    spec fn mul_spec(a: u64, b: u64) -> u64;

    /// The bit pattern of `a / b`.
    spec fn div_spec(a: u64, b: u64) -> u64;

    /// The bit pattern of the square root of `x`.
    spec fn sqrt_spec(x: u64) -> u64;

    /// The bit pattern of `e` raised to `x`.
    spec fn exp_spec(x: u64) -> u64;

    /// The bit pattern of the natural logarithm of `x`.
    spec fn log_spec(x: u64) -> u64;

    /// The bit pattern of `x` raised to `y`.
    spec fn pow_spec(x: u64, y: u64) -> u64;

    /// The bit pattern of the sine of `x`.
    spec fn sin_spec(x: u64) -> u64;

    /// The bit pattern of the cosine of `x`.
    spec fn cos_spec(x: u64) -> u64;

    /// The bit pattern of the arctangent of `x`.
    spec fn atan_spec(x: u64) -> u64;

    /// The bit pattern of the Gauss error function at `x`.
    spec fn erf_spec(x: u64) -> u64;

    /// The bit pattern of the gamma function at `x`.
    spec fn tgamma_spec(x: u64) -> u64;

    /// The bit pattern of the double nearest to the integer `i`.
    spec fn of_u64_spec(i: u64) -> u64;

    /// IEEE-754 double addition.
    fn add(a: u64, b: u64) -> (r: u64)
        ensures
            r == Self::add_spec(a, b),
    ;

    /// IEEE-754 double subtraction.
    fn sub(a: u64, b: u64) -> (r: u64)
        ensures
            r == Self::sub_spec(a, b),
    ;

    /// IEEE-754 double multiplication.
    fn mul(a: u64, b: u64) -> (r: u64)
        ensures
            r == Self::mul_spec(a, b),
    ;

    /// IEEE-754 double division.
    fn div(a: u64, b: u64) -> (r: u64)
        ensures
            r == Self::div_spec(a, b),
    ;

    /// Double-precision square root.
    fn sqrt(x: u64) -> (r: u64)
        ensures
            r == Self::sqrt_spec(x),
    ;

    /// Double-precision exponential.
    fn exp(x: u64) -> (r: u64)
        ensures
            r == Self::exp_spec(x),
    ;

    /// Double-precision natural logarithm.
    fn log(x: u64) -> (r: u64)
        ensures
            r == Self::log_spec(x),
    ;

    /// Double-precision power `x^y`.
    fn pow(x: u64, y: u64) -> (r: u64)
        ensures
            r == Self::pow_spec(x, y),
    ;

    /// Double-precision sine.
    fn sin(x: u64) -> (r: u64)
        ensures
            r == Self::sin_spec(x),
    ;

    /// Double-precision cosine.
    fn cos(x: u64) -> (r: u64)
        ensures
            r == Self::cos_spec(x),
    ;

    /// Double-precision arctangent.
    fn atan(x: u64) -> (r: u64)
        ensures
            r == Self::atan_spec(x),
    ;

    /// Double-precision Gauss error function.
    fn erf(x: u64) -> (r: u64)
        ensures
            r == Self::erf_spec(x),
    ;

    /// Double-precision gamma function.
    fn tgamma(x: u64) -> (r: u64)
        ensures
            r == Self::tgamma_spec(x),
    ;

    /// Conversion of an unsigned integer to the nearest double.
    fn of_u64(i: u64) -> (r: u64)
        ensures
            r == Self::of_u64_spec(i),
    ;

    /// IEEE-754 multiplication of two operands whose product is a number is
    /// commutative.
    proof fn mul_comm(a: u64, b: u64)
        requires
            !f64_is_nan(Self::mul_spec(a, b)),
        ensures
            Self::mul_spec(a, b) == Self::mul_spec(b, a),
    ;

    /// Negating a factor negates a product that is a number.
    proof fn mul_neg(a: u64, b: u64)
        requires
            !f64_is_nan(Self::mul_spec(a, b)),
        ensures
            Self::mul_spec(neg_bits(a), b) == neg_bits(Self::mul_spec(a, b)),
    ;

    /// Negating a dividend negates a quotient that is a number.
    proof fn div_neg(a: u64, b: u64)
        requires
            !f64_is_nan(Self::div_spec(a, b)),
        ensures
            Self::div_spec(neg_bits(a), b) == neg_bits(Self::div_spec(a, b)),
    ;

    /// The square of a non-NaN double is never NaN.
    proof fn square_not_nan(a: u64)
        requires
            !f64_is_nan(a),
        ensures
            !f64_is_nan(Self::mul_spec(a, a)),
    ;
}

} // verus!
