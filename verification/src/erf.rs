//! The inverse of the Gauss error function.
//!
//! Winitzki's rational approximation: the function is odd, so the sign is
//! factored out, the magnitude is processed through a logarithmic formula with
//! the shape constant `a = 0.147`, and the sign is restored at the end. As the
//! argument approaches +-1 the logarithm diverges and the result grows without
//! bound, which is the correct limiting behaviour.

use vstd::prelude::*;

verus! {

use crate::bits::{
    f64_lt, lt64, neg64, neg_bits, F64_NEG_ONE, F64_ONE, F64_PI, F64_TWO, F64_ZERO,
};
use crate::host::HostMath;

/// Winitzki's shape constant `a = 0.147`.
pub const WINITZKI_A: u64 = 0x3FC2_D0E5_6041_8937;

/// The inverse error function as a bit pattern: with `ln = log(1 - x^2)`,
/// `f1 = 2/(pi a)` and `f2 = ln/2`, the magnitude is
/// `sqrt(-f1 - f2 + sqrt((f1 + f2)^2 - ln/a))`, and the argument's sign is
/// restored by the final product.
pub open spec fn inverse_erf_spec<M: HostMath>(x: u64) -> u64 {
    let sign = if f64_lt(x, F64_ZERO) {
        F64_NEG_ONE
    } else {
        F64_ONE
    };
    let ax = if f64_lt(x, F64_ZERO) {
        neg_bits(x)
    } else {
        x
    };
    let ln = M::log_spec(M::sub_spec(F64_ONE, M::mul_spec(ax, ax)));
    let f1 = M::div_spec(F64_TWO, M::mul_spec(F64_PI, WINITZKI_A));
    let f2 = M::div_spec(ln, F64_TWO);
    let f3 = M::add_spec(f1, f2);
    let f4 = M::mul_spec(M::div_spec(F64_ONE, WINITZKI_A), ln);
    M::mul_spec(
        sign,
        M::sqrt_spec(M::add_spec(
            M::sub_spec(neg_bits(f1), f2),
            M::sqrt_spec(M::sub_spec(M::mul_spec(f3, f3), f4)),
        )),
    )
}

/// Returns the inverse of the Gauss error function, over bit patterns, by
/// Winitzki's approximation.
pub fn inverse_erf<M: HostMath>(x: u64) -> (r: u64)
    ensures
        r == inverse_erf_spec::<M>(x),
{
    let lower: bool = lt64(x, F64_ZERO);
    let sign: u64 = if lower {
        F64_NEG_ONE
    } else {
        F64_ONE
    };
    let ax: u64 = if lower {
        neg64(x)
    } else {
        x
    };
    let ln: u64 = M::log(M::sub(F64_ONE, M::mul(ax, ax)));
    let f1: u64 = M::div(F64_TWO, M::mul(F64_PI, WINITZKI_A));
    let f2: u64 = M::div(ln, F64_TWO);
    let f3: u64 = M::add(f1, f2);
    let f4: u64 = M::mul(M::div(F64_ONE, WINITZKI_A), ln);
    M::mul(
        sign,
        M::sqrt(M::add(
            M::sub(neg64(f1), f2),
            M::sqrt(M::sub(M::mul(f3, f3), f4)),
        )),
    )
}

} // verus!
