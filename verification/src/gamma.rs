//! An approximation of the gamma function.
//!
//! The Lanczos approximation with `g = 7` and 8 coefficients evaluates the
//! function directly for arguments of 0.5 and above; smaller arguments go
//! through the reflection formula `Gamma(x) = pi / (sin(pi x) Gamma(1 - x))`.
//! The function has poles at zero and the negative integers, where no value
//! exists: those arguments are reported as `None`. The pole test also catches
//! negative infinity, whose truncation leaves it unchanged.

use vstd::prelude::*;

verus! {

use crate::bits::{
    eq64, f64_eq, f64_lt, lt64, neg64, neg_bits, trunc, trunc_bits, F64_EIGHT, F64_HALF,
    F64_ONE, F64_PI, F64_TWO,
};
use crate::host::HostMath;

/// The base term of the Lanczos series, `0.99999999999980993`.
pub const LANCZOS_BASE: u64 = 0x3FEF_FFFF_FFFF_F950;
/// Lanczos coefficient 0, `676.5203681218851`.
pub const LANCZOS_C0: u64 = 0x4085_2429_B6C3_0B05;
/// Lanczos coefficient 1, `-1259.1392167224028`.
pub const LANCZOS_C1: u64 = 0xC093_AC8E_8ED4_171B;
/// Lanczos coefficient 2, `771.32342877765313`.
pub const LANCZOS_C2: u64 = 0x4088_1A96_61D3_B4D8;
/// Lanczos coefficient 3, `-176.61502916214059`.
pub const LANCZOS_C3: u64 = 0xC066_13AE_51A3_2F5D;
/// Lanczos coefficient 4, `12.507343278686905`.
pub const LANCZOS_C4: u64 = 0x4029_03C2_7F8B_9C81;
/// Lanczos coefficient 5, `-0.13857109526572012`.
pub const LANCZOS_C5: u64 = 0xBFC1_BCB2_992B_2855;
/// Lanczos coefficient 6, `9.9843695780195716e-6`.
pub const LANCZOS_C6: u64 = 0x3EE4_F051_4E4E_324F;
/// Lanczos coefficient 7, `1.5056327351493116e-7`.
pub const LANCZOS_C7: u64 = 0x3E84_3550_8F3F_AEEF;

/// The `i`-th Lanczos coefficient.
pub open spec fn lanczos_coeff(i: nat) -> u64 {
    if i == 0 {
        LANCZOS_C0
    } else if i == 1 {
        LANCZOS_C1
    } else if i == 2 {
        LANCZOS_C2
    } else if i == 3 {
        LANCZOS_C3
    } else if i == 4 {
        LANCZOS_C4
    } else if i == 5 {
        LANCZOS_C5
    } else if i == 6 {
        LANCZOS_C6
    } else {
        LANCZOS_C7
    }
}

/// The partial Lanczos series after `k` terms: the base term plus
/// `coefficients[i] / (z + i + 1)` for `i` below `k`.
pub open spec fn lanczos_sum_spec<M: HostMath>(z: u64, k: nat) -> u64
    decreases k,
{
    if k == 0 {
        LANCZOS_BASE
    } else {
        M::add_spec(
            lanczos_sum_spec::<M>(z, (k - 1) as nat),
            M::div_spec(
                lanczos_coeff((k - 1) as nat),
                M::add_spec(M::add_spec(z, M::of_u64_spec((k - 1) as u64)), F64_ONE),
            ),
        )
    }
}

/// The direct Lanczos evaluation, valid for arguments of 0.5 and above:
/// with `z = x - 1` and `t = z - 0.5 + 8`, the value is
/// `sqrt(2 pi) * t^(z + 0.5) * e^(-t) * sum`.
pub open spec fn lanczos_gamma_spec<M: HostMath>(x: u64) -> u64 {
    let z = M::sub_spec(x, F64_ONE);
    let t = M::add_spec(M::sub_spec(z, F64_HALF), F64_EIGHT);
    M::mul_spec(
        M::mul_spec(
            M::mul_spec(
                M::sqrt_spec(M::mul_spec(F64_TWO, F64_PI)),
                M::pow_spec(t, M::add_spec(z, F64_HALF)),
            ),
            M::exp_spec(neg_bits(t)),
        ),
        lanczos_sum_spec::<M>(z, 8),
    )
}

/// The reflection formula, used below 0.5:
/// `pi / (sin(pi x) * Gamma(1 - x))` with the direct branch on `1 - x`.
pub open spec fn reflection_spec<M: HostMath>(x: u64) -> u64 {
    M::div_spec(
        F64_PI,
        M::mul_spec(
            M::sin_spec(M::mul_spec(F64_PI, x)),
            lanczos_gamma_spec::<M>(M::sub_spec(F64_ONE, x)),
        ),
    )
}

/// True exactly where the gamma function has no value: the argument is below
/// 0.5 and truncation leaves it unchanged, which holds of zero, the negative
/// integers and negative infinity.
pub open spec fn gamma_pole(x: u64) -> bool {
    f64_lt(x, F64_HALF) && f64_eq(trunc_bits(x), x)
}

/// The gamma function as a bit pattern: `None` at the poles, the reflection
/// formula below 0.5, the direct Lanczos evaluation otherwise.
pub open spec fn gamma_spec<M: HostMath>(x: u64) -> Option<u64> {
    if gamma_pole(x) {
        Option::<u64>::None
    } else if f64_lt(x, F64_HALF) {
        Option::<u64>::Some(reflection_spec::<M>(x))
    } else {
        Option::<u64>::Some(lanczos_gamma_spec::<M>(x))
    }
}

fn gamma_undefined_for(x: u64) -> (r: bool)
    ensures
        r == gamma_pole(x),
{
    // The gamma function is not defined for zero nor for negative integers;
    // a whole number is one that truncation towards zero leaves unchanged.
    lt64(x, F64_HALF) && eq64(trunc(x), x)
}

fn lanczos_coeff_at(i: u64) -> (c: u64)
    requires
        i < 8,
    ensures
        c == lanczos_coeff(i as nat),
{
    if i == 0 {
        LANCZOS_C0
    } else if i == 1 {
        LANCZOS_C1
    } else if i == 2 {
        LANCZOS_C2
    } else if i == 3 {
        LANCZOS_C3
    } else if i == 4 {
        LANCZOS_C4
    } else if i == 5 {
        LANCZOS_C5
    } else if i == 6 {
        LANCZOS_C6
    } else {
        LANCZOS_C7
    }
}

// This function only works for arguments of 0.5 or greater.
fn lanczos_gamma<M: HostMath>(x: u64) -> (r: u64)
    ensures
        r == lanczos_gamma_spec::<M>(x),
{
    let z: u64 = M::sub(x, F64_ONE);
    let mut acc: u64 = LANCZOS_BASE;
    let mut i: u64 = 0;
    while i < 8
        invariant
            i <= 8,
            acc == lanczos_sum_spec::<M>(z, i as nat),
        decreases 8 - i,
    {
        let c: u64 = lanczos_coeff_at(i);
        acc = M::add(acc, M::div(c, M::add(M::add(z, M::of_u64(i)), F64_ONE)));
        i = i + 1;
    }
    let t: u64 = M::add(M::sub(z, F64_HALF), F64_EIGHT);
    M::mul(
        M::mul(
            M::mul(
                M::sqrt(M::mul(F64_TWO, F64_PI)),
                M::pow(t, M::add(z, F64_HALF)),
            ),
            M::exp(neg64(t)),
        ),
        acc,
    )
}

// The reflection formula must be used when x is less than 0.5.
fn reflection_formula<M: HostMath>(x: u64) -> (r: u64)
    ensures
        r == reflection_spec::<M>(x),
{
    M::div(
        F64_PI,
        M::mul(
            M::sin(M::mul(F64_PI, x)),
            lanczos_gamma::<M>(M::sub(F64_ONE, x)),
        ),
    )
}

/// Returns the approximate value of the gamma function for the given
/// argument, or `None` if the gamma function has no defined value there:
/// `None` exactly when the argument is below 0.5 and truncation leaves it
/// unchanged (zero, the negative integers, negative infinity).
pub fn calculate<M: HostMath>(x: u64) -> (r: Option<u64>)
    ensures
        r == gamma_spec::<M>(x),
        r is None <==> gamma_pole(x),
{
    if gamma_undefined_for(x) {
        return Option::None;
    }
    if lt64(x, F64_HALF) {
        return Option::Some(reflection_formula::<M>(x));
    }
    Option::Some(lanczos_gamma::<M>(x))
}

} // verus!
