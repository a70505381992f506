//! The Student's t distribution.
//!
//! The density follows the textbook gamma-function formula. The cumulative
//! distribution is Hill's Algorithm 395: an asymptotic Cornish-Fisher style
//! correction for large or non-integer degrees of freedom, a cosine-series
//! recurrence for small integer degrees of freedom near the centre, and a tail
//! series for the rest. The quantile is Hill's Algorithm 396: closed forms for
//! one and two degrees of freedom, and otherwise a rational first estimate
//! refined either by an asymptotic inverse expansion about the normal quantile
//! or by a direct low-order correction. Infinite degrees of freedom delegate
//! to the standard Normal distribution in all three operations.

use vstd::prelude::*;

verus! {

use crate::bits::{
    f64_eq, f64_is_nan, f64_le, f64_lt, is_nan64, eq64, le64, lt64, neg64, neg_bits, trunc,
    trunc_bits, whole_to_u64, whole_magnitude, lemma_const_classification, F64_FIVE, F64_FOUR, F64_HALF,
    F64_INFINITY, F64_NAN, F64_NEG_INFINITY, F64_NEG_ONE, F64_ONE, F64_PI, F64_THREE, F64_TWO,
    F64_ZERO,
};
use crate::host::HostMath;
use crate::normal::{normal_cdf_spec, normal_pdf_spec, normal_ppf_spec, Normal};

/// `1e-5`, the threshold under which Hill's asymptotic branch keeps `t/n` in
/// place of `ln(1 + t/n)`.
pub const T_SMALL_Y: u64 = 0x3EE4_F8B5_88E3_68F1;
/// `0.4`.
pub const T_0_4: u64 = 0x3FD9_9999_9999_999A;
/// `-0.4`.
pub const T_NEG_0_4: u64 = 0xBFD9_9999_9999_999A;
/// `3.3`.
pub const T_3_3: u64 = 0x400A_6666_6666_6666;
/// `24.0`.
pub const T_24: u64 = 0x4038_0000_0000_0000;
/// `85.5`.
pub const T_85_5: u64 = 0x4055_6000_0000_0000;
/// `0.8`.
pub const T_0_8: u64 = 0x3FE9_9999_9999_999A;
/// `100.0`.
pub const T_100: u64 = 0x4059_0000_0000_0000;
/// `48.0`.
pub const T_48: u64 = 0x4048_0000_0000_0000;
/// `20700.0`.
pub const T_20700: u64 = 0x40D4_3700_0000_0000;
/// `98.0`.
pub const T_98: u64 = 0x4058_8000_0000_0000;
/// `16.0`.
pub const T_16: u64 = 0x4030_0000_0000_0000;
/// `96.36`.
pub const T_96_36: u64 = 0x4058_170A_3D70_A3D7;
/// `94.5`.
pub const T_94_5: u64 = 0x4057_A000_0000_0000;
/// `0.089`.
pub const T_0_089: u64 = 0x3FB6_C8B4_3958_1062;
/// `0.822`.
pub const T_0_822: u64 = 0x3FEA_4DD2_F1A9_FBE7;
/// `6.0`.
pub const T_6: u64 = 0x4018_0000_0000_0000;
/// `0.3`.
pub const T_0_3: u64 = 0x3FD3_3333_3333_3333;
/// `4.5`.
pub const T_4_5: u64 = 0x4012_0000_0000_0000;
/// `0.6`.
pub const T_0_6: u64 = 0x3FE3_3333_3333_3333;
/// `7.0`.
pub const T_7: u64 = 0x401C_0000_0000_0000;
/// `0.05`.
pub const T_0_05: u64 = 0x3FA9_9999_9999_999A;
/// `0.002`.
pub const T_0_002: u64 = 0x3F60_624D_D2F1_A9FC;
/// `6.3`.
pub const T_6_3: u64 = 0x4019_3333_3333_3333;
/// `36.0`.
pub const T_36: u64 = 0x4042_0000_0000_0000;

/// Iteration cap for the tail series of the cumulative distribution. The
/// series gains at least a fixed factor per step in double precision, so it
/// settles within a few hundred iterations; the cap exists to bound the loop
/// for the prover and is far beyond what convergence needs.
pub const TAIL_SERIES_FUEL: u64 = 100000;

/// Hill's even/odd recurrence, run downwards: while `m > 1`, replace `a` by
/// `(m-1)/(b*m) * a + y` and `m` by `m - 2`.
pub open spec fn cdf_recurrence_spec<M: HostMath>(a: u64, y: u64, b: u64, m: u64) -> u64
    decreases m,
{
    if m > 1 {
        cdf_recurrence_spec::<M>(
            M::add_spec(
                M::mul_spec(
                    M::div_spec(M::of_u64_spec((m - 1) as u64), M::mul_spec(b, M::of_u64_spec(m))),
                    a,
                ),
                y,
            ),
            y,
            b,
            (m - 2) as u64,
        )
    } else {
        a
    }
}

/// The tail series of Hill's Algorithm 395: starting from `a = sqrt(b)` and
/// `y = a * m`, step `j` by 2, scale `y` by `(j-1)/(b*j)` and accumulate
/// `y/(m+j)` into `a` until `a` stops changing (or the fuel runs out).
pub open spec fn cdf_tail_series_spec<M: HostMath>(
    a: u64, z: u64, y: u64, b: u64, m: u64, j: u64, fuel: nat,
) -> u64
    decreases fuel,
{
    if fuel == 0 || f64_eq(a, z) {
        a
    } else {
        let j2 = (j + 2) as u64;
        let y2 = M::div_spec(
            M::mul_spec(y, M::of_u64_spec((j2 - 1) as u64)),
            M::mul_spec(b, M::of_u64_spec(j2)),
        );
        let a2 = M::add_spec(a, M::div_spec(y2, M::of_u64_spec((m + j2) as u64)));
        cdf_tail_series_spec::<M>(a2, a, y2, b, m, j2, (fuel - 1) as nat)
    }
}

/// The asymptotic branch of Hill's Algorithm 395: a Cornish-Fisher style
/// correction maps the deviate to a standard-normal one.
pub open spec fn cdf_asymptotic_spec<M: HostMath>(
    start: u64, sign: u64, y0: u64, b: u64, n: u64,
) -> u64 {
    let y1 = if f64_lt(T_SMALL_Y, y0) {
        M::log_spec(b)
    } else {
        y0
    };
    let a = M::sub_spec(n, F64_HALF);
    let b2 = M::mul_spec(M::mul_spec(T_48, a), a);
    let y2 = M::mul_spec(y1, a);
    let p1 = M::sub_spec(
        M::mul_spec(
            M::sub_spec(
                M::mul_spec(M::sub_spec(M::mul_spec(T_NEG_0_4, y2), T_3_3), y2),
                T_24,
            ),
            y2,
        ),
        T_85_5,
    );
    let p2 = M::add_spec(M::add_spec(M::mul_spec(M::mul_spec(T_0_8, y2), y2), T_100), b2);
    let y3 = M::mul_spec(
        M::add_spec(
            M::div_spec(
                M::add_spec(M::add_spec(M::div_spec(p1, p2), y2), F64_THREE),
                b2,
            ),
            F64_ONE,
        ),
        M::sqrt_spec(y2),
    );
    M::add_spec(
        start,
        M::mul_spec(sign, normal_cdf_spec::<M>(neg_bits(y3), F64_ZERO, F64_ONE)),
    )
}

/// The finishing form shared by the cosine and tail branches: the even
/// remainder divides by `sqrt(b)`, the odd remainder closes with an
/// arctangent.
pub open spec fn cdf_finish_spec<M: HostMath>(a: u64, y: u64, b: u64, even: bool) -> u64 {
    if even {
        M::div_spec(a, M::sqrt_spec(b))
    } else {
        M::mul_spec(
            M::add_spec(M::atan_spec(y), M::div_spec(a, b)),
            M::div_spec(F64_TWO, F64_PI),
        )
    }
}

/// The cosine-series branch of Hill's Algorithm 395, for small integer
/// degrees of freedom and a deviate near the centre.
pub open spec fn cdf_cosine_spec<M: HostMath>(
    start: u64, sign: u64, y0: u64, b: u64, ni: u64,
) -> u64 {
    let y = M::sqrt_spec(y0);
    let a0 = if ni == 1 {
        F64_ZERO
    } else {
        y
    };
    let m0 = if ni > 1 {
        (ni - 2) as u64
    } else {
        ni
    };
    let a1 = cdf_recurrence_spec::<M>(a0, y, b, m0);
    let a2 = cdf_finish_spec::<M>(a1, y, b, ni % 2 == 0);
    M::add_spec(start, M::div_spec(M::mul_spec(sign, M::sub_spec(F64_ONE, a2)), F64_TWO))
}

/// The tail-series branch of Hill's Algorithm 395, for the remaining integer
/// degrees of freedom.
pub open spec fn cdf_tail_spec<M: HostMath>(start: u64, sign: u64, b: u64, ni: u64) -> u64 {
    let a0 = M::sqrt_spec(b);
    let y0 = M::mul_spec(a0, M::of_u64_spec(ni));
    let a1 = cdf_tail_series_spec::<M>(a0, F64_ONE, y0, b, ni, 0, TAIL_SERIES_FUEL as nat);
    let a2 = cdf_recurrence_spec::<M>(neg_bits(a1), F64_ZERO, b, ni);
    let a3 = cdf_finish_spec::<M>(a2, F64_ZERO, b, ni % 2 == 0);
    M::add_spec(start, M::div_spec(M::mul_spec(sign, M::sub_spec(F64_ZERO, a3)), F64_TWO))
}

/// The density of the Student's t distribution, as a bit pattern:
/// `Gamma((n+1)/2) / (sqrt(n pi) Gamma(n/2)) * (1 + x^2/n)^(-(n+1)/2)`, the
/// standard Normal density at infinite degrees of freedom, and NaN for a NaN
/// input or non-positive degrees of freedom.
pub open spec fn students_t_pdf_spec<M: HostMath>(x: u64, n: u64) -> u64 {
    if f64_is_nan(x) || f64_is_nan(n) || f64_le(n, F64_ZERO) {
        F64_NAN
    } else if f64_eq(n, F64_INFINITY) {
        normal_pdf_spec::<M>(x, F64_ZERO, F64_ONE)
    } else {
        let n1 = M::add_spec(n, F64_ONE);
        M::mul_spec(
            M::div_spec(
                M::tgamma_spec(M::div_spec(n1, F64_TWO)),
                M::mul_spec(
                    M::sqrt_spec(M::mul_spec(n, F64_PI)),
                    M::tgamma_spec(M::div_spec(n, F64_TWO)),
                ),
            ),
            M::pow_spec(
                M::add_spec(F64_ONE, M::div_spec(M::mul_spec(x, x), n)),
                M::div_spec(neg_bits(n1), F64_TWO),
            ),
        )
    }
}

/// The cumulative distribution of the Student's t distribution, as a bit
/// pattern, by Hill's Algorithm 395: NaN for a NaN input or degrees of
/// freedom below 1, 0 and 1 at the infinities, the standard Normal at
/// infinite degrees of freedom, and otherwise one of the three branches
/// picked from the degrees of freedom and the squared deviate.
pub open spec fn students_t_cdf_spec<M: HostMath>(x: u64, n: u64) -> u64 {
    if f64_is_nan(x) || f64_is_nan(n) || f64_lt(n, F64_ONE) {
        F64_NAN
    } else if f64_eq(x, F64_NEG_INFINITY) {
        F64_ZERO
    } else if f64_eq(x, F64_INFINITY) {
        F64_ONE
    } else if f64_eq(n, F64_INFINITY) {
        normal_cdf_spec::<M>(x, F64_ZERO, F64_ONE)
    } else {
        let start = if f64_lt(x, F64_ZERO) {
            F64_ZERO
        } else {
            F64_ONE
        };
        let sign = if f64_lt(x, F64_ZERO) {
            F64_ONE
        } else {
            F64_NEG_ONE
        };
        let t = M::mul_spec(x, x);
        let y0 = M::div_spec(t, n);
        let b = M::add_spec(F64_ONE, y0);
        let ni = whole_magnitude(n);
        let integral = f64_eq(trunc_bits(n), n);
        if !integral || (ni >= 20 && f64_lt(t, n)) || ni > 200 {
            cdf_asymptotic_spec::<M>(start, sign, y0, b, n)
        } else if ni < 20 && f64_lt(t, F64_FOUR) {
            cdf_cosine_spec::<M>(start, sign, y0, b, ni)
        } else {
            cdf_tail_spec::<M>(start, sign, b, ni)
        }
    }
}

/// The quantile of the Student's t distribution, as a bit pattern, by Hill's
/// Algorithm 396: NaN for a probability outside `[0, 1]`, a NaN input or
/// degrees of freedom below 1; the standard Normal quantile at infinite
/// degrees of freedom; closed forms at 1 and 2 degrees of freedom; otherwise
/// a rational estimate refined by the branch its accuracy indicator selects.
pub open spec fn students_t_ppf_spec<M: HostMath>(p: u64, n: u64) -> u64 {
    if f64_is_nan(p) || f64_lt(p, F64_ZERO) || f64_lt(F64_ONE, p) || f64_is_nan(n)
        || f64_lt(n, F64_ONE) {
        F64_NAN
    } else if f64_eq(n, F64_INFINITY) {
        normal_ppf_spec::<M>(p, F64_ZERO, F64_ONE)
    } else {
        let sign = if f64_lt(p, F64_HALF) {
            F64_NEG_ONE
        } else {
            F64_ONE
        };
        let p1 = if f64_lt(p, F64_HALF) {
            M::sub_spec(F64_ONE, p)
        } else {
            p
        };
        let p2 = M::mul_spec(F64_TWO, M::sub_spec(F64_ONE, p1));
        if f64_eq(n, F64_TWO) {
            M::mul_spec(
                sign,
                M::sqrt_spec(M::sub_spec(
                    M::div_spec(F64_TWO, M::mul_spec(p2, M::sub_spec(F64_TWO, p2))),
                    F64_TWO,
                )),
            )
        } else {
            let half_pi = M::div_spec(F64_PI, F64_TWO);
            if f64_eq(n, F64_ONE) {
                let p3 = M::mul_spec(p2, half_pi);
                M::mul_spec(sign, M::div_spec(M::cos_spec(p3), M::sin_spec(p3)))
            } else {
                M::mul_spec(sign, M::sqrt_spec(M::mul_spec(n, ppf_refine_spec::<M>(p2, n, half_pi))))
            }
        }
    }
}

/// The general-degrees-of-freedom estimate of Hill's Algorithm 396: the value
/// `y` with the quantile `sign * sqrt(n * y)`, from the one-tail probability
/// `p2`.
pub open spec fn ppf_refine_spec<M: HostMath>(p2: u64, n: u64, half_pi: u64) -> u64 {
    let a = M::div_spec(F64_ONE, M::sub_spec(n, F64_HALF));
    let b = M::div_spec(T_48, M::mul_spec(a, a));
    let c = M::add_spec(
        M::mul_spec(
            M::sub_spec(
                M::mul_spec(M::sub_spec(M::div_spec(M::mul_spec(T_20700, a), b), T_98), a),
                T_16,
            ),
            a,
        ),
        T_96_36,
    );
    let d = M::mul_spec(
        M::mul_spec(
            M::add_spec(
                M::div_spec(M::sub_spec(M::div_spec(T_94_5, M::add_spec(b, c)), F64_THREE), b),
                F64_ONE,
            ),
            M::sqrt_spec(M::mul_spec(a, half_pi)),
        ),
        n,
    );
    let x = M::mul_spec(d, p2);
    let y = M::pow_spec(x, M::div_spec(F64_TWO, n));
    if f64_lt(M::add_spec(T_0_05, a), y) {
        ppf_expand_spec::<M>(p2, n, a, b, c, d)
    } else {
        ppf_direct_spec::<M>(n, y, d)
    }
}

/// The asymptotic inverse expansion about the normal quantile, taken when the
/// accuracy indicator exceeds its threshold.
pub open spec fn ppf_expand_spec<M: HostMath>(
    p2: u64, n: u64, a: u64, b: u64, c0: u64, d: u64,
) -> u64 {
    let x = normal_ppf_spec::<M>(M::mul_spec(p2, F64_HALF), F64_ZERO, F64_ONE);
    let y = M::mul_spec(x, x);
    let c1 = if f64_lt(n, F64_FIVE) {
        M::add_spec(
            c0,
            M::mul_spec(
                M::mul_spec(T_0_3, M::sub_spec(n, T_4_5)),
                M::add_spec(x, T_0_6),
            ),
        )
    } else {
        c0
    };
    let c2 = M::add_spec(
        c1,
        M::add_spec(
            M::mul_spec(
                M::sub_spec(
                    M::mul_spec(
                        M::sub_spec(
                            M::mul_spec(
                                M::sub_spec(M::mul_spec(M::mul_spec(T_0_05, d), x), F64_FIVE),
                                x,
                            ),
                            T_7,
                        ),
                        x,
                    ),
                    F64_TWO,
                ),
                x,
            ),
            b,
        ),
    );
    let y1 = M::mul_spec(
        M::add_spec(
            M::div_spec(
                M::sub_spec(
                    M::sub_spec(
                        M::div_spec(
                            M::add_spec(
                                M::mul_spec(
                                    M::add_spec(
                                        M::mul_spec(
                                            M::add_spec(M::mul_spec(T_0_4, y), T_6_3),
                                            y,
                                        ),
                                        T_36,
                                    ),
                                    y,
                                ),
                                T_94_5,
                            ),
                            c2,
                        ),
                        y,
                    ),
                    F64_THREE,
                ),
                b,
            ),
            F64_ONE,
        ),
        x,
    );
    let y2 = M::mul_spec(M::mul_spec(a, y1), y1);
    if f64_lt(T_0_002, y2) {
        M::sub_spec(M::exp_spec(y2), F64_ONE)
    } else {
        M::add_spec(M::mul_spec(M::mul_spec(F64_HALF, y2), y2), y2)
    }
}

/// The direct low-order correction, taken when the first estimate is already
/// accurate enough.
pub open spec fn ppf_direct_spec<M: HostMath>(n: u64, y: u64, d: u64) -> u64 {
    let inner = M::sub_spec(
        M::sub_spec(
            M::div_spec(M::add_spec(n, T_6), M::mul_spec(n, y)),
            M::mul_spec(T_0_089, d),
        ),
        T_0_822,
    );
    let den = M::mul_spec(M::mul_spec(inner, M::add_spec(n, F64_TWO)), F64_THREE);
    let term = M::add_spec(
        M::div_spec(F64_ONE, den),
        M::div_spec(F64_HALF, M::add_spec(n, F64_FOUR)),
    );
    M::add_spec(
        M::div_spec(
            M::mul_spec(M::sub_spec(M::mul_spec(term, y), F64_ONE), M::add_spec(n, F64_ONE)),
            M::add_spec(n, F64_TWO),
        ),
        M::div_spec(F64_ONE, y),
    )
}

/// The Student's t distribution with `n` degrees of freedom.
pub struct StudentsT;

impl StudentsT {
    /// Returns the probability density function (PDF) of the Student's t
    /// distribution, over bit patterns: NaN whenever an input is NaN or the
    /// degrees of freedom are not strictly positive, and the standard Normal
    /// density at infinite degrees of freedom.
    pub fn pdf<M: HostMath>(x: u64, n: u64) -> (r: u64)
        ensures
            r == students_t_pdf_spec::<M>(x, n),
            f64_is_nan(x) || f64_is_nan(n) || f64_le(n, F64_ZERO) ==> f64_is_nan(r),
            f64_eq(n, F64_INFINITY) ==> r == normal_pdf_spec::<M>(x, F64_ZERO, F64_ONE),
    {
        proof {
            lemma_const_classification();
        }
        if is_nan64(x) || is_nan64(n) || le64(n, F64_ZERO) {
            return F64_NAN;
        }
        if eq64(n, F64_INFINITY) {
            return Normal::pdf::<M>(x, F64_ZERO, F64_ONE);
        }
        let n1: u64 = M::add(n, F64_ONE);
        M::mul(
            M::div(
                M::tgamma(M::div(n1, F64_TWO)),
                M::mul(M::sqrt(M::mul(n, F64_PI)), M::tgamma(M::div(n, F64_TWO))),
            ),
            M::pow(
                M::add(F64_ONE, M::div(M::mul(x, x), n)),
                M::div(neg64(n1), F64_TWO),
            ),
        )
    }

    /// Returns the cumulative distribution function (CDF) of the Student's t
    /// distribution, over bit patterns, following Hill's Algorithm 395: NaN
    /// whenever an input is NaN or the degrees of freedom are below 1, 0 and
    /// 1 at the infinities, and the standard Normal at infinite degrees of
    /// freedom.
    pub fn cdf<M: HostMath>(x: u64, n: u64) -> (r: u64)
        ensures
            r == students_t_cdf_spec::<M>(x, n),
            f64_is_nan(x) || f64_is_nan(n) || f64_lt(n, F64_ONE) ==> f64_is_nan(r),
            f64_eq(n, F64_INFINITY) ==> r == normal_cdf_spec::<M>(x, F64_ZERO, F64_ONE),
            !f64_is_nan(n) && !f64_lt(n, F64_ONE) && f64_eq(x, F64_NEG_INFINITY)
                ==> r == F64_ZERO,
            !f64_is_nan(n) && !f64_lt(n, F64_ONE) && f64_eq(x, F64_INFINITY) ==> r == F64_ONE,
    {
        proof {
            lemma_const_classification();
        }
        if is_nan64(x) || is_nan64(n) || lt64(n, F64_ONE) {
            return F64_NAN;
        }
        if eq64(x, F64_NEG_INFINITY) {
            return F64_ZERO;
        }
        if eq64(x, F64_INFINITY) {
            return F64_ONE;
        }
        if eq64(n, F64_INFINITY) {
            return Normal::cdf::<M>(x, F64_ZERO, F64_ONE);
        }
        let neg_x: bool = lt64(x, F64_ZERO);
        let start: u64 = if neg_x {
            F64_ZERO
        } else {
            F64_ONE
        };
        let sign: u64 = if neg_x {
            F64_ONE
        } else {
            F64_NEG_ONE
        };
        let t: u64 = M::mul(x, x);
        let y0: u64 = M::div(t, n);
        let b: u64 = M::add(F64_ONE, y0);
        let ni: u64 = whole_to_u64(n);
        let integral: bool = eq64(trunc(n), n);
        if !integral || (ni >= 20 && lt64(t, n)) || ni > 200 {
            // asymptotic series for large or non-integer degrees of freedom
            let y1: u64 = if lt64(T_SMALL_Y, y0) {
                M::log(b)
            } else {
                y0
            };
            let a: u64 = M::sub(n, F64_HALF);
            let b2: u64 = M::mul(M::mul(T_48, a), a);
            let y2: u64 = M::mul(y1, a);
            let p1: u64 = M::sub(
                M::mul(
                    M::sub(M::mul(M::sub(M::mul(T_NEG_0_4, y2), T_3_3), y2), T_24),
                    y2,
                ),
                T_85_5,
            );
            let p2: u64 = M::add(M::add(M::mul(M::mul(T_0_8, y2), y2), T_100), b2);
            let y3: u64 = M::mul(
                M::add(
                    M::div(M::add(M::add(M::div(p1, p2), y2), F64_THREE), b2),
                    F64_ONE,
                ),
                M::sqrt(y2),
            );
            return M::add(start, M::mul(sign, Normal::cdf::<M>(neg64(y3), F64_ZERO, F64_ONE)));
        }
        if ni < 20 && lt64(t, F64_FOUR) {
            // nested summation of the cosine series
            let y: u64 = M::sqrt(y0);
            let mut a: u64 = if ni == 1 {
                F64_ZERO
            } else {
                y
            };
            let mut m: u64 = ni;
            if m > 1 {
                m = m - 2;
                let ghost a_snap = a;
                let ghost m_snap = m;
                while m > 1
                    invariant
                        cdf_recurrence_spec::<M>(a, y, b, m)
                            == cdf_recurrence_spec::<M>(a_snap, y, b, m_snap),
                        m % 2 == m_snap % 2,
                    decreases m,
                {
                    a = M::add(M::mul(M::div(M::of_u64(m - 1), M::mul(b, M::of_u64(m))), a), y);
                    m = m - 2;
                }
            }
            let a2: u64 = if m == 0 {
                M::div(a, M::sqrt(b))
            } else {
                M::mul(M::add(M::atan(y), M::div(a, b)), M::div(F64_TWO, F64_PI))
            };
            return M::add(start, M::div(M::mul(sign, M::sub(F64_ONE, a2)), F64_TWO));
        }
        // tail series expansion for large deviates
        let mut a: u64 = M::sqrt(b);
        let mut y: u64 = M::mul(a, M::of_u64(ni));
        let mut z: u64 = F64_ONE;
        let mut j: u64 = 0;
        let mut fuel: u64 = TAIL_SERIES_FUEL;
        let ghost a_s = a;
        let ghost z_s = z;
        let ghost y_s = y;
        let ghost j_s = j;
        while fuel > 0 && !eq64(a, z)
            invariant
                ni <= 200,
                fuel <= TAIL_SERIES_FUEL,
                j <= 2 * (TAIL_SERIES_FUEL - fuel),
                cdf_tail_series_spec::<M>(a, z, y, b, ni, j, fuel as nat)
                    == cdf_tail_series_spec::<M>(a_s, z_s, y_s, b, ni, j_s,
                        TAIL_SERIES_FUEL as nat),
            decreases fuel,
        {
            j = j + 2;
            z = a;
            y = M::div(M::mul(y, M::of_u64(j - 1)), M::mul(b, M::of_u64(j)));
            a = M::add(a, M::div(y, M::of_u64(ni + j)));
            fuel = fuel - 1;
        }
        a = neg64(a);
        let mut m: u64 = ni;
        let ghost a_snap = a;
        while m > 1
            invariant
                cdf_recurrence_spec::<M>(a, F64_ZERO, b, m)
                    == cdf_recurrence_spec::<M>(a_snap, F64_ZERO, b, ni),
                m % 2 == ni % 2,
            decreases m,
        {
            a = M::add(
                M::mul(M::div(M::of_u64(m - 1), M::mul(b, M::of_u64(m))), a),
                F64_ZERO,
            );
            m = m - 2;
        }
        let a2: u64 = if m == 0 {
            M::div(a, M::sqrt(b))
        } else {
            M::mul(M::add(M::atan(F64_ZERO), M::div(a, b)), M::div(F64_TWO, F64_PI))
        };
        M::add(start, M::div(M::mul(sign, M::sub(F64_ZERO, a2)), F64_TWO))
    }

    /// Returns the percent-point/quantile function (PPF) of the Student's t
    /// distribution, over bit patterns, following Hill's Algorithm 396: NaN
    /// for a probability outside `[0, 1]`, a NaN input or degrees of freedom
    /// below 1, and the standard Normal quantile at infinite degrees of
    /// freedom.
    pub fn ppf<M: HostMath>(p: u64, n: u64) -> (r: u64)
        ensures
            r == students_t_ppf_spec::<M>(p, n),
            f64_is_nan(p) || f64_lt(p, F64_ZERO) || f64_lt(F64_ONE, p) || f64_is_nan(n)
                || f64_lt(n, F64_ONE) ==> f64_is_nan(r),
            f64_eq(n, F64_INFINITY) ==> r == normal_ppf_spec::<M>(p, F64_ZERO, F64_ONE),
    {
        proof {
            lemma_const_classification();
        }
        if is_nan64(p) || lt64(p, F64_ZERO) || lt64(F64_ONE, p) || is_nan64(n)
            || lt64(n, F64_ONE) {
            return F64_NAN;
        }
        if eq64(n, F64_INFINITY) {
            return Normal::ppf::<M>(p, F64_ZERO, F64_ONE);
        }
        // the distribution is symmetric: reduce to the upper tail
        let lower: bool = lt64(p, F64_HALF);
        let sign: u64 = if lower {
            F64_NEG_ONE
        } else {
            F64_ONE
        };
        let p1: u64 = if lower {
            M::sub(F64_ONE, p)
        } else {
            p
        };
        // two-tail to one-tail
        let p2: u64 = M::mul(F64_TWO, M::sub(F64_ONE, p1));
        if eq64(n, F64_TWO) {
            return M::mul(
                sign,
                M::sqrt(M::sub(M::div(F64_TWO, M::mul(p2, M::sub(F64_TWO, p2))), F64_TWO)),
            );
        }
        let half_pi: u64 = M::div(F64_PI, F64_TWO);
        if eq64(n, F64_ONE) {
            let p3: u64 = M::mul(p2, half_pi);
            return M::mul(sign, M::div(M::cos(p3), M::sin(p3)));
        }
        let a: u64 = M::div(F64_ONE, M::sub(n, F64_HALF));
        let b: u64 = M::div(T_48, M::mul(a, a));
        let c: u64 = M::add(
            M::mul(
                M::sub(M::mul(M::sub(M::div(M::mul(T_20700, a), b), T_98), a), T_16),
                a,
            ),
            T_96_36,
        );
        let d: u64 = M::mul(
            M::mul(
                M::add(
                    M::div(M::sub(M::div(T_94_5, M::add(b, c)), F64_THREE), b),
                    F64_ONE,
                ),
                M::sqrt(M::mul(a, half_pi)),
            ),
            n,
        );
        let x: u64 = M::mul(d, p2);
        let y: u64 = M::pow(x, M::div(F64_TWO, n));
        let yv: u64 = if lt64(M::add(T_0_05, a), y) {
            // asymptotic inverse expansion about the normal quantile
            let x2: u64 = Normal::ppf::<M>(M::mul(p2, F64_HALF), F64_ZERO, F64_ONE);
            let y2: u64 = M::mul(x2, x2);
            let c1: u64 = if lt64(n, F64_FIVE) {
                M::add(c, M::mul(M::mul(T_0_3, M::sub(n, T_4_5)), M::add(x2, T_0_6)))
            } else {
                c
            };
            let c2: u64 = M::add(
                c1,
                M::add(
                    M::mul(
                        M::sub(
                            M::mul(
                                M::sub(
                                    M::mul(
                                        M::sub(M::mul(M::mul(T_0_05, d), x2), F64_FIVE),
                                        x2,
                                    ),
                                    T_7,
                                ),
                                x2,
                            ),
                            F64_TWO,
                        ),
                        x2,
                    ),
                    b,
                ),
            );
            let y3: u64 = M::mul(
                M::add(
                    M::div(
                        M::sub(
                            M::sub(
                                M::div(
                                    M::add(
                                        M::mul(
                                            M::add(
                                                M::mul(M::add(M::mul(T_0_4, y2), T_6_3), y2),
                                                T_36,
                                            ),
                                            y2,
                                        ),
                                        T_94_5,
                                    ),
                                    c2,
                                ),
                                y2,
                            ),
                            F64_THREE,
                        ),
                        b,
                    ),
                    F64_ONE,
                ),
                x2,
            );
            let y4: u64 = M::mul(M::mul(a, y3), y3);
            if lt64(T_0_002, y4) {
                M::sub(M::exp(y4), F64_ONE)
            } else {
                M::add(M::mul(M::mul(F64_HALF, y4), y4), y4)
            }
        } else {
            // direct low-order correction
            let inner: u64 = M::sub(
                M::sub(M::div(M::add(n, T_6), M::mul(n, y)), M::mul(T_0_089, d)),
                T_0_822,
            );
            let den: u64 = M::mul(M::mul(inner, M::add(n, F64_TWO)), F64_THREE);
            let term: u64 = M::add(
                M::div(F64_ONE, den),
                M::div(F64_HALF, M::add(n, F64_FOUR)),
            );
            M::add(
                M::div(
                    M::mul(M::sub(M::mul(term, y), F64_ONE), M::add(n, F64_ONE)),
                    M::add(n, F64_TWO),
                ),
                M::div(F64_ONE, y),
            )
        };
        M::mul(sign, M::sqrt(M::mul(n, yv)))
    }
}

} // verus!
