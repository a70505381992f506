//! The Normal (Gaussian) distribution.
//!
//! The density and cumulative distribution follow the textbook formulas, with
//! the cumulative distribution expressed through the platform's error
//! function. The quantile function is Wichura's AS 241 rational approximation:
//! a central polynomial pair for probabilities near one half and two tail
//! polynomial pairs selected by the distance from the tail, which keeps the
//! quantiles accurate down to the extreme tails.

use vstd::prelude::*;

verus! {

use crate::bits::{
    abs_bits, f64_eq, f64_is_nan, f64_le, f64_lt, fabs, is_nan64, eq64, le64, lt64, neg64,
    neg_bits, lemma_const_classification, lemma_neg_bits_involution, lemma_neg_bits_nan,
    F64_E, F64_FIVE, F64_HALF, F64_INFINITY, F64_NAN,
    F64_NEG_HALF, F64_NEG_INFINITY, F64_NEG_ONE, F64_ONE, F64_PI, F64_SQRT_2, F64_TWO, F64_ZERO,
};
use crate::host::HostMath;

/// Bound of the central region of AS 241: `|p - 0.5| < 0.425`.
pub const PPF_Q_CENTRAL: u64 = 0x3FDB_3333_3333_3333;
/// Central-region argument offset, `0.180625`.
pub const PPF_R_CENTRAL: u64 = 0x3FC7_1EB8_51EB_851F;
/// Middle-tail argument offset, `1.6`.
pub const PPF_R_MID: u64 = 0x3FF9_9999_9999_999A;

/// Central-region numerator coefficients of AS 241, constant term first.
pub const PPF_A0: u64 = 0x400B_18D9_1E9E_EF75;
pub const PPF_A1: u64 = 0x4060_A488_8B1A_436E;
pub const PPF_A2: u64 = 0x409E_CE5D_2213_C0CC;
pub const PPF_A3: u64 = 0x40CA_D1D8_CD4E_E71D;
pub const PPF_A4: u64 = 0x40E6_6C3E_869B_752A;
pub const PPF_A5: u64 = 0x40F0_6C1C_55B7_8F20;
pub const PPF_A6: u64 = 0x40E0_52D2_6B2E_45E4;
pub const PPF_A7: u64 = 0x40A3_9A29_6F7D_925E;

/// Central-region denominator coefficients of AS 241, constant term first.
pub const PPF_B0: u64 = 0x3FF0_0000_0000_0000;
pub const PPF_B1: u64 = 0x4045_281B_386E_1AB5;
pub const PPF_B2: u64 = 0x4085_797E_FDC8_B3F7;
pub const PPF_B3: u64 = 0x40B5_1232_2E75_C89F;
pub const PPF_B4: u64 = 0x40D4_B772_D5D6_5266;
pub const PPF_B5: u64 = 0x40E3_317C_AA64_F4BE;
pub const PPF_B6: u64 = 0x40DC_0E45_7CB1_AE76;
pub const PPF_B7: u64 = 0x40B4_6A7E_CA98_4B69;

/// Middle-tail numerator coefficients of AS 241, constant term first.
pub const PPF_C0: u64 = 0x3FF6_C665_FDE9_526A;
pub const PPF_C1: u64 = 0x4012_8577_48CA_B19B;
pub const PPF_C2: u64 = 0x4017_13F7_1462_256A;
pub const PPF_C3: u64 = 0x400D_2ECB_1A3D_02C4;
pub const PPF_C4: u64 = 0x3FF4_53CC_0853_75B2;
pub const PPF_C5: u64 = 0x3FCE_F2AB_B9B8_5C37;
pub const PPF_C6: u64 = 0x3F97_44EB_6C45_EC67;
pub const PPF_C7: u64 = 0x3F49_615A_C0B7_ACE9;

/// Middle-tail denominator coefficients of AS 241, constant term first.
pub const PPF_D0: u64 = 0x3FF0_0000_0000_0000;
pub const PPF_D1: u64 = 0x4000_6CEF_BB46_A449;
pub const PPF_D2: u64 = 0x3FFA_D278_E652_6633;
pub const PPF_D3: u64 = 0x3FE6_1292_F233_85C9;
pub const PPF_D4: u64 = 0x3FC2_F512_3394_F040;
pub const PPF_D5: u64 = 0x3F8F_207A_7EAB_17BF;
pub const PPF_D6: u64 = 0x3F41_F18C_BFDF_2728;
pub const PPF_D7: u64 = 0x3E12_0D3F_6864_39E4;

/// Far-tail numerator coefficients of AS 241, constant term first.
pub const PPF_E0: u64 = 0x401A_A1B1_C13E_E526;
pub const PPF_E1: u64 = 0x4015_DAEA_6E87_5003;
pub const PPF_E2: u64 = 0x3FFC_8EA6_461F_A445;
pub const PPF_E3: u64 = 0x3FD2_FAD9_3152_55CF;
pub const PPF_E4: u64 = 0x3F9B_2B41_193B_4EE7;
pub const PPF_E5: u64 = 0x3F54_5C19_0842_5345;
pub const PPF_E6: u64 = 0x3EFC_6EC6_CC59_E02A;
pub const PPF_E7: u64 = 0x3E8A_FB74_D693_BF93;

/// Far-tail denominator coefficients of AS 241, constant term first.
pub const PPF_F0: u64 = 0x3FF0_0000_0000_0000;
pub const PPF_F1: u64 = 0x3FE3_31D3_4FC7_D77F;
pub const PPF_F2: u64 = 0x3FC1_86EB_1834_43FB;
pub const PPF_F3: u64 = 0x3F8E_76F9_3215_462A;
pub const PPF_F4: u64 = 0x3F49_C8BC_979D_C5D7;
pub const PPF_F5: u64 = 0x3EF3_5C2C_4963_74BF;
pub const PPF_F6: u64 = 0x3E83_1446_F740_B9E0;
pub const PPF_F7: u64 = 0x3CE2_69BF_F1F8_C190;

/// Degree-7 polynomial in `r` with coefficients `c0` (constant term) through
/// `c7`, evaluated by Horner's method in the platform's arithmetic.
pub open spec fn horner8_spec<M: HostMath>(
    c0: u64, c1: u64, c2: u64, c3: u64, c4: u64, c5: u64, c6: u64, c7: u64, r: u64,
) -> u64 {
    M::add_spec(M::mul_spec(
        M::add_spec(M::mul_spec(
            M::add_spec(M::mul_spec(
                M::add_spec(M::mul_spec(
                    M::add_spec(M::mul_spec(
                        M::add_spec(M::mul_spec(
                            M::add_spec(M::mul_spec(c7, r), c6),
                        r), c5),
                    r), c4),
                r), c3),
            r), c2),
        r), c1),
    r), c0)
}

fn horner8<M: HostMath>(
    c0: u64, c1: u64, c2: u64, c3: u64, c4: u64, c5: u64, c6: u64, c7: u64, r: u64,
) -> (y: u64)
    ensures
        y == horner8_spec::<M>(c0, c1, c2, c3, c4, c5, c6, c7, r),
{
    let mut y: u64 = c7;
    y = M::add(M::mul(y, r), c6);
    y = M::add(M::mul(y, r), c5);
    y = M::add(M::mul(y, r), c4);
    y = M::add(M::mul(y, r), c3);
    y = M::add(M::mul(y, r), c2);
    y = M::add(M::mul(y, r), c1);
    y = M::add(M::mul(y, r), c0);
    y
}

/// True when the parameters of a Normal distribution are rejected: a NaN among
/// them, or a spread that is not strictly positive.
pub open spec fn normal_invalid(mean: u64, std_dev: u64) -> bool {
    f64_is_nan(mean) || f64_is_nan(std_dev) || f64_le(std_dev, F64_ZERO)
}

/// The density of the Normal distribution, as a bit pattern:
/// `1/(std_dev * sqrt(2 pi)) * e^(-((x - mean)/std_dev)^2 / 2)`, or NaN for
/// rejected parameters.
pub open spec fn normal_pdf_spec<M: HostMath>(x: u64, mean: u64, std_dev: u64) -> u64 {
    if f64_is_nan(x) || normal_invalid(mean, std_dev) {
        F64_NAN
    } else {
        let n = M::div_spec(M::sub_spec(x, mean), std_dev);
        M::mul_spec(
            M::div_spec(F64_ONE, M::mul_spec(std_dev, M::sqrt_spec(M::mul_spec(F64_TWO, F64_PI)))),
            M::pow_spec(F64_E, M::mul_spec(F64_NEG_HALF, M::mul_spec(n, n))),
        )
    }
}

/// The cumulative distribution of the Normal distribution, as a bit pattern:
/// `(1 + erf((x - mean)/(std_dev * sqrt(2))))/2`, with the infinities pinned
/// to 0 and 1, and NaN for rejected parameters.
pub open spec fn normal_cdf_spec<M: HostMath>(x: u64, mean: u64, std_dev: u64) -> u64 {
    if f64_is_nan(x) || normal_invalid(mean, std_dev) {
        F64_NAN
    } else if f64_eq(x, F64_NEG_INFINITY) {
        F64_ZERO
    } else if f64_eq(x, F64_INFINITY) {
        F64_ONE
    } else {
        M::mul_spec(
            F64_HALF,
            M::add_spec(
                F64_ONE,
                M::erf_spec(M::div_spec(M::sub_spec(x, mean), M::mul_spec(std_dev, F64_SQRT_2))),
            ),
        )
    }
}

/// The quantile of the Normal distribution, as a bit pattern, by AS 241:
/// NaN for rejected parameters or a probability outside `[0, 1]`, the
/// infinities at the boundary probabilities, and otherwise
/// `mean + std_dev * z` where `z` is a rational approximation picked from the
/// central region, the middle tail or the far tail.
pub open spec fn normal_ppf_spec<M: HostMath>(p: u64, mean: u64, std_dev: u64) -> u64 {
    if f64_is_nan(p) || f64_lt(p, F64_ZERO) || f64_lt(F64_ONE, p) || normal_invalid(mean, std_dev) {
        F64_NAN
    } else if f64_eq(p, F64_ZERO) {
        F64_NEG_INFINITY
    } else if f64_eq(p, F64_ONE) {
        F64_INFINITY
    } else {
        let q = M::sub_spec(p, F64_HALF);
        if f64_lt(abs_bits(q), PPF_Q_CENTRAL) {
            let r = M::sub_spec(PPF_R_CENTRAL, M::mul_spec(q, q));
            let num = horner8_spec::<M>(
                PPF_A0, PPF_A1, PPF_A2, PPF_A3, PPF_A4, PPF_A5, PPF_A6, PPF_A7, r);
            let den = horner8_spec::<M>(
                PPF_B0, PPF_B1, PPF_B2, PPF_B3, PPF_B4, PPF_B5, PPF_B6, PPF_B7, r);
            M::add_spec(mean, M::mul_spec(M::mul_spec(std_dev, q), M::div_spec(num, den)))
        } else {
            let r0 = if f64_lt(q, F64_ZERO) { p } else { M::sub_spec(F64_ONE, p) };
            let r1 = M::sqrt_spec(neg_bits(M::log_spec(r0)));
            let sign = if f64_lt(q, F64_ZERO) { F64_NEG_ONE } else { F64_ONE };
            if f64_lt(r1, F64_FIVE) {
                let r2 = M::sub_spec(r1, PPF_R_MID);
                let num = horner8_spec::<M>(
                    PPF_C0, PPF_C1, PPF_C2, PPF_C3, PPF_C4, PPF_C5, PPF_C6, PPF_C7, r2);
                let den = horner8_spec::<M>(
                    PPF_D0, PPF_D1, PPF_D2, PPF_D3, PPF_D4, PPF_D5, PPF_D6, PPF_D7, r2);
                M::add_spec(mean, M::mul_spec(M::mul_spec(std_dev, sign), M::div_spec(num, den)))
            } else {
                let r2 = M::sub_spec(r1, F64_FIVE);
                let num = horner8_spec::<M>(
                    PPF_E0, PPF_E1, PPF_E2, PPF_E3, PPF_E4, PPF_E5, PPF_E6, PPF_E7, r2);
                let den = horner8_spec::<M>(
                    PPF_F0, PPF_F1, PPF_F2, PPF_F3, PPF_F4, PPF_F5, PPF_F6, PPF_F7, r2);
                M::add_spec(mean, M::mul_spec(M::mul_spec(std_dev, sign), M::div_spec(num, den)))
            }
        }
    }
}

/// The Normal (Gaussian) distribution with parameters `mean` and `std_dev`.
pub struct Normal;

impl Normal {
    /// Returns the probability density function (PDF) of the normal
    /// distribution, over bit patterns: NaN whenever an input is NaN or the
    /// spread is not strictly positive.
    pub fn pdf<M: HostMath>(x: u64, mean: u64, std_dev: u64) -> (r: u64)
        ensures
            r == normal_pdf_spec::<M>(x, mean, std_dev),
            f64_is_nan(x) || normal_invalid(mean, std_dev) ==> f64_is_nan(r),
    {
        proof {
            lemma_const_classification();
        }
        if is_nan64(x) || is_nan64(mean) || is_nan64(std_dev) || le64(std_dev, F64_ZERO) {
            return F64_NAN;
        }
        let n: u64 = M::div(M::sub(x, mean), std_dev);
        let coef: u64 = M::div(F64_ONE, M::mul(std_dev, M::sqrt(M::mul(F64_TWO, F64_PI))));
        M::mul(coef, M::pow(F64_E, M::mul(F64_NEG_HALF, M::mul(n, n))))
    }

    /// Returns the cumulative distribution function (CDF) of the normal
    /// distribution, over bit patterns: NaN whenever an input is NaN or the
    /// spread is not strictly positive, 0 at negative infinity and 1 at
    /// positive infinity.
    pub fn cdf<M: HostMath>(x: u64, mean: u64, std_dev: u64) -> (r: u64)
        ensures
            r == normal_cdf_spec::<M>(x, mean, std_dev),
            f64_is_nan(x) || normal_invalid(mean, std_dev) ==> f64_is_nan(r),
            !f64_is_nan(x) && !normal_invalid(mean, std_dev) && x == F64_NEG_INFINITY
                ==> r == F64_ZERO,
            !f64_is_nan(x) && !normal_invalid(mean, std_dev) && x == F64_INFINITY
                ==> r == F64_ONE,
    {
        proof {
            lemma_const_classification();
        }
        if is_nan64(x) || is_nan64(mean) || is_nan64(std_dev) || le64(std_dev, F64_ZERO) {
            return F64_NAN;
        }
        if eq64(x, F64_NEG_INFINITY) {
            return F64_ZERO;
        }
        if eq64(x, F64_INFINITY) {
            return F64_ONE;
        }
        M::mul(
            F64_HALF,
            M::add(F64_ONE, M::erf(M::div(M::sub(x, mean), M::mul(std_dev, F64_SQRT_2)))),
        )
    }

    /// Returns the percent-point/quantile function (PPF) of the normal
    /// distribution, over bit patterns, following Wichura's AS 241: NaN for a
    /// probability outside `[0, 1]` or rejected parameters, negative infinity
    /// at probability 0 and positive infinity at probability 1.
    pub fn ppf<M: HostMath>(p: u64, mean: u64, std_dev: u64) -> (r: u64)
        ensures
            r == normal_ppf_spec::<M>(p, mean, std_dev),
            f64_is_nan(p) || f64_lt(p, F64_ZERO) || f64_lt(F64_ONE, p)
                || normal_invalid(mean, std_dev) ==> f64_is_nan(r),
            !normal_invalid(mean, std_dev) && f64_eq(p, F64_ZERO) ==> r == F64_NEG_INFINITY,
            !normal_invalid(mean, std_dev) && f64_eq(p, F64_ONE) ==> r == F64_INFINITY,
    {
        proof {
            lemma_const_classification();
        }
        if is_nan64(p) || lt64(p, F64_ZERO) || lt64(F64_ONE, p) || is_nan64(mean)
            || is_nan64(std_dev) || le64(std_dev, F64_ZERO) {
            return F64_NAN;
        }
        if eq64(p, F64_ZERO) {
            return F64_NEG_INFINITY;
        }
        if eq64(p, F64_ONE) {
            return F64_INFINITY;
        }
        let q: u64 = M::sub(p, F64_HALF);
        if lt64(fabs(q), PPF_Q_CENTRAL) {
            let r: u64 = M::sub(PPF_R_CENTRAL, M::mul(q, q));
            let num: u64 = horner8::<M>(
                PPF_A0, PPF_A1, PPF_A2, PPF_A3, PPF_A4, PPF_A5, PPF_A6, PPF_A7, r);
            let den: u64 = horner8::<M>(
                PPF_B0, PPF_B1, PPF_B2, PPF_B3, PPF_B4, PPF_B5, PPF_B6, PPF_B7, r);
            M::add(mean, M::mul(M::mul(std_dev, q), M::div(num, den)))
        } else {
            let r0: u64 = if lt64(q, F64_ZERO) { p } else { M::sub(F64_ONE, p) };
            let r1: u64 = M::sqrt(neg64(M::log(r0)));
            let sign: u64 = if lt64(q, F64_ZERO) { F64_NEG_ONE } else { F64_ONE };
            if lt64(r1, F64_FIVE) {
                let r2: u64 = M::sub(r1, PPF_R_MID);
                let num: u64 = horner8::<M>(
                    PPF_C0, PPF_C1, PPF_C2, PPF_C3, PPF_C4, PPF_C5, PPF_C6, PPF_C7, r2);
                let den: u64 = horner8::<M>(
                    PPF_D0, PPF_D1, PPF_D2, PPF_D3, PPF_D4, PPF_D5, PPF_D6, PPF_D7, r2);
                M::add(mean, M::mul(M::mul(std_dev, sign), M::div(num, den)))
            } else {
                let r2: u64 = M::sub(r1, F64_FIVE);
                let num: u64 = horner8::<M>(
                    PPF_E0, PPF_E1, PPF_E2, PPF_E3, PPF_E4, PPF_E5, PPF_E6, PPF_E7, r2);
                let den: u64 = horner8::<M>(
                    PPF_F0, PPF_F1, PPF_F2, PPF_F3, PPF_F4, PPF_F5, PPF_F6, PPF_F7, r2);
                M::add(mean, M::mul(M::mul(std_dev, sign), M::div(num, den)))
            }
        }
    }
}

/// The density is symmetric about the mean: two arguments whose standardized
/// offsets from the mean are exact IEEE-754 negations of one another have
/// equal density. (Offsets that round asymmetrically, or parameters that make
/// the standardized offset NaN, are outside this statement.)
pub proof fn lemma_normal_pdf_symmetric<M: HostMath>(x1: u64, x2: u64, mean: u64, std_dev: u64)
    requires
        !f64_is_nan(x1),
        !f64_is_nan(x2),
        !normal_invalid(mean, std_dev),
        M::sub_spec(x1, mean) == neg_bits(M::sub_spec(x2, mean)),
        !f64_is_nan(M::div_spec(M::sub_spec(x2, mean), std_dev)),
    ensures
        normal_pdf_spec::<M>(x1, mean, std_dev) == normal_pdf_spec::<M>(x2, mean, std_dev),
{
    let s2 = M::sub_spec(x2, mean);
    let n2 = M::div_spec(s2, std_dev);
    M::div_neg(s2, std_dev);
    let n1 = M::div_spec(neg_bits(s2), std_dev);
    assert(n1 == neg_bits(n2));
    M::square_not_nan(n2);
    M::mul_neg(n2, n2);
    assert(M::mul_spec(neg_bits(n2), n2) == neg_bits(M::mul_spec(n2, n2)));
    lemma_neg_bits_nan(M::mul_spec(n2, n2));
    M::mul_comm(neg_bits(n2), n2);
    assert(M::mul_spec(n2, neg_bits(n2)) == neg_bits(M::mul_spec(n2, n2)));
    M::mul_neg(n2, neg_bits(n2));
    assert(M::mul_spec(neg_bits(n2), neg_bits(n2))
        == neg_bits(neg_bits(M::mul_spec(n2, n2))));
    lemma_neg_bits_involution(M::mul_spec(n2, n2));
    assert(M::mul_spec(n1, n1) == M::mul_spec(n2, n2));
}

} // verus!
