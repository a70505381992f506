use distrs::HostMath;

struct Host;

impl HostMath for Host {
    fn add_spec(a: u64, b: u64) -> u64 {
        Self::add(a, b)
    }

    fn sub_spec(a: u64, b: u64) -> u64 {
        Self::sub(a, b)
    }

    fn mul_spec(a: u64, b: u64) -> u64 {
        Self::mul(a, b)
    }

    fn div_spec(a: u64, b: u64) -> u64 {
        Self::div(a, b)
    }

    fn sqrt_spec(x: u64) -> u64 {
        Self::sqrt(x)
    }

    fn exp_spec(x: u64) -> u64 {
        Self::exp(x)
    }

    fn log_spec(x: u64) -> u64 {
        Self::log(x)
    }

    fn pow_spec(x: u64, y: u64) -> u64 {
        Self::pow(x, y)
    }

    fn sin_spec(x: u64) -> u64 {
        Self::sin(x)
    }

    fn cos_spec(x: u64) -> u64 {
        Self::cos(x)
    }

    fn atan_spec(x: u64) -> u64 {
        Self::atan(x)
    }

    fn erf_spec(x: u64) -> u64 {
        Self::erf(x)
    }

    fn tgamma_spec(x: u64) -> u64 {
        Self::tgamma(x)
    }

    fn of_u64_spec(i: u64) -> u64 {
        Self::of_u64(i)
    }

    fn mul_comm(_a: u64, _b: u64) {}

    fn mul_neg(_a: u64, _b: u64) {}

    fn div_neg(_a: u64, _b: u64) {}

    fn square_not_nan(_a: u64) {}

    fn add(a: u64, b: u64) -> u64 {
        (f64::from_bits(a) + f64::from_bits(b)).to_bits()
    }

    fn sub(a: u64, b: u64) -> u64 {
        (f64::from_bits(a) - f64::from_bits(b)).to_bits()
    }

    fn mul(a: u64, b: u64) -> u64 {
        (f64::from_bits(a) * f64::from_bits(b)).to_bits()
    }

    fn div(a: u64, b: u64) -> u64 {
        (f64::from_bits(a) / f64::from_bits(b)).to_bits()
    }

    fn sqrt(x: u64) -> u64 {
        f64::from_bits(x).sqrt().to_bits()
    }

    fn exp(x: u64) -> u64 {
        f64::from_bits(x).exp().to_bits()
    }

    fn log(x: u64) -> u64 {
        f64::from_bits(x).ln().to_bits()
    }

    fn pow(x: u64, y: u64) -> u64 {
        f64::from_bits(x).powf(f64::from_bits(y)).to_bits()
    }

    fn sin(x: u64) -> u64 {
        f64::from_bits(x).sin().to_bits()
    }

    fn cos(x: u64) -> u64 {
        f64::from_bits(x).cos().to_bits()
    }

    fn atan(x: u64) -> u64 {
        f64::from_bits(x).atan().to_bits()
    }

    fn erf(x: u64) -> u64 {
        libm::erf(f64::from_bits(x)).to_bits()
    }

    fn tgamma(x: u64) -> u64 {
        libm::tgamma(f64::from_bits(x)).to_bits()
    }

    fn of_u64(i: u64) -> u64 {
        (i as f64).to_bits()
    }
}

use distrs::StudentsT;

fn pdf(x: f64, n: f64) -> f64 {
    f64::from_bits(StudentsT::pdf::<Host>(x.to_bits(), n.to_bits()))
}

fn cdf(x: f64, n: f64) -> f64 {
    f64::from_bits(StudentsT::cdf::<Host>(x.to_bits(), n.to_bits()))
}

fn ppf(p: f64, n: f64) -> f64 {
    f64::from_bits(StudentsT::ppf::<Host>(p.to_bits(), n.to_bits()))
}

fn assert_in_delta(act: f64, exp: f64, delta: f64) {
    if exp.is_finite() {
        assert!((exp - act).abs() < delta, "{} != {}", act, exp);
    } else {
        assert_eq!(act, exp);
    }
}

#[test]
fn test_pdf_one() {
    let inputs = [f64::NEG_INFINITY, -3.0, -2.0, -1.0, 0.0, 1.0, 2.0, 3.0, f64::INFINITY];
    let expected = [0.0, 0.03183, 0.06366, 0.15915, 0.31831, 0.15915, 0.06366, 0.03183, 0.0];
    for (input, exp) in inputs.iter().zip(expected) {
        assert_in_delta(pdf(*input, 1.0), exp, 0.00001);
    }
}

#[test]
fn test_pdf_two() {
    let inputs = [f64::NEG_INFINITY, -3.0, -2.0, -1.0, 0.0, 1.0, 2.0, 3.0, f64::INFINITY];
    let expected = [0.0, 0.02741, 0.06804, 0.19245, 0.35355, 0.19245, 0.06804, 0.02741, 0.0];
    for (input, exp) in inputs.iter().zip(expected) {
        assert_in_delta(pdf(*input, 2.0), exp, 0.00001);
    }
}

#[test]
fn test_pdf_thirty() {
    let inputs = [f64::NEG_INFINITY, -3.0, -2.0, -1.0, 0.0, 1.0, 2.0, 3.0, f64::INFINITY];
    let expected = [0.0, 0.00678, 0.05685, 0.23799, 0.39563, 0.23799, 0.05685, 0.00678, 0.0];
    for (input, exp) in inputs.iter().zip(expected) {
        assert_in_delta(pdf(*input, 30.0), exp, 0.00001);
    }
}

#[test]
fn test_pdf_non_integer() {
    let inputs = [f64::NEG_INFINITY, -3.0, -2.0, -1.0, 0.0, 1.0, 2.0, 3.0, f64::INFINITY];
    let expected = [0.0, 0.02504, 0.06796, 0.2008, 0.36181, 0.2008, 0.06796, 0.02504, 0.0];
    for (input, exp) in inputs.iter().zip(expected) {
        assert_in_delta(pdf(*input, 2.5), exp, 0.00001);
    }
}

#[test]
fn test_pdf_infinity() {
    let inputs = [f64::NEG_INFINITY, -3.0, -2.0, -1.0, 0.0, 1.0, 2.0, 3.0, f64::INFINITY];
    let expected = [0.0, 0.00443, 0.05399, 0.24197, 0.39894, 0.24197, 0.05399, 0.00443, 0.0];
    for (input, exp) in inputs.iter().zip(expected) {
        assert_in_delta(pdf(*input, f64::INFINITY), exp, 0.00001);
    }
}

#[test]
fn test_pdf_less_than_one() {
    let inputs = [f64::NEG_INFINITY, -3.0, -2.0, -1.0, 0.0, 1.0, 2.0, 3.0, f64::INFINITY];
    let expected = [0.0, 0.02963, 0.0519, 0.1183, 0.26968, 0.1183, 0.0519, 0.02963, 0.0];
    for (input, exp) in inputs.iter().zip(expected) {
        assert_in_delta(pdf(*input, 0.5), exp, 0.00001);
    }
}

#[test]
fn students_t_test_pdf_nan() {
    assert!(pdf(f64::NAN, 1.0).is_nan());
    assert!(pdf(0.0, f64::NAN).is_nan());
}

#[test]
fn test_pdf_zero_n() {
    assert!(pdf(0.5, 0.0).is_nan());
}

#[test]
fn test_cdf_one() {
    let inputs = [f64::NEG_INFINITY, -3.0, -2.0, -1.0, 0.0, 1.0, 2.0, 3.0, f64::INFINITY];
    let expected = [0.0, 0.10242, 0.14758, 0.25, 0.5, 0.75, 0.85242, 0.89758, 1.0];
    for (input, exp) in inputs.iter().zip(expected) {
        assert_in_delta(cdf(*input, 1.0), exp, 0.00001);
    }
}

#[test]
fn test_cdf_two() {
    let inputs = [f64::NEG_INFINITY, -3.0, -2.0, -1.0, 0.0, 1.0, 2.0, 3.0, f64::INFINITY];
    let expected = [0.0, 0.04773, 0.09175, 0.21132, 0.5, 0.78868, 0.90825, 0.95227, 1.0];
    for (input, exp) in inputs.iter().zip(expected) {
        assert_in_delta(cdf(*input, 2.0), exp, 0.00001);
    }
}

#[test]
fn test_cdf_thirty() {
    let inputs = [f64::NEG_INFINITY, -3.0, -2.0, -1.0, 0.0, 1.0, 2.0, 3.0, f64::INFINITY];
    let expected = [0.0, 0.00269, 0.02731, 0.16265, 0.5, 0.83735, 0.97269, 0.99731, 1.0];
    for (input, exp) in inputs.iter().zip(expected) {
        assert_in_delta(cdf(*input, 30.0), exp, 0.00001);
    }
}

#[test]
fn test_cdf_non_integer() {
    let inputs = [f64::NEG_INFINITY, -3.0, -2.0, -1.0, 0.0, 1.0, 2.0, 3.0, f64::INFINITY];
    let expected = [0.0, 0.03629, 0.0787, 0.20203, 0.5, 0.79797, 0.9213, 0.96371, 1.0];
    for (input, exp) in inputs.iter().zip(expected) {
        assert_in_delta(cdf(*input, 2.5), exp, 0.00005);
    }
}

#[test]
fn test_cdf_infinity() {
    let inputs = [f64::NEG_INFINITY, -3.0, -2.0, -1.0, 0.0, 1.0, 2.0, 3.0, f64::INFINITY];
    let expected = [0.0, 0.00135, 0.02275, 0.15866, 0.5, 0.84134, 0.97725, 0.99865, 1.0];
    for (input, exp) in inputs.iter().zip(expected) {
        assert_in_delta(cdf(*input, f64::INFINITY), exp, 0.00001);
    }
}

#[test]
fn students_t_test_cdf_nan() {
    assert!(cdf(f64::NAN, 1.0).is_nan());
    assert!(cdf(0.0, f64::NAN).is_nan());
}

#[test]
fn test_cdf_zero_n() {
    assert!(cdf(0.5, 0.0).is_nan());
}

#[test]
fn test_ppf_one() {
    let inputs = [0.0, 0.1, 0.2, 0.3, 0.4, 0.5, 0.6, 0.7, 0.8, 0.9, 1.0];
    let expected = [f64::NEG_INFINITY, -3.07768, -1.37638, -0.72654, -0.32492, 0.0, 0.32492, 0.72654, 1.37638, 3.07768, f64::INFINITY];
    for (input, exp) in inputs.iter().zip(expected) {
        assert_in_delta(ppf(*input, 1.0), exp, 0.00001);
    }
}

#[test]
fn test_ppf_two() {
    let inputs = [0.0, 0.1, 0.2, 0.3, 0.4, 0.5, 0.6, 0.7, 0.8, 0.9, 1.0];
    let expected = [f64::NEG_INFINITY, -1.88562, -1.06066, -0.61721, -0.28868, 0.0, 0.28868, 0.61721, 1.06066, 1.88562, f64::INFINITY];
    for (input, exp) in inputs.iter().zip(expected) {
        assert_in_delta(ppf(*input, 2.0), exp, 0.00001);
    }
}

#[test]
fn test_ppf_thirty() {
    let inputs = [0.0, 0.1, 0.2, 0.3, 0.4, 0.5, 0.6, 0.7, 0.8, 0.9, 1.0];
    let expected = [f64::NEG_INFINITY, -1.31042, -0.85377, -0.53002, -0.25561, 0.0, 0.25561, 0.53002, 0.85377, 1.31042, f64::INFINITY];
    for (input, exp) in inputs.iter().zip(expected) {
        assert_in_delta(ppf(*input, 30.0), exp, 0.00001);
    }
}

#[test]
fn test_ppf_non_integer() {
    let inputs = [0.0, 0.1, 0.2, 0.3, 0.4, 0.5, 0.6, 0.7, 0.8, 0.9, 1.0];
    let expected = [f64::NEG_INFINITY, -1.73025, -1.01016, -0.59731, -0.28146, 0.0, 0.28146, 0.59731, 1.01016, 1.73025, f64::INFINITY];
    for (input, exp) in inputs.iter().zip(expected) {
        assert_in_delta(ppf(*input, 2.5), exp, 0.0002);
    }
}

#[test]
fn test_ppf_infinity() {
    let inputs = [0.0, 0.1, 0.2, 0.3, 0.4, 0.5, 0.6, 0.7, 0.8, 0.9, 1.0];
    let expected = [f64::NEG_INFINITY, -1.28155, -0.84162, -0.5244, -0.25335, 0.0, 0.25335, 0.5244, 0.84162, 1.28155, f64::INFINITY];
    for (input, exp) in inputs.iter().zip(expected) {
        assert_in_delta(ppf(*input, f64::INFINITY), exp, 0.00001);
    }
}

#[test]
fn students_t_test_ppf_nan() {
    assert!(ppf(f64::NAN, 1.0).is_nan());
    assert!(ppf(0.5, f64::NAN).is_nan());
}

#[test]
fn students_t_test_ppf_negative_p() {
    assert!(ppf(-1.0, 1.0).is_nan());
}

#[test]
fn test_ppf_zero_n() {
    assert!(ppf(0.5, 0.0).is_nan());
}
