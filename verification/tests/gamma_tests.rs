use distrs::HostMath;

struct Host;

impl HostMath for Host {
    fn add_spec(a: u64, b: u64) -> u64 {
        Self::add(a, b)
    }

    fn sub_spec(a: u64, b: u64) -> u64 {
        Self::sub(a, b)
    }

    fn mul_spec(a: u64, b: u64) -> u64 {
        Self::mul(a, b)
    }

    fn div_spec(a: u64, b: u64) -> u64 {
        Self::div(a, b)
    }

    fn sqrt_spec(x: u64) -> u64 {
        Self::sqrt(x)
    }

    fn exp_spec(x: u64) -> u64 {
        Self::exp(x)
    }

    fn log_spec(x: u64) -> u64 {
        Self::log(x)
    }

    fn pow_spec(x: u64, y: u64) -> u64 {
        Self::pow(x, y)
    }

    fn sin_spec(x: u64) -> u64 {
        Self::sin(x)
    }

    fn cos_spec(x: u64) -> u64 {
        Self::cos(x)
    }

    fn atan_spec(x: u64) -> u64 {
        Self::atan(x)
    }

    fn erf_spec(x: u64) -> u64 {
        Self::erf(x)
    }

    fn tgamma_spec(x: u64) -> u64 {
        Self::tgamma(x)
    }

    fn of_u64_spec(i: u64) -> u64 {
        Self::of_u64(i)
    }

    fn mul_comm(_a: u64, _b: u64) {}

    fn mul_neg(_a: u64, _b: u64) {}

    fn div_neg(_a: u64, _b: u64) {}

    fn square_not_nan(_a: u64) {}

    fn add(a: u64, b: u64) -> u64 {
        (f64::from_bits(a) + f64::from_bits(b)).to_bits()
    }

    fn sub(a: u64, b: u64) -> u64 {
        (f64::from_bits(a) - f64::from_bits(b)).to_bits()
    }

    fn mul(a: u64, b: u64) -> u64 {
        (f64::from_bits(a) * f64::from_bits(b)).to_bits()
    }

    fn div(a: u64, b: u64) -> u64 {
        (f64::from_bits(a) / f64::from_bits(b)).to_bits()
    }

    fn sqrt(x: u64) -> u64 {
        f64::from_bits(x).sqrt().to_bits()
    }

    fn exp(x: u64) -> u64 {
        f64::from_bits(x).exp().to_bits()
    }

    fn log(x: u64) -> u64 {
        f64::from_bits(x).ln().to_bits()
    }

    fn pow(x: u64, y: u64) -> u64 {
        f64::from_bits(x).powf(f64::from_bits(y)).to_bits()
    }

    fn sin(x: u64) -> u64 {
        f64::from_bits(x).sin().to_bits()
    }

    fn cos(x: u64) -> u64 {
        f64::from_bits(x).cos().to_bits()
    }

    fn atan(x: u64) -> u64 {
        f64::from_bits(x).atan().to_bits()
    }

    fn erf(x: u64) -> u64 {
        libm::erf(f64::from_bits(x)).to_bits()
    }

    fn tgamma(x: u64) -> u64 {
        libm::tgamma(f64::from_bits(x)).to_bits()
    }

    fn of_u64(i: u64) -> u64 {
        (i as f64).to_bits()
    }
}

fn gamma(x: f64) -> Option<f64> {
    distrs::gamma::calculate::<Host>(x.to_bits()).map(f64::from_bits)
}

// The greatest acceptable error proportion (between actual and expected
// values) acceptable by the unit tests.
const ACCEPTABLE_PROPORTIONAL_ERROR: f64 = 0.00000000000001;

fn assert_within(expected: f64, actual: f64, delta: f64) {
    let diff = (actual - expected).abs();
    assert!(
        diff <= delta,
        "Absolute discrepancy too large: ({} - {}).abs() = {} which exceeds max delta of {}",
        expected,
        actual,
        diff,
        delta
    );
    let prop_error = (diff / expected).abs();
    assert!(
        prop_error < ACCEPTABLE_PROPORTIONAL_ERROR,
        "Proportional error ({}/{}).abs() = {} which exceeds {}",
        diff,
        expected,
        prop_error,
        ACCEPTABLE_PROPORTIONAL_ERROR
    );
}

// Gives an exact answer, but cannot take arguments greater than 20 before overflow.
fn factorial(a: u64) -> u64 {
    if a == 0 {
        return 1;
    }
    if a <= 2 {
        return a;
    }
    let mut product: u64 = 1;
    for i in 2..=a {
        product *= i;
    }
    product
}

// Gives an approximate answer, but can handle much larger numbers.
fn factorial_f64(a: u64) -> f64 {
    if a == 0 {
        return 1.0;
    }
    if a <= 2 {
        return a as f64;
    }
    let mut product: f64 = 1.0;
    for i in 2..=a {
        product *= i as f64;
    }
    product
}

// Expected values are based on published tables of particular values of the
// gamma function.

#[test]
fn positive_integers_tiny() {
    for i in 1..=5 {
        assert_within(
            factorial(i - 1) as f64,
            gamma(i as f64).unwrap(),
            0.00000000000001,
        );
    }
}

#[test]
fn positive_integers_small() {
    for i in 6..=10 {
        assert_within(
            factorial(i - 1) as f64,
            gamma(i as f64).unwrap(),
            0.00000001,
        );
    }
}

#[test]
fn positive_integers_low_teens() {
    for i in 11..=15 {
        assert_within(
            factorial(i - 1) as f64,
            gamma(i as f64).unwrap(),
            0.001,
        );
    }
}

#[test]
fn positive_integers_high_teens() {
    assert_within(factorial(15) as f64, gamma(16.0).unwrap(), 0.01);
    assert_within(factorial(16) as f64, gamma(17.0).unwrap(), 0.1);
    assert_within(factorial(17) as f64, gamma(18.0).unwrap(), 0.5);
    assert_within(factorial(18) as f64, gamma(19.0).unwrap(), 10.0);
}

#[test]
fn positive_integers_twenties() {
    assert_within(factorial(19) as f64, gamma(20.0).unwrap(), 224.0);
    assert_within(factorial(20) as f64, gamma(21.0).unwrap(), 2048.0);
    // Factorial(21) is too large a number to hold in a u64, so we need to use
    // the factorial_f64 version.
    assert_within(factorial_f64(21), gamma(22.0).unwrap(), 40960.0);
    assert_within(factorial_f64(22), gamma(23.0).unwrap(), 655360.0);
    assert_within(factorial_f64(23), gamma(24.0).unwrap(), 50331648.0);
    assert_within(factorial_f64(24), gamma(25.0).unwrap(), 402653184.0);
    assert_within(factorial_f64(25), gamma(26.0).unwrap(), 8589934592.0);
    assert_within(factorial_f64(26), gamma(27.0).unwrap(), 412316860416.0);
    assert_within(factorial_f64(27), gamma(28.0).unwrap(), 37383395344384.0);
    assert_within(
        factorial_f64(28),
        gamma(29.0).unwrap(),
        // This error looks huge, but it's actually less than 1 in 2.9E14 of
        // the expected result.
        1020346790576128.0,
    );
}

#[test]
fn positive_half_integers_tiny() {
    for n in 0..=5 {
        let expected = std::f64::consts::PI.sqrt() * factorial(2 * n) as f64
            / (4_u64.pow(n as u32) * factorial(n)) as f64;
        let actual = gamma(n as f64 + 0.5).unwrap();
        assert_within(expected, actual, 0.0000000000001);
    }
}

#[test]
fn positive_half_integers_small() {
    for n in 6..=10 {
        let expected = std::f64::consts::PI.sqrt() * factorial(2 * n) as f64
            / (4_u64.pow(n as u32) * factorial(n)) as f64;
        let actual = gamma(n as f64 + 0.5).unwrap();
        assert_within(expected, actual, 0.00000001);
    }
}

#[test]
fn negative_half_integers_tiny() {
    assert_within(-3.5449077018110320546, gamma(-0.5).unwrap(), 0.00000000000001);
    assert_within(2.3632718012073547031, gamma(-1.5).unwrap(), 0.00000000000001);
    assert_within(-0.9453087204829418812, gamma(-2.5).unwrap(), 0.000000000000001);
}

#[test]
fn positive_fractions() {
    assert_within(2.6789385347077476337, gamma(1.0 / 3.0).unwrap(), 0.000000000000001);
    assert_within(3.6256099082219083119, gamma(1.0 / 4.0).unwrap(), 0.000000000000001);
    assert_within(4.5908437119988030532, gamma(1.0 / 5.0).unwrap(), 0.000000000000001);
    assert_within(5.5663160017802352043, gamma(1.0 / 6.0).unwrap(), 0.000000000000001);
    assert_within(6.5480629402478244377, gamma(1.0 / 7.0).unwrap(), 0.00000000000001);
    assert_within(7.5339415987976119047, gamma(1.0 / 8.0).unwrap(), 0.000000000000001);
}

#[test]
fn positive_real_axis_local_minimum() {
    assert_within(
        0.885603194410888,
        gamma(1.461632144968362341262).unwrap(),
        0.000000000000001,
    );
}

#[test]
fn negative_real_axis_local_minima() {
    assert_within(
        -3.5446436111550050891219639933,
        gamma(-0.5040830082644554092582693045).unwrap(),
        0.00000000000001,
    );
    assert_within(
        2.3024072583396801358235820396,
        gamma(-1.5734984731623904587782860437).unwrap(),
        0.00000000000001,
    );
    assert_within(
        -0.8881363584012419200955280294,
        gamma(-2.6107208684441446500015377157).unwrap(),
        0.00000000000001,
    );
    assert_within(
        0.2451275398343662504382300889,
        gamma(-3.6352933664369010978391815669).unwrap(),
        0.00000000000001,
    );
    assert_within(
        -0.0527796395873194007604835708,
        gamma(-4.6532377617431424417145981511).unwrap(),
        0.00000000000001,
    );
    assert_within(
        0.0093245944826148505217119238,
        gamma(-5.6671624415568855358494741745).unwrap(),
        0.00000000000001,
    );
    assert_within(
        -0.0013973966089497673013074887,
        gamma(-6.6784182130734267428298558886).unwrap(),
        0.00000000000001,
    );
    assert_within(
        0.0001818784449094041881014174,
        gamma(-7.6877883250316260374400988918).unwrap(),
        0.00000000000001,
    );
    assert_within(
        -0.0000209252904465266687536973,
        gamma(-8.6957641638164012664887761608).unwrap(),
        0.00000000000001,
    );
    assert_within(
        0.0000021574161045228505405031,
        gamma(-9.7026725400018637360844267649).unwrap(),
        0.00000000000001,
    );
}

#[test]
fn zero() {
    assert!(gamma(0_u32 as f64).is_none());
    assert!(gamma(-0_i32 as f64).is_none());
    assert!(gamma(0_i32 as f64).is_none());
    assert!(gamma(0.0).is_none());
    assert!(gamma(-0.0).is_none());
}

#[test]
fn negative_integers_f64() {
    assert!(gamma(-1.0).is_none());
    assert!(gamma(-1.00).is_none());
    assert!(gamma(-1.000).is_none());
    assert!(gamma(-1.0000).is_none());
    assert!(gamma(-1.00000).is_none());
    assert!(gamma(-1.000000).is_none());
    assert!(gamma(-2.0).is_none());
    assert!(gamma(-3.0).is_none());
    assert!(gamma(-4.0).is_none());
    assert!(gamma(-5.0).is_none());
    assert!(gamma(-6.0).is_none());
    assert!(gamma(-7.0).is_none());
    assert!(gamma(-8.0).is_none());
    assert!(gamma(-9.0).is_none());
    assert!(gamma(-10.0).is_none());
}

#[test]
fn negative_integers_i32() {
    assert!(gamma(-1_i32 as f64).is_none());
    assert!(gamma(-2_i32 as f64).is_none());
    assert!(gamma(-3_i32 as f64).is_none());
    assert!(gamma(-4_i32 as f64).is_none());
    assert!(gamma(-5_i32 as f64).is_none());
    assert!(gamma(-6_i32 as f64).is_none());
    assert!(gamma(-7_i32 as f64).is_none());
    assert!(gamma(-8_i32 as f64).is_none());
    assert!(gamma(-9_i32 as f64).is_none());
    assert!(gamma(-10_i32 as f64).is_none());
}
