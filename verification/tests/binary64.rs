use owlib::binary64::{equal, greater_than, is_nan, magnitude, INFINITY, SIGN_BIT};

fn samples() -> Vec<f64> {
    vec![
        0.0,
        -0.0,
        f64::from_bits(1),
        f64::from_bits(0x8000_0000_0000_0001),
        f64::from_bits(0x000f_ffff_ffff_ffff),
        f64::from_bits(0x800f_ffff_ffff_ffff),
        f64::MIN_POSITIVE,
        -f64::MIN_POSITIVE,
        1.0e-300,
        0.5,
        -0.5,
        1.0,
        -1.0,
        1.0000000000000002,
        8.82,
        -7.92,
        -50.35,
        -1.76,
        100.0,
        -100.0,
        1.0e300,
        -1.0e300,
        f64::MAX,
        f64::MIN,
        f64::INFINITY,
        f64::NEG_INFINITY,
        f64::NAN,
        -f64::NAN,
        f64::from_bits(0x7ff0_0000_0000_0001),
        f64::from_bits(0xfff0_0000_0000_0001),
    ]
}

#[test]
fn constants_are_the_sign_bit_and_infinity() {
    assert_eq!(SIGN_BIT, (-0.0f64).to_bits());
    assert_eq!(INFINITY, f64::INFINITY.to_bits());
}

#[test]
fn magnitude_is_the_absolute_value() {
    for value in samples() {
        assert_eq!(magnitude(value.to_bits()), value.abs().to_bits(), "{value}");
    }
}

#[test]
fn is_nan_tells_nan_from_numbers() {
    for value in samples() {
        assert_eq!(is_nan(value.to_bits()), value.is_nan(), "{value}");
    }
}

#[test]
fn greater_than_orders_as_the_numbers_do() {
    for a in samples() {
        for b in samples() {
            assert_eq!(greater_than(a.to_bits(), b.to_bits()), a > b, "{a} {b}");
        }
    }
}

#[test]
fn greater_than_on_chosen_values() {
    assert!(greater_than(1.0f64.to_bits(), 0.5f64.to_bits()));
    assert!(!greater_than(0.5f64.to_bits(), 1.0f64.to_bits()));
    assert!(greater_than((-0.5f64).to_bits(), (-1.0f64).to_bits()));
    assert!(greater_than(0.5f64.to_bits(), (-1.0f64).to_bits()));
    assert!(!greater_than((-1.0f64).to_bits(), 0.5f64.to_bits()));
    assert!(!greater_than(0.0f64.to_bits(), (-0.0f64).to_bits()));
    assert!(!greater_than((-0.0f64).to_bits(), 0.0f64.to_bits()));
    assert!(!greater_than(1.0f64.to_bits(), 1.0f64.to_bits()));
    assert!(!greater_than(f64::NAN.to_bits(), 1.0f64.to_bits()));
    assert!(!greater_than(1.0f64.to_bits(), f64::NAN.to_bits()));
    assert!(greater_than(f64::INFINITY.to_bits(), f64::MAX.to_bits()));
}

#[test]
fn equal_compares_as_the_numbers_do() {
    for a in samples() {
        for b in samples() {
            assert_eq!(equal(a.to_bits(), b.to_bits()), a == b, "{a} {b}");
        }
    }
}

/// A fixed sequence of patterns that covers all exponents and both signs.
fn patterns() -> Vec<u64> {
    let mut state: u64 = 0x9e37_79b9_7f4a_7c15;
    let mut patterns = Vec::new();
    for _ in 0..2000 {
        state = state
            .wrapping_mul(6364136223846793005)
            .wrapping_add(1442695040888963407);
        patterns.push(state);
        patterns.push(state >> 12);
        patterns.push(state | 0x7ff0_0000_0000_0000);
    }
    patterns
}

#[test]
fn comparisons_agree_with_the_hardware_on_many_patterns() {
    let patterns = patterns();
    for window in patterns.windows(2) {
        let (a, b) = (window[0], window[1]);
        let (x, y) = (f64::from_bits(a), f64::from_bits(b));
        assert_eq!(greater_than(a, b), x > y, "{a:#x} {b:#x}");
        assert_eq!(greater_than(b, a), y > x, "{a:#x} {b:#x}");
        assert_eq!(equal(a, b), x == y, "{a:#x} {b:#x}");
        assert_eq!(equal(a, a), x == x, "{a:#x}");
        assert_eq!(is_nan(a), x.is_nan(), "{a:#x}");
    }
}
