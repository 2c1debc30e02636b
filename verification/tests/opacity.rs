use barterm::opacity::{
    WindowOpacity, INFINITY_BITS, MAX_OPACITY_BITS, MIN_OPACITY_BITS, SIGN_BIT,
};

fn clamp(opacity: f64) -> Option<f64> {
    WindowOpacity::from_bits(opacity.to_bits()).map(|o| f64::from_bits(o.bits()))
}

#[test]
fn limits_are_the_bit_patterns_of_the_limits() {
    assert_eq!(MIN_OPACITY_BITS, 0.1f64.to_bits());
    assert_eq!(MAX_OPACITY_BITS, 1.0f64.to_bits());
    assert_eq!(SIGN_BIT, (-0.0f64).to_bits());
    assert_eq!(INFINITY_BITS, f64::INFINITY.to_bits());
}

#[test]
fn opacity_above_the_range_clamps_to_one() {
    assert_eq!(clamp(1.5), Some(1.0));
}

#[test]
fn opacity_of_zero_clamps_to_a_tenth() {
    assert_eq!(clamp(0.0), Some(0.1));
}

#[test]
fn opacity_within_the_range_is_kept() {
    assert_eq!(clamp(0.1), Some(0.1));
    assert_eq!(clamp(0.5), Some(0.5));
    assert_eq!(clamp(0.85), Some(0.85));
    assert_eq!(clamp(1.0), Some(1.0));
    assert_eq!(clamp(0.100_000_000_000_000_02), Some(0.100_000_000_000_000_02));
    assert_eq!(clamp(0.999_999_999_999_999_9), Some(0.999_999_999_999_999_9));
}

#[test]
fn opacity_agrees_with_clamping_the_number() {
    let samples = [
        0.0,
        -0.0,
        f64::MIN_POSITIVE,
        5e-324,
        0.05,
        0.099_999_999_999_999_99,
        0.1,
        0.100_000_000_000_000_02,
        0.25,
        0.333_333_333_333_333_3,
        0.5,
        0.75,
        0.999_999_999_999_999_9,
        1.0,
        1.000_000_000_000_000_2,
        1.5,
        2.0,
        255.0,
        1e308,
        f64::MAX,
        f64::INFINITY,
        -5e-324,
        -0.1,
        -0.5,
        -1.0,
        -1.5,
        -1e308,
        f64::MIN,
        f64::NEG_INFINITY,
    ];
    for &x in samples.iter() {
        let want = x.clamp(0.1, 1.0);
        assert_eq!(clamp(x).map(f64::to_bits), Some(want.to_bits()), "opacity {}", x);
    }
}

#[test]
fn what_is_not_a_number_gives_no_opacity() {
    assert_eq!(clamp(f64::NAN), None);
    assert_eq!(WindowOpacity::from_bits(0x7FF0_0000_0000_0001), None);
    assert_eq!(WindowOpacity::from_bits(0x7FF8_0000_0000_0000), None);
    assert_eq!(WindowOpacity::from_bits(0xFFF0_0000_0000_0001), None);
    assert_eq!(WindowOpacity::from_bits(0xFFFF_FFFF_FFFF_FFFF), None);
    assert_eq!(WindowOpacity::from_bits(0x7FFF_FFFF_FFFF_FFFF), None);
}

#[test]
fn infinities_clamp_to_the_limits() {
    assert_eq!(clamp(f64::INFINITY), Some(1.0));
    assert_eq!(clamp(f64::NEG_INFINITY), Some(0.1));
}

#[test]
fn clamping_twice_changes_nothing() {
    for &x in [0.0, 0.1, 0.3, 1.0, 7.0, -2.0].iter() {
        let once = clamp(x).unwrap();
        assert_eq!(clamp(once), Some(once));
    }
}

#[test]
fn bits_are_always_within_the_limits() {
    let mut bits: u64 = 1;
    for _ in 0..64 {
        if let Some(opacity) = WindowOpacity::from_bits(bits) {
            assert!(MIN_OPACITY_BITS <= opacity.bits() && opacity.bits() <= MAX_OPACITY_BITS);
        }
        if let Some(opacity) = WindowOpacity::from_bits(bits.wrapping_sub(1)) {
            assert!(MIN_OPACITY_BITS <= opacity.bits() && opacity.bits() <= MAX_OPACITY_BITS);
        }
        bits = bits.wrapping_mul(2);
    }
}
