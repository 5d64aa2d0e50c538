use orbit_controls::scalar::{
    Scalar, FRACTION_RANGE, INFINITY_BITS, NEG_INFINITY_BITS, NEG_ONE_BITS, ONE_BITS, SIGN_BIT,
    ZERO_BITS,
};

fn s(x: f32) -> Scalar {
    Scalar::from_bits(x.to_bits())
}

fn samples() -> Vec<f32> {
    vec![
        0.0,
        -0.0,
        1.0,
        -1.0,
        0.0001,
        -0.0001,
        0.5,
        89.0,
        -89.0,
        170.0,
        3.1414928,
        3.1415927,
        1.0e-45,
        -1.0e-45,
        1.1754942e-38,
        1.17549435e-38,
        -1.17549435e-38,
        3.4028235e38,
        -3.4028235e38,
        f32::INFINITY,
        f32::NEG_INFINITY,
        f32::NAN,
        f32::from_bits(0xFFC0_0001),
        f32::from_bits(0x7F80_0001),
    ]
}

#[test]
fn bit_patterns_round_trip() {
    for x in samples() {
        assert_eq!(s(x).to_bits(), x.to_bits());
        assert_eq!(Scalar::from_bits(x.to_bits()), Scalar { bits: x.to_bits() });
    }
}

#[test]
fn named_patterns_are_the_numbers_they_name() {
    assert_eq!(ZERO_BITS, 0.0f32.to_bits());
    assert_eq!(SIGN_BIT, (-0.0f32).to_bits());
    assert_eq!(ONE_BITS, 1.0f32.to_bits());
    assert_eq!(NEG_ONE_BITS, (-1.0f32).to_bits());
    assert_eq!(INFINITY_BITS, f32::INFINITY.to_bits());
    assert_eq!(NEG_INFINITY_BITS, f32::NEG_INFINITY.to_bits());
    assert_eq!(FRACTION_RANGE, 1u32 << 23);
}

#[test]
fn nan_is_recognised() {
    for x in samples() {
        assert_eq!(s(x).is_nan(), x.is_nan(), "{x:?}");
    }
    assert!(Scalar::from_bits(0x7FC0_0000).is_nan());
    assert!(Scalar::from_bits(0xFFFF_FFFF).is_nan());
    assert!(!Scalar::from_bits(0x7F80_0000).is_nan());
    assert!(!Scalar::from_bits(0xFF80_0000).is_nan());
}

#[test]
fn zero_of_either_sign_is_zero() {
    for x in samples() {
        assert_eq!(s(x).is_zero(), x == 0.0, "{x:?}");
    }
    assert!(s(0.0).is_zero());
    assert!(s(-0.0).is_zero());
    assert!(!s(1.0e-45).is_zero());
}

#[test]
fn order_key_of_known_values() {
    assert_eq!(s(0.0).order_key(), 0);
    assert_eq!(s(-0.0).order_key(), 0);
    assert_eq!(s(1.0).order_key(), 0x3F80_0000);
    assert_eq!(s(-1.0).order_key(), -0x3F80_0000);
    assert_eq!(s(1.0e-45).order_key(), 1);
    assert_eq!(s(-1.0e-45).order_key(), -1);
    assert_eq!(s(f32::INFINITY).order_key(), 0x7F80_0000);
    assert_eq!(s(f32::NEG_INFINITY).order_key(), -0x7F80_0000);
    assert_eq!(Scalar::from_bits(0xFFFF_FFFF).order_key(), -0x7FFF_FFFF);
}

#[test]
fn order_key_grows_with_the_number() {
    for a in samples() {
        for b in samples() {
            if a.is_nan() || b.is_nan() {
                continue;
            }
            assert_eq!(s(a).order_key() < s(b).order_key(), a < b, "{a:?} {b:?}");
            assert_eq!(s(a).order_key() == s(b).order_key(), a == b, "{a:?} {b:?}");
        }
    }
}

#[test]
fn comparisons_agree_with_the_hardware() {
    for a in samples() {
        for b in samples() {
            assert_eq!(s(a).lt(s(b)), a < b, "{a:?} < {b:?}");
            assert_eq!(s(a).le(s(b)), a <= b, "{a:?} <= {b:?}");
            assert_eq!(s(a).gt(s(b)), a > b, "{a:?} > {b:?}");
            assert_eq!(s(a).ge(s(b)), a >= b, "{a:?} >= {b:?}");
        }
    }
}

#[test]
fn comparisons_with_nan_are_false() {
    let nan = s(f32::NAN);
    let one = s(1.0);
    assert!(!nan.lt(one) && !nan.le(one) && !nan.gt(one) && !nan.ge(one));
    assert!(!one.lt(nan) && !one.le(nan) && !one.gt(nan) && !one.ge(nan));
    assert!(!nan.le(nan) && !nan.ge(nan));
}

#[test]
fn clamp_returns_the_bound_passed() {
    assert_eq!(s(3.0).clamp(s(-1.0), s(1.0)), s(1.0));
    assert_eq!(s(-3.0).clamp(s(-1.0), s(1.0)), s(-1.0));
    assert_eq!(s(0.5).clamp(s(-1.0), s(1.0)), s(0.5));
    assert_eq!(s(f32::INFINITY).clamp(s(1.0), s(170.0)), s(170.0));
    assert_eq!(s(f32::NEG_INFINITY).clamp(s(1.0), s(170.0)), s(1.0));
}

#[test]
fn clamp_leaves_nan_as_it_is() {
    let nan = Scalar::from_bits(0x7FC0_1234);
    assert_eq!(nan.clamp(s(-1.0), s(1.0)), nan);
    let negative_nan = Scalar::from_bits(0xFFC0_0000);
    assert_eq!(negative_nan.clamp(s(-1.0), s(1.0)), negative_nan);
}

#[test]
fn clamp_keeps_the_sign_of_zero() {
    assert_eq!(s(-0.0).clamp(s(0.0), s(1.0)).to_bits(), (-0.0f32).to_bits());
    assert_eq!(s(0.0).clamp(s(-0.0), s(1.0)).to_bits(), 0.0f32.to_bits());
    assert_eq!(s(-1.0).clamp(s(-0.0), s(0.0)).to_bits(), (-0.0f32).to_bits());
    assert_eq!(s(1.0).clamp(s(-0.0), s(0.0)).to_bits(), 0.0f32.to_bits());
    assert_eq!(s(1.0).clamp(s(0.0), s(-0.0)).to_bits(), (-0.0f32).to_bits());
}

#[test]
fn clamp_agrees_with_num_traits_on_floats() {
    for x in samples() {
        for lo in samples() {
            for hi in samples() {
                if !(lo <= hi) {
                    continue;
                }
                let expected: f32 = num_traits::clamp(x, lo, hi);
                let got = s(x).clamp(s(lo), s(hi));
                assert_eq!(got.to_bits(), expected.to_bits(), "{x:?} in {lo:?}..{hi:?}");
            }
        }
    }
}

#[test]
fn clamp_with_equal_bounds_gives_the_bound() {
    assert_eq!(s(5.0).clamp(s(2.0), s(2.0)), s(2.0));
    assert_eq!(s(-5.0).clamp(s(2.0), s(2.0)), s(2.0));
    assert_eq!(s(2.0).clamp(s(2.0), s(2.0)), s(2.0));
}
