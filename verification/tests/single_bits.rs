use flycam::look::PITCH_LIMIT;
use flycam::settings::{DEFAULT_RUN_MULTIPLIER, DEFAULT_SENSITIVITY, DEFAULT_SPEED, ONE};
use flycam::single::{clamp_symmetric, floor_at_zero, is_number, INFINITY_MAGNITUDE, SIGN_BIT};

fn samples() -> Vec<f32> {
    vec![
        0.0,
        -0.0,
        1.0,
        -1.0,
        1.54,
        -1.54,
        1.5399999,
        1.5400001,
        -1.5400001,
        2.0,
        -2.0,
        0.5,
        -0.25,
        1.0e-40,
        -1.0e-40,
        f32::MIN_POSITIVE,
        f32::MAX,
        f32::MIN,
        f32::INFINITY,
        f32::NEG_INFINITY,
        3.1415927,
        -100.0,
        12.0,
    ]
}

#[test]
fn constants_are_the_patterns_of_their_numbers() {
    assert_eq!(PITCH_LIMIT, 1.54f32.to_bits());
    assert_eq!(DEFAULT_SENSITIVITY, 0.02f32.to_bits());
    assert_eq!(DEFAULT_SPEED, 12.0f32.to_bits());
    assert_eq!(DEFAULT_RUN_MULTIPLIER, 3.0f32.to_bits());
    assert_eq!(ONE, 1.0f32.to_bits());
    assert_eq!(SIGN_BIT, (-0.0f32).to_bits());
    assert_eq!(INFINITY_MAGNITUDE, f32::INFINITY.to_bits());
}

#[test]
fn clamp_symmetric_agrees_with_float_clamp() {
    for x in samples() {
        let got = clamp_symmetric(x.to_bits(), PITCH_LIMIT);
        let want = x.clamp(-1.54, 1.54);
        assert_eq!(got, want.to_bits(), "clamping {}", x);
    }
}

#[test]
fn clamp_symmetric_agrees_with_float_clamp_on_other_limits() {
    for limit in [0.0f32, 0.5, 1.0, 100.0, f32::MAX, f32::INFINITY] {
        for x in samples() {
            let got = clamp_symmetric(x.to_bits(), limit.to_bits());
            let want = x.clamp(-limit, limit);
            assert_eq!(f32::from_bits(got), want, "clamping {} to {}", x, limit);
        }
    }
}

#[test]
fn clamp_symmetric_exact_values() {
    assert_eq!(clamp_symmetric(2.0f32.to_bits(), PITCH_LIMIT), 0x3fc5_1eb8);
    assert_eq!(clamp_symmetric((-2.0f32).to_bits(), PITCH_LIMIT), 0xbfc5_1eb8);
    assert_eq!(clamp_symmetric(1.0f32.to_bits(), PITCH_LIMIT), 0x3f80_0000);
    assert_eq!(clamp_symmetric(0x8000_0000, PITCH_LIMIT), 0x8000_0000);
}

#[test]
fn clamp_symmetric_leaves_nan_alone() {
    for bits in [f32::NAN.to_bits(), 0x7f80_0001, 0xffff_ffff, 0xff80_0001] {
        assert!(f32::from_bits(bits).is_nan());
        assert_eq!(clamp_symmetric(bits, PITCH_LIMIT), bits);
        assert!(f32::from_bits(bits).clamp(-1.54, 1.54).is_nan());
    }
}

#[test]
fn floor_at_zero_agrees_with_float_max() {
    for x in samples() {
        let got = f32::from_bits(floor_at_zero(x.to_bits()));
        assert_eq!(got, x.max(0.0), "flooring {}", x);
        assert!(got.is_sign_positive());
    }
}

#[test]
fn floor_at_zero_turns_nan_into_zero() {
    for bits in [f32::NAN.to_bits(), 0x7f80_0001, 0xffff_ffff] {
        assert_eq!(floor_at_zero(bits), 0);
        assert_eq!(f32::from_bits(bits).max(0.0), 0.0);
    }
}

#[test]
fn floor_at_zero_exact_values() {
    assert_eq!(floor_at_zero((-8.0f32).to_bits()), 0);
    assert_eq!(floor_at_zero(0x8000_0000), 0);
    assert_eq!(floor_at_zero(14.5f32.to_bits()), 14.5f32.to_bits());
    assert_eq!(floor_at_zero(f32::INFINITY.to_bits()), f32::INFINITY.to_bits());
}

#[test]
fn is_number_agrees_with_float_is_nan() {
    for x in samples() {
        assert!(is_number(x.to_bits()));
    }
    for bits in [f32::NAN.to_bits(), 0x7f80_0001, 0xffff_ffff, 0xff80_0001, 0x7fc0_0000] {
        assert!(!is_number(bits));
        assert!(f32::from_bits(bits).is_nan());
    }
    assert!(is_number(0x7f80_0000));
    assert!(is_number(0xff80_0000));
}
