use fractal_view::binary32::{Binary32, FRACTIONS, INFINITE, SIGN_BIT};

fn word(x: f32) -> Binary32 {
    Binary32::from_bits(x.to_bits())
}

fn samples() -> Vec<f32> {
    vec![
        0.0,
        -0.0,
        1.0,
        -1.0,
        2.0,
        -2.0,
        1.5,
        0.5,
        0.75,
        0.00001,
        0.000009,
        1.2,
        1.8,
        -1.8,
        2.0000002,
        -2.0000002,
        1.9999999,
        1e9,
        -1e9,
        3.4028235e38,
        -3.4028235e38,
        1e-45,
        -1e-45,
        1.1754942e-38,
        1.17549435e-38,
        f32::INFINITY,
        f32::NEG_INFINITY,
        f32::NAN,
        -f32::NAN,
        f32::from_bits(0x7f80_0001),
        f32::from_bits(0xffff_ffff),
    ]
}

#[test]
fn bits_round_trip() {
    for bits in [0u32, 1, 0x3f80_0000, 0x8000_0000, 0x7fc0_0000, 0xffff_ffff] {
        assert_eq!(Binary32::from_bits(bits).to_bits(), bits);
        assert_eq!(Binary32::from_bits(bits).bits, bits);
    }
}

#[test]
fn layout_constants() {
    assert_eq!(SIGN_BIT, (-0.0f32).to_bits());
    assert_eq!(INFINITE, f32::INFINITY.to_bits());
    assert_eq!(FRACTIONS, 1 << 23);
}

#[test]
fn is_nan_agrees_with_hardware() {
    for x in samples() {
        assert_eq!(word(x).is_nan(), x.is_nan(), "{x:?}");
    }
}

#[test]
fn lt_agrees_with_hardware() {
    for a in samples() {
        for b in samples() {
            assert_eq!(word(a).lt(word(b)), a < b, "{a:?} < {b:?}");
        }
    }
}

#[test]
fn eq_value_agrees_with_hardware() {
    for a in samples() {
        for b in samples() {
            assert_eq!(word(a).eq_value(word(b)), a == b, "{a:?} == {b:?}");
        }
    }
}

#[test]
fn eq_value_is_not_word_equality() {
    assert!(word(0.0).eq_value(word(-0.0)));
    assert_ne!(word(0.0), word(-0.0));
    assert!(!word(f32::NAN).eq_value(word(f32::NAN)));
    assert_eq!(word(f32::NAN), word(f32::NAN));
}

#[test]
fn clamp_agrees_with_hardware() {
    let bounds = [(-2.0f32, 2.0f32), (0.00001, 1.5), (0.0, 1.0), (-0.0, 0.0), (1.0, 1.0)];
    for (lo, hi) in bounds {
        for x in samples() {
            let got = word(x).clamp(word(lo), word(hi));
            let want = x.clamp(lo, hi);
            if want.is_nan() {
                assert_eq!(got, word(x), "{x:?} into {lo:?}..={hi:?}");
            } else {
                assert_eq!(got.to_bits(), want.to_bits(), "{x:?} into {lo:?}..={hi:?}");
            }
        }
    }
}

#[test]
fn clamp_keeps_what_is_not_a_number() {
    let nan = Binary32::from_bits(0x7fc0_1234);
    assert_eq!(nan.clamp(word(-2.0), word(2.0)), nan);
    let negative_nan = Binary32::from_bits(0xffc0_0000);
    assert_eq!(negative_nan.clamp(word(0.0), word(1.0)), negative_nan);
}

#[test]
fn clamp_keeps_negative_zero_at_a_zero_bound() {
    assert_eq!(word(-0.0).clamp(word(0.0), word(1.0)).to_bits(), 0x8000_0000);
}

#[test]
fn clamp_is_idempotent() {
    for x in samples() {
        let once = word(x).clamp(word(-2.0), word(2.0));
        assert_eq!(once.clamp(word(-2.0), word(2.0)), once);
    }
}

#[test]
fn clamp_brings_infinities_to_the_bounds() {
    assert_eq!(word(f32::INFINITY).clamp(word(-2.0), word(2.0)), word(2.0));
    assert_eq!(word(f32::NEG_INFINITY).clamp(word(-2.0), word(2.0)), word(-2.0));
}

#[test]
fn clamp_or_agrees_with_clamp_on_numbers() {
    for x in samples() {
        if x.is_nan() {
            continue;
        }
        let got = word(x).clamp_or(word(-2.0), word(2.0), word(0.5));
        assert_eq!(got.to_bits(), x.clamp(-2.0, 2.0).to_bits(), "{x:?}");
    }
}

#[test]
fn clamp_or_gives_the_former_value_for_what_is_not_a_number() {
    for bits in [0x7fc0_0000u32, 0xffc0_0000, 0x7f80_0001, 0xff80_0001, 0x7fff_ffff, 0xffff_ffff] {
        let got = Binary32::from_bits(bits).clamp_or(word(-2.0), word(2.0), word(0.5));
        assert_eq!(got, word(0.5), "{bits:#x}");
    }
}

#[test]
fn clamp_or_is_always_within_the_bounds() {
    for x in samples() {
        let got = f32::from_bits(word(x).clamp_or(word(0.00001), word(1.5), word(1.5)).to_bits());
        assert!((0.00001..=1.5).contains(&got), "{x:?}");
    }
}
