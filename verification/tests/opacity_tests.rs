use crossover::opacity::{clamp_opacity, FULLY_OPAQUE, FULLY_TRANSPARENT, INFINITY, SIGN_BIT};

#[test]
fn opacity_constants_are_the_bits_of_the_numbers() {
    assert_eq!(FULLY_TRANSPARENT, 0.0f64.to_bits());
    assert_eq!(FULLY_OPAQUE, 1.0f64.to_bits());
    assert_eq!(INFINITY, f64::INFINITY.to_bits());
    assert_eq!(SIGN_BIT, (-0.0f64).to_bits());
}

#[test]
fn clamp_opacity_examples() {
    assert_eq!(clamp_opacity((-0.5f64).to_bits()), 0.0f64.to_bits());
    assert_eq!(clamp_opacity(1.7f64.to_bits()), 1.0f64.to_bits());
    assert_eq!(clamp_opacity(0.5f64.to_bits()), 0.5f64.to_bits());
    assert_eq!(clamp_opacity(0xBFE0_0000_0000_0000), 0);
    assert_eq!(clamp_opacity(0x3FFB_3333_3333_3333), 0x3FF0_0000_0000_0000);
}

#[test]
fn clamp_opacity_at_the_ends_of_the_range() {
    assert_eq!(clamp_opacity(FULLY_TRANSPARENT), FULLY_TRANSPARENT);
    assert_eq!(clamp_opacity(FULLY_OPAQUE), FULLY_OPAQUE);
    assert_eq!(clamp_opacity(FULLY_OPAQUE + 1), FULLY_OPAQUE);
    assert_eq!(clamp_opacity(FULLY_OPAQUE - 1), FULLY_OPAQUE - 1);
    assert_eq!(clamp_opacity(SIGN_BIT), SIGN_BIT);
    assert_eq!(clamp_opacity(SIGN_BIT + 1), FULLY_TRANSPARENT);
    assert_eq!(clamp_opacity(INFINITY), FULLY_OPAQUE);
    assert_eq!(clamp_opacity(SIGN_BIT | INFINITY), FULLY_TRANSPARENT);
}

#[test]
fn clamp_opacity_takes_what_is_not_a_number_as_fully_opaque() {
    for bits in [INFINITY + 1, u64::MAX, SIGN_BIT | (INFINITY + 1), f64::NAN.to_bits()] {
        assert_eq!(clamp_opacity(bits), FULLY_OPAQUE);
    }
}

#[test]
fn clamp_opacity_agrees_with_the_numbers_clamp() {
    let mut bits: u64 = 0x0123_4567_89AB_CDEF;
    for _ in 0..2000 {
        bits = bits.wrapping_mul(6364136223846793005).wrapping_add(1442695040888963407);
        let v = f64::from_bits(bits);
        if v.is_nan() {
            assert_eq!(clamp_opacity(bits), FULLY_OPAQUE);
        } else {
            assert_eq!(clamp_opacity(bits), v.clamp(0.0, 1.0).to_bits());
        }
    }
}
