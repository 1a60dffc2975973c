use windows_fonts::scalar::Scalar;

fn samples() -> Vec<u32> {
    let mut bits: Vec<u32> = vec![
        0x0000_0000,
        0x8000_0000,
        0x0000_0001,
        0x007f_ffff,
        0x0080_0000,
        0x3f7f_ffff,
        0x3f80_0000,
        0x3fc0_0000,
        0x4000_0000,
        0x43c8_0000,
        0x43c8_8000,
        0x4b00_0000,
        0x4b7f_ffff,
        0x4b80_0000,
        0x4eff_ffff,
        0x4f00_0000,
        0x4f00_0001,
        0xcf00_0000,
        0xcf00_0001,
        0xceff_ffff,
        0x7f7f_ffff,
        0x7f80_0000,
        0xff80_0000,
        0x7fc0_0000,
        0x7f80_0001,
        0xffc0_0000,
        0xc141_999a,
        0x4141_999a,
    ];
    let mut state: u32 = 0x1234_5678;
    let mut i: u32 = 0;
    while i < 20000 {
        state = state.wrapping_mul(1664525).wrapping_add(1013904223);
        bits.push(state);
        i += 1;
    }
    bits
}

#[test]
fn to_i32_rounds_toward_zero_like_the_machine() {
    for bits in samples() {
        let expected: i32 = f32::from_bits(bits) as i32;
        assert_eq!(Scalar::from_bits(bits).to_i32(), expected, "bits {:#x}", bits);
    }
}

#[test]
fn to_i32_exact_values() {
    assert_eq!(Scalar::from_bits(0x43c8_0000).to_i32(), 400);
    assert_eq!(Scalar::from_bits(0x43c8_8000).to_i32(), 401);
    assert_eq!(Scalar::from_bits(0x3fc0_0000).to_i32(), 1);
    assert_eq!(Scalar::from_bits(0xbfc0_0000).to_i32(), -1);
    assert_eq!(Scalar::from_bits(0x3f00_0000).to_i32(), 0);
    assert_eq!(Scalar::from_bits(0x7f80_0000).to_i32(), i32::MAX);
    assert_eq!(Scalar::from_bits(0xff80_0000).to_i32(), i32::MIN);
    assert_eq!(Scalar::from_bits(0x7fc0_0000).to_i32(), 0);
    assert_eq!(Scalar::from_bits(0x4f00_0000).to_i32(), i32::MAX);
    assert_eq!(Scalar::from_bits(0xcf00_0000).to_i32(), i32::MIN);
}

#[test]
fn from_i32_rounds_to_nearest_like_the_machine() {
    let mut values: Vec<i32> = vec![
        0,
        1,
        -1,
        2,
        3,
        100,
        350,
        400,
        950,
        (1 << 23) - 1,
        1 << 23,
        (1 << 24) - 1,
        1 << 24,
        (1 << 24) + 1,
        (1 << 24) + 2,
        (1 << 24) + 3,
        (1 << 25) - 1,
        (1 << 25) + 1,
        (1 << 26) - 3,
        (1 << 26) - 2,
        i32::MAX,
        i32::MAX - 63,
        i32::MAX - 64,
        i32::MAX - 65,
        i32::MIN,
        i32::MIN + 1,
        i32::MIN + 127,
        i32::MIN + 128,
        i32::MIN + 129,
    ];
    for bits in samples() {
        values.push(bits as i32);
        values.push((bits >> 5) as i32);
        values.push((bits >> 9) as i32);
    }
    for value in values {
        let expected: u32 = (value as f32).to_bits();
        assert_eq!(Scalar::from_i32(value).to_bits(), expected, "value {}", value);
    }
}

#[test]
fn from_i32_exact_values() {
    assert_eq!(Scalar::from_i32(0).to_bits(), 0);
    assert_eq!(Scalar::from_i32(1).to_bits(), 0x3f80_0000);
    assert_eq!(Scalar::from_i32(400).to_bits(), 0x43c8_0000);
    assert_eq!(Scalar::from_i32(-400).to_bits(), 0xc3c8_0000);
    assert_eq!(Scalar::from_i32(i32::MIN).to_bits(), 0xcf00_0000);
    assert_eq!(Scalar::from_i32(i32::MAX).to_bits(), 0x4f00_0000);
}

#[test]
fn whole_numbers_up_to_24_bits_survive_the_round_trip() {
    let mut value: i32 = -(1 << 24);
    while value <= (1 << 24) {
        assert_eq!(Scalar::from_i32(value).to_i32(), value);
        value += 4099;
    }
    assert_eq!(Scalar::from_i32(1 << 24).to_i32(), 1 << 24);
    assert_eq!(Scalar::from_i32(-(1 << 24)).to_i32(), -(1 << 24));
}

#[test]
fn one_and_zero() {
    assert_eq!(Scalar::one().to_bits(), 1.0f32.to_bits());
    assert_eq!(Scalar::zero().to_bits(), 0.0f32.to_bits());
    assert_eq!(Scalar::one().to_i32(), 1);
    assert_eq!(Scalar::zero().to_i32(), 0);
}
