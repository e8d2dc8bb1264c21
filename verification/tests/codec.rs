use bitcodec::codec::{decode, extract_fields, fields_to_bits, from_parts, Decoded, FieldTriple};

#[test]
fn bias_for_one() {
    let bits = 1.0f32.to_bits();
    assert_eq!(bits, 0x3F800000);
    let f = extract_fields(bits);
    assert_eq!(f.sign, 0);
    assert_eq!(f.exponent, 127);
    assert_eq!(f.fraction, 0);
    let d = decode(&f);
    assert_eq!(
        d,
        Decoded::Normal { sign_factor: 1, exponent: 0, significand: 0x800000 }
    );
}

#[test]
fn known_value() {
    let bits = 42.42f32.to_bits();
    assert_eq!(bits, 0x4229AE14);
    let f = extract_fields(bits);
    assert_eq!(f.sign, 0);
    assert_eq!(f.exponent, 132);
    assert_eq!(f.fraction, 0x29AE14);
    let d = decode(&f);
    assert_eq!(
        d,
        Decoded::Normal { sign_factor: 1, exponent: 5, significand: 0xA9AE14 }
    );
    // The significand scaled back down is the mantissa, about 1.325625.
    let mantissa = 0xA9AE14 as f64 / (1u64 << 23) as f64;
    assert!((mantissa - 1.325625).abs() < 1e-6);
    let back = from_parts(&d);
    assert_eq!(back, bits);
    assert_eq!(f32::from_bits(back), 42.42f32);
}

#[test]
fn field_ranges() {
    for bits in [
        0u32,
        1,
        0x3F800000,
        0x4229AE14,
        0x7F800000,
        0x7FC00000,
        0x80000000,
        0xFF800000,
        0xFFFFFFFF,
    ] {
        let f = extract_fields(bits);
        assert!(f.sign <= 1);
        assert!(f.exponent <= 255);
        assert!(f.fraction <= 8388607);
        assert_eq!(fields_to_bits(&f), bits);
    }
}

#[test]
fn round_trip_samples() {
    let samples = [
        1.0f32.to_bits(),
        42.42f32.to_bits(),
        (-42.42f32).to_bits(),
        0.1f32.to_bits(),
        f32::MAX.to_bits(),
        f32::MIN_POSITIVE.to_bits(),
        0x00000001, // smallest positive subnormal
        0x807FFFFF, // largest negative subnormal
        0x00000000, // +0
        0x80000000, // -0
        0x7F800000, // +infinity
        0xFF800000, // -infinity
        0x7FC00000, // a NaN pattern
        0xFFC00001, // another NaN pattern
        0xFFFFFFFF,
    ];
    for bits in samples {
        let f = extract_fields(bits);
        let d = decode(&f);
        assert_eq!(from_parts(&d), bits);
    }
}

#[test]
fn subnormal_boundary() {
    let f = extract_fields(0x00000001);
    let d = decode(&f);
    // Effective exponent -126, significand 1: the mantissa is 2^-23,
    // with no implicit leading one bit.
    assert_eq!(
        d,
        Decoded::Subnormal { sign_factor: 1, exponent: -126, significand: 1 }
    );
    let mantissa = 1.0f64 / (1u64 << 23) as f64;
    assert_eq!(mantissa, (2.0f64).powi(-23));
}

#[test]
fn special_values() {
    let inf = decode(&extract_fields(0x7F800000));
    assert_eq!(inf, Decoded::Infinite { sign_factor: 1 });
    let nan = decode(&extract_fields(0x7FC00000));
    assert_eq!(nan, Decoded::NaN { sign_factor: 1, payload: 0x400000 });
    let neg_inf = decode(&extract_fields(0xFF800000));
    assert_eq!(neg_inf, Decoded::Infinite { sign_factor: -1 });
}

#[test]
fn negative_sign_decodes_to_minus_one() {
    let f = extract_fields((-1.0f32).to_bits());
    assert_eq!(f.sign, 1);
    let d = decode(&f);
    assert_eq!(
        d,
        Decoded::Normal { sign_factor: -1, exponent: 0, significand: 0x800000 }
    );
}

#[test]
fn assemble_from_scratch() {
    // Fields written down directly, not extracted from anything.
    let f = FieldTriple { sign: 1, exponent: 132, fraction: 0x29AE14 };
    assert_eq!(fields_to_bits(&f), 0xC229AE14);
    assert_eq!(f32::from_bits(0xC229AE14), -42.42f32);
}
