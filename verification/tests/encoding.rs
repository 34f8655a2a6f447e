use horizon::binary64::{is_le_zero, POSITIVE_INFINITY, POSITIVE_ZERO, SIGN_BIT};

#[test]
fn constants_are_the_encodings_they_name() {
    assert_eq!(POSITIVE_ZERO, 0.0_f64.to_bits());
    assert_eq!(SIGN_BIT, (-0.0_f64).to_bits());
    assert_eq!(POSITIVE_INFINITY, f64::INFINITY.to_bits());
}

#[test]
fn both_zeros_are_at_most_zero() {
    assert!(is_le_zero(0.0_f64.to_bits()));
    assert!(is_le_zero((-0.0_f64).to_bits()));
}

#[test]
fn negative_numbers_are_at_most_zero() {
    assert!(is_le_zero((-5.0_f64).to_bits()));
    assert!(is_le_zero((-1e-300_f64).to_bits()));
    assert!(is_le_zero(f64::MIN.to_bits()));
    assert!(is_le_zero(0x8000_0000_0000_0001));
}

#[test]
fn positive_numbers_are_above_zero() {
    assert!(!is_le_zero(100.0_f64.to_bits()));
    assert!(!is_le_zero(f64::MIN_POSITIVE.to_bits()));
    assert!(!is_le_zero(f64::MAX.to_bits()));
    assert!(!is_le_zero(0x0000_0000_0000_0001));
}

#[test]
fn infinities_compare_by_their_sign() {
    assert!(is_le_zero(f64::NEG_INFINITY.to_bits()));
    assert!(!is_le_zero(f64::INFINITY.to_bits()));
}

#[test]
fn a_nan_is_never_at_most_zero() {
    assert!(!is_le_zero(f64::NAN.to_bits()));
    assert!(!is_le_zero(0x7ff0_0000_0000_0001));
    assert!(!is_le_zero(0x7fff_ffff_ffff_ffff));
    assert!(!is_le_zero(0xfff0_0000_0000_0001));
    assert!(!is_le_zero(0xfff8_0000_0000_0000));
    assert!(!is_le_zero(0xffff_ffff_ffff_ffff));
}

#[test]
fn agrees_with_the_hardware_comparison() {
    let mut bits: u64 = 0;
    let mut seen: u32 = 0;
    while seen < 20_000 {
        let x = f64::from_bits(bits);
        assert_eq!(is_le_zero(bits), x <= 0.0, "encoding {bits:#018x}");
        bits = bits.wrapping_mul(6364136223846793005).wrapping_add(1442695040888963407);
        seen += 1;
    }
}

#[test]
fn agrees_with_the_hardware_comparison_at_the_edges() {
    let edges: [u64; 12] = [
        0x0000_0000_0000_0000,
        0x0000_0000_0000_0001,
        0x000f_ffff_ffff_ffff,
        0x0010_0000_0000_0000,
        0x7fef_ffff_ffff_ffff,
        0x7ff0_0000_0000_0000,
        0x7ff0_0000_0000_0001,
        0x8000_0000_0000_0000,
        0x8000_0000_0000_0001,
        0xffef_ffff_ffff_ffff,
        0xfff0_0000_0000_0000,
        0xfff0_0000_0000_0001,
    ];
    for bits in edges {
        assert_eq!(is_le_zero(bits), f64::from_bits(bits) <= 0.0, "encoding {bits:#018x}");
    }
}
