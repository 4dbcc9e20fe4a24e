use x402_zk_verifier::{
    negate, negate_g1_point, negate_point, sub_with_borrow, MalformedInput, FIELD_MODULUS,
};

fn field_bytes(hex: &str) -> [u8; 32] {
    let mut out = [0u8; 32];
    let digits = hex.as_bytes();
    assert_eq!(digits.len(), 64);
    for i in 0..32 {
        let hi = (digits[2 * i] as char).to_digit(16).unwrap() as u8;
        let lo = (digits[2 * i + 1] as char).to_digit(16).unwrap() as u8;
        out[i] = hi * 16 + lo;
    }
    out
}

fn one() -> [u8; 32] {
    let mut v = [0u8; 32];
    v[31] = 1;
    v
}

#[test]
fn test_negate_g1_point() {
    // Test point negation
    let point = [1u8; 64];
    let negated = negate_g1_point(&point).unwrap();

    // x coordinate should stay same
    assert_eq!(&negated[..32], &point[..32]);

    // y coordinate should be different (negated)
    assert_ne!(&negated[32..], &point[32..]);
}

#[test]
fn modulus_is_the_curve_prime() {
    assert_eq!(
        FIELD_MODULUS,
        field_bytes("30644e72e131a029b85045b68181585d97816a916871ca8d3c208c16d87cfd47")
    );
}

#[test]
fn negate_of_one_is_modulus_minus_one() {
    assert_eq!(
        negate(&one()),
        field_bytes("30644e72e131a029b85045b68181585d97816a916871ca8d3c208c16d87cfd46")
    );
}

#[test]
fn negate_of_modulus_minus_one_is_one() {
    let y = field_bytes("30644e72e131a029b85045b68181585d97816a916871ca8d3c208c16d87cfd46");
    assert_eq!(negate(&y), one());
}

#[test]
fn negate_of_zero_is_zero() {
    assert_eq!(negate(&[0u8; 32]), [0u8; 32]);
}

#[test]
fn negate_of_the_modulus_is_zero() {
    assert_eq!(negate(&FIELD_MODULUS), [0u8; 32]);
}

#[test]
fn negate_of_repeated_ones() {
    assert_eq!(
        negate(&[1u8; 32]),
        field_bytes("2f634d71e0309f28b74f44b58080575c968069906770c98c3b1f8b15d77bfc46")
    );
}

#[test]
fn negate_reduces_values_above_the_modulus() {
    // 2^256 - 1 is more than five times the modulus.
    assert_eq!(
        negate(&[0xffu8; 32]),
        field_bytes("2259d6b14729c0fa51e1a247090812318d087f6872aabf4f68c3488912edefab")
    );
    // modulus + 1 negates as 1 does.
    let above = field_bytes("30644e72e131a029b85045b68181585d97816a916871ca8d3c208c16d87cfd48");
    assert_eq!(negate(&above), negate(&one()));
}

#[test]
fn negate_twice_gives_back_canonical_values() {
    let samples = [
        [0u8; 32],
        one(),
        [1u8; 32],
        field_bytes("30644e72e131a029b85045b68181585d97816a916871ca8d3c208c16d87cfd46"),
        field_bytes("0000000000000000000000000000000000000000000000000000000000000100"),
        field_bytes("2ab799bee0489429554fdb7c8d086475319e63b40b9c5b57cdf1ff3dd9fe2261"),
    ];
    for y in samples.iter() {
        assert_eq!(negate(&negate(y)), *y);
    }
}

#[test]
fn negate_moves_every_value_but_zero() {
    let samples = [
        one(),
        [1u8; 32],
        [0xffu8; 32],
        FIELD_MODULUS,
        field_bytes("30644e72e131a029b85045b68181585d97816a916871ca8d3c208c16d87cfd46"),
    ];
    for y in samples.iter() {
        assert_ne!(negate(y), *y);
    }
}

#[test]
fn negate_point_keeps_x_and_negates_y() {
    let mut point = [0u8; 64];
    for i in 0..32 {
        point[i] = (i as u8) + 1;
    }
    point[63] = 2;
    let negated = negate_point(&point);
    assert_eq!(&negated[..32], &point[..32]);
    assert_eq!(
        &negated[32..],
        &field_bytes("30644e72e131a029b85045b68181585d97816a916871ca8d3c208c16d87cfd45")[..]
    );
}

#[test]
fn negate_point_of_all_zero_is_all_zero() {
    assert_eq!(negate_point(&[0u8; 64]), [0u8; 64]);
}

#[test]
fn negate_g1_point_agrees_with_negate_point() {
    let mut point = [9u8; 64];
    point[40] = 0;
    assert_eq!(negate_g1_point(&point), Ok(negate_point(&point)));
}

#[test]
fn negate_g1_point_refuses_other_lengths() {
    assert_eq!(negate_g1_point(&[]), Err(MalformedInput::InvalidLength));
    assert_eq!(negate_g1_point(&[1u8; 63]), Err(MalformedInput::InvalidLength));
    assert_eq!(negate_g1_point(&[1u8; 65]), Err(MalformedInput::InvalidLength));
    assert_eq!(negate_g1_point(&[1u8; 32]), Err(MalformedInput::InvalidLength));
}

#[test]
fn sub_with_borrow_without_borrow() {
    let a = field_bytes("0000000000000000000000000000000000000000000000000000000000010000");
    let b = one();
    let (d, borrow) = sub_with_borrow(&a, &b);
    assert_eq!(
        d,
        field_bytes("000000000000000000000000000000000000000000000000000000000000ffff")
    );
    assert!(!borrow);
}

#[test]
fn sub_with_borrow_wraps_and_reports_the_borrow() {
    let (d, borrow) = sub_with_borrow(&[0u8; 32], &one());
    assert_eq!(d, [0xffu8; 32]);
    assert!(borrow);
    let (e, none) = sub_with_borrow(&one(), &one());
    assert_eq!(e, [0u8; 32]);
    assert!(!none);
}
