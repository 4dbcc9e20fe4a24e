use x402_zk_verifier::{
    is_pairing_identity, pairing_check, pairing_verdict, point_add, scalar_mul, CurveError,
    VerificationFailure,
};

fn curve_bytes<const N: usize>(hex: &str) -> [u8; N] {
    let mut out = [0u8; N];
    let digits = hex.as_bytes();
    assert_eq!(digits.len(), 2 * N);
    for i in 0..N {
        let hi = (digits[2 * i] as char).to_digit(16).unwrap() as u8;
        let lo = (digits[2 * i + 1] as char).to_digit(16).unwrap() as u8;
        out[i] = hi * 16 + lo;
    }
    out
}

const G1: &str = "00000000000000000000000000000000000000000000000000000000000000010000000000000000000000000000000000000000000000000000000000000002";
const G1_NEG: &str = "000000000000000000000000000000000000000000000000000000000000000130644e72e131a029b85045b68181585d97816a916871ca8d3c208c16d87cfd45";
const G1_TWICE: &str = "030644e72e131a029b85045b68181585d97816a916871ca8d3c208c16d87cfd315ed738c0e0a7c92e7845f96b2ae9c0a68a6a449e3538fc7ff3ebf7a5a18a2c4";
const G1_THRICE: &str = "0769bf9ac56bea3ff40232bcb1b6bd159315d84715b8e679f2d355961915abf02ab799bee0489429554fdb7c8d086475319e63b40b9c5b57cdf1ff3dd9fe2261";
const G2: &str = "198e9393920d483a7260bfb731fb5d25f1aa493335a9e71297e485b7aef312c21800deef121f1e76426a00665e5c4479674322d4f75edadd46debd5cd992f6ed090689d0585ff075ec9e99ad690c3395bc4b313370b38ef355acdadcd122975b12c85ea5db8c6deb4aab71808dcb408fe3d1e7690c43d37b4ce6cc0166fa7daa";

fn scalar(low: u8) -> [u8; 32] {
    let mut s = [0u8; 32];
    s[31] = low;
    s
}

#[test]
fn point_add_doubles_the_generator() {
    let g: [u8; 64] = curve_bytes(G1);
    assert_eq!(point_add(&g, &g), Ok(curve_bytes::<64>(G1_TWICE)));
}

#[test]
fn point_add_of_distinct_points() {
    let g: [u8; 64] = curve_bytes(G1);
    let twice: [u8; 64] = curve_bytes(G1_TWICE);
    assert_eq!(point_add(&g, &twice), Ok(curve_bytes::<64>(G1_THRICE)));
    assert_eq!(point_add(&twice, &g), Ok(curve_bytes::<64>(G1_THRICE)));
}

#[test]
fn point_add_with_the_all_zero_point() {
    let g: [u8; 64] = curve_bytes(G1);
    assert_eq!(point_add(&g, &[0u8; 64]), Ok(g));
    assert_eq!(point_add(&[0u8; 64], &[0u8; 64]), Ok([0u8; 64]));
}

#[test]
fn point_add_of_a_point_and_its_negation() {
    let g: [u8; 64] = curve_bytes(G1);
    let neg: [u8; 64] = curve_bytes(G1_NEG);
    assert_eq!(point_add(&g, &neg), Ok([0u8; 64]));
}

#[test]
fn point_add_refuses_a_point_off_the_curve() {
    let g: [u8; 64] = curve_bytes(G1);
    assert_eq!(point_add(&g, &[1u8; 64]), Err(CurveError));
    assert_eq!(point_add(&[3u8; 64], &g), Err(CurveError));
}

#[test]
fn scalar_mul_reads_the_scalar_big_endian() {
    let g: [u8; 64] = curve_bytes(G1);
    assert_eq!(scalar_mul(&g, &scalar(1)), Ok(g));
    assert_eq!(scalar_mul(&g, &scalar(2)), Ok(curve_bytes::<64>(G1_TWICE)));
    assert_eq!(scalar_mul(&g, &scalar(3)), Ok(curve_bytes::<64>(G1_THRICE)));
}

#[test]
fn scalar_mul_by_zero_is_the_all_zero_point() {
    let g: [u8; 64] = curve_bytes(G1);
    assert_eq!(scalar_mul(&g, &[0u8; 32]), Ok([0u8; 64]));
}

#[test]
fn scalar_mul_by_a_full_width_scalar() {
    let thrice: [u8; 64] = curve_bytes(G1_THRICE);
    let mut s = [0u8; 32];
    for i in 0..32 {
        s[i] = (i as u8) + 1;
    }
    assert_eq!(
        scalar_mul(&thrice, &s),
        Ok(curve_bytes::<64>(
            "14be1d8135de0b77c86b167143ff720124b8144b2969cc798667812f58e370c60228954743df300e31430638f81c09a1881082c921b335dc30a3072d7e3e206a"
        ))
    );
}

#[test]
fn scalar_mul_refuses_a_point_off_the_curve() {
    assert_eq!(scalar_mul(&[1u8; 64], &scalar(2)), Err(CurveError));
}

#[test]
fn is_pairing_identity_takes_the_one_pattern_only() {
    let mut one = [0u8; 32];
    one[31] = 1;
    assert!(is_pairing_identity(&one));
    assert!(!is_pairing_identity(&[0u8; 32]));
    assert!(!is_pairing_identity(&[1u8; 32]));
    let mut other = one;
    other[0] = 1;
    assert!(!is_pairing_identity(&other));
    let mut two = [0u8; 32];
    two[31] = 2;
    assert!(!is_pairing_identity(&two));
    assert!(!is_pairing_identity(&one[1..]));
    assert!(!is_pairing_identity(&[]));
    let mut long = [0u8; 33];
    long[32] = 1;
    assert!(!is_pairing_identity(&long));
}

#[test]
fn pairing_check_of_a_point_and_its_negation() {
    let mut input: Vec<u8> = Vec::new();
    input.extend_from_slice(&curve_bytes::<64>(G1));
    input.extend_from_slice(&curve_bytes::<128>(G2));
    input.extend_from_slice(&curve_bytes::<64>(G1_NEG));
    input.extend_from_slice(&curve_bytes::<128>(G2));
    assert_eq!(pairing_check(&input), Ok(true));
}

#[test]
fn pairing_check_of_a_single_pair_of_generators() {
    let mut input: Vec<u8> = Vec::new();
    input.extend_from_slice(&curve_bytes::<64>(G1));
    input.extend_from_slice(&curve_bytes::<128>(G2));
    assert_eq!(pairing_check(&input), Ok(false));
}

#[test]
fn pairing_check_refuses_points_off_the_curve() {
    let mut input: Vec<u8> = Vec::new();
    input.extend_from_slice(&[1u8; 64]);
    input.extend_from_slice(&curve_bytes::<128>(G2));
    assert_eq!(pairing_check(&input), Err(CurveError));
    let mut second: Vec<u8> = Vec::new();
    second.extend_from_slice(&curve_bytes::<64>(G1));
    second.extend_from_slice(&[2u8; 128]);
    assert_eq!(pairing_check(&second), Err(CurveError));
}

#[test]
fn pairing_verdict_tells_the_three_answers_apart() {
    assert_eq!(pairing_verdict(Ok(true)), Ok(()));
    assert_eq!(pairing_verdict(Ok(false)), Err(VerificationFailure::PairingMismatch));
    assert_eq!(pairing_verdict(Err(CurveError)), Err(VerificationFailure::ArithmeticError));
}
