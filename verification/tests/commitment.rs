use x402_zk_verifier::{
    compute_public_input_point, point_add, public_input_scalars, reinterpret_unsigned,
    scalar_bytes, scalar_mul, u64_le_bytes, PaymentPublicInputs, VerificationFailure,
};

fn g1_bytes(hex: &str) -> [u8; 64] {
    let mut out = [0u8; 64];
    let digits = hex.as_bytes();
    assert_eq!(digits.len(), 128);
    for i in 0..64 {
        let hi = (digits[2 * i] as char).to_digit(16).unwrap() as u8;
        let lo = (digits[2 * i + 1] as char).to_digit(16).unwrap() as u8;
        out[i] = hi * 16 + lo;
    }
    out
}

fn multiples_of_the_generator() -> Vec<[u8; 64]> {
    vec![
        g1_bytes("00000000000000000000000000000000000000000000000000000000000000010000000000000000000000000000000000000000000000000000000000000002"),
        g1_bytes("030644e72e131a029b85045b68181585d97816a916871ca8d3c208c16d87cfd315ed738c0e0a7c92e7845f96b2ae9c0a68a6a449e3538fc7ff3ebf7a5a18a2c4"),
        g1_bytes("0769bf9ac56bea3ff40232bcb1b6bd159315d84715b8e679f2d355961915abf02ab799bee0489429554fdb7c8d086475319e63b40b9c5b57cdf1ff3dd9fe2261"),
        g1_bytes("06a7b64af8f414bcbeef455b1da5208c9b592b83ee6599824caa6d2ee9141a7608e74e438cee31ac104ce59b94e45fe98a97d8f8a6e75664ce88ef5a41e72fbc"),
        g1_bytes("17c139df0efee0f766bc0204762b774362e4ded88953a39ce849a8a7fa163fa901e0559bacb160664764a357af8a9fe70baa9258e0b959273ffc5718c6d4cc7c"),
        g1_bytes("09f4ca411a3f52f4e0792fd9e792779856719215d3b32a762afe3d5b8c684af90d8ef3d795acd4b35d4366ab22e4ad335273aa59429e26929d0f64583474d9c8"),
    ]
}

fn sample_inputs() -> PaymentPublicInputs {
    PaymentPublicInputs {
        min_amount: 1000000,
        recipient_pubkey: [42u8; 32],
        max_block_age: 60,
        current_time: 1700000000,
    }
}

#[test]
fn scalars_come_in_the_fixed_order() {
    assert_eq!(
        public_input_scalars(&sample_inputs()),
        [1000000, 0x2a2a2a2a2a2a2a2a, 0x2a2a2a2a2a2a2a2a, 60, 1700000000]
    );
}

#[test]
fn recipient_key_is_read_little_endian_in_two_halves() {
    let mut key = [0u8; 32];
    for i in 0..32 {
        key[i] = (i as u8) + 1;
    }
    let inputs = PaymentPublicInputs {
        min_amount: 0,
        recipient_pubkey: key,
        max_block_age: u64::MAX,
        current_time: 0,
    };
    assert_eq!(
        public_input_scalars(&inputs),
        [0, 0x0807060504030201, 0x100f0e0d0c0b0a09, u64::MAX, 0]
    );
}

#[test]
fn bytes_of_the_key_past_the_sixteenth_do_not_count() {
    let mut key = [7u8; 32];
    let before = public_input_scalars(&PaymentPublicInputs {
        min_amount: 1,
        recipient_pubkey: key,
        max_block_age: 2,
        current_time: 3,
    });
    key[16] = 0;
    key[31] = 0xff;
    let after = public_input_scalars(&PaymentPublicInputs {
        min_amount: 1,
        recipient_pubkey: key,
        max_block_age: 2,
        current_time: 3,
    });
    assert_eq!(before, after);
}

#[test]
fn negative_time_is_read_as_unsigned() {
    assert_eq!(reinterpret_unsigned(-1), u64::MAX);
    assert_eq!(reinterpret_unsigned(i64::MIN), 0x8000_0000_0000_0000);
    assert_eq!(reinterpret_unsigned(-2), u64::MAX - 1);
    assert_eq!(reinterpret_unsigned(0), 0);
    assert_eq!(reinterpret_unsigned(i64::MAX), 0x7fff_ffff_ffff_ffff);
    assert_eq!(reinterpret_unsigned(1700000000), 1700000000);
    let inputs = PaymentPublicInputs {
        min_amount: 0,
        recipient_pubkey: [0u8; 32],
        max_block_age: 0,
        current_time: -1,
    };
    assert_eq!(public_input_scalars(&inputs)[4], u64::MAX);
}

#[test]
fn u64_le_bytes_puts_the_lowest_byte_first() {
    assert_eq!(u64_le_bytes(0x0102030405060708), [8, 7, 6, 5, 4, 3, 2, 1]);
    assert_eq!(u64_le_bytes(0), [0u8; 8]);
    assert_eq!(u64_le_bytes(u64::MAX), [0xffu8; 8]);
    assert_eq!(u64_le_bytes(1000000), [0x40, 0x42, 0x0f, 0, 0, 0, 0, 0]);
}

#[test]
fn scalar_bytes_embeds_in_the_low_eight_bytes() {
    let mut expected = [0u8; 32];
    expected[0] = 0x40;
    expected[1] = 0x42;
    expected[2] = 0x0f;
    assert_eq!(scalar_bytes(1000000), expected);
    let mut full = [0u8; 32];
    for i in 0..8 {
        full[i] = 0xff;
    }
    assert_eq!(scalar_bytes(u64::MAX), full);
    assert_eq!(scalar_bytes(0), [0u8; 32]);
}

#[test]
fn constant_term_alone_is_the_commitment() {
    let inputs = PaymentPublicInputs {
        min_amount: 1000000,
        recipient_pubkey: [0u8; 32],
        max_block_age: 60,
        current_time: 1700000000,
    };
    let ic = vec![multiples_of_the_generator()[2]];
    assert_eq!(compute_public_input_point(&ic, &inputs), Ok(ic[0]));
}

#[test]
fn constant_term_alone_needs_no_curve_arithmetic() {
    // Not a point of the curve: nothing is done with it but handing it back.
    let ic = vec![[7u8; 64]];
    assert_eq!(compute_public_input_point(&ic, &sample_inputs()), Ok([7u8; 64]));
}

#[test]
fn no_points_at_all_is_a_configuration_error() {
    let ic: Vec<[u8; 64]> = Vec::new();
    assert_eq!(
        compute_public_input_point(&ic, &sample_inputs()),
        Err(VerificationFailure::ConfigurationError)
    );
}

#[test]
fn commitment_of_one_scalar() {
    let points = multiples_of_the_generator();
    let ic = vec![points[0], points[0]];
    let inputs = PaymentPublicInputs {
        min_amount: 1,
        recipient_pubkey: [9u8; 32],
        max_block_age: 77,
        current_time: -5,
    };
    assert_eq!(
        compute_public_input_point(&ic, &inputs),
        Ok(g1_bytes("16e7150982c241ae11a1b8e3e3eef5915c582ad17458c3d44e73d3ee46f1bc011d9269a411cca37cc12773f58b7f97301c8afab2113a951fe4d484671c4cea2f"))
    );
}

#[test]
fn commitment_of_all_five_scalars() {
    let ic = multiples_of_the_generator();
    assert_eq!(
        compute_public_input_point(&ic, &sample_inputs()),
        Ok(g1_bytes("0fc6459f783e69b9b24784900987fe083f98e0acbb57293090c3a4767337f33600354ff04bf134aa3721db1b688182050b2168604d4b1679be84153295c33d1d"))
    );
}

#[test]
fn commitment_is_the_sum_of_the_weighted_points() {
    let ic = multiples_of_the_generator();
    let inputs = sample_inputs();
    let scalars = public_input_scalars(&inputs);
    let mut expected = ic[0];
    for i in 0..5 {
        let term = scalar_mul(&ic[i + 1], &scalar_bytes(scalars[i])).unwrap();
        expected = point_add(&expected, &term).unwrap();
    }
    assert_eq!(compute_public_input_point(&ic, &inputs), Ok(expected));
}

#[test]
fn points_past_the_sixth_do_not_count() {
    let mut ic = multiples_of_the_generator();
    let six = compute_public_input_point(&ic, &sample_inputs());
    ic.push([1u8; 64]);
    assert_eq!(compute_public_input_point(&ic, &sample_inputs()), six);
}

#[test]
fn scalars_without_a_point_stay_out() {
    let points = multiples_of_the_generator();
    let ic = vec![points[0], points[1], points[2]];
    let inputs = sample_inputs();
    let scalars = public_input_scalars(&inputs);
    let first = scalar_mul(&ic[1], &scalar_bytes(scalars[0])).unwrap();
    let second = scalar_mul(&ic[2], &scalar_bytes(scalars[1])).unwrap();
    let expected = point_add(&point_add(&ic[0], &first).unwrap(), &second).unwrap();
    assert_eq!(compute_public_input_point(&ic, &inputs), Ok(expected));
}

#[test]
fn zero_scalars_leave_the_constant_term() {
    let ic = multiples_of_the_generator();
    let inputs = PaymentPublicInputs {
        min_amount: 0,
        recipient_pubkey: [0u8; 32],
        max_block_age: 0,
        current_time: 0,
    };
    assert_eq!(compute_public_input_point(&ic, &inputs), Ok(ic[0]));
}

#[test]
fn point_off_the_curve_is_an_arithmetic_error() {
    let points = multiples_of_the_generator();
    let ic = vec![points[0], [1u8; 64]];
    assert_eq!(
        compute_public_input_point(&ic, &sample_inputs()),
        Err(VerificationFailure::ArithmeticError)
    );
    let bad_constant = vec![[1u8; 64], points[1]];
    assert_eq!(
        compute_public_input_point(&bad_constant, &sample_inputs()),
        Err(VerificationFailure::ArithmeticError)
    );
}
