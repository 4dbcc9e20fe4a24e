//! Verification of a single proof: the four-pairing Groth16 equation.

use vstd::prelude::*;
use crate::commitment::{compute_public_input_point, spec_public_input_point};
use crate::curve::{pairing_check, spec_pairing_check};
use crate::error::{CurveError, VerificationFailure};
use crate::field::{negate_point, spec_negate_point};
use crate::types::{Groth16Proof, PaymentPublicInputs, VerificationKey, VerificationKeyView};

verus! {

/// The four pairing operands of the Groth16 equation, concatenated in their
/// fixed order: `(a, b)`, `(-pub_point, gamma)`, `(-c, delta)`,
/// `(-alpha, beta)`.
pub open spec fn spec_pairing_input(
    a: Seq<u8>,
    b: Seq<u8>,
    c: Seq<u8>,
    pub_point: Seq<u8>,
    alpha: Seq<u8>,
    vk: VerificationKeyView,
) -> Seq<u8> {
    a + b + spec_negate_point(pub_point) + vk.gamma_g2 + spec_negate_point(c) + vk.delta_g2
        + spec_negate_point(alpha) + vk.beta_g2
}

/// What a verification returns for each answer of the pairing check: success
/// where the product is the identity, `PairingMismatch` where it is not, and
/// `ArithmeticError` where the curve service rejected the operands.
pub open spec fn spec_pairing_verdict(check: Option<bool>) -> Result<(), VerificationFailure> {
    match check {
        Some(true) => Ok(()),
        Some(false) => Err(VerificationFailure::PairingMismatch),
        None => Err(VerificationFailure::ArithmeticError),
    }
}

/// The outcome of the Groth16 equation `e(a, b) * e(-pub_point, gamma) *
/// e(-c, delta) * e(-alpha, beta) = 1`.
pub open spec fn spec_pairing_equation(
    a: Seq<u8>,
    b: Seq<u8>,
    c: Seq<u8>,
    pub_point: Seq<u8>,
    alpha: Seq<u8>,
    vk: VerificationKeyView,
) -> Result<(), VerificationFailure> {
    spec_pairing_verdict(spec_pairing_check(spec_pairing_input(a, b, c, pub_point, alpha, vk)))
}

/// The outcome of verifying one proof against its public inputs and a key.
pub open spec fn spec_verify(
    proof: Groth16Proof,
    inputs: PaymentPublicInputs,
    vk: VerificationKeyView,
) -> Result<(), VerificationFailure> {
    match spec_public_input_point(vk.ic, inputs) {
        Err(e) => Err(e),
        Ok(pub_point) => spec_pairing_equation(
            proof.a@,
            proof.b@,
            proof.c@,
            pub_point,
            vk.alpha_g1,
            vk,
        ),
    }
}

/// Builds the input of the pairing check: negates `pub_point`, `c` and
/// `alpha`, and lays the four pairs out in order.
pub fn pairing_input(
    a: &[u8; 64],
    b: &[u8; 128],
    c: &[u8; 64],
    pub_point: &[u8; 64],
    alpha: &[u8; 64],
    vk: &VerificationKey,
) -> (input: Vec<u8>)
    ensures
        input@ == spec_pairing_input(a@, b@, c@, pub_point@, alpha@, vk@),
{
    let neg_pub = negate_point(pub_point);
    let neg_c = negate_point(c);
    let neg_alpha = negate_point(alpha);
    let mut input: Vec<u8> = Vec::with_capacity(768);
    input.extend_from_slice(a.as_slice());
    input.extend_from_slice(b.as_slice());
    input.extend_from_slice(neg_pub.as_slice());
    input.extend_from_slice(vk.gamma_g2().as_slice());
    input.extend_from_slice(neg_c.as_slice());
    input.extend_from_slice(vk.delta_g2().as_slice());
    input.extend_from_slice(neg_alpha.as_slice());
    input.extend_from_slice(vk.beta_g2().as_slice());
    input
}

/// Turns the answer of the pairing check into the outcome of a verification.
pub fn pairing_verdict(check: Result<bool, CurveError>) -> (r: Result<(), VerificationFailure>)
    ensures
        r == spec_pairing_verdict(
            match check {
                Ok(holds) => Some(holds),
                Err(_) => None,
            },
        ),
{
    match check {
        Ok(true) => Ok(()),
        Ok(false) => Err(VerificationFailure::PairingMismatch),
        Err(_) => Err(VerificationFailure::ArithmeticError),
    }
}

/// Checks the Groth16 equation on the given points with one pairing check.
pub fn check_pairing_equation(
    a: &[u8; 64],
    b: &[u8; 128],
    c: &[u8; 64],
    pub_point: &[u8; 64],
    alpha: &[u8; 64],
    vk: &VerificationKey,
) -> (r: Result<(), VerificationFailure>)
    ensures
        r == spec_pairing_equation(a@, b@, c@, pub_point@, alpha@, vk@),
{
    let input = pairing_input(a, b, c, pub_point, alpha, vk);
    pairing_verdict(pairing_check(input.as_slice()))
}

/// Verifies one proof: computes the public-input commitment and checks the
/// pairing equation. `Ok` means verified; `PairingMismatch` means that the
/// proof is invalid.
pub fn verify_payment_proof(
    proof: &Groth16Proof,
    public_inputs: &PaymentPublicInputs,
    vk: &VerificationKey,
) -> (r: Result<(), VerificationFailure>)
    ensures
        r == spec_verify(*proof, *public_inputs, vk@),
{
    let pub_point = match compute_public_input_point(vk.ic(), public_inputs) {
        Ok(point) => point,
        Err(e) => {
            return Err(e);
        },
    };
    check_pairing_equation(&proof.a, &proof.b, &proof.c, &pub_point, vk.alpha_g1(), vk)
}

/// The outcome of a single verification depends on the bytes of the proof,
/// of the public inputs and of the key, and on nothing else.
pub proof fn lemma_verify_deterministic(
    proof1: Groth16Proof,
    inputs1: PaymentPublicInputs,
    proof2: Groth16Proof,
    inputs2: PaymentPublicInputs,
    vk: VerificationKeyView,
)
    requires
        proof1.a@ == proof2.a@,
        proof1.b@ == proof2.b@,
        proof1.c@ == proof2.c@,
        inputs1.min_amount == inputs2.min_amount,
        inputs1.recipient_pubkey@ == inputs2.recipient_pubkey@,
        inputs1.max_block_age == inputs2.max_block_age,
        inputs1.current_time == inputs2.current_time,
    ensures
        spec_verify(proof1, inputs1, vk) == spec_verify(proof2, inputs2, vk),
{
    assert(inputs1.recipient_pubkey == inputs2.recipient_pubkey);
}

} // verus!
