//! The data that a verification request carries, and the verification key.

use vstd::prelude::*;
use crate::error::VerificationFailure;

verus! {

/// The number of scalars that a `PaymentPublicInputs` contributes to the
/// public-input commitment.
pub const PUBLIC_INPUT_COUNT: usize = 5;

/// A Groth16 proof: two G1 points and a G2 point, in their wire encoding.
#[derive(Clone, Copy, Debug, PartialEq, Eq)]
pub struct Groth16Proof {
    pub a: [u8; 64],
    pub b: [u8; 128],
    pub c: [u8; 64],
}

/// What a payment authorization states in public.
#[derive(Clone, Copy, Debug, PartialEq, Eq)]
pub struct PaymentPublicInputs {
    pub min_amount: u64,
    pub recipient_pubkey: [u8; 32],
    pub max_block_age: u64,
    pub current_time: i64,
}

/// Several proofs with their public inputs, paired by position.
#[derive(Debug)]
pub struct BatchVerificationRequest {
    pub proofs: Vec<Groth16Proof>,
    pub public_inputs: Vec<PaymentPublicInputs>,
}

/// A verification request: one proof, or a batch.
#[derive(Debug)]
pub enum VerifierInstruction {
    /// Verify one proof against its public inputs.
    VerifyProof { proof: Groth16Proof, public_inputs: PaymentPublicInputs },
    /// Verify a batch of proofs as one unit.
    VerifyBatch { request: BatchVerificationRequest },
}

/// The encodings of a sequence of points or scalars, each as a byte string.
pub open spec fn points_view<const N: usize>(points: Seq<[u8; N]>) -> Seq<Seq<u8>> {
    Seq::new(points.len(), |i: int| points[i]@)
}

/// A verification key as plain values.
pub ghost struct VerificationKeyView {
    pub alpha_g1: Seq<u8>,
    pub beta_g2: Seq<u8>,
    pub gamma_g2: Seq<u8>,
    pub delta_g2: Seq<u8>,
    pub ic: Seq<Seq<u8>>,
}

/// The fixed public parameters of the circuit. `ic[0]` is the constant term
/// of the public-input commitment and `ic[i + 1]` goes with the `i`-th public
/// scalar; a key holds a point for each of them.
pub struct VerificationKey {
    alpha_g1: [u8; 64],
    beta_g2: [u8; 128],
    gamma_g2: [u8; 128],
    delta_g2: [u8; 128],
    ic: Vec<[u8; 64]>,
}

impl View for VerificationKey {
    type V = VerificationKeyView;

    closed spec fn view(&self) -> VerificationKeyView {
        VerificationKeyView {
            alpha_g1: self.alpha_g1@,
            beta_g2: self.beta_g2@,
            gamma_g2: self.gamma_g2@,
            delta_g2: self.delta_g2@,
            ic: points_view(self.ic@),
        }
    }
}

impl VerificationKeyView {
    /// A key fits the circuit when it has a point for the constant term and
    /// one for each public scalar.
    pub open spec fn well_formed(self) -> bool {
        &&& self.alpha_g1.len() == 64
        &&& self.beta_g2.len() == 128
        &&& self.gamma_g2.len() == 128
        &&& self.delta_g2.len() == 128
        &&& self.ic.len() >= PUBLIC_INPUT_COUNT + 1
        &&& forall|i: int| 0 <= i < self.ic.len() ==> (#[trigger] self.ic[i]).len() == 64
    }
}

impl VerificationKey {
    #[verifier::type_invariant]
    spec fn has_all_points(&self) -> bool {
        self.ic@.len() >= PUBLIC_INPUT_COUNT + 1
    }

    /// Makes a key from its parts. A key with fewer IC points than the
    /// circuit has public scalars, plus one, is refused.
    pub fn new(
        alpha_g1: [u8; 64],
        beta_g2: [u8; 128],
        gamma_g2: [u8; 128],
        delta_g2: [u8; 128],
        ic: Vec<[u8; 64]>,
    ) -> (r: Result<VerificationKey, VerificationFailure>)
        ensures
            match r {
                Ok(vk) => vk@.well_formed() && vk@ == (VerificationKeyView {
                    alpha_g1: alpha_g1@,
                    beta_g2: beta_g2@,
                    gamma_g2: gamma_g2@,
                    delta_g2: delta_g2@,
                    ic: points_view(ic@),
                }),
                Err(e) => ic@.len() < PUBLIC_INPUT_COUNT + 1 && e
                    == VerificationFailure::ConfigurationError,
            },
    {
        if ic.len() < PUBLIC_INPUT_COUNT + 1 {
            return Err(VerificationFailure::ConfigurationError);
        }
        Ok(VerificationKey { alpha_g1, beta_g2, gamma_g2, delta_g2, ic })
    }

    /// The `alpha` point, in G1.
    pub fn alpha_g1(&self) -> (r: &[u8; 64])
        ensures
            r@ == self@.alpha_g1,
    {
        &self.alpha_g1
    }

    /// The `beta` point, in G2.
    pub fn beta_g2(&self) -> (r: &[u8; 128])
        ensures
            r@ == self@.beta_g2,
    {
        &self.beta_g2
    }

    /// The `gamma` point, in G2.
    pub fn gamma_g2(&self) -> (r: &[u8; 128])
        ensures
            r@ == self@.gamma_g2,
    {
        &self.gamma_g2
    }

    /// The `delta` point, in G2.
    pub fn delta_g2(&self) -> (r: &[u8; 128])
        ensures
            r@ == self@.delta_g2,
    {
        &self.delta_g2
    }

    /// The IC points: the constant term, then one point for each public
    /// scalar.
    pub fn ic(&self) -> (r: &[[u8; 64]])
        ensures
            points_view(r@) == self@.ic,
            self@.well_formed(),
    {
        proof {
            use_type_invariant(self);
        }
        self.ic.as_slice()
    }
}

} // verus!
