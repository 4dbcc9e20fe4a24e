//! The request surface: one instruction in, one outcome out.

use vstd::prelude::*;
use crate::batch::{batch_verify_proofs, spec_verify_batch};
use crate::error::VerificationFailure;
use crate::single::{spec_verify, verify_payment_proof};
use crate::types::{VerificationKey, VerificationKeyView, VerifierInstruction};

verus! {

/// The outcome of a request.
pub open spec fn spec_process_instruction(
    instruction: VerifierInstruction,
    vk: VerificationKeyView,
) -> Result<(), VerificationFailure> {
    match instruction {
        VerifierInstruction::VerifyProof { proof, public_inputs } => spec_verify(
            proof,
            public_inputs,
            vk,
        ),
        VerifierInstruction::VerifyBatch { request } => spec_verify_batch(
            request.proofs@,
            request.public_inputs@,
            vk,
        ),
    }
}

/// Carries out a decoded request against a key: verified, or exactly one
/// tagged failure.
pub fn process_instruction(instruction: &VerifierInstruction, vk: &VerificationKey) -> (r: Result<
    (),
    VerificationFailure,
>)
    ensures
        r == spec_process_instruction(*instruction, vk@),
{
    match instruction {
        VerifierInstruction::VerifyProof { proof, public_inputs } => verify_payment_proof(
            proof,
            public_inputs,
            vk,
        ),
        VerifierInstruction::VerifyBatch { request } => batch_verify_proofs(request, vk),
    }
}

} // verus!
