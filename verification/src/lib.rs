//! Verification of zero-knowledge payment authorizations: Groth16 proofs over
//! the 254-bit BN curve, checked one at a time or as a batch.

pub mod batch;
pub mod bytes;
pub mod commitment;
pub mod curve;
pub mod error;
pub mod field;
pub mod hash;
pub mod instruction;
pub mod single;
pub mod types;

pub use batch::{
    aggregate_g1_points, aggregate_g2_points, batch_verify_proofs, generate_batch_coefficients,
    transcript, SUPPORTS_G2_AGGREGATION,
};
pub use bytes::{sub_with_borrow, u64_le_bytes};
pub use commitment::{
    compute_public_input_point, public_input_scalars, reinterpret_unsigned, scalar_bytes,
};
pub use curve::{is_pairing_identity, pairing_check, point_add, scalar_mul};
pub use error::{BatchVerificationFailure, CurveError, MalformedInput, VerificationFailure};
pub use field::{negate, negate_g1_point, negate_point, FIELD_MODULUS};
pub use instruction::process_instruction;
pub use single::{check_pairing_equation, pairing_input, pairing_verdict, verify_payment_proof};
pub use types::{
    BatchVerificationRequest, Groth16Proof, PaymentPublicInputs, VerificationKey,
    VerificationKeyView, VerifierInstruction, PUBLIC_INPUT_COUNT,
};
