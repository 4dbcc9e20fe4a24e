//! The tagged reasons for which a request ends other than "verified".

use vstd::prelude::*;

verus! {

/// A request that is rejected before any curve arithmetic is attempted.
#[derive(Clone, Copy, Debug, PartialEq, Eq, Structural)]
pub enum MalformedInput {
    /// A point or scalar buffer does not have its fixed width.
    InvalidLength,
    /// A batch carries a different number of proofs and public inputs.
    CountMismatch,
    /// Points and coefficients handed to an aggregation differ in number.
    LengthMismatch,
    /// A batch or an aggregation over nothing.
    EmptyBatch,
}

/// The curve arithmetic service rejected an operation: an operand is
/// malformed or not on the curve.
#[derive(Clone, Copy, Debug, PartialEq, Eq, Structural)]
pub struct CurveError;

/// Every way in which a verification can fail.
///
/// `PairingMismatch` is the routine negative outcome, an invalid proof. The
/// other variants are faults of the request, of the curve arithmetic or of the
/// deployment, and are never folded into it.
#[derive(Clone, Copy, Debug, PartialEq, Eq, Structural)]
pub enum VerificationFailure {
    /// The pairing check completed and did not evaluate to the identity.
    PairingMismatch,
    /// The curve arithmetic service rejected an operation.
    ArithmeticError,
    /// The request is ill-formed.
    MalformedInput(MalformedInput),
    /// The verification key does not fit the circuit.
    ConfigurationError,
    /// The proofs of a batch do not share one G2 component, and the curve
    /// arithmetic service offers no G2 arithmetic to combine them.
    UnsupportedG2Aggregation,
}

/// Batch verification reports through the same taxonomy as single verification.
pub type BatchVerificationFailure = VerificationFailure;

} // verus!
