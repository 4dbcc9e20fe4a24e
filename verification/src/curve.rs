//! The boundary to the curve arithmetic service: point addition, scalar
//! multiplication and the pairing check on fixed-width big-endian encodings.
//!
//! The three operations are not proved here. Each has a name for what it
//! returns, and the functions of this module say what they hand to the
//! service and what they make of its answer.

use vstd::prelude::*;
use crate::error::CurveError;

verus! {

/// `solana_program::alt_bn128::AltBn128Error`, the error of the three
/// operations. Nothing is read from it: every error is a `CurveError` here.
#[verifier::external_type_specification]
#[verifier::external_body]
pub struct ExAltBn128Error(solana_program::alt_bn128::AltBn128Error);

/// What `alt_bn128_addition` returns on `input`: the output bytes, or `None`
/// where it reports an error.
pub uninterp spec fn bn128_addition(input: Seq<u8>) -> Option<Seq<u8>>;

/// What `alt_bn128_multiplication` returns on `input`: the output bytes, or
/// `None` where it reports an error.
pub uninterp spec fn bn128_multiplication(input: Seq<u8>) -> Option<Seq<u8>>;

/// What `alt_bn128_pairing` returns on `input`: the output bytes, or `None`
/// where it reports an error.
pub uninterp spec fn bn128_pairing(input: Seq<u8>) -> Option<Seq<u8>>;

/// `solana_program::alt_bn128::prelude::alt_bn128_addition` is a function of
/// its input alone. On success it returns the 64-byte encoding of a point.
pub assume_specification[ solana_program::alt_bn128::prelude::alt_bn128_addition ](
    input: &[u8],
) -> (r: Result<Vec<u8>, solana_program::alt_bn128::AltBn128Error>)
    ensures
        match r {
            Ok(out) => bn128_addition(input@) == Some(out@) && out@.len() == 64,
            Err(_) => bn128_addition(input@) is None,
        },
;

/// `solana_program::alt_bn128::prelude::alt_bn128_multiplication` is a
/// function of its input alone. On success it returns the 64-byte encoding of
/// a point.
pub assume_specification[ solana_program::alt_bn128::prelude::alt_bn128_multiplication ](
    input: &[u8],
) -> (r: Result<Vec<u8>, solana_program::alt_bn128::AltBn128Error>)
    ensures
        match r {
            Ok(out) => bn128_multiplication(input@) == Some(out@) && out@.len() == 64,
            Err(_) => bn128_multiplication(input@) is None,
        },
;

/// `solana_program::alt_bn128::prelude::alt_bn128_pairing` is a function of
/// its input alone.
pub assume_specification[ solana_program::alt_bn128::prelude::alt_bn128_pairing ](
    input: &[u8],
) -> (r: Result<Vec<u8>, solana_program::alt_bn128::AltBn128Error>)
    ensures
        match r {
            Ok(out) => bn128_pairing(input@) == Some(out@),
            Err(_) => bn128_pairing(input@) is None,
        },
;

/// The sum of two G1 points, or `None` where the service rejects an operand.
pub open spec fn spec_point_add(a: Seq<u8>, b: Seq<u8>) -> Option<Seq<u8>> {
    bn128_addition(a + b)
}

/// The multiple of a G1 point by a 32-byte scalar, or `None` where the
/// service rejects an operand.
pub open spec fn spec_scalar_mul(point: Seq<u8>, scalar: Seq<u8>) -> Option<Seq<u8>> {
    bn128_multiplication(point + scalar)
}

/// The encoding of the multiplicative identity of the pairing's target group:
/// 31 zero bytes, then `0x01`.
pub open spec fn pairing_identity() -> Seq<u8> {
    Seq::new(32, |i: int| if i == 31 { 1u8 } else { 0u8 })
}

/// Whether the pairing product over `input`, a concatenation of
/// `(G1, G2)` pairs, is the identity; `None` where the service rejects the
/// input.
pub open spec fn spec_pairing_check(input: Seq<u8>) -> Option<bool> {
    match bn128_pairing(input) {
        Some(out) => Some(out == pairing_identity()),
        None => None,
    }
}

/// Copies the 64 bytes of a service answer into a point.
fn point_from_bytes(bytes: &Vec<u8>) -> (point: [u8; 64])
    requires
        bytes@.len() == 64,
    ensures
        point@ == bytes@,
{
    let mut point: [u8; 64] = [0u8; 64];
    let mut i: usize = 0;
    while i < 64
        invariant
            i <= 64,
            bytes@.len() == 64,
            forall|k: int| 0 <= k < i ==> point@[k] == bytes@[k],
        decreases 64 - i,
    {
        point[i] = bytes[i];
        i = i + 1;
    }
    assert(point@ =~= bytes@);
    point
}

/// Adds two G1 points.
pub fn point_add(a: &[u8; 64], b: &[u8; 64]) -> (r: Result<[u8; 64], CurveError>)
    ensures
        match r {
            Ok(sum) => spec_point_add(a@, b@) == Some(sum@),
            Err(_) => spec_point_add(a@, b@) is None,
        },
{
    let mut input: Vec<u8> = Vec::with_capacity(128);
    input.extend_from_slice(a.as_slice());
    input.extend_from_slice(b.as_slice());
    assert(input@ =~= a@ + b@);
    match solana_program::alt_bn128::prelude::alt_bn128_addition(input.as_slice()) {
        Ok(out) => Ok(point_from_bytes(&out)),
        Err(_) => Err(CurveError),
    }
}

/// Multiplies a G1 point by a 32-byte scalar.
pub fn scalar_mul(point: &[u8; 64], scalar: &[u8; 32]) -> (r: Result<[u8; 64], CurveError>)
    ensures
        match r {
            Ok(product) => spec_scalar_mul(point@, scalar@) == Some(product@),
            Err(_) => spec_scalar_mul(point@, scalar@) is None,
        },
{
    let mut input: Vec<u8> = Vec::with_capacity(96);
    input.extend_from_slice(point.as_slice());
    input.extend_from_slice(scalar.as_slice());
    assert(input@ =~= point@ + scalar@);
    match solana_program::alt_bn128::prelude::alt_bn128_multiplication(input.as_slice()) {
        Ok(out) => Ok(point_from_bytes(&out)),
        Err(_) => Err(CurveError),
    }
}

/// Whether a pairing output is the encoding of the identity.
pub fn is_pairing_identity(output: &[u8]) -> (r: bool)
    ensures
        r == (output@ == pairing_identity()),
{
    if output.len() != 32 {
        return false;
    }
    let mut i: usize = 0;
    while i < 32
        invariant
            i <= 32,
            output@.len() == 32,
            forall|k: int| 0 <= k < i ==> output@[k] == pairing_identity()[k],
        decreases 32 - i,
    {
        let expected: u8 = if i == 31 {
            1
        } else {
            0
        };
        if output[i] != expected {
            return false;
        }
        i = i + 1;
    }
    assert(output@ =~= pairing_identity());
    true
}

/// Runs the pairing check over a concatenation of `(G1, G2)` pairs and says
/// whether the product is the identity.
pub fn pairing_check(input: &[u8]) -> (r: Result<bool, CurveError>)
    ensures
        match r {
            Ok(holds) => spec_pairing_check(input@) == Some(holds),
            Err(_) => spec_pairing_check(input@) is None,
        },
{
    match solana_program::alt_bn128::prelude::alt_bn128_pairing(input) {
        Ok(out) => Ok(is_pairing_identity(out.as_slice())),
        Err(_) => Err(CurveError),
    }
}

} // verus!
