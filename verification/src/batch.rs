//! Verification of a batch of proofs as one cryptographic unit: coefficients
//! derived from the proofs, the G1 components folded with them, and a single
//! pairing check on the folded points.
//!
//! A batch that verifies is not the same statement as "each proof verifies":
//! it holds up to the soundness of the random linear combination, and the
//! first proof goes in with weight one.

use vstd::prelude::*;
use crate::bytes::{le_bytes, u64_le_bytes};
use crate::commitment::{compute_public_input_point, spec_public_input_point};
use crate::curve::{point_add, scalar_mul, spec_point_add, spec_scalar_mul};
use crate::error::{MalformedInput, VerificationFailure};
use crate::hash::{sha256, sha256_digest};
use crate::single::{check_pairing_equation, spec_pairing_equation, spec_verify};
use crate::types::{
    points_view, BatchVerificationRequest, Groth16Proof, PaymentPublicInputs, VerificationKey,
    VerificationKeyView,
};

verus! {

/// Whether distinct G2 components can be combined. The curve arithmetic
/// service has no G2 addition or multiplication, so they cannot: a batch is
/// accepted for aggregation only where all its proofs share one G2 component.
pub const SUPPORTS_G2_AGGREGATION: bool = false;

/// The transcript that binds a coefficient to its proof and to the proof's
/// place in the batch: the bytes of the proof's `a`, then the index as eight
/// little-endian bytes.
pub open spec fn spec_transcript(proof: Groth16Proof, index: nat) -> Seq<u8> {
    proof.a@ + le_bytes(index, 8)
}

/// The coefficient of the proof at `index`: the SHA-256 digest of its
/// transcript, taken as a 32-byte scalar.
pub open spec fn spec_coefficient(proof: Groth16Proof, index: nat) -> Seq<u8> {
    sha256_digest(spec_transcript(proof, index))
}

/// The coefficients of the first `count` proofs.
pub open spec fn spec_batch_coefficients(proofs: Seq<Groth16Proof>, count: nat) -> Seq<Seq<u8>> {
    Seq::new(count, |i: int| spec_coefficient(proofs[i], i as nat))
}

/// What the coefficient derivation returns: an empty batch has no
/// coefficients, and no more can be asked for than there are proofs.
pub open spec fn spec_generate_batch_coefficients(count: nat, proofs: Seq<Groth16Proof>) -> Result<
    Seq<Seq<u8>>,
    VerificationFailure,
> {
    if count == 0 || proofs.len() == 0 {
        Err(VerificationFailure::MalformedInput(MalformedInput::EmptyBatch))
    } else if count > proofs.len() {
        Err(VerificationFailure::MalformedInput(MalformedInput::LengthMismatch))
    } else {
        Ok(spec_batch_coefficients(proofs, count))
    }
}

/// The first point, plus `coeffs[i] * points[i]` for each `1 <= i < n`, added
/// in rising order. `None` where the curve service rejects one of these
/// operations. The first coefficient is not used.
pub open spec fn spec_weighted_sum(points: Seq<Seq<u8>>, coeffs: Seq<Seq<u8>>, n: nat) -> Option<
    Seq<u8>,
>
    decreases n,
{
    if n <= 1 {
        Some(points[0])
    } else {
        match spec_weighted_sum(points, coeffs, (n - 1) as nat) {
            None => None,
            Some(acc) => match spec_scalar_mul(points[n - 1], coeffs[n - 1]) {
                None => None,
                Some(term) => spec_point_add(acc, term),
            },
        }
    }
}

/// The aggregate of G1 points under coefficients.
pub open spec fn spec_aggregate_g1(points: Seq<Seq<u8>>, coeffs: Seq<Seq<u8>>) -> Result<
    Seq<u8>,
    VerificationFailure,
> {
    if points.len() != coeffs.len() {
        Err(VerificationFailure::MalformedInput(MalformedInput::LengthMismatch))
    } else if points.len() == 0 {
        Err(VerificationFailure::MalformedInput(MalformedInput::EmptyBatch))
    } else {
        match spec_weighted_sum(points, coeffs, points.len()) {
            Some(sum) => Ok(sum),
            None => Err(VerificationFailure::ArithmeticError),
        }
    }
}

/// Whether all points of a sequence are the same bytes.
pub open spec fn spec_all_same(points: Seq<Seq<u8>>) -> bool {
    forall|i: int| 0 <= i < points.len() ==> #[trigger] points[i] == points[0]
}

/// The aggregate of G2 points: the point that all of them are, where they
/// are one point; no aggregate otherwise.
pub open spec fn spec_aggregate_g2(points: Seq<Seq<u8>>, coeffs: Seq<Seq<u8>>) -> Result<
    Seq<u8>,
    VerificationFailure,
> {
    if points.len() != coeffs.len() {
        Err(VerificationFailure::MalformedInput(MalformedInput::LengthMismatch))
    } else if points.len() == 0 {
        Err(VerificationFailure::MalformedInput(MalformedInput::EmptyBatch))
    } else if spec_all_same(points) {
        Ok(points[0])
    } else {
        Err(VerificationFailure::UnsupportedG2Aggregation)
    }
}

/// The public-input commitments of the first `n` inputs, or the failure of
/// the first that fails.
pub open spec fn spec_commitments(ic: Seq<Seq<u8>>, inputs: Seq<PaymentPublicInputs>, n: nat) -> Result<
    Seq<Seq<u8>>,
    VerificationFailure,
>
    decreases n,
{
    if n == 0 {
        Ok(Seq::empty())
    } else {
        match spec_commitments(ic, inputs, (n - 1) as nat) {
            Err(e) => Err(e),
            Ok(points) => match spec_public_input_point(ic, inputs[n - 1]) {
                Err(e) => Err(e),
                Ok(point) => Ok(points.push(point)),
            },
        }
    }
}

/// The `a` components of a batch.
pub open spec fn spec_a_points(proofs: Seq<Groth16Proof>) -> Seq<Seq<u8>> {
    Seq::new(proofs.len(), |i: int| proofs[i].a@)
}

/// The `b` components of a batch.
pub open spec fn spec_b_points(proofs: Seq<Groth16Proof>) -> Seq<Seq<u8>> {
    Seq::new(proofs.len(), |i: int| proofs[i].b@)
}

/// The `c` components of a batch.
pub open spec fn spec_c_points(proofs: Seq<Groth16Proof>) -> Seq<Seq<u8>> {
    Seq::new(proofs.len(), |i: int| proofs[i].c@)
}

/// The outcome of verifying a batch.
///
/// The batch equation is the Groth16 equation on aggregates: `a`, `c`, the
/// public-input commitments and as many copies of the key's `alpha` are each
/// folded with the batch coefficients, and `b` is the one G2 component that
/// the proofs share.
pub open spec fn spec_verify_batch(
    proofs: Seq<Groth16Proof>,
    inputs: Seq<PaymentPublicInputs>,
    vk: VerificationKeyView,
) -> Result<(), VerificationFailure> {
    if proofs.len() != inputs.len() {
        Err(VerificationFailure::MalformedInput(MalformedInput::CountMismatch))
    } else if proofs.len() == 0 {
        Err(VerificationFailure::MalformedInput(MalformedInput::EmptyBatch))
    } else {
        let coeffs = spec_batch_coefficients(proofs, proofs.len());
        match spec_aggregate_g1(spec_a_points(proofs), coeffs) {
            Err(e) => Err(e),
            Ok(a_agg) => match spec_aggregate_g1(spec_c_points(proofs), coeffs) {
                Err(e) => Err(e),
                Ok(c_agg) => match spec_aggregate_g2(spec_b_points(proofs), coeffs) {
                    Err(e) => Err(e),
                    Ok(b_agg) => match spec_commitments(vk.ic, inputs, inputs.len()) {
                        Err(e) => Err(e),
                        Ok(pub_points) => match spec_aggregate_g1(pub_points, coeffs) {
                            Err(e) => Err(e),
                            Ok(pub_agg) => match spec_aggregate_g1(
                                Seq::new(proofs.len(), |i: int| vk.alpha_g1),
                                coeffs,
                            ) {
                                Err(e) => Err(e),
                                Ok(alpha_agg) => spec_pairing_equation(
                                    a_agg,
                                    b_agg,
                                    c_agg,
                                    pub_agg,
                                    alpha_agg,
                                    vk,
                                ),
                            },
                        },
                    },
                },
            },
        }
    }
}

proof fn lemma_weighted_sum_stays_none(points: Seq<Seq<u8>>, coeffs: Seq<Seq<u8>>, n: nat, m: nat)
    requires
        n <= m,
        spec_weighted_sum(points, coeffs, n) is None,
    ensures
        spec_weighted_sum(points, coeffs, m) is None,
    decreases m,
{
    if n < m {
        lemma_weighted_sum_stays_none(points, coeffs, n, (m - 1) as nat);
    }
}

proof fn lemma_commitments_stay_failed(
    ic: Seq<Seq<u8>>,
    inputs: Seq<PaymentPublicInputs>,
    n: nat,
    m: nat,
)
    requires
        n <= m,
        spec_commitments(ic, inputs, n) is Err,
    ensures
        spec_commitments(ic, inputs, m) == spec_commitments(ic, inputs, n),
    decreases m,
{
    if n < m {
        lemma_commitments_stay_failed(ic, inputs, n, (m - 1) as nat);
    }
}

/// Builds the transcript of the proof at `index`.
pub fn transcript(proof: &Groth16Proof, index: usize) -> (t: Vec<u8>)
    ensures
        t@ == spec_transcript(*proof, index as nat),
{
    let place = u64_le_bytes(index as u64);
    let mut t: Vec<u8> = Vec::with_capacity(72);
    t.extend_from_slice(proof.a.as_slice());
    t.extend_from_slice(place.as_slice());
    t
}

/// Derives one coefficient for each of the first `num_proofs` proofs: the
/// SHA-256 digest of the proof's transcript. The digest is the scalar as it
/// stands; the curve service takes scalars of the full 32 bytes.
pub fn generate_batch_coefficients(num_proofs: usize, proofs: &[Groth16Proof]) -> (r: Result<
    Vec<[u8; 32]>,
    VerificationFailure,
>)
    ensures
        match r {
            Ok(coeffs) => coeffs@.len() == num_proofs && spec_generate_batch_coefficients(
                num_proofs as nat,
                proofs@,
            ) == Ok::<Seq<Seq<u8>>, VerificationFailure>(points_view(coeffs@)),
            Err(e) => spec_generate_batch_coefficients(num_proofs as nat, proofs@) == Err::<
                Seq<Seq<u8>>,
                VerificationFailure,
            >(e),
        },
{
    if num_proofs == 0 || proofs.len() == 0 {
        return Err(VerificationFailure::MalformedInput(MalformedInput::EmptyBatch));
    }
    if num_proofs > proofs.len() {
        return Err(VerificationFailure::MalformedInput(MalformedInput::LengthMismatch));
    }
    let mut coeffs: Vec<[u8; 32]> = Vec::with_capacity(num_proofs);
    let mut i: usize = 0;
    while i < num_proofs
        invariant
            i <= num_proofs <= proofs@.len(),
            coeffs@.len() == i,
            forall|k: int| 0 <= k < i ==> (#[trigger] coeffs@[k])@ == spec_coefficient(
                proofs@[k],
                k as nat,
            ),
        decreases num_proofs - i,
    {
        let t = transcript(&proofs[i], i);
        coeffs.push(sha256(t.as_slice()));
        i = i + 1;
    }
    assert(points_view(coeffs@) =~= spec_batch_coefficients(proofs@, num_proofs as nat));
    Ok(coeffs)
}

/// Folds G1 points with coefficients: `points[0]`, plus `coefficients[i] *
/// points[i]` for each later `i`. The first point goes in as it is, with
/// weight one; its coefficient is not used.
pub fn aggregate_g1_points(points: &[[u8; 64]], coefficients: &[[u8; 32]]) -> (r: Result<
    [u8; 64],
    VerificationFailure,
>)
    ensures
        match r {
            Ok(sum) => spec_aggregate_g1(points_view(points@), points_view(coefficients@)) == Ok::<
                Seq<u8>,
                VerificationFailure,
            >(sum@),
            Err(e) => spec_aggregate_g1(points_view(points@), points_view(coefficients@)) == Err::<
                Seq<u8>,
                VerificationFailure,
            >(e),
        },
{
    if points.len() != coefficients.len() {
        return Err(VerificationFailure::MalformedInput(MalformedInput::LengthMismatch));
    }
    if points.len() == 0 {
        return Err(VerificationFailure::MalformedInput(MalformedInput::EmptyBatch));
    }
    let ghost ps = points_view(points@);
    let ghost cs = points_view(coefficients@);
    let mut result: [u8; 64] = points[0];
    let mut i: usize = 1;
    while i < points.len()
        invariant
            1 <= i <= points@.len(),
            points@.len() == coefficients@.len(),
            ps == points_view(points@),
            cs == points_view(coefficients@),
            spec_weighted_sum(ps, cs, i as nat) == Some(result@),
        decreases points@.len() - i,
    {
        let term = match scalar_mul(&points[i], &coefficients[i]) {
            Ok(term) => term,
            Err(_) => {
                proof {
                    lemma_weighted_sum_stays_none(ps, cs, (i + 1) as nat, points@.len());
                }
                return Err(VerificationFailure::ArithmeticError);
            },
        };
        result = match point_add(&result, &term) {
            Ok(sum) => sum,
            Err(_) => {
                proof {
                    lemma_weighted_sum_stays_none(ps, cs, (i + 1) as nat, points@.len());
                }
                return Err(VerificationFailure::ArithmeticError);
            },
        };
        i = i + 1;
    }
    Ok(result)
}

/// Whether two G2 points are the same bytes.
fn same_g2(p: &[u8; 128], q: &[u8; 128]) -> (r: bool)
    ensures
        r == (p@ == q@),
{
    let mut i: usize = 0;
    while i < 128
        invariant
            i <= 128,
            forall|k: int| 0 <= k < i ==> p@[k] == q@[k],
        decreases 128 - i,
    {
        if p[i] != q[i] {
            return false;
        }
        i = i + 1;
    }
    assert(p@ =~= q@);
    true
}

/// Stands in for the aggregation of G2 points, which the curve arithmetic
/// service cannot do: returns the one point that all of `points` are, and
/// `UnsupportedG2Aggregation` where they differ.
pub fn aggregate_g2_points(points: &[[u8; 128]], coefficients: &[[u8; 32]]) -> (r: Result<
    [u8; 128],
    VerificationFailure,
>)
    ensures
        match r {
            Ok(point) => spec_aggregate_g2(points_view(points@), points_view(coefficients@))
                == Ok::<Seq<u8>, VerificationFailure>(point@),
            Err(e) => spec_aggregate_g2(points_view(points@), points_view(coefficients@)) == Err::<
                Seq<u8>,
                VerificationFailure,
            >(e),
        },
{
    if points.len() != coefficients.len() {
        return Err(VerificationFailure::MalformedInput(MalformedInput::LengthMismatch));
    }
    if points.len() == 0 {
        return Err(VerificationFailure::MalformedInput(MalformedInput::EmptyBatch));
    }
    let ghost ps = points_view(points@);
    let mut i: usize = 1;
    while i < points.len()
        invariant
            1 <= i <= points@.len(),
            points@.len() == coefficients@.len(),
            ps == points_view(points@),
            forall|k: int| 0 <= k < i ==> #[trigger] ps[k] == ps[0],
        decreases points@.len() - i,
    {
        if !same_g2(&points[i], &points[0]) {
            assert(ps[i as int] != ps[0]);
            return Err(VerificationFailure::UnsupportedG2Aggregation);
        }
        i = i + 1;
    }
    Ok(points[0])
}

/// The public-input commitment of each input, in order; the failure of the
/// first that fails.
fn commitments(ic: &[[u8; 64]], inputs: &[PaymentPublicInputs]) -> (r: Result<
    Vec<[u8; 64]>,
    VerificationFailure,
>)
    ensures
        match r {
            Ok(points) => spec_commitments(points_view(ic@), inputs@, inputs@.len()) == Ok::<
                Seq<Seq<u8>>,
                VerificationFailure,
            >(points_view(points@)),
            Err(e) => spec_commitments(points_view(ic@), inputs@, inputs@.len()) == Err::<
                Seq<Seq<u8>>,
                VerificationFailure,
            >(e),
        },
{
    let ghost ics = points_view(ic@);
    let mut points: Vec<[u8; 64]> = Vec::with_capacity(inputs.len());
    let mut i: usize = 0;
    assert(points_view(points@) =~= Seq::<Seq<u8>>::empty());
    while i < inputs.len()
        invariant
            i <= inputs@.len(),
            ics == points_view(ic@),
            spec_commitments(ics, inputs@, i as nat) == Ok::<Seq<Seq<u8>>, VerificationFailure>(
                points_view(points@),
            ),
        decreases inputs@.len() - i,
    {
        let point = match compute_public_input_point(ic, &inputs[i]) {
            Ok(point) => point,
            Err(e) => {
                proof {
                    lemma_commitments_stay_failed(ics, inputs@, (i + 1) as nat, inputs@.len());
                }
                return Err(e);
            },
        };
        let ghost before = points_view(points@);
        points.push(point);
        assert(points_view(points@) =~= before.push(point@));
        i = i + 1;
    }
    Ok(points)
}

/// The `a`, `b` and `c` components of the proofs, each in a vector of its
/// own.
fn components(proofs: &[Groth16Proof]) -> (r: (Vec<[u8; 64]>, Vec<[u8; 128]>, Vec<[u8; 64]>))
    ensures
        points_view(r.0@) == spec_a_points(proofs@),
        points_view(r.1@) == spec_b_points(proofs@),
        points_view(r.2@) == spec_c_points(proofs@),
{
    let mut a_points: Vec<[u8; 64]> = Vec::with_capacity(proofs.len());
    let mut b_points: Vec<[u8; 128]> = Vec::with_capacity(proofs.len());
    let mut c_points: Vec<[u8; 64]> = Vec::with_capacity(proofs.len());
    let mut i: usize = 0;
    while i < proofs.len()
        invariant
            i <= proofs@.len(),
            a_points@.len() == i,
            b_points@.len() == i,
            c_points@.len() == i,
            forall|k: int| 0 <= k < i ==> (#[trigger] a_points@[k])@ == proofs@[k].a@,
            forall|k: int| 0 <= k < i ==> (#[trigger] b_points@[k])@ == proofs@[k].b@,
            forall|k: int| 0 <= k < i ==> (#[trigger] c_points@[k])@ == proofs@[k].c@,
        decreases proofs@.len() - i,
    {
        a_points.push(proofs[i].a);
        b_points.push(proofs[i].b);
        c_points.push(proofs[i].c);
        i = i + 1;
    }
    assert(points_view(a_points@) =~= spec_a_points(proofs@));
    assert(points_view(b_points@) =~= spec_b_points(proofs@));
    assert(points_view(c_points@) =~= spec_c_points(proofs@));
    (a_points, b_points, c_points)
}

/// `count` copies of a point.
fn repeated(point: &[u8; 64], count: usize) -> (r: Vec<[u8; 64]>)
    ensures
        points_view(r@) == Seq::new(count as nat, |i: int| point@),
{
    let mut points: Vec<[u8; 64]> = Vec::with_capacity(count);
    let mut i: usize = 0;
    while i < count
        invariant
            i <= count,
            points@.len() == i,
            forall|k: int| 0 <= k < i ==> (#[trigger] points@[k])@ == point@,
        decreases count - i,
    {
        points.push(*point);
        i = i + 1;
    }
    assert(points_view(points@) =~= Seq::new(count as nat, |i: int| point@));
    points
}

/// Verifies a batch with a single pairing check on aggregated points.
///
/// The proofs and the public inputs pair by position. The batch is one
/// cryptographic unit: its outcome is that of the aggregated equation, not the
/// conjunction of the single verifications.
pub fn batch_verify_proofs(request: &BatchVerificationRequest, vk: &VerificationKey) -> (r: Result<
    (),
    VerificationFailure,
>)
    ensures
        r == spec_verify_batch(request.proofs@, request.public_inputs@, vk@),
        request.proofs@.len() != request.public_inputs@.len() ==> r == Err::<
            (),
            VerificationFailure,
        >(VerificationFailure::MalformedInput(MalformedInput::CountMismatch)),
        request.proofs@.len() == 0 && request.public_inputs@.len() == 0 ==> r == Err::<
            (),
            VerificationFailure,
        >(VerificationFailure::MalformedInput(MalformedInput::EmptyBatch)),
{
    let n: usize = request.proofs.len();
    if n != request.public_inputs.len() {
        return Err(VerificationFailure::MalformedInput(MalformedInput::CountMismatch));
    }
    if n == 0 {
        return Err(VerificationFailure::MalformedInput(MalformedInput::EmptyBatch));
    }
    let coeffs = match generate_batch_coefficients(n, request.proofs.as_slice()) {
        Ok(coeffs) => coeffs,
        Err(e) => {
            return Err(e);
        },
    };
    let (a_points, b_points, c_points) = components(request.proofs.as_slice());
    let a_agg = match aggregate_g1_points(a_points.as_slice(), coeffs.as_slice()) {
        Ok(point) => point,
        Err(e) => {
            return Err(e);
        },
    };
    let c_agg = match aggregate_g1_points(c_points.as_slice(), coeffs.as_slice()) {
        Ok(point) => point,
        Err(e) => {
            return Err(e);
        },
    };
    let b_agg = match aggregate_g2_points(b_points.as_slice(), coeffs.as_slice()) {
        Ok(point) => point,
        Err(e) => {
            return Err(e);
        },
    };
    let pub_points = match commitments(vk.ic(), request.public_inputs.as_slice()) {
        Ok(points) => points,
        Err(e) => {
            return Err(e);
        },
    };
    let pub_agg = match aggregate_g1_points(pub_points.as_slice(), coeffs.as_slice()) {
        Ok(point) => point,
        Err(e) => {
            return Err(e);
        },
    };
    let alpha_points = repeated(vk.alpha_g1(), n);
    let alpha_agg = match aggregate_g1_points(alpha_points.as_slice(), coeffs.as_slice()) {
        Ok(point) => point,
        Err(e) => {
            return Err(e);
        },
    };
    check_pairing_equation(&a_agg, &b_agg, &c_agg, &pub_agg, &alpha_agg, vk)
}

/// Aggregating two points leaves the first as it is and weighs the second:
/// the aggregate is `first + second_weight * second`, whatever the weight of
/// the first is.
pub proof fn lemma_aggregate_of_two(
    first: Seq<u8>,
    second: Seq<u8>,
    first_weight: Seq<u8>,
    second_weight: Seq<u8>,
)
    ensures
        spec_aggregate_g1(seq![first, second], seq![first_weight, second_weight]) == (
        match spec_scalar_mul(second, second_weight) {
            None => Err::<Seq<u8>, VerificationFailure>(VerificationFailure::ArithmeticError),
            Some(term) => match spec_point_add(first, term) {
                None => Err(VerificationFailure::ArithmeticError),
                Some(sum) => Ok(sum),
            },
        }),
{
    reveal_with_fuel(spec_weighted_sum, 3);
}

/// A batch of one proof has the outcome of the single verification of that
/// proof: nothing is folded, and the same pairing equation is checked.
pub proof fn lemma_batch_of_one(
    proof: Groth16Proof,
    inputs: PaymentPublicInputs,
    vk: VerificationKeyView,
)
    ensures
        spec_verify_batch(seq![proof], seq![inputs], vk) == spec_verify(proof, inputs, vk),
{
    let proofs = seq![proof];
    let coeffs = spec_batch_coefficients(proofs, 1);
    reveal_with_fuel(spec_commitments, 2);
    assert(spec_all_same(spec_b_points(proofs)));
    match spec_public_input_point(vk.ic, inputs) {
        Ok(point) => {
            assert(Seq::<Seq<u8>>::empty().push(point)[0] == point);
        },
        Err(_) => {},
    }
}

/// The outcome of a batch verification depends on the bytes of the proofs,
/// of the public inputs and of the key, and on nothing else.
pub proof fn lemma_verify_batch_deterministic(
    proofs1: Seq<Groth16Proof>,
    inputs1: Seq<PaymentPublicInputs>,
    proofs2: Seq<Groth16Proof>,
    inputs2: Seq<PaymentPublicInputs>,
    vk: VerificationKeyView,
)
    requires
        proofs1.len() == proofs2.len(),
        inputs1.len() == inputs2.len(),
        forall|i: int|
            0 <= i < proofs1.len() ==> {
                &&& (#[trigger] proofs1[i]).a@ == proofs2[i].a@
                &&& proofs1[i].b@ == proofs2[i].b@
                &&& proofs1[i].c@ == proofs2[i].c@
            },
        forall|i: int|
            0 <= i < inputs1.len() ==> {
                &&& (#[trigger] inputs1[i]).min_amount == inputs2[i].min_amount
                &&& inputs1[i].recipient_pubkey@ == inputs2[i].recipient_pubkey@
                &&& inputs1[i].max_block_age == inputs2[i].max_block_age
                &&& inputs1[i].current_time == inputs2[i].current_time
            },
    ensures
        spec_verify_batch(proofs1, inputs1, vk) == spec_verify_batch(proofs2, inputs2, vk),
{
    assert forall|i: int| 0 <= i < proofs1.len() implies proofs1[i] == proofs2[i] by {
        assert(proofs1[i].a == proofs2[i].a);
        assert(proofs1[i].b == proofs2[i].b);
        assert(proofs1[i].c == proofs2[i].c);
    }
    assert forall|i: int| 0 <= i < inputs1.len() implies inputs1[i] == inputs2[i] by {
        assert(inputs1[i].recipient_pubkey == inputs2[i].recipient_pubkey);
    }
    assert(proofs1 =~= proofs2);
    assert(inputs1 =~= inputs2);
}

} // verus!
