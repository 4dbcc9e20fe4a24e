//! The public-input commitment: the public inputs of a payment folded into
//! one G1 point, as a linear combination of the key's IC points.

use vstd::prelude::*;
use crate::bytes::{le_bytes, le_value, pow256, u64_le_bytes};
use crate::curve::{point_add, scalar_mul, spec_point_add, spec_scalar_mul};
use crate::error::VerificationFailure;
use crate::types::{points_view, PaymentPublicInputs, PUBLIC_INPUT_COUNT};

verus! {

/// A signed 64-bit value read as unsigned, bit for bit.
pub open spec fn spec_reinterpret_unsigned(t: i64) -> u64 {
    if t >= 0 {
        t as u64
    } else {
        (t + 0x1_0000_0000_0000_0000) as u64
    }
}

/// The five scalars of a payment's public inputs, in the order in which the
/// IC points take them: the minimum amount, the first and the second eight
/// bytes of the recipient key read little-endian, the maximal block age, and
/// the time read as unsigned.
pub open spec fn spec_public_scalars(inputs: PaymentPublicInputs) -> Seq<u64> {
    seq![
        inputs.min_amount,
        le_value(inputs.recipient_pubkey@.subrange(0, 8)) as u64,
        le_value(inputs.recipient_pubkey@.subrange(8, 16)) as u64,
        inputs.max_block_age,
        spec_reinterpret_unsigned(inputs.current_time),
    ]
}

/// A 64-bit scalar in the 32-byte buffer that goes to the curve service: its
/// eight bytes little-endian, then 24 zero bytes.
pub open spec fn spec_scalar_bytes(x: u64) -> Seq<u8> {
    le_bytes(x as nat, 8) + Seq::new(24, |i: int| 0u8)
}

/// The commitment after the first `n` scalars have gone in: `ic[0]`, plus
/// `scalars[i] * ic[i + 1]` for each `i < n`, added in rising order. `None`
/// where the curve service rejects one of these operations.
pub open spec fn spec_commitment_prefix(ic: Seq<Seq<u8>>, scalars: Seq<u64>, n: nat) -> Option<
    Seq<u8>,
>
    decreases n,
{
    if n == 0 {
        Some(ic[0])
    } else {
        match spec_commitment_prefix(ic, scalars, (n - 1) as nat) {
            None => None,
            Some(acc) => match spec_scalar_mul(ic[n as int], spec_scalar_bytes(scalars[n - 1])) {
                None => None,
                Some(term) => spec_point_add(acc, term),
            },
        }
    }
}

/// The number of scalars that go into the commitment: all of them where the
/// key has a point for each, else as many as it has points for.
pub open spec fn spec_commitment_terms(ic_len: nat, scalar_count: nat) -> nat {
    if ic_len == 0 {
        0
    } else if ic_len - 1 < scalar_count {
        (ic_len - 1) as nat
    } else {
        scalar_count
    }
}

/// The public-input commitment of `inputs` over the points `ic`.
pub open spec fn spec_public_input_point(ic: Seq<Seq<u8>>, inputs: PaymentPublicInputs) -> Result<
    Seq<u8>,
    VerificationFailure,
> {
    if ic.len() == 0 {
        Err(VerificationFailure::ConfigurationError)
    } else {
        match spec_commitment_prefix(
            ic,
            spec_public_scalars(inputs),
            spec_commitment_terms(ic.len(), PUBLIC_INPUT_COUNT as nat),
        ) {
            Some(point) => Ok(point),
            None => Err(VerificationFailure::ArithmeticError),
        }
    }
}

/// Once the curve service has rejected a step, every longer prefix fails.
proof fn lemma_commitment_prefix_stays_none(ic: Seq<Seq<u8>>, scalars: Seq<u64>, n: nat, m: nat)
    requires
        n <= m,
        spec_commitment_prefix(ic, scalars, n) is None,
    ensures
        spec_commitment_prefix(ic, scalars, m) is None,
    decreases m,
{
    if n < m {
        lemma_commitment_prefix_stays_none(ic, scalars, n, (m - 1) as nat);
    }
}

/// Reads a signed 64-bit value as unsigned.
pub fn reinterpret_unsigned(t: i64) -> (r: u64)
    ensures
        r == spec_reinterpret_unsigned(t),
{
    if t >= 0 {
        t as u64
    } else {
        let below: u64 = (-(t + 1)) as u64;
        u64::MAX - below
    }
}

/// Reads eight bytes of `bytes`, from `at` on, as a little-endian number.
fn read_u64_le(bytes: &[u8; 32], at: usize) -> (r: u64)
    requires
        at + 8 <= 32,
    ensures
        r == le_value(bytes@.subrange(at as int, at + 8)),
{
    let ghost s = bytes@.subrange(at as int, at + 8);
    let mut acc: u64 = 0;
    let mut i: usize = 8;
    assert(s.skip(8) =~= Seq::<u8>::empty());
    while i > 0
        invariant
            i <= 8,
            at + 8 <= 32,
            s == bytes@.subrange(at as int, at + 8),
            acc == le_value(s.skip(i as int)),
            acc < pow256((8 - i) as nat),
        decreases i,
    {
        let idx: usize = i - 1;
        proof {
            reveal_with_fuel(pow256, 9);
            assert(s.skip(idx as int).drop_first() =~= s.skip(i as int));
            assert(s.skip(idx as int)[0] == bytes@[at + idx]);
        }
        acc = acc * 256 + bytes[at + idx] as u64;
        i = idx;
    }
    assert(s.skip(0) =~= s);
    acc
}

/// Derives the five scalars of a payment's public inputs.
pub fn public_input_scalars(inputs: &PaymentPublicInputs) -> (r: [u64; 5])
    ensures
        r@ == spec_public_scalars(*inputs),
{
    let r: [u64; 5] = [
        inputs.min_amount,
        read_u64_le(&inputs.recipient_pubkey, 0),
        read_u64_le(&inputs.recipient_pubkey, 8),
        inputs.max_block_age,
        reinterpret_unsigned(inputs.current_time),
    ];
    assert(r@ =~= spec_public_scalars(*inputs));
    r
}

/// Embeds a 64-bit scalar in the 32-byte little-endian buffer.
pub fn scalar_bytes(x: u64) -> (r: [u8; 32])
    ensures
        r@ == spec_scalar_bytes(x),
{
    let low = u64_le_bytes(x);
    let mut out: [u8; 32] = [0u8; 32];
    let mut i: usize = 0;
    while i < 8
        invariant
            i <= 8,
            forall|k: int| 0 <= k < i ==> out@[k] == low@[k],
            forall|k: int| i <= k < 32 ==> out@[k] == 0,
        decreases 8 - i,
    {
        out[i] = low[i];
        i = i + 1;
    }
    assert(out@ =~= spec_scalar_bytes(x));
    out
}

/// Folds the public inputs into one G1 point: starts from `ic[0]` and adds
/// `scalar * ic[i + 1]` for each derived scalar, in order. Where `ic` has
/// fewer points than there are scalars, the scalars without a point stay out.
pub fn compute_public_input_point(ic: &[[u8; 64]], public_inputs: &PaymentPublicInputs) -> (r:
    Result<[u8; 64], VerificationFailure>)
    ensures
        match r {
            Ok(point) => spec_public_input_point(points_view(ic@), *public_inputs) == Ok::<
                Seq<u8>,
                VerificationFailure,
            >(point@),
            Err(e) => spec_public_input_point(points_view(ic@), *public_inputs) == Err::<
                Seq<u8>,
                VerificationFailure,
            >(e),
        },
{
    if ic.len() == 0 {
        return Err(VerificationFailure::ConfigurationError);
    }
    let scalars = public_input_scalars(public_inputs);
    let terms: usize = if ic.len() - 1 < PUBLIC_INPUT_COUNT {
        ic.len() - 1
    } else {
        PUBLIC_INPUT_COUNT
    };
    let ghost points = points_view(ic@);
    let mut result: [u8; 64] = ic[0];
    let mut i: usize = 0;
    while i < terms
        invariant
            i <= terms,
            terms < ic@.len(),
            terms == spec_commitment_terms(ic@.len(), PUBLIC_INPUT_COUNT as nat),
            points == points_view(ic@),
            scalars@ == spec_public_scalars(*public_inputs),
            spec_commitment_prefix(points, scalars@, i as nat) == Some(result@),
        decreases terms - i,
    {
        let scalar = scalar_bytes(scalars[i]);
        let term = match scalar_mul(&ic[i + 1], &scalar) {
            Ok(term) => term,
            Err(_) => {
                proof {
                    lemma_commitment_prefix_stays_none(
                        points,
                        scalars@,
                        (i + 1) as nat,
                        terms as nat,
                    );
                }
                return Err(VerificationFailure::ArithmeticError);
            },
        };
        result = match point_add(&result, &term) {
            Ok(sum) => sum,
            Err(_) => {
                proof {
                    lemma_commitment_prefix_stays_none(
                        points,
                        scalars@,
                        (i + 1) as nat,
                        terms as nat,
                    );
                }
                return Err(VerificationFailure::ArithmeticError);
            },
        };
        i = i + 1;
    }
    Ok(result)
}

/// A key with the constant term alone commits to that term, whatever the
/// public inputs.
pub proof fn lemma_constant_term_alone(ic: Seq<Seq<u8>>, inputs: PaymentPublicInputs)
    requires
        ic.len() == 1,
    ensures
        spec_public_input_point(ic, inputs) == Ok::<Seq<u8>, VerificationFailure>(ic[0]),
{
}

} // verus!
