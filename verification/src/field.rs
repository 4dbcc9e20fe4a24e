//! Negation in the base field of the curve, on the 32-byte big-endian
//! encoding of a field element and on the y-coordinate of a G1 point.

use vstd::prelude::*;
use vstd::arithmetic::div_mod::{lemma_fundamental_div_mod, lemma_fundamental_div_mod_converse};
use crate::bytes::{
    be_bytes, be_value, lemma_be_bytes_of_value, lemma_be_value_bound, lemma_be_value_of_bytes,
    lemma_be_value_of_prefix, lemma_pow256_32, prefix_value, sub_with_borrow, two_pow_256,
};
use crate::error::MalformedInput;

verus! {

/// The base-field prime of the curve, most significant byte first.
pub const FIELD_MODULUS: [u8; 32] = [
    0x30, 0x64, 0x4e, 0x72, 0xe1, 0x31, 0xa0, 0x29,
    0xb8, 0x50, 0x45, 0xb6, 0x81, 0x81, 0x58, 0x5d,
    0x97, 0x81, 0x6a, 0x91, 0x68, 0x71, 0xca, 0x8d,
    0x3c, 0x20, 0x8c, 0x16, 0xd8, 0x7c, 0xfd, 0x47,
];

/// The base-field prime `p` of the curve.
pub open spec fn field_modulus() -> nat {
    0x30644e72e131a029b85045b68181585d97816a916871ca8d3c208c16d87cfd47nat
}

/// The additive inverse of `v` modulo `p`, for any natural `v`: `(p - v) mod p`.
pub open spec fn negate_value(v: nat) -> nat {
    ((field_modulus() - v) % (field_modulus() as int)) as nat
}

/// Negation on the encoding of a field element.
pub open spec fn spec_negate(y: Seq<u8>) -> Seq<u8> {
    be_bytes(negate_value(be_value(y)), 32)
}

/// Negation of a G1 point: the x-coordinate stays, the y-coordinate is negated.
pub open spec fn spec_negate_point(point: Seq<u8>) -> Seq<u8> {
    point.subrange(0, 32) + spec_negate(point.subrange(32, 64))
}

/// The constant bytes denote `p`.
pub proof fn lemma_modulus_bytes()
    ensures
        be_value(FIELD_MODULUS@) == field_modulus(),
{
    reveal_with_fuel(prefix_value, 33);
    lemma_be_value_of_prefix(FIELD_MODULUS@, 32);
    assert(FIELD_MODULUS@.take(32) =~= FIELD_MODULUS@);
}

/// `negate_value` without the division: zero stays, any other residue `r`
/// goes to `p - r`.
pub proof fn lemma_negate_value(v: nat)
    ensures
        negate_value(v) == if v % field_modulus() == 0 {
            0
        } else {
            field_modulus() - v % field_modulus()
        },
        negate_value(v) < field_modulus(),
{
    let p = field_modulus() as int;
    let q = v as int / p;
    let r = v as int % p;
    lemma_fundamental_div_mod(v as int, p);
    if r == 0 {
        lemma_fundamental_div_mod_converse(p - v, p, 1 - q, 0);
    } else {
        lemma_fundamental_div_mod_converse(p - v, p, -q, p - r);
    }
}

/// `x - p` where `x >= p`, else `x`.
fn reduce_once(x: &[u8; 32]) -> (r: [u8; 32])
    ensures
        be_value(r@) == if be_value(x@) >= field_modulus() {
            be_value(x@) - field_modulus()
        } else {
            be_value(x@) as int
        },
{
    let (d, borrow) = sub_with_borrow(x, &FIELD_MODULUS);
    proof {
        lemma_modulus_bytes();
        lemma_pow256_32();
        lemma_be_value_bound(x@);
        if !borrow {
            lemma_be_value_of_bytes((be_value(x@) - field_modulus()) as nat, 32);
        }
    }
    if borrow {
        *x
    } else {
        d
    }
}

/// Negates a field element: `(p - y) mod p`, for every 32-byte `y`, also one
/// that is not below `p`.
pub fn negate(y: &[u8; 32]) -> (r: [u8; 32])
    ensures
        r@ == spec_negate(y@),
{
    let mut acc: [u8; 32] = *y;
    let ghost mut taken: nat = 0;
    let mut round: usize = 0;
    proof {
        lemma_pow256_32();
        lemma_be_value_bound(y@);
    }
    // 2^256 is below 6p, so five conditional subtractions bring any 32-byte
    // value below p.
    while round < 5
        invariant
            round <= 5,
            taken <= round,
            be_value(acc@) + taken * field_modulus() == be_value(y@),
            be_value(acc@) < field_modulus() || taken == round,
            be_value(y@) < two_pow_256(),
        decreases 5 - round,
    {
        let ghost before = be_value(acc@);
        acc = reduce_once(&acc);
        proof {
            if before >= field_modulus() {
                taken = taken + 1;
            }
        }
        round = round + 1;
    }
    let (flipped, _) = sub_with_borrow(&FIELD_MODULUS, &acc);
    let out = reduce_once(&flipped);
    proof {
        let p = field_modulus() as int;
        let v = be_value(y@) as int;
        let rem = be_value(acc@) as int;
        lemma_modulus_bytes();
        lemma_fundamental_div_mod_converse(v, p, taken as int, rem);
        lemma_be_value_of_bytes((p - rem) as nat, 32);
        lemma_negate_value(be_value(y@));
        lemma_be_bytes_of_value(out@);
    }
    out
}

/// Negates a G1 point given as `x || y`.
pub fn negate_point(point: &[u8; 64]) -> (r: [u8; 64])
    ensures
        r@ == spec_negate_point(point@),
{
    let mut y: [u8; 32] = [0u8; 32];
    let mut i: usize = 0;
    while i < 32
        invariant
            i <= 32,
            forall|k: int| 0 <= k < i ==> y@[k] == point@[32 + k],
        decreases 32 - i,
    {
        y[i] = point[32 + i];
        i = i + 1;
    }
    assert(y@ =~= point@.subrange(32, 64));
    let neg = negate(&y);
    let mut out: [u8; 64] = *point;
    let mut j: usize = 0;
    proof {
        lemma_negate_value(be_value(y@));
        lemma_pow256_32();
        lemma_be_value_of_bytes(negate_value(be_value(y@)), 32);
    }
    while j < 32
        invariant
            j <= 32,
            neg@.len() == 32,
            forall|k: int| 0 <= k < 32 ==> out@[k] == point@[k],
            forall|k: int| 0 <= k < j ==> out@[32 + k] == neg@[k],
        decreases 32 - j,
    {
        out[32 + j] = neg[j];
        j = j + 1;
    }
    assert(out@ =~= spec_negate_point(point@));
    out
}

/// Negates a G1 point handed over as a byte slice, which must hold exactly
/// 64 bytes.
pub fn negate_g1_point(point: &[u8]) -> (r: Result<[u8; 64], MalformedInput>)
    ensures
        match r {
            Ok(negated) => point@.len() == 64 && negated@ == spec_negate_point(point@),
            Err(e) => point@.len() != 64 && e == MalformedInput::InvalidLength,
        },
{
    if point.len() != 64 {
        return Err(MalformedInput::InvalidLength);
    }
    let mut fixed: [u8; 64] = [0u8; 64];
    let mut i: usize = 0;
    while i < 64
        invariant
            i <= 64,
            point@.len() == 64,
            forall|k: int| 0 <= k < i ==> fixed@[k] == point@[k],
        decreases 64 - i,
    {
        fixed[i] = point[i];
        i = i + 1;
    }
    assert(fixed@ =~= point@);
    Ok(negate_point(&fixed))
}

/// Negating twice gives back every canonical field element, byte for byte.
pub proof fn lemma_negate_involution(y: Seq<u8>)
    requires
        y.len() == 32,
        be_value(y) < field_modulus(),
    ensures
        spec_negate(spec_negate(y)) == y,
{
    let v = be_value(y);
    let n = negate_value(v);
    lemma_negate_value(v);
    lemma_negate_value(n);
    lemma_pow256_32();
    lemma_be_value_of_bytes(n, 32);
    lemma_be_bytes_of_value(y);
}

/// Negation has no fixed point but zero: a field element other than zero
/// differs from its negation.
pub proof fn lemma_negate_moves_nonzero(y: Seq<u8>)
    requires
        y.len() == 32,
        be_value(y) != 0,
    ensures
        spec_negate(y) != y,
{
    let v = be_value(y);
    lemma_negate_value(v);
    lemma_pow256_32();
    lemma_be_value_of_bytes(negate_value(v), 32);
}

/// Negating a point twice gives back the point, where its y-coordinate is
/// canonical.
pub proof fn lemma_negate_point_involution(point: Seq<u8>)
    requires
        point.len() == 64,
        be_value(point.subrange(32, 64)) < field_modulus(),
    ensures
        spec_negate_point(spec_negate_point(point)) == point,
{
    let y = point.subrange(32, 64);
    let once = spec_negate_point(point);
    lemma_negate_involution(y);
    lemma_negate_value(be_value(y));
    lemma_pow256_32();
    lemma_be_value_of_bytes(negate_value(be_value(y)), 32);
    assert(once.subrange(0, 32) =~= point.subrange(0, 32));
    assert(once.subrange(32, 64) =~= spec_negate(y));
    assert(spec_negate_point(once) =~= point);
}

/// Negating a point leaves its x-coordinate as it was, byte for byte.
pub proof fn lemma_negate_point_keeps_x(point: Seq<u8>)
    requires
        point.len() == 64,
    ensures
        spec_negate_point(point).subrange(0, 32) == point.subrange(0, 32),
{
    assert(spec_negate_point(point).subrange(0, 32) =~= point.subrange(0, 32));
}

} // verus!
