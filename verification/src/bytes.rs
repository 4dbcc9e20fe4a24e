//! Byte strings as numbers: the big-endian reading used for field elements,
//! and fixed-width subtraction on it.

use vstd::prelude::*;

verus! {

/// 256 to the power `k`: the weight of the byte `k` places above the lowest.
pub open spec fn pow256(k: nat) -> nat
    decreases k,
{
    if k == 0 {
        1
    } else {
        256 * pow256((k - 1) as nat)
    }
}

/// The number that a byte string denotes when read big-endian.
pub open spec fn be_value(s: Seq<u8>) -> nat
    decreases s.len(),
{
    if s.len() == 0 {
        0
    } else {
        be_value(s.drop_last()) * 256 + s.last() as nat
    }
}

/// The big-endian encoding of `v` in `len` bytes; bits of `v` that do not fit
/// are dropped.
pub open spec fn be_bytes(v: nat, len: nat) -> Seq<u8>
    decreases len,
{
    if len == 0 {
        Seq::empty()
    } else {
        be_bytes(v / 256, (len - 1) as nat).push((v % 256) as u8)
    }
}

/// The number that a byte string denotes when read little-endian.
pub open spec fn le_value(s: Seq<u8>) -> nat
    decreases s.len(),
{
    if s.len() == 0 {
        0
    } else {
        s[0] as nat + 256 * le_value(s.drop_first())
    }
}

/// The little-endian encoding of `v` in `len` bytes; bits of `v` that do not
/// fit are dropped.
pub open spec fn le_bytes(v: nat, len: nat) -> Seq<u8>
    decreases len,
{
    if len == 0 {
        Seq::empty()
    } else {
        seq![(v % 256) as u8] + le_bytes(v / 256, (len - 1) as nat)
    }
}

/// `2^256`: one more than the largest number that 32 bytes denote.
pub open spec fn two_pow_256() -> nat {
    0x1_0000_0000_0000_0000_0000_0000_0000_0000_0000_0000_0000_0000_0000_0000_0000_0000nat
}

/// `256^32` is `2^256`.
pub proof fn lemma_pow256_32()
    ensures
        pow256(32) == two_pow_256(),
{
    reveal_with_fuel(pow256, 33);
}

/// A string of `n` bytes denotes a number below `256^n`.
pub proof fn lemma_be_value_bound(s: Seq<u8>)
    ensures
        be_value(s) < pow256(s.len()),
    decreases s.len(),
{
    if s.len() > 0 {
        lemma_be_value_bound(s.drop_last());
    }
}

proof fn lemma_shift_weight(x: int, w: int, p: int)
    requires
        p == 256 * w,
    ensures
        x * p == (x * w) * 256,
        w == 1 ==> x * w == x,
{
    assert(x * p == (x * w) * 256) by (nonlinear_arith)
        requires
            p == 256 * w,
    ;
    assert(w == 1 ==> x * w == x) by (nonlinear_arith);
}

/// The value of a suffix is its first byte, weighted, plus the value of the
/// rest.
pub proof fn lemma_be_value_suffix(s: Seq<u8>, i: int)
    requires
        0 <= i < s.len(),
    ensures
        be_value(s.skip(i)) == s[i] as nat * pow256((s.len() - 1 - i) as nat) + be_value(
            s.skip(i + 1),
        ),
    decreases s.len(),
{
    let t = s.skip(i);
    if t.len() == 1 {
        assert(t.drop_last() =~= Seq::<u8>::empty());
        assert(s.skip(i + 1) =~= Seq::<u8>::empty());
        assert(be_value(t.drop_last()) == 0);
        lemma_shift_weight(s[i] as int, pow256(0) as int, 256);
    } else {
        let front = s.drop_last();
        let w = pow256((s.len() - 2 - i) as nat);
        lemma_be_value_suffix(front, i);
        assert(t.drop_last() =~= front.skip(i));
        assert(s.skip(i + 1).drop_last() =~= front.skip(i + 1));
        assert(s.skip(i + 1).last() == s.last());
        assert(t.last() == s.last());
        lemma_shift_weight(s[i] as int, w as int, pow256((s.len() - 1 - i) as nat) as int);
    }
}

/// The number that the first `n` bytes of a string denote, big-endian.
pub open spec fn prefix_value(s: Seq<u8>, n: nat) -> nat
    decreases n,
{
    if n == 0 {
        0
    } else {
        prefix_value(s, (n - 1) as nat) * 256 + s[n - 1] as nat
    }
}

/// `prefix_value` is `be_value` on the prefix.
pub proof fn lemma_be_value_of_prefix(s: Seq<u8>, n: nat)
    requires
        n <= s.len(),
    ensures
        prefix_value(s, n) == be_value(s.take(n as int)),
    decreases n,
{
    if n > 0 {
        lemma_be_value_of_prefix(s, (n - 1) as nat);
        assert(s.take(n as int).drop_last() =~= s.take(n - 1));
    }
}

/// Decoding undoes encoding, for a number that fits the width.
pub proof fn lemma_be_value_of_bytes(v: nat, len: nat)
    requires
        v < pow256(len),
    ensures
        be_bytes(v, len).len() == len,
        be_value(be_bytes(v, len)) == v,
    decreases len,
{
    if len > 0 {
        lemma_be_value_of_bytes(v / 256, (len - 1) as nat);
        let front = be_bytes(v / 256, (len - 1) as nat);
        assert(be_bytes(v, len).drop_last() =~= front);
    }
}

/// Encoding undoes decoding.
pub proof fn lemma_be_bytes_of_value(s: Seq<u8>)
    ensures
        be_bytes(be_value(s), s.len()) == s,
    decreases s.len(),
{
    if s.len() > 0 {
        lemma_be_bytes_of_value(s.drop_last());
        let v = be_value(s);
        assert(v / 256 == be_value(s.drop_last()));
        assert(v % 256 == s.last() as nat);
        assert(s.drop_last().push(s.last()) =~= s);
    } else {
        assert(s =~= Seq::<u8>::empty());
    }
}

proof fn lemma_borrow_step(
    ai: int,
    bi: int,
    oi: int,
    bin: int,
    bout: int,
    w: int,
    a_rest: int,
    b_rest: int,
    o_rest: int,
)
    requires
        oi == ai - bi - bin + 256 * bout,
        o_rest - bin * w == a_rest - b_rest,
    ensures
        (oi * w + o_rest) - bout * (256 * w) == (ai * w + a_rest) - (bi * w + b_rest),
{
    assert((oi * w + o_rest) - bout * (256 * w) == (ai * w + a_rest) - (bi * w + b_rest))
        by (nonlinear_arith)
        requires
            oi == ai - bi - bin + 256 * bout,
            o_rest - bin * w == a_rest - b_rest,
    ;
}

/// The eight bytes of a 64-bit number, lowest first.
pub fn u64_le_bytes(x: u64) -> (r: [u8; 8])
    ensures
        r@ == le_bytes(x as nat, 8),
{
    let mut out: [u8; 8] = [0u8; 8];
    let mut rest: u64 = x;
    let mut i: usize = 0;
    assert(out@.take(0) + le_bytes(x as nat, 8) =~= le_bytes(x as nat, 8));
    while i < 8
        invariant
            i <= 8,
            le_bytes(x as nat, 8) == out@.take(i as int) + le_bytes(rest as nat, (8 - i) as nat),
        decreases 8 - i,
    {
        let ghost before = out@;
        out[i] = (rest % 256) as u8;
        proof {
            assert(out@.take(i + 1) =~= before.take(i as int) + seq![(rest % 256) as u8]);
            assert(out@.take(i + 1) + le_bytes((rest / 256) as nat, (8 - i - 1) as nat)
                =~= before.take(i as int) + le_bytes(rest as nat, (8 - i) as nat));
        }
        rest = rest / 256;
        i = i + 1;
    }
    assert(out@.take(8) + le_bytes(rest as nat, 0) =~= out@);
    out
}

/// The difference of two 32-byte big-endian numbers, modulo `2^256`.
pub open spec fn spec_sub_wrapping(a: Seq<u8>, b: Seq<u8>) -> Seq<u8> {
    if be_value(a) >= be_value(b) {
        be_bytes((be_value(a) - be_value(b)) as nat, 32)
    } else {
        be_bytes((be_value(a) + two_pow_256() - be_value(b)) as nat, 32)
    }
}

/// Subtracts `b` from `a` byte by byte from the lowest, carrying the borrow
/// through all 32 positions. Returns the difference modulo `2^256` and
/// whether a borrow left the highest byte, that is whether `a < b`.
pub fn sub_with_borrow(a: &[u8; 32], b: &[u8; 32]) -> (r: ([u8; 32], bool))
    ensures
        r.0@ == spec_sub_wrapping(a@, b@),
        r.1 == (be_value(a@) < be_value(b@)),
{
    let mut out: [u8; 32] = [0u8; 32];
    let mut borrow: u16 = 0;
    let mut i: usize = 32;
    assert(out@.skip(32) =~= Seq::<u8>::empty());
    assert(a@.skip(32) =~= Seq::<u8>::empty());
    assert(b@.skip(32) =~= Seq::<u8>::empty());
    while i > 0
        invariant
            i <= 32,
            borrow <= 1,
            be_value(out@.skip(i as int)) - borrow * pow256((32 - i) as nat) == be_value(
                a@.skip(i as int),
            ) - be_value(b@.skip(i as int)),
        decreases i,
    {
        let idx: usize = i - 1;
        let diff: u16 = a[idx] as u16 + 256 - b[idx] as u16 - borrow;
        let digit: u8 = (diff % 256) as u8;
        let next: u16 = if diff < 256 {
            1
        } else {
            0
        };
        let ghost before = out@;
        out[idx] = digit;
        proof {
            let w = pow256((32 - i) as nat);
            assert(out@.skip(i as int) =~= before.skip(i as int));
            lemma_be_value_suffix(out@, idx as int);
            lemma_be_value_suffix(a@, idx as int);
            lemma_be_value_suffix(b@, idx as int);
            assert(pow256((32 - idx) as nat) == 256 * w);
            lemma_borrow_step(
                a[idx as int] as int,
                b[idx as int] as int,
                digit as int,
                borrow as int,
                next as int,
                w as int,
                be_value(a@.skip(i as int)) as int,
                be_value(b@.skip(i as int)) as int,
                be_value(out@.skip(i as int)) as int,
            );
        }
        borrow = next;
        i = idx;
    }
    proof {
        assert(out@.skip(0) =~= out@);
        assert(a@.skip(0) =~= a@);
        assert(b@.skip(0) =~= b@);
        lemma_pow256_32();
        lemma_be_value_bound(out@);
        lemma_be_value_bound(a@);
        lemma_be_value_bound(b@);
        lemma_be_bytes_of_value(out@);
    }
    (out, borrow == 1)
}

} // verus!
