//! The hash behind the batch coefficients.

use vstd::prelude::*;

verus! {

/// The SHA-256 digest of a byte string.
pub uninterp spec fn sha256_digest(data: Seq<u8>) -> Seq<u8>;

/// `solana_program::hash::hash` returns the SHA-256 digest of `data`, which
/// `Hash::to_bytes` hands out as 32 bytes. The digest is a function of the
/// data alone; nothing else is claimed of it.
#[verifier::external_body]
pub(crate) fn sha256(data: &[u8]) -> (digest: [u8; 32])
    ensures
        digest@ == sha256_digest(data@),
{
    solana_program::hash::hash(data).to_bytes()
}

} // verus!
