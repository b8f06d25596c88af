//! SHA-256 node combination.

use vstd::prelude::*;

use anchor_lang::solana_program::hash::hash as sha256_hash;

verus! {

/// The SHA-256 digest of a byte string.
pub uninterp spec fn sha256_of(data: Seq<u8>) -> Seq<u8>;

/// Relies on `solana_program::hash::hash` (re-exported by `anchor_lang`):
/// the SHA-256 digest of `data`, whose 32 bytes `Hash::to_bytes` hands out.
#[verifier::external_body]
fn sha256(data: &[u8]) -> (r: [u8; 32])
    ensures
        r@ == sha256_of(data@),
{
    sha256_hash(data).to_bytes()
}

/// The parent of two nodes: the digest of the left value followed by the
/// right value, 64 bytes with no separator.
pub open spec fn parent_of(left: Seq<u8>, right: Seq<u8>) -> Seq<u8> {
    sha256_of(left + right)
}

/// Combines two nodes into their parent.
pub fn hash_pair(left: &[u8; 32], right: &[u8; 32]) -> (r: [u8; 32])
    ensures
        r@ == parent_of(left@, right@),
{
    let mut combined: Vec<u8> = Vec::with_capacity(64);
    let mut i: usize = 0;
    while i < 32
        invariant
            i <= 32,
            combined@ == left@.take(i as int),
        decreases 32 - i,
    {
        combined.push(left[i]);
        i = i + 1;
        assert(combined@ =~= left@.take(i as int));
    }
    assert(left@.take(32) =~= left@);
    let mut j: usize = 0;
    while j < 32
        invariant
            j <= 32,
            combined@ == left@ + right@.take(j as int),
        decreases 32 - j,
    {
        combined.push(right[j]);
        j = j + 1;
        assert(combined@ =~= left@ + right@.take(j as int));
    }
    assert(right@.take(32) =~= right@);
    sha256(combined.as_slice())
}

} // verus!
