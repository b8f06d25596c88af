//! Properties of the root computation, proved over the model.

use vstd::prelude::*;

use crate::hash::{parent_of, sha256_of};
use crate::tree::{merkle_root, next_level, nodes_view};

verus! {

/// The root is a function of the leaves' bytes alone: two results that both
/// meet the contract of `calculate_merkle_root` for the same leaves are the
/// same 32 bytes, so computing the root twice gives identical output.
pub proof fn lemma_root_deterministic(leaves: Seq<[u8; 32]>, r1: [u8; 32], r2: [u8; 32])
    requires
        r1@ == merkle_root(nodes_view(leaves)),
        r2@ == merkle_root(nodes_view(leaves)),
    ensures
        r1 == r2,
{
    assert(r1@ =~= r2@);
}

/// A single leaf is its own root.
pub proof fn lemma_single_leaf(a: Seq<u8>)
    ensures
        merkle_root(seq![a]) == a,
{
}

/// The root of two leaves is the digest of the first followed by the second.
pub proof fn lemma_two_leaves(a: Seq<u8>, b: Seq<u8>)
    ensures
        merkle_root(seq![a, b]) == parent_of(a, b),
{
    let up = next_level(seq![a, b]);
    assert(up =~= seq![parent_of(a, b)]);
    assert(merkle_root(up) == parent_of(a, b));
}

/// With three leaves the last one is paired with itself:
/// the root is `H(H(a ‖ b) ‖ H(c ‖ c))`.
pub proof fn lemma_three_leaves(a: Seq<u8>, b: Seq<u8>, c: Seq<u8>)
    ensures
        merkle_root(seq![a, b, c]) == parent_of(parent_of(a, b), parent_of(c, c)),
{
    let up = next_level(seq![a, b, c]);
    assert(up =~= seq![parent_of(a, b), parent_of(c, c)]);
    lemma_two_leaves(parent_of(a, b), parent_of(c, c));
}

/// Swapping two distinct 32-byte leaves changes the bytes that are hashed:
/// the roots of `[a, b]` and `[b, a]` are digests of two different 64-byte
/// strings.
pub proof fn lemma_swapped_pair_hashes_other_bytes(a: Seq<u8>, b: Seq<u8>)
    requires
        a.len() == 32,
        b.len() == 32,
        a != b,
    ensures
        merkle_root(seq![a, b]) == sha256_of(a + b),
        merkle_root(seq![b, a]) == sha256_of(b + a),
        a + b != b + a,
{
    lemma_two_leaves(a, b);
    lemma_two_leaves(b, a);
    if a + b == b + a {
        assert(a =~= (a + b).take(32));
        assert(b =~= (b + a).take(32));
    }
}

} // verus!
