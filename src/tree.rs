//! The accumulator: its mathematical model, the level-by-level root
//! computation, and the two operations on it.

use vstd::prelude::*;

use crate::hash::{hash_pair, parent_of};

verus! {

/// The byte contents of a list of 32-byte nodes.
pub open spec fn nodes_view(s: Seq<[u8; 32]>) -> Seq<Seq<u8>> {
    s.map_values(|h: [u8; 32]| h@)
}

/// The level above `level`: nodes paired left to right, the last node of an
/// odd-length level paired with itself.
pub open spec fn next_level(level: Seq<Seq<u8>>) -> Seq<Seq<u8>> {
    Seq::new(
        ((level.len() + 1) / 2) as nat,
        |k: int|
            parent_of(
                level[2 * k],
                if 2 * k + 1 < level.len() {
                    level[2 * k + 1]
                } else {
                    level[2 * k]
                },
            ),
    )
}

/// The root of a tree with no leaves: 32 zero bytes.
pub open spec fn empty_root() -> Seq<u8> {
    Seq::new(32, |i: int| 0u8)
}

/// The root committing to `level`: a single node is its own root, otherwise
/// the root of the level above.
pub open spec fn merkle_root(level: Seq<Seq<u8>>) -> Seq<u8>
    decreases level.len(),
{
    if level.len() == 0 {
        empty_root()
    } else if level.len() == 1 {
        level[0]
    } else {
        merkle_root(next_level(level))
    }
}

/// Builds the level above `level`.
fn build_next_level(level: &Vec<[u8; 32]>) -> (r: Vec<[u8; 32]>)
    ensures
        r@.len() == (level@.len() + 1) / 2,
        nodes_view(r@) == next_level(nodes_view(level@)),
{
    let ghost lv = nodes_view(level@);
    let n = level.len();
    let mut next: Vec<[u8; 32]> = Vec::new();
    let mut i: usize = 0;
    while i < n
        invariant
            n == level.len(),
            lv == nodes_view(level@),
            i <= n,
            i % 2 == 0 || i == n,
            next@.len() == (i + 1) / 2,
            forall|k: int| 0 <= k < next@.len() ==> #[trigger] next@[k]@ == next_level(lv)[k],
        decreases n - i,
    {
        if i + 1 < n {
            let parent = hash_pair(&level[i], &level[i + 1]);
            next.push(parent);
            i = i + 2;
        } else {
            let parent = hash_pair(&level[i], &level[i]);
            next.push(parent);
            i = n;
        }
    }
    assert(nodes_view(next@) =~= next_level(lv));
    next
}

/// Computes the root committing to a non-empty list of leaves, rebuilding
/// every level from the leaves up.
pub fn calculate_merkle_root(leaves: &Vec<[u8; 32]>) -> (r: [u8; 32])
    requires
        leaves.len() >= 1,
    ensures
        r@ == merkle_root(nodes_view(leaves@)),
{
    if leaves.len() == 1 {
        return leaves[0];
    }
    let mut current_level = build_next_level(leaves);
    while current_level.len() > 1
        invariant
            current_level.len() >= 1,
            merkle_root(nodes_view(current_level@)) == merkle_root(nodes_view(leaves@)),
        decreases current_level.len(),
    {
        current_level = build_next_level(&current_level);
    }
    current_level[0]
}

/// Failure of an accumulator operation.
#[derive(Debug, Clone, Copy, PartialEq, Eq, Structural)]
pub enum ErrorCode {
    /// The accumulator already holds its maximum number of leaves.
    MaxLeavesExceeded,
}

/// A Merkle accumulator: the leaves inserted so far, in insertion order,
/// and the root committing to them.
pub struct MerkleTree {
    /// The current root.
    pub root: [u8; 32],
    /// The leaves, oldest first.
    pub leaves: Vec<[u8; 32]>,
}

impl MerkleTree {
    /// The most leaves an accumulator holds.
    pub const MAX_LEAVES: usize = 30;

    /// Bytes of storage for an accumulator at capacity: an 8-byte account
    /// discriminator, the root, and the leaf list with its 4-byte length.
    pub const LEN: usize = 8 + 32 + (4 + MerkleTree::MAX_LEAVES * 32);

    /// The byte contents of the leaves.
    pub open spec fn leaves_view(&self) -> Seq<Seq<u8>> {
        nodes_view(self.leaves@)
    }

    /// Within capacity, and the root commits to exactly the leaves.
    pub open spec fn wf(&self) -> bool {
        &&& self.leaves@.len() <= Self::MAX_LEAVES
        &&& self.root@ == merkle_root(self.leaves_view())
    }
}

/// A fresh accumulator: no leaves and an all-zero root.
pub fn initialize() -> (r: MerkleTree)
    ensures
        r.leaves@.len() == 0,
        r.root@ == empty_root(),
        r.wf(),
{
    let r = MerkleTree { root: [0u8; 32], leaves: Vec::new() };
    assert(r.root@ =~= empty_root());
    r
}

/// Appends `leaf` and recomputes the root over all leaves, returning the
/// new root; fails, changing nothing, when the accumulator is full.
pub fn insert_leaf(merkle_tree: &mut MerkleTree, leaf: [u8; 32]) -> (r: Result<[u8; 32], ErrorCode>)
    ensures
        r is Err <==> old(merkle_tree).leaves@.len() >= MerkleTree::MAX_LEAVES,
        match r {
            Ok(root) => {
                &&& final(merkle_tree).leaves@ == old(merkle_tree).leaves@.push(leaf)
                &&& final(merkle_tree).root == root
                &&& root@ == merkle_root(final(merkle_tree).leaves_view())
                &&& final(merkle_tree).wf()
            },
            Err(e) => {
                &&& e == ErrorCode::MaxLeavesExceeded
                &&& final(merkle_tree).leaves@ == old(merkle_tree).leaves@
                &&& final(merkle_tree).root == old(merkle_tree).root
            },
        },
        old(merkle_tree).wf() ==> final(merkle_tree).wf(),
{
    if merkle_tree.leaves.len() >= MerkleTree::MAX_LEAVES {
        return Err(ErrorCode::MaxLeavesExceeded);
    }
    merkle_tree.leaves.push(leaf);
    let new_root = calculate_merkle_root(&merkle_tree.leaves);
    merkle_tree.root = new_root;
    Ok(new_root)
}

} // verus!
