//! A fixed-capacity Merkle accumulator: an ordered list of 32-byte leaf
//! hashes and a root that commits to all of them, recomputed after each
//! insertion.

pub mod hash;
pub mod laws;
pub mod tree;

pub use hash::hash_pair;
pub use tree::{calculate_merkle_root, initialize, insert_leaf, ErrorCode, MerkleTree};
