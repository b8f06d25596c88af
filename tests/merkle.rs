use anchor_lang::solana_program::hash::hash;
use merkle_tree::{calculate_merkle_root, hash_pair, initialize, insert_leaf, ErrorCode, MerkleTree};

fn leaf(n: u8) -> [u8; 32] {
    let mut h = [0u8; 32];
    for (i, b) in h.iter_mut().enumerate() {
        *b = n.wrapping_mul(31).wrapping_add(i as u8);
    }
    h
}

fn sha(l: &[u8; 32], r: &[u8; 32]) -> [u8; 32] {
    let mut buf = Vec::with_capacity(64);
    buf.extend_from_slice(l);
    buf.extend_from_slice(r);
    hash(&buf).to_bytes()
}

#[test]
fn hash_pair_is_sha256_of_concatenation() {
    let (a, b) = (leaf(1), leaf(2));
    let p = hash_pair(&a, &b);
    assert_eq!(p, sha(&a, &b));
    assert_ne!(p, a);
    assert_ne!(p, b);
}

#[test]
fn hash_pair_known_digest_of_zero_bytes() {
    let z = [0u8; 32];
    let p = hash_pair(&z, &z);
    // SHA-256 of 64 zero bytes.
    let expected: [u8; 32] = [
        0xf5, 0xa5, 0xfd, 0x42, 0xd1, 0x6a, 0x20, 0x30, 0x27, 0x98, 0xef, 0x6e, 0xd3, 0x09, 0x97,
        0x9b, 0x43, 0x00, 0x3d, 0x23, 0x20, 0xd9, 0xf0, 0xe8, 0xea, 0x98, 0x31, 0xa9, 0x27, 0x59,
        0xfb, 0x4b,
    ];
    assert_eq!(p, expected);
}

#[test]
fn initialize_is_empty_with_zero_root() {
    let t = initialize();
    assert_eq!(t.root, [0u8; 32]);
    assert!(t.leaves.is_empty());
}

#[test]
fn storage_size_constants() {
    assert_eq!(MerkleTree::MAX_LEAVES, 30);
    assert_eq!(MerkleTree::LEN, 1004);
}

#[test]
fn single_leaf_is_its_own_root() {
    let a = leaf(7);
    assert_eq!(calculate_merkle_root(&vec![a]), a);
}

#[test]
fn root_is_deterministic() {
    let leaves: Vec<[u8; 32]> = (0..7).map(leaf).collect();
    assert_eq!(calculate_merkle_root(&leaves), calculate_merkle_root(&leaves));
}

#[test]
fn leaf_order_matters() {
    let (a, b) = (leaf(1), leaf(2));
    assert_ne!(calculate_merkle_root(&vec![a, b]), calculate_merkle_root(&vec![b, a]));
}

#[test]
fn odd_level_duplicates_last_node() {
    let (a, b, c) = (leaf(1), leaf(2), leaf(3));
    let expected = sha(&sha(&a, &b), &sha(&c, &c));
    assert_eq!(calculate_merkle_root(&vec![a, b, c]), expected);
}

#[test]
fn five_leaves_exact_root() {
    let l: Vec<[u8; 32]> = (1..6).map(leaf).collect();
    let ab = sha(&l[0], &l[1]);
    let cd = sha(&l[2], &l[3]);
    let ee = sha(&l[4], &l[4]);
    let abcd = sha(&ab, &cd);
    let eeee = sha(&ee, &ee);
    assert_eq!(calculate_merkle_root(&l), sha(&abcd, &eeee));
}

#[test]
fn duplicate_and_zero_leaves_are_accepted() {
    let z = [0u8; 32];
    let mut t = initialize();
    assert_eq!(insert_leaf(&mut t, z), Ok(z));
    assert_eq!(insert_leaf(&mut t, z), Ok(sha(&z, &z)));
    assert_eq!(t.leaves, vec![z, z]);
}

#[test]
fn insert_scenario_three_leaves() {
    let (h1, h2, h3) = (leaf(11), leaf(12), leaf(13));
    let mut t = initialize();
    assert_eq!(insert_leaf(&mut t, h1), Ok(h1));
    assert_eq!(t.root, h1);
    assert_eq!(insert_leaf(&mut t, h2), Ok(sha(&h1, &h2)));
    assert_eq!(t.root, sha(&h1, &h2));
    let expected = sha(&sha(&h1, &h2), &sha(&h3, &h3));
    assert_eq!(insert_leaf(&mut t, h3), Ok(expected));
    assert_eq!(t.root, expected);
    assert_eq!(t.leaves, vec![h1, h2, h3]);
}

#[test]
fn root_tracks_leaves_after_every_insert() {
    let mut t = initialize();
    for n in 0..30u8 {
        let r = insert_leaf(&mut t, leaf(n)).unwrap();
        assert_eq!(t.leaves.len(), n as usize + 1);
        assert_eq!(t.leaves[n as usize], leaf(n));
        assert_eq!(r, t.root);
        assert_eq!(t.root, calculate_merkle_root(&t.leaves));
    }
}

#[test]
fn capacity_is_enforced() {
    let mut t = initialize();
    for n in 0..29u8 {
        assert!(insert_leaf(&mut t, leaf(n)).is_ok());
    }
    assert!(insert_leaf(&mut t, leaf(29)).is_ok());
    assert_eq!(t.leaves.len(), 30);
    let root = t.root;
    let leaves = t.leaves.clone();
    assert_eq!(insert_leaf(&mut t, leaf(30)), Err(ErrorCode::MaxLeavesExceeded));
    assert_eq!(t.root, root);
    assert_eq!(t.leaves, leaves);
}
