//! Tree hashes of programs, and the hashes of the known puzzle templates.

use crate::program::{Program, Tree};
use vstd::prelude::*;

verus! {

/// A 32-byte identifier: a tree hash, a coin id, a launcher id.
pub type Bytes32 = [u8; 32];

/// The tree hash that the hasher gives an atom with these bytes.
pub uninterp spec fn atom_hash(bytes: Seq<u8>) -> Seq<u8>;

/// The tree hash that the hasher gives a pair whose halves have these tree
/// hashes.
pub uninterp spec fn pair_hash(first: Seq<u8>, rest: Seq<u8>) -> Seq<u8>;

/// The tree hash of a program: the hash of an atom at each leaf, the hash of
/// a pair at each inner node.
pub open spec fn tree_hash(tree: Tree) -> Seq<u8>
    decreases tree,
{
    match tree {
        Tree::Atom(bytes) => atom_hash(bytes),
        Tree::Pair(first, rest) => pair_hash(tree_hash(*first), tree_hash(*rest)),
    }
}

/// Calls `clvm_utils::tree_hash_atom`, which hashes the byte 1 followed by the
/// atom's bytes with SHA-256. The contract only names the result: it is a
/// function of the bytes.
#[verifier::external_body]
fn hash_atom(bytes: &[u8]) -> (hash: Bytes32)
    ensures
        hash@ == atom_hash(bytes@),
{
    chia::clvm_utils::tree_hash_atom(bytes).to_bytes()
}

/// Calls `clvm_utils::tree_hash_pair`, which hashes the byte 2 followed by the
/// two tree hashes with SHA-256. The contract only names the result: it is a
/// function of the two hashes.
#[verifier::external_body]
fn hash_pair(first: &Bytes32, rest: &Bytes32) -> (hash: Bytes32)
    ensures
        hash@ == pair_hash(first@, rest@),
{
    chia::clvm_utils::tree_hash_pair(
        chia::clvm_utils::TreeHash::new(*first),
        chia::clvm_utils::TreeHash::new(*rest),
    ).to_bytes()
}

impl Program {
    /// The tree hash of the program.
    pub fn tree_hash(&self) -> (hash: Bytes32)
        ensures
            hash@ == tree_hash(self@),
        decreases self,
    {
        match self {
            Program::Atom(bytes) => hash_atom(bytes.as_slice()),
            Program::Pair(first, rest) => {
                let first_hash = first.tree_hash();
                let rest_hash = rest.tree_hash();
                hash_pair(&first_hash, &rest_hash)
            },
        }
    }
}

/// The tree hash of the singleton top layer template.
pub const SINGLETON_TOP_LAYER_HASH: Bytes32 = [
    0x7f, 0xaa, 0x32, 0x53, 0xbf, 0xdd, 0xd1, 0xe0, 0xde, 0xcb, 0x09, 0x06, 0xb2, 0xdc, 0x62, 0x47,
    0xbb, 0xc4, 0xcf, 0x60, 0x8f, 0x58, 0x34, 0x5d, 0x17, 0x3a, 0xdb, 0x63, 0xe8, 0xb4, 0x7c, 0x9f,
];

/// The tree hash of the singleton launcher puzzle.
pub const SINGLETON_LAUNCHER_HASH: Bytes32 = [
    0xef, 0xf0, 0x75, 0x22, 0x49, 0x50, 0x60, 0xc0, 0x66, 0xf6, 0x6f, 0x32, 0xac, 0xc2, 0xa7, 0x7e,
    0x3a, 0x3e, 0x73, 0x7a, 0xca, 0x8b, 0xae, 0xa4, 0xd1, 0xa6, 0x4e, 0xa4, 0xcd, 0xc1, 0x3d, 0xa9,
];

/// The tree hash of the state layer template.
pub const STATE_LAYER_HASH: Bytes32 = [
    0xa0, 0x4d, 0x9f, 0x57, 0x76, 0x4f, 0x54, 0xa4, 0x3e, 0x40, 0x30, 0xbe, 0xfb, 0x4d, 0x80, 0x02,
    0x6e, 0x87, 0x05, 0x19, 0xaa, 0xa6, 0x63, 0x34, 0xae, 0xf8, 0x30, 0x4f, 0x5d, 0x03, 0x93, 0xc2,
];

/// The tree hash of the ownership layer template.
pub const OWNERSHIP_LAYER_HASH: Bytes32 = [
    0xc5, 0xab, 0xea, 0x79, 0xaf, 0xaa, 0x00, 0x1b, 0x54, 0x27, 0xdf, 0xa0, 0xc8, 0xcf, 0x42, 0xca,
    0x6f, 0x38, 0xf5, 0x84, 0x1b, 0x78, 0xf9, 0xb3, 0xc2, 0x52, 0x73, 0x3e, 0xb2, 0xde, 0x27, 0x26,
];

/// The tree hash of the royalty transfer program template.
pub const ROYALTY_TRANSFER_HASH: Bytes32 = [
    0x02, 0x5d, 0xee, 0x0f, 0xb1, 0xe9, 0xfa, 0x11, 0x03, 0x02, 0xa7, 0xe9, 0xbf, 0xb6, 0xe3, 0x81,
    0xca, 0x09, 0x61, 0x8e, 0x27, 0x78, 0xb0, 0x18, 0x4f, 0xa5, 0xc6, 0xb2, 0x75, 0xcf, 0xce, 0x1f,
];

/// Whether an optional hash is present and equal to `expected`.
pub fn hash_is(found: &Option<Bytes32>, expected: &Bytes32) -> (same: bool)
    ensures
        same == (found matches Some(h) && h@ == expected@),
{
    match found {
        Some(hash) => crate::program::bytes_equal(hash.as_slice(), expected.as_slice()),
        None => false,
    }
}

} // verus!
