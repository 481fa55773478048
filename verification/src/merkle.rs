//! The Merkle commitment to an ordered list of transaction ids.
//!
//! Nodes are 32-byte hashes. The parent of two nodes is the hash of their 64
//! bytes, left then right. Only the finished root is written out as text.

use crate::encoding::{append_bytes, hex_encode, hex_text};
use crate::hashing::{sha256, sha256_digest};
use vstd::prelude::*;
use vstd::slice::slice_to_vec;

verus! {

/// The hash whose 32 bytes are all zero: the root of no transactions at all.
pub open spec fn zero_hash_bytes() -> Seq<u8> {
    Seq::new(32, |i: int| 0u8)
}

/// The text of the zero hash.
pub open spec fn zero_hash_text() -> Seq<char> {
    hex_text(zero_hash_bytes())
}

/// The parent of the nodes `left` and `right`: the hash of the bytes of the
/// one followed by the bytes of the other.
pub open spec fn merkle_parent(left: Seq<u8>, right: Seq<u8>) -> Seq<u8> {
    sha256(left + right)
}

/// The level above `nodes`: neighbours are paired from the left, and a last
/// node without a neighbour is paired with itself.
pub open spec fn merkle_level(nodes: Seq<Seq<u8>>) -> Seq<Seq<u8>> {
    Seq::new(
        ((nodes.len() + 1) / 2) as nat,
        |i: int|
            merkle_parent(
                nodes[2 * i],
                if 2 * i + 1 < nodes.len() {
                    nodes[2 * i + 1]
                } else {
                    nodes[2 * i]
                },
            ),
    )
}

/// The single node that `nodes` reduce to, level by level. One node is its
/// own root; no node gives the zero hash.
pub open spec fn merkle_reduce(nodes: Seq<Seq<u8>>) -> Seq<u8>
    decreases nodes.len(),
{
    if nodes.len() == 0 {
        zero_hash_bytes()
    } else if nodes.len() == 1 {
        nodes[0]
    } else {
        merkle_reduce(merkle_level(nodes))
    }
}

/// The Merkle root of `ids`, as text.
pub open spec fn merkle_root_text(ids: Seq<Seq<u8>>) -> Seq<char> {
    hex_text(merkle_reduce(ids))
}

/// The ids of a list as mathematical values.
pub open spec fn id_bytes(ids: Seq<[u8; 32]>) -> Seq<Seq<u8>> {
    Seq::new(ids.len(), |i: int| ids[i]@)
}

/// The text of the zero hash.
pub fn zero_hash() -> (text: String)
    ensures
        text@ == zero_hash_text(),
{
    let zeros: [u8; 32] = [0u8; 32];
    assert(zeros@ == zero_hash_bytes());
    hex_encode(zeros.as_slice())
}

/// Hashes two nodes into their parent.
pub fn hash_pair(left: &[u8; 32], right: &[u8; 32]) -> (parent: [u8; 32])
    ensures
        parent@ == merkle_parent(left@, right@),
{
    let mut both: Vec<u8> = Vec::new();
    append_bytes(&mut both, left.as_slice());
    append_bytes(&mut both, right.as_slice());
    sha256_digest(both.as_slice())
}

/// Builds the level above `nodes`.
fn next_level(nodes: &Vec<[u8; 32]>) -> (parents: Vec<[u8; 32]>)
    ensures
        parents@.len() == (nodes@.len() + 1) / 2,
        id_bytes(parents@) == merkle_level(id_bytes(nodes@)),
{
    let mut parents: Vec<[u8; 32]> = Vec::new();
    let mut i: usize = 0;
    while i < nodes.len()
        invariant
            i <= nodes@.len(),
            i % 2 == 0 || i == nodes@.len(),
            parents@.len() == (i + 1) / 2,
            forall|j: int|
                0 <= j < parents@.len() ==> (#[trigger] parents@[j])@ == merkle_level(
                    id_bytes(nodes@),
                )[j],
        decreases nodes@.len() - i,
    {
        let right: usize = if i + 1 < nodes.len() {
            i + 1
        } else {
            i
        };
        parents.push(hash_pair(&nodes[i], &nodes[right]));
        i = right + 1;
    }
    parents
}

/// The Merkle root of `ids`, in the order given: the zero hash for no id,
/// the id itself for one, and else the one node left after pairing up level
/// after level.
pub fn merkle_root(ids: &[[u8; 32]]) -> (root: [u8; 32])
    ensures
        root@ == merkle_reduce(id_bytes(ids@)),
{
    if ids.len() == 0 {
        let zeros: [u8; 32] = [0u8; 32];
        assert(zeros@ == zero_hash_bytes());
        return zeros;
    }
    let mut level = slice_to_vec(ids);
    while level.len() > 1
        invariant
            level@.len() >= 1,
            merkle_reduce(id_bytes(level@)) == merkle_reduce(id_bytes(ids@)),
        decreases level@.len(),
    {
        level = next_level(&level);
    }
    level[0]
}

/// The root of no ids is the zero hash, whose text is 64 times the digit
/// `0`.
pub proof fn lemma_root_of_none()
    ensures
        merkle_reduce(Seq::empty()) == zero_hash_bytes(),
        merkle_root_text(Seq::empty()) == Seq::new(64, |i: int| '0'),
{
    assert(zero_hash_text() =~= Seq::new(64, |i: int| '0'));
}

/// The root of a single id is that id, unhashed.
pub proof fn lemma_root_of_one(x: Seq<u8>)
    ensures
        merkle_reduce(seq![x]) == x,
{
}

/// The root of two ids is the hash of the first followed by the second.
pub proof fn lemma_root_of_two(a: Seq<u8>, b: Seq<u8>)
    ensures
        merkle_reduce(seq![a, b]) == sha256(a + b),
{
    let leaves = seq![a, b];
    assert(merkle_reduce(leaves) == merkle_reduce(merkle_level(leaves)));
}

/// The root of three ids pairs the first two and pairs the third with
/// itself: the hash of the hash of `a` and `b` followed by the hash of `c`
/// and `c`.
pub proof fn lemma_root_of_three(a: Seq<u8>, b: Seq<u8>, c: Seq<u8>)
    ensures
        merkle_reduce(seq![a, b, c]) == sha256(sha256(a + b) + sha256(c + c)),
{
    let leaves = seq![a, b, c];
    let middle = merkle_level(leaves);
    let top = merkle_level(middle);
    assert(merkle_reduce(leaves) == merkle_reduce(middle));
    assert(merkle_reduce(middle) == merkle_reduce(top));
}

} // verus!
