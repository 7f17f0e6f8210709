//! Membership proofs against a merkle root.
//!
//! A leaf is the digest of a recipient's address followed by the allocated
//! amount in little-endian bytes. A parent is the digest of its two children
//! with the smaller one, in byte order, first: a proof therefore lists the
//! siblings from the leaf upward and needs no left or right marks.

use vstd::prelude::*;
use vstd::bytes::{
    lemma_auto_spec_u64_to_from_le_bytes, spec_u64_from_le_bytes, spec_u64_to_le_bytes,
    u64_to_le_bytes,
};
use crate::digest::{sha256, sha256_digest};
use crate::state::{pubkey_eq, Pubkey};

verus! {

/// Whether `a` comes before `b` in byte order, decided from position `from`
/// on: by the first position at which they differ, and by length where one
/// runs out first.
pub open spec fn precedes_from(a: Seq<u8>, b: Seq<u8>, from: int) -> bool
    decreases a.len() - from,
{
    if from < 0 || from >= a.len() || from >= b.len() {
        a.len() < b.len()
    } else if a[from] != b[from] {
        a[from] < b[from]
    } else {
        precedes_from(a, b, from + 1)
    }
}

/// Whether `a` comes strictly before `b` in byte order.
pub open spec fn precedes(a: Seq<u8>, b: Seq<u8>) -> bool {
    precedes_from(a, b, 0)
}

/// Whether `a` comes strictly before `b` in byte order.
pub fn hash_precedes(a: &[u8; 32], b: &[u8; 32]) -> (before: bool)
    ensures
        before == precedes(a@, b@),
{
    let mut i: usize = 0;
    while i < 32
        invariant
            i <= 32,
            precedes(a@, b@) == precedes_from(a@, b@, i as int),
        decreases 32 - i,
    {
        if a[i] != b[i] {
            return a[i] < b[i];
        }
        i += 1;
    }
    false
}

/// The bytes that are hashed for a leaf: the address, then the amount in
/// little-endian order.
pub open spec fn leaf_preimage(claimer: Pubkey, amount: u64) -> Seq<u8> {
    claimer@ + spec_u64_to_le_bytes(amount)
}

/// The bytes that are hashed for a parent: its two children, the one that
/// comes first in byte order first.
pub open spec fn parent_preimage(node: Seq<u8>, sibling: Seq<u8>) -> Seq<u8> {
    if precedes(node, sibling) {
        node + sibling
    } else {
        sibling + node
    }
}

/// The digest of the leaf of `claimer` and `amount`.
pub open spec fn leaf_hash(claimer: Pubkey, amount: u64) -> Seq<u8> {
    sha256_digest(leaf_preimage(claimer, amount))
}

/// The digest of the parent of `node` and `sibling`.
pub open spec fn parent_hash(node: Seq<u8>, sibling: Seq<u8>) -> Seq<u8> {
    sha256_digest(parent_preimage(node, sibling))
}

/// The node reached from `leaf` by climbing past the siblings of `path`, the
/// first sibling first.
pub open spec fn climb(leaf: Seq<u8>, path: Seq<[u8; 32]>) -> Seq<u8>
    decreases path.len(),
{
    if path.len() == 0 {
        leaf
    } else {
        parent_hash(climb(leaf, path.drop_last()), path.last()@)
    }
}

/// The root that the proof `path` leads to from the leaf of `claimer` and
/// `amount`.
pub open spec fn merkle_root(claimer: Pubkey, amount: u64, path: Seq<[u8; 32]>) -> Seq<u8> {
    climb(leaf_hash(claimer, amount), path)
}

/// Whether every node on the climb from `leaf` past the siblings of `path`
/// has 32 bytes: the leaf, each parent, and the node that the climb ends at.
pub open spec fn climb_stays_32_bytes(leaf: Seq<u8>, path: Seq<[u8; 32]>) -> bool
    decreases path.len(),
{
    &&& climb(leaf, path).len() == 32
    &&& path.len() > 0 ==> climb_stays_32_bytes(leaf, path.drop_last())
}

/// Whether every node on the climb from the leaf of `claimer` and `amount`
/// past the siblings of `path` has 32 bytes. It holds of every climb that
/// `compute_merkle_root` has made.
pub open spec fn nodes_have_32_bytes(claimer: Pubkey, amount: u64, path: Seq<[u8; 32]>) -> bool {
    climb_stays_32_bytes(leaf_hash(claimer, amount), path)
}

/// Whether the proof `path` shows that the leaf of `claimer` and `amount`
/// lies under `root`.
pub open spec fn proof_is_valid(
    root: [u8; 32],
    claimer: Pubkey,
    amount: u64,
    path: Seq<[u8; 32]>,
) -> bool {
    merkle_root(claimer, amount, path) == root@
}

/// Writes out the bytes that are hashed for the leaf of `claimer` and
/// `amount`.
pub fn leaf_bytes(claimer: &Pubkey, amount: u64) -> (bytes: Vec<u8>)
    ensures
        bytes@ == leaf_preimage(*claimer, amount),
{
    let mut bytes: Vec<u8> = Vec::new();
    let mut i: usize = 0;
    while i < 32
        invariant
            i <= 32,
            bytes@ == claimer@.take(i as int),
        decreases 32 - i,
    {
        bytes.push(claimer[i]);
        i += 1;
        assert(bytes@ =~= claimer@.take(i as int));
    }
    assert(claimer@.take(32) =~= claimer@);
    let tail = u64_to_le_bytes(amount);
    let mut j: usize = 0;
    while j < 8
        invariant
            j <= 8,
            tail@.len() == 8,
            bytes@ == claimer@ + tail@.take(j as int),
        decreases 8 - j,
    {
        bytes.push(tail[j]);
        j += 1;
        assert(bytes@ =~= claimer@ + tail@.take(j as int));
    }
    assert(tail@.take(8) =~= tail@);
    bytes
}

/// Writes out the bytes that are hashed for the parent of `node` and
/// `sibling`: the two children, the smaller in byte order first.
pub fn parent_bytes(node: &[u8; 32], sibling: &[u8; 32]) -> (bytes: Vec<u8>)
    ensures
        bytes@ == parent_preimage(node@, sibling@),
{
    let node_first = hash_precedes(node, sibling);
    let (first, second) = if node_first {
        (node, sibling)
    } else {
        (sibling, node)
    };
    let mut bytes: Vec<u8> = Vec::new();
    let mut i: usize = 0;
    while i < 32
        invariant
            i <= 32,
            bytes@ == first@.take(i as int),
        decreases 32 - i,
    {
        bytes.push(first[i]);
        i += 1;
        assert(bytes@ =~= first@.take(i as int));
    }
    assert(first@.take(32) =~= first@);
    let mut j: usize = 0;
    while j < 32
        invariant
            j <= 32,
            bytes@ == first@ + second@.take(j as int),
        decreases 32 - j,
    {
        bytes.push(second[j]);
        j += 1;
        assert(bytes@ =~= first@ + second@.take(j as int));
    }
    assert(second@.take(32) =~= second@);
    bytes
}

/// Computes the root that the proof leads to from the leaf of `claimer` and
/// `amount`. Every node that it passes on the way is a digest of 32 bytes.
pub fn compute_merkle_root(claimer: &Pubkey, amount: u64, proof: &Vec<[u8; 32]>) -> (root: [u8; 32])
    ensures
        root@ == merkle_root(*claimer, amount, proof@),
        nodes_have_32_bytes(*claimer, amount, proof@),
{
    let leaf_input = leaf_bytes(claimer, amount);
    let mut node: [u8; 32] = sha256(leaf_input.as_slice());
    let mut i: usize = 0;
    assert(proof@.take(0).len() == 0);
    while i < proof.len()
        invariant
            i <= proof.len(),
            node@ == climb(leaf_hash(*claimer, amount), proof@.take(i as int)),
            climb_stays_32_bytes(leaf_hash(*claimer, amount), proof@.take(i as int)),
        decreases proof.len() - i,
    {
        let parent_input = parent_bytes(&node, &proof[i]);
        proof {
            let next = proof@.take(i + 1);
            assert(next.drop_last() =~= proof@.take(i as int));
            assert(next.last() == proof@[i as int]);
        }
        node = sha256(parent_input.as_slice());
        i += 1;
    }
    assert(proof@.take(proof@.len() as int) =~= proof@);
    node
}

/// Checks a membership proof: whether climbing from the leaf of `claimer`
/// and `amount` past the siblings of `proof` ends at `root`. Every node that
/// the climb passes is a digest of 32 bytes.
pub fn verify_merkle_proof(
    root: &[u8; 32],
    claimer: &Pubkey,
    amount: u64,
    proof: &Vec<[u8; 32]>,
) -> (valid: bool)
    ensures
        valid == proof_is_valid(*root, *claimer, amount, proof@),
        nodes_have_32_bytes(*claimer, amount, proof@),
{
    let computed = compute_merkle_root(claimer, amount, proof);
    let same = pubkey_eq(&computed, root);
    assert(computed@ == root@ ==> computed =~= *root);
    same
}

/// A proof verifies against the root that it was built for: where `root` is
/// what climbing from the leaf past the proof's siblings gives, the proof is
/// valid for `root`.
pub proof fn lemma_constructed_proof_verifies(
    root: [u8; 32],
    claimer: Pubkey,
    amount: u64,
    path: Seq<[u8; 32]>,
)
    requires
        root@ == merkle_root(claimer, amount, path),
    ensures
        proof_is_valid(root, claimer, amount, path),
{
}

/// Two different byte strings with the same digest.
pub open spec fn collide(x: Seq<u8>, y: Seq<u8>) -> bool {
    x != y && sha256_digest(x) == sha256_digest(y)
}

/// Whether two proofs of one length differ in the sibling at `level` and in
/// no other.
pub open spec fn differ_only_at(path: Seq<[u8; 32]>, other: Seq<[u8; 32]>, level: int) -> bool {
    &&& path.len() == other.len()
    &&& 0 <= level < path.len()
    &&& path[level] != other[level]
    &&& forall|i: int| 0 <= i < path.len() && i != level ==> path[i] == other[i]
}

/// No byte string comes before itself.
proof fn lemma_precedes_is_strict(a: Seq<u8>, from: int)
    requires
        0 <= from,
    ensures
        !precedes_from(a, a, from),
    decreases a.len() - from,
{
    if from < a.len() {
        lemma_precedes_is_strict(a, from + 1);
    }
}

/// Two different nodes beside the same sibling are hashed from different
/// bytes.
proof fn lemma_parent_preimage_tells_nodes_apart(node: Seq<u8>, other: Seq<u8>, sibling: Seq<u8>)
    requires
        node.len() == 32,
        other.len() == 32,
        sibling.len() == 32,
        node != other,
    ensures
        parent_preimage(node, sibling) != parent_preimage(other, sibling),
{
    let a = parent_preimage(node, sibling);
    let b = parent_preimage(other, sibling);
    if a == b {
        lemma_precedes_is_strict(sibling, 0);
        if precedes(node, sibling) {
            assert(a.take(32) =~= node);
            if precedes(other, sibling) {
                assert(b.take(32) =~= other);
            } else {
                assert(b.take(32) =~= sibling);
            }
        } else {
            assert(a.skip(32) =~= node);
            if precedes(other, sibling) {
                assert(b.skip(32) =~= sibling);
                assert(b.take(32) =~= other);
                assert(a.take(32) =~= sibling);
            } else {
                assert(b.skip(32) =~= other);
            }
        }
    }
}

/// The same node beside two different siblings is hashed from different
/// bytes.
proof fn lemma_parent_preimage_tells_siblings_apart(
    node: Seq<u8>,
    sibling: Seq<u8>,
    other: Seq<u8>,
)
    requires
        node.len() == 32,
        sibling.len() == 32,
        other.len() == 32,
        sibling != other,
    ensures
        parent_preimage(node, sibling) != parent_preimage(node, other),
{
    let a = parent_preimage(node, sibling);
    let b = parent_preimage(node, other);
    if a == b {
        if precedes(node, sibling) {
            assert(a.skip(32) =~= sibling);
            assert(a.take(32) =~= node);
            if precedes(node, other) {
                assert(b.skip(32) =~= other);
            } else {
                assert(b.skip(32) =~= node);
                assert(b.take(32) =~= other);
            }
        } else {
            assert(a.take(32) =~= sibling);
            assert(a.skip(32) =~= node);
            if precedes(node, other) {
                assert(b.take(32) =~= node);
                assert(b.skip(32) =~= other);
            } else {
                assert(b.take(32) =~= other);
            }
        }
    }
}

/// Two different leaves that climb past the same siblings to the same node
/// give a collision.
proof fn lemma_climb_tells_leaves_apart(leaf: Seq<u8>, other: Seq<u8>, path: Seq<[u8; 32]>)
    requires
        climb_stays_32_bytes(leaf, path),
        climb_stays_32_bytes(other, path),
        leaf != other,
        climb(leaf, path) == climb(other, path),
    ensures
        exists|x: Seq<u8>, y: Seq<u8>| collide(x, y),
    decreases path.len(),
{
    if path.len() > 0 {
        let below = climb(leaf, path.drop_last());
        let other_below = climb(other, path.drop_last());
        assert(climb_stays_32_bytes(leaf, path.drop_last()));
        assert(climb_stays_32_bytes(other, path.drop_last()));
        if below == other_below {
            lemma_climb_tells_leaves_apart(leaf, other, path.drop_last());
        } else {
            lemma_parent_preimage_tells_nodes_apart(below, other_below, path.last()@);
            assert(collide(
                parent_preimage(below, path.last()@),
                parent_preimage(other_below, path.last()@),
            ));
        }
    }
}

/// One leaf that climbs to the same node past two proofs that differ in
/// exactly one sibling gives a collision.
proof fn lemma_climb_tells_paths_apart(
    leaf: Seq<u8>,
    path: Seq<[u8; 32]>,
    other: Seq<[u8; 32]>,
    level: int,
)
    requires
        climb_stays_32_bytes(leaf, path),
        climb_stays_32_bytes(leaf, other),
        differ_only_at(path, other, level),
        climb(leaf, path) == climb(leaf, other),
    ensures
        exists|x: Seq<u8>, y: Seq<u8>| collide(x, y),
    decreases path.len(),
{
    let below = climb(leaf, path.drop_last());
    let other_below = climb(leaf, other.drop_last());
    assert(climb_stays_32_bytes(leaf, path.drop_last()));
    assert(climb_stays_32_bytes(leaf, other.drop_last()));
    if level == path.len() - 1 {
        assert(path.drop_last() =~= other.drop_last());
        assert(path.last()@ != other.last()@) by {
            if path.last()@ == other.last()@ {
                assert(path.last() =~= other.last());
            }
        }
        lemma_parent_preimage_tells_siblings_apart(below, path.last()@, other.last()@);
        assert(collide(
            parent_preimage(below, path.last()@),
            parent_preimage(below, other.last()@),
        ));
    } else {
        assert(path.last() == other.last());
        if below == other_below {
            assert(differ_only_at(path.drop_last(), other.drop_last(), level));
            lemma_climb_tells_paths_apart(leaf, path.drop_last(), other.drop_last(), level);
        } else {
            lemma_parent_preimage_tells_nodes_apart(below, other_below, path.last()@);
            assert(collide(
                parent_preimage(below, path.last()@),
                parent_preimage(other_below, path.last()@),
            ));
        }
    }
}

/// A proof that is valid for one amount is valid for another amount only
/// through a SHA-256 collision: where the same recipient and siblings lead to
/// the same root from two different amounts, and the nodes of both climbs
/// have 32 bytes, two different byte strings have the same digest.
pub proof fn lemma_changed_amount_needs_collision(
    root: [u8; 32],
    claimer: Pubkey,
    amount: u64,
    other_amount: u64,
    path: Seq<[u8; 32]>,
)
    requires
        amount != other_amount,
        nodes_have_32_bytes(claimer, amount, path),
        nodes_have_32_bytes(claimer, other_amount, path),
        proof_is_valid(root, claimer, amount, path),
        proof_is_valid(root, claimer, other_amount, path),
    ensures
        exists|x: Seq<u8>, y: Seq<u8>| collide(x, y),
{
    let bytes = leaf_preimage(claimer, amount);
    let other_bytes = leaf_preimage(claimer, other_amount);
    assert(bytes != other_bytes) by {
        lemma_auto_spec_u64_to_from_le_bytes();
        if bytes == other_bytes {
            assert(bytes.skip(32) =~= spec_u64_to_le_bytes(amount));
            assert(other_bytes.skip(32) =~= spec_u64_to_le_bytes(other_amount));
            assert(spec_u64_from_le_bytes(spec_u64_to_le_bytes(amount)) == amount);
            assert(spec_u64_from_le_bytes(spec_u64_to_le_bytes(other_amount)) == other_amount);
        }
    }
    if leaf_hash(claimer, amount) == leaf_hash(claimer, other_amount) {
        assert(collide(bytes, other_bytes));
    } else {
        lemma_climb_tells_leaves_apart(
            leaf_hash(claimer, amount),
            leaf_hash(claimer, other_amount),
            path,
        );
    }
}

/// A proof with one sibling changed is valid only through a SHA-256
/// collision: where two proofs that differ in exactly one sibling lead from
/// the same leaf to the same root, and the nodes of both climbs have 32
/// bytes, two different byte strings have the same digest.
pub proof fn lemma_changed_sibling_needs_collision(
    root: [u8; 32],
    claimer: Pubkey,
    amount: u64,
    path: Seq<[u8; 32]>,
    other_path: Seq<[u8; 32]>,
    level: int,
)
    requires
        differ_only_at(path, other_path, level),
        nodes_have_32_bytes(claimer, amount, path),
        nodes_have_32_bytes(claimer, amount, other_path),
        proof_is_valid(root, claimer, amount, path),
        proof_is_valid(root, claimer, amount, other_path),
    ensures
        exists|x: Seq<u8>, y: Seq<u8>| collide(x, y),
{
    lemma_climb_tells_paths_apart(leaf_hash(claimer, amount), path, other_path, level);
}

/// Checks one proof against `root` for two amounts of the same recipient:
/// whether it is valid for both. For two different amounts that takes a
/// SHA-256 collision, so a proof that is valid for the allocated amount is
/// valid for no other amount unless two different byte strings have the
/// same digest.
pub fn verifies_for_both_amounts(
    root: &[u8; 32],
    claimer: &Pubkey,
    amount: u64,
    other_amount: u64,
    proof: &Vec<[u8; 32]>,
) -> (both: bool)
    ensures
        both == (proof_is_valid(*root, *claimer, amount, proof@) && proof_is_valid(
            *root,
            *claimer,
            other_amount,
            proof@,
        )),
        both && amount != other_amount ==> exists|x: Seq<u8>, y: Seq<u8>| collide(x, y),
{
    let first = verify_merkle_proof(root, claimer, amount, proof);
    let second = verify_merkle_proof(root, claimer, other_amount, proof);
    proof {
        if first && second && amount != other_amount {
            lemma_changed_amount_needs_collision(*root, *claimer, amount, other_amount, proof@);
        }
    }
    first && second
}

/// Checks two proofs against `root` for the same recipient and amount:
/// whether both are valid. For two proofs that differ in exactly one sibling
/// that takes a SHA-256 collision, so a valid proof with one sibling changed,
/// by one byte or by more, is not valid unless two different byte strings
/// have the same digest.
pub fn verifies_for_both_proofs(
    root: &[u8; 32],
    claimer: &Pubkey,
    amount: u64,
    proof: &Vec<[u8; 32]>,
    other_proof: &Vec<[u8; 32]>,
) -> (both: bool)
    ensures
        both == (proof_is_valid(*root, *claimer, amount, proof@) && proof_is_valid(
            *root,
            *claimer,
            amount,
            other_proof@,
        )),
        both && (exists|level: int| differ_only_at(proof@, other_proof@, level)) ==> exists|
            x: Seq<u8>,
            y: Seq<u8>,
        | collide(x, y),
{
    let first = verify_merkle_proof(root, claimer, amount, proof);
    let second = verify_merkle_proof(root, claimer, amount, other_proof);
    proof {
        if first && second && (exists|level: int| differ_only_at(proof@, other_proof@, level)) {
            let level = choose|level: int| differ_only_at(proof@, other_proof@, level);
            lemma_changed_sibling_needs_collision(
                *root,
                *claimer,
                amount,
                proof@,
                other_proof@,
                level,
            );
        }
    }
    first && second
}

} // verus!
