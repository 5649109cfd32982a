//! Merkle inclusion proofs: a stateless check that a leaf belongs under a
//! committed root, by folding the sibling path into the leaf with a
//! canonical, order-independent pairing.

use vstd::prelude::*;
use crate::hashing::{sha256_of, lex_le, hash_pair, bytes32_eq, bytes32_le};

verus! {

/// Canonical pairing: the lexicographically smaller value is hashed first,
/// so the digest of a pair does not depend on the order it is given in.
pub open spec fn pair_digest(a: Seq<u8>, b: Seq<u8>) -> Seq<u8> {
    if lex_le(a, b) {
        sha256_of(a + b)
    } else {
        sha256_of(b + a)
    }
}

/// Folds a sibling path into a leaf, in path order.
pub open spec fn merkle_fold(leaf: Seq<u8>, path: Seq<Seq<u8>>) -> Seq<u8>
    decreases path.len(),
{
    if path.len() == 0 {
        leaf
    } else {
        merkle_fold(pair_digest(leaf, path.first()), path.drop_first())
    }
}

/// A Merkle inclusion proof: a leaf, its sibling path in order from the
/// leaf upwards, and the root it is claimed to belong under.
pub struct MerkleProof {
    pub leaf: [u8; 32],
    pub proof: Vec<[u8; 32]>,
    pub root: [u8; 32],
}

impl MerkleProof {
    /// The proof binds its leaf to its root: folding the path into the
    /// leaf reproduces the root.
    pub open spec fn spec_valid(self) -> bool {
        merkle_fold(self.leaf@, self.proof.deep_view()) == self.root@
    }

    /// Recomputes the fold and compares it to the root.
    pub fn verify(&self) -> (r: bool)
        ensures
            r == self.spec_valid(),
    {
        let ghost dv = self.proof.deep_view();
        let n = self.proof.len();
        let mut current: [u8; 32] = self.leaf;
        assert(dv.skip(0) =~= dv);
        let mut i: usize = 0;
        while i < n
            invariant
                i <= n,
                n == self.proof@.len(),
                dv == self.proof.deep_view(),
                dv.len() == n,
                merkle_fold(current@, dv.skip(i as int)) == merkle_fold(self.leaf@, dv),
            decreases n - i,
        {
            let sibling = &self.proof[i];
            proof {
                assert(dv[i as int] =~= self.proof@[i as int]@);
                assert(dv.skip(i as int).first() == dv[i as int]);
                assert(dv.skip(i as int).drop_first() =~= dv.skip(i as int + 1));
            }
            let next = if bytes32_le(&current, sibling) {
                hash_pair(&current, sibling)
            } else {
                hash_pair(sibling, &current)
            };
            assert(next@ == pair_digest(current@, dv[i as int]));
            current = next;
            i = i + 1;
        }
        assert(dv.skip(n as int) =~= Seq::<Seq<u8>>::empty());
        bytes32_eq(&current, &self.root)
    }
}

/// Law: a proof assembled by the canonical folding rule always verifies.
/// Whenever the root equals the fold of the leaf through the sibling path,
/// the proof is valid.
pub proof fn lemma_folded_root_verifies(p: MerkleProof)
    requires
        p.root@ == merkle_fold(p.leaf@, p.proof.deep_view()),
    ensures
        p.spec_valid(),
{
}

/// Lexicographic order is total: one of the two directions always holds.
proof fn lemma_lex_total(a: Seq<u8>, b: Seq<u8>)
    ensures
        lex_le(a, b) || lex_le(b, a),
    decreases a.len(),
{
    if a.len() > 0 && b.len() > 0 && a[0] == b[0] {
        lemma_lex_total(a.drop_first(), b.drop_first());
    }
}

/// Lexicographic order is antisymmetric: both directions hold only for
/// equal sequences.
proof fn lemma_lex_antisym(a: Seq<u8>, b: Seq<u8>)
    requires
        lex_le(a, b),
        lex_le(b, a),
    ensures
        a == b,
    decreases a.len(),
{
    if a.len() == 0 {
        assert(b.len() == 0);
        assert(a =~= b);
    } else {
        assert(b.len() > 0);
        assert(a[0] == b[0]);
        lemma_lex_antisym(a.drop_first(), b.drop_first());
        assert(a =~= Seq::empty().push(a[0]) + a.drop_first());
        assert(b =~= Seq::empty().push(b[0]) + b.drop_first());
    }
}

/// Law: the canonical pairing is order-independent. Hashing a pair gives
/// the same digest whichever way round the two values are presented.
pub proof fn lemma_pair_digest_symmetric(a: Seq<u8>, b: Seq<u8>)
    ensures
        pair_digest(a, b) == pair_digest(b, a),
{
    lemma_lex_total(a, b);
    if lex_le(a, b) && lex_le(b, a) {
        lemma_lex_antisym(a, b);
    }
}

} // verus!
