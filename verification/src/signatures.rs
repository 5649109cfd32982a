//! Threshold-signature attestation of a block: the canonical commitment
//! message validators sign, duplicate-signer rejection, and the quorum
//! rule over the submitted signature set.

use vstd::prelude::*;
use vstd::bytes::spec_u64_to_le_bytes;
use crate::hashing::{push_bytes32, push_u64_le, bytes32_eq};

verus! {

/// Confirmation depth required of a source-chain block before it is
/// attested.
pub const SOLANA_MIN_CONFIRMATIONS: u32 = 32;

/// A source-chain block header, the unit that validators attest to.
#[derive(Clone, Copy)]
pub struct SolanaBlockHeader {
    pub slot: u64,
    pub blockhash: [u8; 32],
    pub parent_hash: [u8; 32],
    pub block_height: u64,
    pub timestamp: i64,
    pub confirmations: u32,
}

/// One validator's signature over the commitment message of a header.
#[derive(Clone)]
pub struct ValidatorSignature {
    pub pubkey: [u8; 32],
    pub signature: Vec<u8>,
}

/// A header together with the signatures submitted for it.
pub struct BlockProof {
    pub header: SolanaBlockHeader,
    pub signatures: Vec<ValidatorSignature>,
}

/// Why an attestation was rejected.
#[derive(Clone, Copy, Debug, PartialEq, Eq, Structural)]
pub enum AttestError {
    InsufficientConfirmations,
    ParentHashMismatch,
    DuplicateValidator,
    InsufficientSignatures,
}

/// The canonical commitment message over a header: slot, block hash,
/// parent hash and height, in that order, integers little-endian.
pub open spec fn spec_sign_message(h: SolanaBlockHeader) -> Seq<u8> {
    spec_u64_to_le_bytes(h.slot) + h.blockhash@ + h.parent_hash@ + spec_u64_to_le_bytes(
        h.block_height,
    )
}

/// Builds the canonical commitment message for a header.
pub fn create_block_sign_message(header: &SolanaBlockHeader) -> (message: Vec<u8>)
    ensures
        message@ == spec_sign_message(*header),
{
    let mut message: Vec<u8> = Vec::new();
    push_u64_le(&mut message, header.slot);
    push_bytes32(&mut message, &header.blockhash);
    push_bytes32(&mut message, &header.parent_hash);
    push_u64_le(&mut message, header.block_height);
    assert(message@ =~= spec_sign_message(*header));
    message
}

/// The quorum a submitted set of `n` signatures must reach: more than two
/// thirds of the set, i.e. `floor(2n/3) + 1`.
pub open spec fn spec_threshold(n: nat) -> nat {
    2 * n / 3 + 1
}

/// Number of valid signatures required for a submitted set of size `n`.
pub fn required_signatures(n: usize) -> (t: usize)
    requires
        n <= usize::MAX / 2,
    ensures
        t == spec_threshold(n as nat),
{
    n * 2 / 3 + 1
}

/// How many entries of a sequence of verdicts are true.
pub open spec fn count_true(s: Seq<bool>) -> nat
    decreases s.len(),
{
    if s.len() == 0 {
        0
    } else {
        count_true(s.drop_last()) + (if s.last() {
            1nat
        } else {
            0nat
        })
    }
}

proof fn lemma_count_true_push(s: Seq<bool>, b: bool)
    ensures
        count_true(s.push(b)) == count_true(s) + (if b {
            1nat
        } else {
            0nat
        }),
{
    assert(s.push(b).last() == b);
    assert(s.push(b).drop_last() =~= s);
}

/// Two of the submitted signatures carry the same public key.
pub open spec fn has_duplicate_pubkey(sigs: Seq<ValidatorSignature>) -> bool {
    exists|i: int, j: int|
        0 <= i < j < sigs.len() && #[trigger] sigs[i].pubkey@ == #[trigger] sigs[j].pubkey@
}

fn find_duplicate_pubkey(sigs: &Vec<ValidatorSignature>) -> (r: bool)
    ensures
        r == has_duplicate_pubkey(sigs@),
{
    let n = sigs.len();
    let mut i: usize = 0;
    while i < n
        invariant
            i <= n,
            n == sigs@.len(),
            forall|x: int, y: int|
                0 <= x < y < n && x < i ==> #[trigger] sigs@[x].pubkey@ != #[trigger] sigs@[y].pubkey@,
        decreases n - i,
    {
        let mut j: usize = i + 1;
        while j < n
            invariant
                i < j <= n,
                i < n,
                n == sigs@.len(),
                forall|y: int| i < y < j ==> #[trigger] sigs@[i as int].pubkey@ != sigs@[y].pubkey@,
            decreases n - j,
        {
            if bytes32_eq(&sigs[i].pubkey, &sigs[j].pubkey) {
                assert(has_duplicate_pubkey(sigs@));
                return true;
            }
            j = j + 1;
        }
        i = i + 1;
    }
    false
}

fn count_valid(valid: &Vec<bool>) -> (c: usize)
    ensures
        c == count_true(valid@),
{
    let n = valid.len();
    let mut c: usize = 0;
    let mut i: usize = 0;
    proof {
        assert(valid@.take(0) =~= Seq::<bool>::empty());
    }
    while i < n
        invariant
            i <= n,
            n == valid@.len(),
            c == count_true(valid@.take(i as int)),
            c <= i,
        decreases n - i,
    {
        proof {
            lemma_count_true_push(valid@.take(i as int), valid@[i as int]);
            assert(valid@.take(i as int + 1) =~= valid@.take(i as int).push(valid@[i as int]));
        }
        if valid[i] {
            c = c + 1;
        }
        i = i + 1;
    }
    assert(valid@.take(n as int) =~= valid@);
    c
}

/// Checks the quorum rule over a submitted signature set. `valid` holds
/// one verdict per submitted signature, produced by the origin chain's
/// signature scheme on the canonical commitment message; this function is
/// correct for every assignment of verdicts. Sets containing a repeated
/// public key are rejected outright.
pub fn verify_signatures(proof: &BlockProof, valid: &Vec<bool>) -> (r: Result<
    usize,
    AttestError,
>)
    requires
        valid@.len() == proof.signatures@.len(),
    ensures
        has_duplicate_pubkey(proof.signatures@) <==> r == Err::<usize, AttestError>(
            AttestError::DuplicateValidator,
        ),
        r matches Ok(c) ==> c == count_true(valid@) && count_true(valid@) >= spec_threshold(
            proof.signatures@.len(),
        ) && !has_duplicate_pubkey(proof.signatures@),
        (!has_duplicate_pubkey(proof.signatures@) && count_true(valid@) >= spec_threshold(
            proof.signatures@.len(),
        )) ==> r == Ok::<usize, AttestError>(count_true(valid@) as usize),
        (!has_duplicate_pubkey(proof.signatures@) && count_true(valid@) < spec_threshold(
            proof.signatures@.len(),
        )) ==> r == Err::<usize, AttestError>(AttestError::InsufficientSignatures),
{
    if find_duplicate_pubkey(&proof.signatures) {
        return Err(AttestError::DuplicateValidator);
    }
    let valid_count = count_valid(valid);
    let total = proof.signatures.len();
    if (valid_count as u128) >= (total as u128) * 2 / 3 + 1 {
        Ok(valid_count)
    } else {
        Err(AttestError::InsufficientSignatures)
    }
}

/// Attests a block: the header must be deep enough, must extend the
/// previous block hash, and the submitted signatures must reach quorum.
pub fn verify_block_proof(
    prev_blockhash: &[u8; 32],
    proof: &BlockProof,
    valid: &Vec<bool>,
) -> (r: Result<usize, AttestError>)
    requires
        valid@.len() == proof.signatures@.len(),
    ensures
        r == Err::<usize, AttestError>(AttestError::InsufficientConfirmations) <==> proof.header.confirmations
            < SOLANA_MIN_CONFIRMATIONS,
        r == Err::<usize, AttestError>(AttestError::ParentHashMismatch) <==> (
        proof.header.confirmations >= SOLANA_MIN_CONFIRMATIONS && proof.header.parent_hash@
            != prev_blockhash@),
        (proof.header.confirmations >= SOLANA_MIN_CONFIRMATIONS && proof.header.parent_hash@
            == prev_blockhash@) ==> r == (if has_duplicate_pubkey(proof.signatures@) {
            Err::<usize, AttestError>(AttestError::DuplicateValidator)
        } else if count_true(valid@) >= spec_threshold(proof.signatures@.len()) {
            Ok::<usize, AttestError>(count_true(valid@) as usize)
        } else {
            Err::<usize, AttestError>(AttestError::InsufficientSignatures)
        }),
{
    if proof.header.confirmations < SOLANA_MIN_CONFIRMATIONS {
        return Err(AttestError::InsufficientConfirmations);
    }
    if !bytes32_eq(&proof.header.parent_hash, prev_blockhash) {
        return Err(AttestError::ParentHashMismatch);
    }
    verify_signatures(proof, valid)
}

} // verus!
