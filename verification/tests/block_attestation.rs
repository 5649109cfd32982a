//! Threshold-signature attestation: the commitment message, the quorum
//! rule over the submitted set, and confirmation-depth checks.

use bridge_core::signatures::{
    create_block_sign_message, required_signatures, verify_block_proof, verify_signatures,
    AttestError, BlockProof, SolanaBlockHeader, ValidatorSignature,
};

fn sample_header() -> SolanaBlockHeader {
    SolanaBlockHeader {
        slot: 1000,
        blockhash: [1u8; 32],
        parent_hash: [0u8; 32],
        block_height: 1000,
        timestamp: 1699000000,
        confirmations: 32,
    }
}

#[test]
fn test_block_header_creation() {
    let header = sample_header();

    assert_eq!(header.slot, 1000);
    assert_eq!(header.confirmations, 32);
    assert_eq!(header.blockhash[0], 1);
    assert_eq!(header.parent_hash[0], 0);
}

#[test]
fn test_confirmation_validation() {
    let header = sample_header();

    let min_confirmations: u32 = 32;
    assert!(header.confirmations >= min_confirmations);
}

#[test]
#[should_panic(expected = "Insufficient confirmations")]
fn test_insufficient_confirmations() {
    let header = SolanaBlockHeader {
        slot: 1000,
        blockhash: [1u8; 32],
        parent_hash: [0u8; 32],
        block_height: 1000,
        timestamp: 1699000000,
        confirmations: 10,
    };

    let min_confirmations: u32 = 32;
    assert!(
        header.confirmations >= min_confirmations,
        "Insufficient confirmations: got {}, need {}",
        header.confirmations,
        min_confirmations
    );
}

#[test]
fn test_validator_signature_structure() {
    let sig = ValidatorSignature {
        pubkey: [1u8; 32],
        signature: vec![2u8; 64],
    };

    assert_eq!(sig.pubkey.len(), 32);
    assert_eq!(sig.signature.len(), 64);
    assert_eq!(sig.pubkey[0], 1);
    assert_eq!(sig.signature[0], 2);
}

#[test]
fn test_block_proof_with_multiple_signatures() {
    let header = sample_header();

    let signatures = vec![
        ValidatorSignature {
            pubkey: [1u8; 32],
            signature: vec![1u8; 64],
        },
        ValidatorSignature {
            pubkey: [2u8; 32],
            signature: vec![2u8; 64],
        },
        ValidatorSignature {
            pubkey: [3u8; 32],
            signature: vec![3u8; 64],
        },
    ];

    let proof = BlockProof {
        header: header.clone(),
        signatures,
    };

    assert_eq!(proof.signatures.len(), 3);

    let total = proof.signatures.len();
    let threshold = (total * 2) / 3 + 1;
    assert_eq!(threshold, 3);
}

#[test]
fn test_parent_hash_continuity() {
    let block1 = SolanaBlockHeader {
        slot: 1000,
        blockhash: [1u8; 32],
        parent_hash: [0u8; 32],
        block_height: 1000,
        timestamp: 1699000000,
        confirmations: 32,
    };

    let block2 = SolanaBlockHeader {
        slot: 1001,
        blockhash: [2u8; 32],
        parent_hash: [1u8; 32],
        block_height: 1001,
        timestamp: 1699000001,
        confirmations: 32,
    };

    assert_eq!(block2.parent_hash, block1.blockhash);
    assert_eq!(block2.slot, block1.slot + 1);
    assert!(block2.timestamp > block1.timestamp);
}

#[test]
fn test_create_block_sign_message() {
    let header = sample_header();

    let message = create_block_sign_message(&header);

    assert_eq!(message.len(), 8 + 32 + 32 + 8);

    let slot_bytes = 1000u64.to_le_bytes();
    assert_eq!(&message[0..8], &slot_bytes);
}

#[test]
fn test_threshold_calculation() {
    assert_eq!((3 * 2) / 3 + 1, 3);
    assert_eq!((4 * 2) / 3 + 1, 3);
    assert_eq!((5 * 2) / 3 + 1, 4);
    assert_eq!((6 * 2) / 3 + 1, 5);
    assert_eq!((10 * 2) / 3 + 1, 7);
}

#[test]
fn test_required_signatures_values() {
    assert_eq!(required_signatures(3), 3);
    assert_eq!(required_signatures(4), 3);
    assert_eq!(required_signatures(5), 4);
    assert_eq!(required_signatures(6), 5);
    assert_eq!(required_signatures(10), 7);
}

fn sample_signatures(n: u8) -> Vec<ValidatorSignature> {
    let mut sigs = Vec::new();
    let mut k: u8 = 0;
    while k < n {
        sigs.push(ValidatorSignature {
            pubkey: [k + 1; 32],
            signature: vec![k; 64],
        });
        k += 1;
    }
    sigs
}

#[test]
fn test_verify_signatures_quorum_reached() {
    let proof = BlockProof {
        header: sample_header(),
        signatures: sample_signatures(4),
    };
    // 3 of 4 verdicts valid: exactly the floor(2n/3)+1 quorum.
    let valid = vec![true, true, true, false];
    assert_eq!(verify_signatures(&proof, &valid), Ok(3));
}

#[test]
fn test_verify_signatures_below_quorum() {
    let proof = BlockProof {
        header: sample_header(),
        signatures: sample_signatures(4),
    };
    let valid = vec![true, true, false, false];
    assert_eq!(
        verify_signatures(&proof, &valid),
        Err(AttestError::InsufficientSignatures)
    );
}

#[test]
fn test_verify_signatures_rejects_duplicate_pubkey() {
    let mut signatures = sample_signatures(3);
    signatures.push(ValidatorSignature {
        pubkey: [1u8; 32],
        signature: vec![9u8; 64],
    });
    let proof = BlockProof {
        header: sample_header(),
        signatures,
    };
    let valid = vec![true, true, true, true];
    assert_eq!(
        verify_signatures(&proof, &valid),
        Err(AttestError::DuplicateValidator)
    );
}

#[test]
fn test_verify_block_proof_accepts() {
    let proof = BlockProof {
        header: sample_header(),
        signatures: sample_signatures(3),
    };
    let valid = vec![true, true, true];
    let prev = [0u8; 32];
    assert_eq!(verify_block_proof(&prev, &proof, &valid), Ok(3));
}

#[test]
fn test_verify_block_proof_shallow_block() {
    let mut header = sample_header();
    header.confirmations = 31;
    let proof = BlockProof {
        header,
        signatures: sample_signatures(3),
    };
    let valid = vec![true, true, true];
    let prev = [0u8; 32];
    assert_eq!(
        verify_block_proof(&prev, &proof, &valid),
        Err(AttestError::InsufficientConfirmations)
    );
}

#[test]
fn test_verify_block_proof_parent_mismatch() {
    let proof = BlockProof {
        header: sample_header(),
        signatures: sample_signatures(3),
    };
    let valid = vec![true, true, true];
    let prev = [7u8; 32];
    assert_eq!(
        verify_block_proof(&prev, &proof, &valid),
        Err(AttestError::ParentHashMismatch)
    );
}
