//! The header chain validator: continuity acceptance and rejection,
//! idempotent re-submission, and message execution against accepted
//! headers.

use bridge_core::hashing::hash_pair;
use bridge_core::headers::{
    check_eth_header, execute_message, header_commitment, initialize, verify_eth_block,
    verify_eth_block_attested, BridgeError, BridgeState, EthBlockHeader,
};

fn header(number: u64, hash_byte: u8, parent_byte: u8, timestamp: u64) -> EthBlockHeader {
    EthBlockHeader {
        block_number: number,
        block_hash: [hash_byte; 32],
        parent_hash: [parent_byte; 32],
        timestamp,
        state_root: [2u8; 32],
        transactions_root: [3u8; 32],
        receipts_root: [4u8; 32],
        confirmations: 12,
    }
}

#[test]
fn test_eth_block_header_creation() {
    let header = EthBlockHeader {
        block_number: 1000,
        block_hash: [1u8; 32],
        parent_hash: [0u8; 32],
        timestamp: 1699000000,
        state_root: [2u8; 32],
        transactions_root: [3u8; 32],
        receipts_root: [4u8; 32],
        confirmations: 12,
    };

    assert_eq!(header.block_number, 1000);
    assert_eq!(header.timestamp, 1699000000);
    assert_eq!(header.block_hash[0], 1);
    assert_eq!(header.state_root[0], 2);
}

#[test]
fn test_block_continuity() {
    let block1 = header(1000, 1, 0, 1699000000);
    let block2 = header(1001, 2, 1, 1699000012);

    assert_eq!(block2.parent_hash, block1.block_hash);
    assert_eq!(block2.block_number, block1.block_number + 1);
    assert!(block2.timestamp > block1.timestamp);
}

#[test]
fn test_timestamp_validation() {
    let header = header(1000, 1, 0, 1699000000);

    assert!(header.timestamp > 0, "Timestamp should be positive");
    assert!(header.block_number > 0, "Block number should be positive");
}

#[test]
fn test_merkle_roots() {
    let header = header(1000, 1, 0, 1699000000);

    assert_eq!(header.state_root.len(), 32);
    assert_eq!(header.transactions_root.len(), 32);
    assert_eq!(header.receipts_root.len(), 32);
}

#[test]
fn test_block_sequence() {
    let blocks: Vec<EthBlockHeader> = (1000..=1005u64)
        .map(|i| EthBlockHeader {
            block_number: i,
            block_hash: [i as u8; 32],
            parent_hash: if i == 1000 { [0u8; 32] } else { [(i - 1) as u8; 32] },
            timestamp: 1699000000 + (i - 1000) * 12,
            state_root: [2u8; 32],
            transactions_root: [3u8; 32],
            receipts_root: [4u8; 32],
            confirmations: 12,
        })
        .collect();

    for i in 1..blocks.len() {
        assert_eq!(
            blocks[i].parent_hash,
            blocks[i - 1].block_hash,
            "Block {} should reference block {}",
            blocks[i].block_number,
            blocks[i - 1].block_number
        );
        assert_eq!(
            blocks[i].block_number,
            blocks[i - 1].block_number + 1,
            "Block numbers should be sequential"
        );
        assert!(
            blocks[i].timestamp > blocks[i - 1].timestamp,
            "Timestamps should be monotonically increasing"
        );
    }
}

#[test]
fn test_accepts_linked_headers() {
    let mut state = initialize([1u8; 32]);
    assert_eq!(verify_eth_block(&mut state, &header(1000, 1, 0, 100)), Ok(()));
    assert_eq!(verify_eth_block(&mut state, &header(1001, 2, 1, 112)), Ok(()));
    assert_eq!(state.last_eth_block, 1001);
    assert_eq!(state.eth_headers.len(), 2);
}

#[test]
fn test_rejects_shallow_header() {
    let mut state = initialize([1u8; 32]);
    let mut h = header(1000, 1, 0, 100);
    h.confirmations = 11;
    assert_eq!(
        verify_eth_block(&mut state, &h),
        Err(BridgeError::InsufficientConfirmations)
    );
    assert_eq!(state.eth_headers.len(), 0);
}

#[test]
fn test_rejects_disconnected_header() {
    let mut state = initialize([1u8; 32]);
    assert_eq!(verify_eth_block(&mut state, &header(1000, 1, 0, 100)), Ok(()));
    // Parent hash does not match the tip: a reorg is rejected, never
    // silently accepted.
    assert_eq!(
        verify_eth_block(&mut state, &header(1001, 2, 9, 112)),
        Err(BridgeError::ParentHashMismatch)
    );
    assert_eq!(state.last_eth_block, 1000);
}

#[test]
fn test_rejects_out_of_order_number() {
    let mut state = initialize([1u8; 32]);
    assert_eq!(verify_eth_block(&mut state, &header(1000, 1, 0, 100)), Ok(()));
    assert_eq!(
        verify_eth_block(&mut state, &header(1000, 2, 1, 112)),
        Err(BridgeError::InvalidBlockNumber)
    );
}

#[test]
fn test_rejects_out_of_order_timestamp() {
    let mut state = initialize([1u8; 32]);
    assert_eq!(verify_eth_block(&mut state, &header(1000, 1, 0, 100)), Ok(()));
    assert_eq!(
        verify_eth_block(&mut state, &header(1001, 2, 1, 100)),
        Err(BridgeError::InvalidTimestamp)
    );
}

#[test]
fn test_resubmission_is_idempotent() {
    let mut state = initialize([1u8; 32]);
    let h = header(1000, 1, 0, 100);
    assert_eq!(verify_eth_block(&mut state, &h), Ok(()));
    assert_eq!(verify_eth_block(&mut state, &h), Ok(()));
    assert_eq!(state.eth_headers.len(), 1);
    assert_eq!(state.last_eth_block, 1000);
}

#[test]
fn test_execute_message_against_receipts_root() {
    let mut state = initialize([1u8; 32]);
    let message_hash = [5u8; 32];
    let sibling = [6u8; 32];
    let root = if message_hash <= sibling {
        hash_pair(&message_hash, &sibling)
    } else {
        hash_pair(&sibling, &message_hash)
    };
    let mut h = header(1000, 1, 0, 100);
    h.receipts_root = root;
    assert_eq!(verify_eth_block(&mut state, &h), Ok(()));

    assert_eq!(
        execute_message(&state, 1000, message_hash, vec![sibling]),
        Ok(())
    );
    assert_eq!(
        execute_message(&state, 1000, [7u8; 32], vec![sibling]),
        Err(BridgeError::InvalidProof)
    );
    assert_eq!(
        execute_message(&state, 999, message_hash, vec![sibling]),
        Err(BridgeError::BlockNotFound)
    );
}

#[test]
fn test_check_eth_header_standalone() {
    let prev = [0u8; 32];
    assert_eq!(check_eth_header(&prev, &header(1000, 1, 0, 100)), Ok(()));
    assert_eq!(
        check_eth_header(&[9u8; 32], &header(1000, 1, 0, 100)),
        Err(BridgeError::ParentHashMismatch)
    );
    assert_eq!(
        check_eth_header(&prev, &header(0, 1, 0, 100)),
        Err(BridgeError::InvalidBlockNumber)
    );
    assert_eq!(
        check_eth_header(&prev, &header(1000, 1, 0, 0)),
        Err(BridgeError::InvalidTimestamp)
    );
}

#[test]
fn test_proof_attested_path_checks_public_values() {
    let mut state = initialize([1u8; 32]);
    let h = header(1000, 1, 0, 100);
    let committed = header_commitment(&h);
    // The committed fields: number, hashes, timestamp, three roots, depth.
    assert_eq!(committed.len(), 8 + 32 + 32 + 8 + 32 + 32 + 32 + 4);
    assert_eq!(&committed[0..8], &1000u64.to_le_bytes());

    let mut tampered = committed.clone();
    tampered[9] ^= 0x01;
    assert_eq!(
        verify_eth_block_attested(&mut state, &h, &tampered),
        Err(BridgeError::InvalidProof)
    );
    assert_eq!(state.eth_headers.len(), 0);

    assert_eq!(verify_eth_block_attested(&mut state, &h, &committed), Ok(()));
    assert_eq!(state.last_eth_block, 1000);
}

#[test]
fn test_initialize_state() {
    let state: BridgeState = initialize([8u8; 32]);
    assert_eq!(state.admin, [8u8; 32]);
    assert_eq!(state.last_eth_block, 0);
    assert!(state.eth_headers.is_empty());
}
