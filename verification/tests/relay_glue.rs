//! The relay's decision points around external collaborators: the
//! monitor tick, hexadecimal RPC fields, order attestation with its
//! public values, and proof-result wrapping.

use bridge_core::attestation::{abi_encode_public_values, verify_bridge_order};
use bridge_core::hashing::hash_pair;
use bridge_core::hexparse::{parse_hex_bytes32, parse_hex_u64};
use bridge_core::merkle::MerkleProof;
use bridge_core::monitor::{next_confirmed_block, Config, EthereumConfig, SolanaConfig, Sp1Config};
use bridge_core::orders::{hash_order, BridgeError, OrderStatus, TransferOrder};
use bridge_core::prover::{
    make_proof_result, EthereumBlockData, ProofType, SolanaBlockData, ValidatorSignature,
};

#[test]
fn test_monitor_emits_newly_confirmed_height() {
    assert_eq!(next_confirmed_block(100, 12, 80), Some(88));
    // Advances in a single jump even when several blocks confirmed.
    assert_eq!(next_confirmed_block(200, 12, 80), Some(188));
}

#[test]
fn test_monitor_emits_nothing_without_progress() {
    assert_eq!(next_confirmed_block(100, 12, 88), None);
    assert_eq!(next_confirmed_block(100, 12, 95), None);
    // A tip shallower than the confirmation depth confirms nothing.
    assert_eq!(next_confirmed_block(5, 12, 0), None);
}

#[test]
fn test_parse_hex_u64_values() {
    assert_eq!(parse_hex_u64(b"64"), Some(100));
    assert_eq!(parse_hex_u64(b"0"), Some(0));
    assert_eq!(parse_hex_u64(b"ff"), Some(255));
    assert_eq!(parse_hex_u64(b"DeadBeef"), Some(0xdeadbeef));
    assert_eq!(parse_hex_u64(b"ffffffffffffffff"), Some(u64::MAX));
}

#[test]
fn test_parse_hex_u64_rejects() {
    assert_eq!(parse_hex_u64(b""), None);
    assert_eq!(parse_hex_u64(b"12g4"), None);
    // Seventeen digits overflow 64 bits.
    assert_eq!(parse_hex_u64(b"10000000000000000"), None);
}

#[test]
fn test_parse_hex_bytes32_roundtrip() {
    let mut text = Vec::new();
    for byte in 0u8..32 {
        let hi = b"0123456789abcdef"[(byte >> 4) as usize];
        let lo = b"0123456789abcdef"[(byte & 0x0f) as usize];
        text.push(hi);
        text.push(lo);
    }
    let parsed = parse_hex_bytes32(&text).unwrap();
    for (i, b) in parsed.iter().enumerate() {
        assert_eq!(*b as usize, i);
    }
}

#[test]
fn test_parse_hex_bytes32_short_input_is_zero() {
    assert_eq!(parse_hex_bytes32(b"0"), Some([0u8; 32]));
    assert_eq!(parse_hex_bytes32(b""), Some([0u8; 32]));
}

#[test]
fn test_parse_hex_bytes32_rejects_bad_digit() {
    let mut text = vec![b'a'; 64];
    text[10] = b'z';
    assert_eq!(parse_hex_bytes32(&text), None);
}

fn pending_order() -> TransferOrder {
    TransferOrder {
        order_id: 1,
        user: [0x01; 32],
        source_chain: 0,
        target_chain: 1,
        token: [0x02; 32],
        amount: 1_000_000,
        recipient: [0x03; 32],
        relayer_fee: 1_000,
        created_at: 100,
        status: OrderStatus::Pending,
        proof_hash: [0u8; 32],
        completed_by: [0u8; 32],
        completed_at: 0,
    }
}

fn inclusion_for(order: &TransferOrder) -> MerkleProof {
    let leaf = hash_order(order);
    let sibling = [0u8; 32];
    let root = if leaf <= sibling {
        hash_pair(&leaf, &sibling)
    } else {
        hash_pair(&sibling, &leaf)
    };
    MerkleProof {
        leaf,
        proof: vec![sibling],
        root,
    }
}

#[test]
fn test_verify_bridge_order_commits_public_values() {
    let order = pending_order();
    let inclusion = inclusion_for(&order);
    let pv = verify_bridge_order(&order, &inclusion).unwrap();
    assert_eq!(pv.order_id, 1);
    assert_eq!(pv.source_chain, 0);
    assert_eq!(pv.target_chain, 1);
    assert_eq!(pv.token, [0x02; 32]);
    assert_eq!(pv.amount, 1_000_000);
    assert_eq!(pv.recipient, [0x03; 32]);
    assert_eq!(pv.state_root, inclusion.root);
    assert_eq!(pv.timestamp, 100);
}

#[test]
fn test_verify_bridge_order_rejects_completed_order() {
    let mut order = pending_order();
    let inclusion = inclusion_for(&order);
    order.status = OrderStatus::Completed;
    assert_eq!(
        verify_bridge_order(&order, &inclusion).unwrap_err(),
        BridgeError::OrderNotPending
    );
}

#[test]
fn test_verify_bridge_order_rejects_foreign_leaf() {
    let order = pending_order();
    let mut inclusion = inclusion_for(&order);
    inclusion.leaf[3] ^= 0x01;
    assert_eq!(
        verify_bridge_order(&order, &inclusion).unwrap_err(),
        BridgeError::InvalidProof
    );
}

#[test]
fn test_verify_bridge_order_rejects_broken_fold() {
    let order = pending_order();
    let mut inclusion = inclusion_for(&order);
    inclusion.root[0] ^= 0x01;
    assert_eq!(
        verify_bridge_order(&order, &inclusion).unwrap_err(),
        BridgeError::InvalidProof
    );
}

#[test]
fn test_verify_bridge_order_rejects_zero_amount() {
    let mut order = pending_order();
    order.amount = 0;
    let inclusion = inclusion_for(&order);
    assert_eq!(
        verify_bridge_order(&order, &inclusion).unwrap_err(),
        BridgeError::InvalidAmount
    );
}

#[test]
fn test_abi_encoding_layout() {
    let order = pending_order();
    let inclusion = inclusion_for(&order);
    let pv = verify_bridge_order(&order, &inclusion).unwrap();
    let bytes = abi_encode_public_values(&pv);
    assert_eq!(bytes.len(), 256);
    // Word 0: the order id, big-endian in the last 8 bytes.
    assert_eq!(&bytes[0..24], &[0u8; 24]);
    assert_eq!(&bytes[24..32], &1u64.to_be_bytes());
    // Words 1 and 2: the chain ids in the last byte.
    assert_eq!(bytes[63], 0);
    assert_eq!(bytes[95], 1);
    // Word 3: the token address.
    assert_eq!(&bytes[96..128], &[0x02; 32]);
    // Word 4: the amount, zero-extended to 256 bits.
    assert_eq!(&bytes[128..152], &[0u8; 24]);
    assert_eq!(&bytes[152..160], &1_000_000u64.to_be_bytes());
    // Word 5: the recipient.
    assert_eq!(&bytes[160..192], &[0x03; 32]);
    // Word 6: the state root.
    assert_eq!(&bytes[192..224], &inclusion.root);
    // Word 7: the timestamp.
    assert_eq!(&bytes[248..256], &100u64.to_be_bytes());
}

#[test]
fn test_make_proof_result_tags() {
    let stark = make_proof_result(vec![1, 2, 3], vec![4, 5], false);
    assert_eq!(stark.proof_type, ProofType::Stark);
    assert_eq!(stark.proof_bytes, vec![1, 2, 3]);
    assert_eq!(stark.public_values, vec![4, 5]);
    let groth = make_proof_result(vec![6], vec![7], true);
    assert_eq!(groth.proof_type, ProofType::Groth16);
}

#[test]
fn test_payload_structures() {
    let block = SolanaBlockData {
        slot: 12345,
        parent_slot: 12344,
        blockhash: [1u8; 32],
        parent_hash: [2u8; 32],
        signatures: vec![ValidatorSignature {
            validator_pubkey: [3u8; 32],
            signature: vec![4u8; 64],
        }],
    };
    assert_eq!(block.slot, 12345);
    assert_eq!(block.signatures[0].signature.len(), 64);

    let eth = EthereumBlockData {
        number: 100,
        hash: [5u8; 32],
        parent_hash: [6u8; 32],
        timestamp: 1699000000,
        state_root: [7u8; 32],
    };
    assert_eq!(eth.number, 100);
}

#[test]
fn test_config_surface() {
    let config = Config {
        solana: SolanaConfig {
            rpc_url: String::from("http://localhost:8899"),
            min_confirmations: 32,
            poll_interval_ms: 400,
        },
        ethereum: EthereumConfig {
            rpc_url: String::from("http://localhost:8545"),
            min_confirmations: 12,
            poll_interval_ms: 1000,
            contract_address: String::from("0x0000000000000000000000000000000000000000"),
        },
        sp1: Sp1Config {
            enable_groth16: false,
            prove_timeout_secs: 300,
        },
    };
    assert_eq!(config.solana.min_confirmations, 32);
    assert_eq!(config.ethereum.min_confirmations, 12);
    assert!(!config.sp1.enable_groth16);
}
