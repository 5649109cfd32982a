//! Verification of a transfer order against its Merkle inclusion proof,
//! and the fixed-order public values such a proof commits to, encoded by
//! the verifying chain's contract-ABI rules.

use vstd::prelude::*;
use crate::hashing::{sha256_of, bytes32_eq, push_bytes32};
use crate::merkle::MerkleProof;
use crate::orders::{TransferOrder, OrderStatus, BridgeError, hash_order, spec_order_message};

verus! {

/// The public values of a transfer-order attestation, in their fixed
/// field order. The amount is a 64-bit value zero-extended to the 256-bit
/// word the encoding carries.
#[derive(Clone, Copy, Debug, PartialEq, Eq)]
pub struct BridgeProofPublicValues {
    pub order_id: u64,
    pub source_chain: u8,
    pub target_chain: u8,
    pub token: [u8; 32],
    pub amount: u64,
    pub recipient: [u8; 32],
    pub state_root: [u8; 32],
    pub timestamp: u64,
}

/// A run of zero bytes.
pub open spec fn spec_zeros(n: nat) -> Seq<u8> {
    Seq::new(n, |i: int| 0u8)
}

/// The big-endian bytes of a `u64`.
pub open spec fn spec_u64_be_bytes(x: u64) -> Seq<u8> {
    seq![
        (x >> 56) as u8,
        (x >> 48) as u8,
        (x >> 40) as u8,
        (x >> 32) as u8,
        (x >> 24) as u8,
        (x >> 16) as u8,
        (x >> 8) as u8,
        x as u8,
    ]
}

/// A `u64` as one 32-byte ABI word: zero-extended, big-endian.
pub open spec fn spec_u64_word(x: u64) -> Seq<u8> {
    spec_zeros(24) + spec_u64_be_bytes(x)
}

/// A `u8` as one 32-byte ABI word.
pub open spec fn spec_u8_word(x: u8) -> Seq<u8> {
    spec_zeros(31) + seq![x]
}

/// The ABI encoding of the public values: eight words, one per field, in
/// the fixed field order.
pub open spec fn spec_abi_encode(pv: BridgeProofPublicValues) -> Seq<u8> {
    spec_u64_word(pv.order_id) + spec_u8_word(pv.source_chain) + spec_u8_word(pv.target_chain)
        + pv.token@ + spec_u64_word(pv.amount) + pv.recipient@ + pv.state_root@ + spec_u64_word(
        pv.timestamp,
    )
}

fn push_zeros(buf: &mut Vec<u8>, n: usize)
    ensures
        final(buf)@ == old(buf)@ + spec_zeros(n as nat),
{
    let ghost start = buf@;
    let mut i: usize = 0;
    while i < n
        invariant
            i <= n,
            buf@ == start + spec_zeros(i as nat),
        decreases n - i,
    {
        buf.push(0);
        assert(spec_zeros(i as nat + 1) =~= spec_zeros(i as nat).push(0u8));
        i = i + 1;
    }
}

fn push_u64_word(buf: &mut Vec<u8>, x: u64)
    ensures
        final(buf)@ == old(buf)@ + spec_u64_word(x),
{
    push_zeros(buf, 24);
    let ghost mid = buf@;
    buf.push(#[verifier::truncate] ((x >> 56) as u8));
    buf.push(#[verifier::truncate] ((x >> 48) as u8));
    buf.push(#[verifier::truncate] ((x >> 40) as u8));
    buf.push(#[verifier::truncate] ((x >> 32) as u8));
    buf.push(#[verifier::truncate] ((x >> 24) as u8));
    buf.push(#[verifier::truncate] ((x >> 16) as u8));
    buf.push(#[verifier::truncate] ((x >> 8) as u8));
    buf.push(#[verifier::truncate] (x as u8));
    assert(buf@ =~= mid + spec_u64_be_bytes(x));
    assert(buf@ =~= old(buf)@ + spec_u64_word(x));
}

fn push_u8_word(buf: &mut Vec<u8>, x: u8)
    ensures
        final(buf)@ == old(buf)@ + spec_u8_word(x),
{
    push_zeros(buf, 31);
    buf.push(x);
    assert(buf@ =~= old(buf)@ + spec_u8_word(x));
}

/// Encodes the public values as the verifying chain's contracts expect
/// them: 256 bytes, eight 32-byte words in fixed order.
pub fn abi_encode_public_values(pv: &BridgeProofPublicValues) -> (r: Vec<u8>)
    ensures
        r@ == spec_abi_encode(*pv),
        r@.len() == 256,
{
    let mut buf: Vec<u8> = Vec::new();
    push_u64_word(&mut buf, pv.order_id);
    push_u8_word(&mut buf, pv.source_chain);
    push_u8_word(&mut buf, pv.target_chain);
    push_bytes32(&mut buf, &pv.token);
    push_u64_word(&mut buf, pv.amount);
    push_bytes32(&mut buf, &pv.recipient);
    push_bytes32(&mut buf, &pv.state_root);
    push_u64_word(&mut buf, pv.timestamp);
    assert(buf@ =~= spec_abi_encode(*pv));
    buf
}

/// What the attestation claims: the order is Pending with a positive
/// amount, its hash is the proof's leaf, and the proof binds that leaf
/// under the committed root.
pub open spec fn spec_order_attested(order: TransferOrder, inclusion: MerkleProof) -> bool {
    &&& order.status == OrderStatus::Pending
    &&& sha256_of(spec_order_message(order)) == inclusion.leaf@
    &&& inclusion.spec_valid()
    &&& order.amount > 0
}

/// Verifies a transfer order against its Merkle inclusion proof and, on
/// success, assembles the public values the attestation commits to: the
/// order's committed fields, the counterpart chain as target, and the
/// proof's root as state root.
pub fn verify_bridge_order(order: &TransferOrder, inclusion: &MerkleProof) -> (r: Result<
    BridgeProofPublicValues,
    BridgeError,
>)
    ensures
        r is Ok <==> spec_order_attested(*order, *inclusion),
        r == Err::<BridgeProofPublicValues, BridgeError>(BridgeError::OrderNotPending)
            <==> order.status != OrderStatus::Pending,
        r == Err::<BridgeProofPublicValues, BridgeError>(BridgeError::InvalidProof) <==> (
        order.status == OrderStatus::Pending && (sha256_of(spec_order_message(*order))
            != inclusion.leaf@ || !inclusion.spec_valid())),
        r == Err::<BridgeProofPublicValues, BridgeError>(BridgeError::InvalidAmount) <==> (
        order.status == OrderStatus::Pending && sha256_of(spec_order_message(*order))
            == inclusion.leaf@ && inclusion.spec_valid() && order.amount == 0),
        r matches Ok(pv) ==> {
            &&& pv.order_id == order.order_id
            &&& pv.source_chain == order.source_chain
            &&& pv.target_chain == (if order.source_chain == 0 {
                1u8
            } else {
                0u8
            })
            &&& pv.token == order.token
            &&& pv.amount == order.amount
            &&& pv.recipient == order.recipient
            &&& pv.state_root == inclusion.root
            &&& pv.timestamp == order.created_at
        },
{
    if order.status != OrderStatus::Pending {
        return Err(BridgeError::OrderNotPending);
    }
    let order_hash = hash_order(order);
    if !bytes32_eq(&order_hash, &inclusion.leaf) {
        return Err(BridgeError::InvalidProof);
    }
    if !inclusion.verify() {
        return Err(BridgeError::InvalidProof);
    }
    if order.amount == 0 {
        return Err(BridgeError::InvalidAmount);
    }
    let target_chain: u8 = if order.source_chain == 0 {
        1
    } else {
        0
    };
    Ok(
        BridgeProofPublicValues {
            order_id: order.order_id,
            source_chain: order.source_chain,
            target_chain,
            token: order.token,
            amount: order.amount,
            recipient: order.recipient,
            state_root: inclusion.root,
            timestamp: order.created_at,
        },
    )
}

} // verus!
