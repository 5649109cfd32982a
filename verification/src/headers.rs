//! The header chain validator: continuity checking of candidate headers,
//! the per-chain persisted header sequence, and execution of messages
//! proven against an accepted header's receipts root.

use vstd::prelude::*;
use vstd::bytes::{spec_u32_to_le_bytes, spec_u64_to_le_bytes, u32_to_le_bytes};
use crate::hashing::{bytes32_eq, bytes_eq, push_bytes32, push_u64_le};
use crate::merkle::{MerkleProof, merkle_fold};

verus! {

/// Confirmation depth required of a target-chain block before it is
/// accepted.
pub const ETH_MIN_CONFIRMATIONS: u32 = 12;

/// A target-chain block header.
#[derive(Clone, Copy)]
pub struct EthBlockHeader {
    pub block_number: u64,
    pub block_hash: [u8; 32],
    pub parent_hash: [u8; 32],
    pub timestamp: u64,
    pub state_root: [u8; 32],
    pub transactions_root: [u8; 32],
    pub receipts_root: [u8; 32],
    pub confirmations: u32,
}

/// Why a header or a message was rejected.
#[derive(Clone, Copy, Debug, PartialEq, Eq, Structural)]
pub enum BridgeError {
    InsufficientConfirmations,
    ParentHashMismatch,
    InvalidBlockNumber,
    InvalidTimestamp,
    BlockNotFound,
    InvalidProof,
}

/// A candidate extends an accepted header: it references the header's
/// hash as its parent, and both number and timestamp strictly increase.
pub open spec fn chain_linked(prev: EthBlockHeader, h: EthBlockHeader) -> bool {
    &&& h.parent_hash@ == prev.block_hash@
    &&& h.block_number > prev.block_number
    &&& h.timestamp > prev.timestamp
}

/// Some accepted header carries this block hash.
pub open spec fn contains_block_hash(s: Seq<EthBlockHeader>, hash: Seq<u8>) -> bool {
    exists|i: int| 0 <= i < s.len() && #[trigger] s[i].block_hash@ == hash
}

/// Some accepted header carries this block number.
pub open spec fn contains_block_number(s: Seq<EthBlockHeader>, n: u64) -> bool {
    exists|i: int| 0 <= i < s.len() && #[trigger] s[i].block_number == n
}

/// The persisted state of the header chain validator: the accepted header
/// sequence and the last accepted block number. Mutated only through
/// validated appends.
pub struct BridgeState {
    pub admin: [u8; 32],
    pub eth_headers: Vec<EthBlockHeader>,
    pub last_eth_block: u64,
}

impl BridgeState {
    /// Well-formedness: consecutive accepted headers are linked, so
    /// numbers and timestamps strictly increase along the chain, and the
    /// last-block pointer matches the tip.
    pub open spec fn wf(self) -> bool {
        &&& forall|i: int|
            0 < i < self.eth_headers@.len() ==> chain_linked(
                #[trigger] self.eth_headers@[i - 1],
                self.eth_headers@[i],
            )
        &&& self.last_eth_block == if self.eth_headers@.len() == 0 {
            0u64
        } else {
            self.eth_headers@.last().block_number
        }
    }

    /// A candidate is acceptable: deep enough, and either already
    /// accepted, the first header, or linked to the current tip.
    pub open spec fn spec_accepts(self, h: EthBlockHeader) -> bool {
        &&& h.confirmations >= ETH_MIN_CONFIRMATIONS
        &&& {
            ||| contains_block_hash(self.eth_headers@, h.block_hash@)
            ||| self.eth_headers@.len() == 0
            ||| chain_linked(self.eth_headers@.last(), h)
        }
    }
}

/// Creates the bridge state with an empty header chain.
pub fn initialize(admin: [u8; 32]) -> (state: BridgeState)
    ensures
        state.wf(),
        state.admin@ == admin@,
        state.eth_headers@.len() == 0,
        state.last_eth_block == 0,
{
    BridgeState { admin, eth_headers: Vec::new(), last_eth_block: 0 }
}

fn find_block_hash(headers: &Vec<EthBlockHeader>, hash: &[u8; 32]) -> (r: bool)
    ensures
        r == contains_block_hash(headers@, hash@),
{
    let n = headers.len();
    let mut i: usize = 0;
    while i < n
        invariant
            i <= n,
            n == headers@.len(),
            forall|j: int| 0 <= j < i ==> #[trigger] headers@[j].block_hash@ != hash@,
        decreases n - i,
    {
        if bytes32_eq(&headers[i].block_hash, hash) {
            return true;
        }
        i = i + 1;
    }
    false
}

/// Validates a candidate header against the current tip and appends it on
/// success. A header whose hash is already on the chain is accepted again
/// without change; any break in continuity is rejected and leaves the
/// state untouched.
pub fn verify_eth_block(state: &mut BridgeState, header: &EthBlockHeader) -> (r: Result<
    (),
    BridgeError,
>)
    requires
        old(state).wf(),
    ensures
        final(state).wf(),
        r is Ok <==> old(state).spec_accepts(*header),
        r == Err::<(), BridgeError>(BridgeError::InsufficientConfirmations) <==> header.confirmations
            < ETH_MIN_CONFIRMATIONS,
        r is Ok && contains_block_hash(old(state).eth_headers@, header.block_hash@) ==> *final(state)
            == *old(state),
        r is Ok && !contains_block_hash(old(state).eth_headers@, header.block_hash@) ==> final(state).eth_headers@
            == old(state).eth_headers@.push(*header) && final(state).last_eth_block
            == header.block_number,
        r is Err ==> *final(state) == *old(state),
        final(state).admin == old(state).admin,
        header.confirmations >= ETH_MIN_CONFIRMATIONS && !contains_block_hash(
            old(state).eth_headers@,
            header.block_hash@,
        ) && old(state).eth_headers@.len() > 0 ==> {
            let tip = old(state).eth_headers@.last();
            &&& r == Err::<(), BridgeError>(BridgeError::ParentHashMismatch) <==> header.parent_hash@
                != tip.block_hash@
            &&& r == Err::<(), BridgeError>(BridgeError::InvalidBlockNumber) <==> (
            header.parent_hash@ == tip.block_hash@ && header.block_number <= tip.block_number)
            &&& r == Err::<(), BridgeError>(BridgeError::InvalidTimestamp) <==> (header.parent_hash@
                == tip.block_hash@ && header.block_number > tip.block_number && header.timestamp
                <= tip.timestamp)
        },
{
    if header.confirmations < ETH_MIN_CONFIRMATIONS {
        return Err(BridgeError::InsufficientConfirmations);
    }
    if find_block_hash(&state.eth_headers, &header.block_hash) {
        return Ok(());
    }
    let n = state.eth_headers.len();
    if n > 0 {
        let tip = &state.eth_headers[n - 1];
        if !bytes32_eq(&header.parent_hash, &tip.block_hash) {
            return Err(BridgeError::ParentHashMismatch);
        }
        if header.block_number <= tip.block_number {
            return Err(BridgeError::InvalidBlockNumber);
        }
        if header.timestamp <= tip.timestamp {
            return Err(BridgeError::InvalidTimestamp);
        }
    }
    let ghost old_headers = state.eth_headers@;
    state.eth_headers.push(*header);
    state.last_eth_block = header.block_number;
    proof {
        assert(state.eth_headers@.last() == *header);
        assert(forall|i: int|
            0 < i < state.eth_headers@.len() ==> chain_linked(
                #[trigger] state.eth_headers@[i - 1],
                state.eth_headers@[i],
            ));
    }
    Ok(())
}

proof fn lemma_chain_numbers_increase(s: Seq<EthBlockHeader>, i: int, j: int)
    requires
        forall|k: int| 0 < k < s.len() ==> chain_linked(#[trigger] s[k - 1], s[k]),
        0 <= i < j < s.len(),
    ensures
        s[i].block_number < s[j].block_number,
        s[i].timestamp < s[j].timestamp,
    decreases j - i,
{
    assert(chain_linked(s[j - 1], s[j]));
    if i + 1 < j {
        lemma_chain_numbers_increase(s, i, j - 1);
    }
}

/// Law: along the accepted chain, block numbers and timestamps strictly
/// increase; every earlier accepted header is older and lower than every
/// later one.
pub proof fn lemma_chain_strictly_increases(state: BridgeState, i: int, j: int)
    requires
        state.wf(),
        0 <= i < j < state.eth_headers@.len(),
    ensures
        state.eth_headers@[i].block_number < state.eth_headers@[j].block_number,
        state.eth_headers@[i].timestamp < state.eth_headers@[j].timestamp,
{
    lemma_chain_numbers_increase(state.eth_headers@, i, j);
}

/// Executes a cross-chain message against an accepted header: the header
/// with the given number is looked up, and the message hash must carry a
/// valid Merkle inclusion proof under that header's receipts root.
pub fn execute_message(
    state: &BridgeState,
    block_number: u64,
    message_hash: [u8; 32],
    merkle_path: Vec<[u8; 32]>,
) -> (r: Result<(), BridgeError>)
    requires
        state.wf(),
    ensures
        r == Err::<(), BridgeError>(BridgeError::BlockNotFound) <==> !contains_block_number(
            state.eth_headers@,
            block_number,
        ),
        r is Ok <==> exists|i: int|
            0 <= i < state.eth_headers@.len() && #[trigger] state.eth_headers@[i].block_number
                == block_number && merkle_fold(message_hash@, merkle_path.deep_view())
                == state.eth_headers@[i].receipts_root@,
{
    let n = state.eth_headers.len();
    let mut i: usize = 0;
    while i < n
        invariant
            i <= n,
            n == state.eth_headers@.len(),
            state.wf(),
            forall|j: int| 0 <= j < i ==> #[trigger] state.eth_headers@[j].block_number != block_number,
        decreases n - i,
    {
        if state.eth_headers[i].block_number == block_number {
            let header = &state.eth_headers[i];
            let inclusion = MerkleProof {
                leaf: message_hash,
                proof: merkle_path,
                root: header.receipts_root,
            };
            proof {
                assert forall|k: int|
                    0 <= k < state.eth_headers@.len() && #[trigger] state.eth_headers@[k].block_number
                        == block_number implies k == i as int by {
                    if k < i as int {
                        lemma_chain_numbers_increase(state.eth_headers@, k, i as int);
                    } else if k > i as int {
                        lemma_chain_numbers_increase(state.eth_headers@, i as int, k);
                    }
                }
            }
            if inclusion.verify() {
                return Ok(());
            } else {
                return Err(BridgeError::InvalidProof);
            }
        }
        i = i + 1;
    }
    Err(BridgeError::BlockNotFound)
}

/// The committed fields of a header, the byte string a succinct proof's
/// public values must reproduce: every field in declaration order,
/// integers little-endian.
pub open spec fn spec_header_commitment(h: EthBlockHeader) -> Seq<u8> {
    spec_u64_to_le_bytes(h.block_number) + h.block_hash@ + h.parent_hash@ + spec_u64_to_le_bytes(
        h.timestamp,
    ) + h.state_root@ + h.transactions_root@ + h.receipts_root@ + spec_u32_to_le_bytes(
        h.confirmations,
    )
}

/// Builds the committed-fields encoding of a header.
pub fn header_commitment(h: &EthBlockHeader) -> (c: Vec<u8>)
    ensures
        c@ == spec_header_commitment(*h),
{
    let mut c: Vec<u8> = Vec::new();
    push_u64_le(&mut c, h.block_number);
    push_bytes32(&mut c, &h.block_hash);
    push_bytes32(&mut c, &h.parent_hash);
    push_u64_le(&mut c, h.timestamp);
    push_bytes32(&mut c, &h.state_root);
    push_bytes32(&mut c, &h.transactions_root);
    push_bytes32(&mut c, &h.receipts_root);
    let mut conf = u32_to_le_bytes(h.confirmations);
    c.append(&mut conf);
    assert(c@ =~= spec_header_commitment(*h));
    c
}

/// Whether a proof's public values commit to exactly this candidate
/// header, byte for byte.
pub fn proof_commits_header(public_values: &Vec<u8>, header: &EthBlockHeader) -> (r: bool)
    ensures
        r == (public_values@ == spec_header_commitment(*header)),
{
    let commitment = header_commitment(header);
    bytes_eq(public_values, &commitment)
}

/// The proof-attested path of the validator: cryptographic verification
/// is the proof service consumer's; here the proof's public values must
/// equal the candidate's committed fields byte for byte, and the
/// candidate must then chain onto the current tip.
pub fn verify_eth_block_attested(
    state: &mut BridgeState,
    header: &EthBlockHeader,
    public_values: &Vec<u8>,
) -> (r: Result<(), BridgeError>)
    requires
        old(state).wf(),
    ensures
        final(state).wf(),
        r is Ok <==> (public_values@ == spec_header_commitment(*header) && old(state).spec_accepts(
            *header,
        )),
        public_values@ != spec_header_commitment(*header) ==> r == Err::<(), BridgeError>(
            BridgeError::InvalidProof,
        ),
        r is Ok && !contains_block_hash(old(state).eth_headers@, header.block_hash@) ==> final(state).eth_headers@
            == old(state).eth_headers@.push(*header) && final(state).last_eth_block
            == header.block_number,
        r is Ok && contains_block_hash(old(state).eth_headers@, header.block_hash@) ==> *final(state)
            == *old(state),
        r is Err ==> *final(state) == *old(state),
{
    if !proof_commits_header(public_values, header) {
        return Err(BridgeError::InvalidProof);
    }
    verify_eth_block(state, header)
}

/// Checks a standalone target-chain header against the previous block
/// hash: continuity, and a positive number and timestamp.
pub fn check_eth_header(prev_block_hash: &[u8; 32], header: &EthBlockHeader) -> (r: Result<
    (),
    BridgeError,
>)
    ensures
        r is Ok <==> (header.parent_hash@ == prev_block_hash@ && header.block_number > 0
            && header.timestamp > 0),
        r == Err::<(), BridgeError>(BridgeError::ParentHashMismatch) <==> header.parent_hash@
            != prev_block_hash@,
        r == Err::<(), BridgeError>(BridgeError::InvalidBlockNumber) <==> (header.parent_hash@
            == prev_block_hash@ && header.block_number == 0),
        r == Err::<(), BridgeError>(BridgeError::InvalidTimestamp) <==> (header.parent_hash@
            == prev_block_hash@ && header.block_number > 0 && header.timestamp == 0),
{
    if !bytes32_eq(&header.parent_hash, prev_block_hash) {
        return Err(BridgeError::ParentHashMismatch);
    }
    if header.block_number == 0 {
        return Err(BridgeError::InvalidBlockNumber);
    }
    if header.timestamp == 0 {
        return Err(BridgeError::InvalidTimestamp);
    }
    Ok(())
}

} // verus!
