//! The proof-service boundary: the payloads a proof is requested over,
//! the shape of a produced proof, and the decisions taken on the
//! engine's results. The engine itself is an opaque external
//! collaborator.

use vstd::prelude::*;

verus! {

/// A source-chain block and its validator signatures, the payload a
/// proof is requested over.
pub struct SolanaBlockData {
    pub slot: u64,
    pub parent_slot: u64,
    pub blockhash: [u8; 32],
    pub parent_hash: [u8; 32],
    pub signatures: Vec<ValidatorSignature>,
}

/// One validator's signature in a proof payload.
pub struct ValidatorSignature {
    pub validator_pubkey: [u8; 32],
    pub signature: Vec<u8>,
}

/// A target-chain block, the payload a proof is requested over.
pub struct EthereumBlockData {
    pub number: u64,
    pub hash: [u8; 32],
    pub parent_hash: [u8; 32],
    pub timestamp: u64,
    pub state_root: [u8; 32],
}

/// The proof system a result was produced under.
#[derive(Clone, Copy, Debug, PartialEq, Eq, Structural)]
pub enum ProofType {
    Stark,
    Groth16,
    Plonk,
}

/// A produced proof: immutable once returned by the proof service.
pub struct ProofResult {
    pub proof_bytes: Vec<u8>,
    pub public_values: Vec<u8>,
    pub proof_type: ProofType,
}

/// Why proof production failed. The order or block the proof was for
/// stays as it was; the request may be retried.
#[derive(Debug)]
pub enum ProverError {
    ProofGeneration(String),
    ProofCompression(String),
    ElfLoad(String),
    Serialization(String),
    Sp1Error(String),
}

/// Wraps what the proof engine returned. A compressed proof is tagged
/// Groth16, the target chain's on-chain verifier format; an uncompressed
/// one is tagged Stark.
pub fn make_proof_result(proof_bytes: Vec<u8>, public_values: Vec<u8>, compressed: bool) -> (r:
    ProofResult)
    ensures
        r.proof_bytes@ == proof_bytes@,
        r.public_values@ == public_values@,
        r.proof_type == (if compressed {
            ProofType::Groth16
        } else {
            ProofType::Stark
        }),
{
    let proof_type = if compressed {
        ProofType::Groth16
    } else {
        ProofType::Stark
    };
    ProofResult { proof_bytes, public_values, proof_type }
}

} // verus!
