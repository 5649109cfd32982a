//! Core logic of a trust-minimized relay between two ledgers.
//!
//! The crate holds the parts of the relay whose correctness prevents
//! double-spends, forged headers and fund loss: Merkle inclusion checking,
//! block-header continuity validation, threshold-signature counting, the
//! transfer-order lifecycle with relayer fee accounting, and the assembly of
//! the public values that a succinct proof commits to. Transport, proof
//! generation and chain submission are external collaborators; only the
//! decisions taken on their results live here.

pub mod hashing;
pub mod merkle;
pub mod signatures;
pub mod headers;
pub mod orders;
pub mod attestation;
pub mod monitor;
pub mod prover;
pub mod hexparse;
