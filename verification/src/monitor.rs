//! The chain monitors' decision logic and the relay configuration
//! surface. Transport happens outside; given a fetched tip height the
//! monitor decides which newly confirmed height to emit, advancing in a
//! single jump and never re-emitting.

use vstd::prelude::*;

verus! {

/// Relay configuration: one section per chain and one for the proof
/// engine.
pub struct Config {
    pub solana: SolanaConfig,
    pub ethereum: EthereumConfig,
    pub sp1: Sp1Config,
}

/// Source-chain monitor configuration.
pub struct SolanaConfig {
    pub rpc_url: String,
    pub min_confirmations: u32,
    pub poll_interval_ms: u64,
}

/// Target-chain monitor configuration.
pub struct EthereumConfig {
    pub rpc_url: String,
    pub min_confirmations: u64,
    pub poll_interval_ms: u64,
    pub contract_address: String,
}

/// Proof-engine configuration.
pub struct Sp1Config {
    pub enable_groth16: bool,
    pub prove_timeout_secs: u64,
}

/// The height considered confirmed at a given tip: the tip minus the
/// confirmation depth, never below zero.
pub open spec fn spec_confirmed_height(tip: u64, min_confirmations: u64) -> u64 {
    if tip >= min_confirmations {
        (tip - min_confirmations) as u64
    } else {
        0u64
    }
}

/// One monitor tick: given the fetched tip and the last emitted height,
/// returns the newly confirmed height to emit, or nothing. A height is
/// emitted only when it exceeds the last emitted one, in a single jump
/// even if several blocks confirmed since the previous tick.
pub fn next_confirmed_block(tip: u64, min_confirmations: u64, last_emitted: u64) -> (r: Option<
    u64,
>)
    ensures
        r == (if spec_confirmed_height(tip, min_confirmations) > last_emitted {
            Some(spec_confirmed_height(tip, min_confirmations))
        } else {
            None::<u64>
        }),
        r matches Some(c) ==> c > last_emitted,
{
    let confirmed = if tip >= min_confirmations {
        tip - min_confirmations
    } else {
        0
    };
    if confirmed > last_emitted {
        Some(confirmed)
    } else {
        None
    }
}

} // verus!
