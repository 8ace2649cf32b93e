//! Per-network consensus limits, loaded once at node start and shared
//! read-only with every other component.

use vstd::prelude::*;

verus! {

/// Immutable per-network limits. Constructed once at startup; no component
/// mutates it while the service runs.
#[derive(Clone, Copy, Debug)]
pub struct ConsensusParameters {
    /// Identifier of the chain the node participates in.
    pub chain_id: u64,
    /// Upper bound on the declared gas limit of a single transaction.
    pub max_gas_per_tx: u64,
    /// Upper bound on the metered cost of a single input predicate.
    pub max_gas_per_predicate: u64,
    /// Upper bound on the summed `used_gas` of all transactions in a block.
    pub block_gas_limit: u64,
    /// Asset in which fees are charged and the block reward is minted.
    pub base_asset_id: u64,
}

impl ConsensusParameters {
    /// Builds the parameter set from its five limits.
    pub fn new(
        chain_id: u64,
        max_gas_per_tx: u64,
        max_gas_per_predicate: u64,
        block_gas_limit: u64,
        base_asset_id: u64,
    ) -> (p: ConsensusParameters)
        ensures
            p.chain_id == chain_id,
            p.max_gas_per_tx == max_gas_per_tx,
            p.max_gas_per_predicate == max_gas_per_predicate,
            p.block_gas_limit == block_gas_limit,
            p.base_asset_id == base_asset_id,
    {
        ConsensusParameters { chain_id, max_gas_per_tx, max_gas_per_predicate, block_gas_limit, base_asset_id }
    }
}

} // verus!
