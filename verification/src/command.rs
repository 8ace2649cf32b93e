//! Top-level command model of the node binary: run a node or take a
//! snapshot. Argument parsing itself is an external collaborator; these
//! types carry the parsed configuration into the core.

use vstd::prelude::*;

use crate::params::ConsensusParameters;
use crate::producer::Trigger;

verus! {

/// Configuration of a running node: where the database lives, the
/// consensus limits, the trigger policy, and the admission flags.
pub struct RunCommand {
    /// Database directory.
    pub db_path: String,
    /// Identifier of the chain to join.
    pub chain_id: u64,
    /// Per-transaction gas cap.
    pub max_gas_per_tx: u64,
    /// Per-predicate gas cap.
    pub max_gas_per_predicate: u64,
    /// Block gas budget.
    pub block_gas_limit: u64,
    /// Fee and reward asset.
    pub base_asset_id: u64,
    /// Production trigger policy.
    pub trigger: Trigger,
    /// Whether input existence is validated at admission.
    pub utxo_validation: bool,
    /// Identity this node produces blocks under.
    pub producer_id: u64,
}

impl RunCommand {
    /// The consensus parameter set this configuration describes.
    pub fn consensus_params(&self) -> (p: ConsensusParameters)
        ensures
            p.chain_id == self.chain_id,
            p.max_gas_per_tx == self.max_gas_per_tx,
            p.max_gas_per_predicate == self.max_gas_per_predicate,
            p.block_gas_limit == self.block_gas_limit,
            p.base_asset_id == self.base_asset_id,
    {
        ConsensusParameters {
            chain_id: self.chain_id,
            max_gas_per_tx: self.max_gas_per_tx,
            max_gas_per_predicate: self.max_gas_per_predicate,
            block_gas_limit: self.block_gas_limit,
            base_asset_id: self.base_asset_id,
        }
    }
}

/// Configuration of a snapshot export.
pub struct SnapshotCommand {
    /// Database directory to snapshot.
    pub db_path: String,
}

/// The node's subcommands.
pub enum Fuel {
    /// Run the node.
    Run(RunCommand),
    /// Export a snapshot of the database.
    Snapshot(SnapshotCommand),
}

/// The parsed invocation.
pub struct Opt {
    /// The chosen subcommand.
    pub command: Fuel,
}

impl Opt {
    /// Wraps a subcommand.
    pub fn new(command: Fuel) -> (o: Opt)
        ensures
            o.command == command,
    {
        Opt { command }
    }
}

} // verus!
