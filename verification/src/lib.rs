//! Execution and block-production core of a blockchain full node.
//!
//! The crate admits submitted transactions into a pool, meters their
//! computational cost deterministically, assembles blocks under a
//! protocol-wide gas budget, and publishes sealed blocks to subscribers
//! in strict height order.

use vstd::prelude::*;

pub mod block;
pub mod command;
pub mod executor;
pub mod gas;
pub mod importer;
pub mod interpreter;
pub mod params;
pub mod producer;
pub mod pool;
pub mod service;
pub mod status;
pub mod tx;

verus! {

/// Smaller of two gas amounts.
pub open spec fn min_u64(a: u64, b: u64) -> u64 {
    if a <= b {
        a
    } else {
        b
    }
}

/// Executable counterpart of [`min_u64`].
pub fn gas_min(a: u64, b: u64) -> (r: u64)
    ensures
        r == min_u64(a, b),
{
    if a <= b {
        a
    } else {
        b
    }
}

} // verus!
