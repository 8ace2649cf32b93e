//! Execution results and per-transaction status records.

use vstd::prelude::*;

verus! {

/// Classification of an execution-time failure. Such a failure is not a
/// system error: the transaction is committed with a `Failed` result and
/// the containing block remains valid.
#[derive(Clone, Copy, Debug, PartialEq, Eq, Structural)]
pub enum FailureReason {
    /// The metered cost of the script exceeded the transaction's gas
    /// limit.
    OutOfGas,
    /// An input predicate was rejected.
    PredicateFailure,
    /// The script executed an explicit abort.
    Trap,
    /// The inputs do not cover the outputs plus the maximum fee.
    InsufficientBalance,
}

impl FailureReason {
    /// The classification string of this reason.
    pub fn label(&self) -> (r: String)
        ensures
            *self is OutOfGas ==> r@ == "OutOfGas"@,
            *self is PredicateFailure ==> r@ == "PredicateFailure"@,
            *self is Trap ==> r@ == "Trap"@,
            *self is InsufficientBalance ==> r@ == "InsufficientBalance"@,
    {
        match self {
            FailureReason::OutOfGas => "OutOfGas".to_string(),
            FailureReason::PredicateFailure => "PredicateFailure".to_string(),
            FailureReason::Trap => "Trap".to_string(),
            FailureReason::InsufficientBalance => "InsufficientBalance".to_string(),
        }
    }
}

/// Record emitted by a successfully executed script.
#[derive(Clone, Copy, Debug, PartialEq, Eq, Structural)]
pub enum Receipt {
    /// Terminal receipt of a script run: the gas it consumed.
    ScriptResult {
        /// Gas consumed by the script.
        gas_used: u64,
    },
}

/// Outcome of executing one transaction. A `Failed` result does not
/// invalidate the containing block.
#[derive(Debug)]
pub enum ExecutionResult {
    /// The script ran to completion within its gas limit.
    Success {
        /// Receipts emitted by the run.
        receipts: Vec<Receipt>,
        /// Gas consumed.
        used_gas: u64,
    },
    /// The script failed; `used_gas` is capped at the transaction's
    /// effective gas limit.
    Failed {
        /// Why the transaction failed.
        reason: FailureReason,
        /// Gas consumed, capped at the limit.
        used_gas: u64,
    },
}

impl ExecutionResult {
    /// Gas this result charges against the block budget.
    pub open spec fn spec_used_gas(self) -> u64 {
        match self {
            ExecutionResult::Success { used_gas, .. } => used_gas,
            ExecutionResult::Failed { used_gas, .. } => used_gas,
        }
    }

    /// Reads the gas charged, whichever variant holds.
    pub fn used_gas(&self) -> (r: u64)
        ensures
            r == self.spec_used_gas(),
    {
        match self {
            ExecutionResult::Success { used_gas, .. } => *used_gas,
            ExecutionResult::Failed { used_gas, .. } => *used_gas,
        }
    }
}

/// Status of one included transaction, produced exactly once when the
/// executor processes it; persists for lookup after the pool entry is
/// gone.
#[derive(Debug)]
pub struct TxStatus {
    /// Content-addressed id of the transaction.
    pub id: u64,
    /// Height of the block that includes it.
    pub block_height: u32,
    /// How its execution ended.
    pub result: ExecutionResult,
}


/// Field-for-field equality of two execution results, receipts compared
/// as sequences.
pub open spec fn eq_result(a: ExecutionResult, b: ExecutionResult) -> bool {
    match a {
        ExecutionResult::Success { receipts: ra, used_gas: ua } => b matches ExecutionResult::Success {
            receipts: rb,
            used_gas: ub,
        } && ra@ == rb@ && ua == ub,
        ExecutionResult::Failed { reason: qa, used_gas: ua } => b matches ExecutionResult::Failed {
            reason: qb,
            used_gas: ub,
        } && qa == qb && ua == ub,
    }
}

/// Field-for-field equality of two status records.
pub open spec fn eq_status(a: TxStatus, b: TxStatus) -> bool {
    a.id == b.id && a.block_height == b.block_height && eq_result(a.result, b.result)
}

/// Index-wise [`eq_status`] over two status sequences.
pub open spec fn eq_status_seq(a: Seq<TxStatus>, b: Seq<TxStatus>) -> bool {
    a.len() == b.len() && forall|i: int| 0 <= i < a.len() ==> eq_status(#[trigger] a[i], b[i])
}

impl ExecutionResult {
    /// Copy of this result, equal field for field.
    pub fn duplicate(&self) -> (r: ExecutionResult)
        ensures
            eq_result(r, *self),
    {
        match self {
            ExecutionResult::Success { receipts, used_gas } => ExecutionResult::Success {
                receipts: crate::tx::copy_vec(receipts),
                used_gas: *used_gas,
            },
            ExecutionResult::Failed { reason, used_gas } => ExecutionResult::Failed {
                reason: *reason,
                used_gas: *used_gas,
            },
        }
    }
}

impl TxStatus {
    /// Copy of this status record, equal field for field.
    pub fn duplicate(&self) -> (r: TxStatus)
        ensures
            eq_status(r, *self),
    {
        TxStatus { id: self.id, block_height: self.block_height, result: self.result.duplicate() }
    }
}

} // verus!
