//! Per-transaction interpretation: the script run under gas metering, the
//! balance and predicate checks, and the exact outcome each yields.
//!
//! Metering is inline with dispatch: before each instruction its cost is
//! added to the running total, and the moment the total would exceed the
//! effective limit the run aborts with `OutOfGas` and a `used_gas` capped
//! at exactly that limit.

use vstd::prelude::*;

use crate::gas::GasMeter;
use crate::gas::Instruction;
use crate::gas::Opcode;
use crate::gas::instr_cost;
use crate::min_u64;
use crate::params::ConsensusParameters;
use crate::status::ExecutionResult;
use crate::status::FailureReason;
use crate::status::Receipt;
use crate::tx::Input;
use crate::tx::Transaction;

verus! {

/// Mathematical outcome of interpreting one transaction: either the run
/// completed, or it aborted for a classified reason; `used` is the gas
/// charged to the block either way.
#[derive(Clone, Copy, Debug, PartialEq, Eq, Structural)]
pub enum RunOutcome {
    /// The run completed within its gas limit.
    Done {
        /// Gas consumed.
        used: u64,
    },
    /// The run aborted; for `OutOfGas` the gas is capped at the limit.
    Aborted {
        /// Why the run aborted.
        reason: FailureReason,
        /// Gas charged nonetheless.
        used: u64,
    },
}

impl RunOutcome {
    /// Gas this outcome charges against the block budget.
    pub open spec fn used(self) -> u64 {
        match self {
            RunOutcome::Done { used } => used,
            RunOutcome::Aborted { used, .. } => used,
        }
    }
}

/// Result of running the instructions of `s` from index `i` onward, with
/// `used` gas already charged against `limit`. Charging an instruction
/// that would push the total past `limit` aborts with `OutOfGas` and the
/// total pinned at `limit`; a `Trap` opcode aborts after being charged.
pub open spec fn run_script_from(s: Seq<Instruction>, limit: u64, used: u64, i: int) -> RunOutcome
    recommends
        used <= limit,
    decreases s.len() - i,
{
    if i < 0 || i >= s.len() {
        RunOutcome::Done { used }
    } else if used + instr_cost(s[i]) > limit {
        RunOutcome::Aborted { reason: FailureReason::OutOfGas, used: limit }
    } else if s[i].opcode is Trap {
        RunOutcome::Aborted {
            reason: FailureReason::Trap,
            used: (used + instr_cost(s[i])) as u64,
        }
    } else {
        run_script_from(s, limit, (used + instr_cost(s[i])) as u64, i + 1)
    }
}

/// Result of running a whole script against a gas limit.
pub open spec fn run_script(s: Seq<Instruction>, limit: u64) -> RunOutcome {
    run_script_from(s, limit, 0, 0)
}

/// Total metered cost of the instructions of `s` from index `i` onward.
pub open spec fn script_cost_from(s: Seq<Instruction>, i: int) -> nat
    decreases s.len() - i,
{
    if i < 0 || i >= s.len() {
        0
    } else {
        instr_cost(s[i]) + script_cost_from(s, i + 1)
    }
}

/// Total metered cost of a whole script.
pub open spec fn script_cost(s: Seq<Instruction>) -> nat {
    script_cost_from(s, 0)
}

/// A run never charges more than its limit, and what it had already
/// charged never shrinks.
pub proof fn lemma_run_used_bounds(s: Seq<Instruction>, limit: u64, used: u64, i: int)
    requires
        used <= limit,
    ensures
        run_script_from(s, limit, used, i).used() <= limit,
        run_script_from(s, limit, used, i).used() >= used,
    decreases s.len() - i,
{
    if i < 0 || i >= s.len() {
    } else if used + instr_cost(s[i]) > limit {
    } else if s[i].opcode is Trap {
    } else {
        lemma_run_used_bounds(s, limit, (used + instr_cost(s[i])) as u64, i + 1);
    }
}

/// A trap-free script whose total cost exceeds the limit always runs out
/// of gas, with `used` capped at exactly the limit.
pub proof fn lemma_overspending_script_runs_out(s: Seq<Instruction>, limit: u64, used: u64, i: int)
    requires
        used <= limit,
        forall|k: int| i <= k < s.len() ==> !((#[trigger] s[k]).opcode is Trap),
        used + script_cost_from(s, i) > limit,
    ensures
        run_script_from(s, limit, used, i) == (RunOutcome::Aborted {
            reason: FailureReason::OutOfGas,
            used: limit,
        }),
    decreases s.len() - i,
{
    if i < 0 || i >= s.len() {
        assert(script_cost_from(s, i) == 0);
    } else if used + instr_cost(s[i]) > limit {
    } else {
        assert(!(s[i].opcode is Trap));
        lemma_overspending_script_runs_out(s, limit, (used + instr_cost(s[i])) as u64, i + 1);
    }
}

/// A trap-free script whose total cost fits the limit completes, charging
/// exactly its cost.
pub proof fn lemma_affordable_script_completes(s: Seq<Instruction>, limit: u64, used: u64, i: int)
    requires
        used <= limit,
        forall|k: int| i <= k < s.len() ==> !((#[trigger] s[k]).opcode is Trap),
        used + script_cost_from(s, i) <= limit,
    ensures
        run_script_from(s, limit, used, i) == (RunOutcome::Done {
            used: (used + script_cost_from(s, i)) as u64,
        }),
    decreases s.len() - i,
{
    if i < 0 || i >= s.len() {
    } else {
        lemma_affordable_script_completes(s, limit, (used + instr_cost(s[i])) as u64, i + 1);
    }
}


/// A transaction whose trace deterministically exceeds its gas limit —
/// its trap-free script costs more than its effective limit, while its
/// balance and predicates are in order — always fails with `OutOfGas`,
/// and its `used_gas` is the limit exactly: capped, never the uncapped
/// attempted total.
pub proof fn lemma_tx_out_of_gas(tx: Transaction, params: ConsensusParameters)
    requires
        tx.kind is Script,
        spec_balance_ok(tx),
        spec_predicates_ok(tx, params),
        forall|k: int| 0 <= k < tx.script@.len() ==> !((#[trigger] tx.script@[k]).opcode is Trap),
        script_cost(tx.script@) > tx_limit(tx, params),
    ensures
        spec_tx_outcome(tx, params) == (RunOutcome::Aborted {
            reason: FailureReason::OutOfGas,
            used: tx_limit(tx, params),
        }),
{
    lemma_overspending_script_runs_out(tx.script@, tx_limit(tx, params), 0, 0);
}

/// Saturating addition at the width the balance check is carried in.
pub open spec fn sat_add(a: nat, b: nat) -> nat {
    if a + b > u128::MAX {
        u128::MAX as nat
    } else {
        a + b
    }
}

/// Value the inputs of `s` from index `i` onward make available, summed
/// into `acc`, saturating at the arithmetic width.
pub open spec fn sum_input_amounts(s: Seq<Input>, i: int, acc: nat) -> nat
    decreases s.len() - i,
{
    if i < 0 || i >= s.len() {
        acc
    } else {
        sum_input_amounts(s, i + 1, sat_add(acc, s[i].amount as nat))
    }
}

/// Value the outputs of `s` from index `i` onward transfer, summed into
/// `acc`, saturating at the arithmetic width.
pub open spec fn sum_output_amounts(s: Seq<crate::tx::Output>, i: int, acc: nat) -> nat
    decreases s.len() - i,
{
    if i < 0 || i >= s.len() {
        acc
    } else {
        sum_output_amounts(s, i + 1, sat_add(acc, s[i].amount as nat))
    }
}

/// Largest fee the transaction may be charged: its declared gas limit at
/// its declared price.
pub open spec fn max_fee(tx: Transaction) -> nat {
    (tx.gas_limit as nat) * (tx.gas_price as nat)
}

/// The inputs cover the outputs plus the maximum fee.
pub open spec fn spec_balance_ok(tx: Transaction) -> bool {
    sum_input_amounts(tx.inputs@, 0, 0) >= sat_add(sum_output_amounts(tx.outputs@, 0, 0), max_fee(tx))
}

/// Every input predicate of the transaction stays within the per-predicate
/// gas cap; the model under which a predicate evaluates true.
pub open spec fn spec_predicates_ok(tx: Transaction, params: ConsensusParameters) -> bool {
    forall|i: int|
        0 <= i < tx.inputs@.len() ==> script_cost((#[trigger] tx.inputs@[i]).predicate@)
            <= params.max_gas_per_predicate
}

/// Effective gas limit of one transaction: its declared limit clipped to
/// the per-transaction protocol cap.
pub open spec fn tx_limit(tx: Transaction, params: ConsensusParameters) -> u64 {
    min_u64(tx.gas_limit, params.max_gas_per_tx)
}

/// The exact outcome of interpreting one transaction: balance first, then
/// predicates, then the metered script run. Mint transactions are exempt
/// from all three and charge no gas.
pub open spec fn spec_tx_outcome(tx: Transaction, params: ConsensusParameters) -> RunOutcome {
    if tx.kind is Mint {
        RunOutcome::Done { used: 0 }
    } else if !spec_balance_ok(tx) {
        RunOutcome::Aborted { reason: FailureReason::InsufficientBalance, used: 0 }
    } else if !spec_predicates_ok(tx, params) {
        RunOutcome::Aborted { reason: FailureReason::PredicateFailure, used: 0 }
    } else {
        run_script(tx.script@, tx_limit(tx, params))
    }
}

/// The gas any transaction outcome charges stays within the effective
/// per-transaction limit.
pub proof fn lemma_tx_outcome_within_limit(tx: Transaction, params: ConsensusParameters)
    ensures
        spec_tx_outcome(tx, params).used() <= tx_limit(tx, params),
{
    if tx.kind is Mint {
    } else if !spec_balance_ok(tx) {
    } else if !spec_predicates_ok(tx, params) {
    } else {
        lemma_run_used_bounds(tx.script@, tx_limit(tx, params), 0, 0);
    }
}

/// The executable result reports exactly the mathematical outcome: same
/// variant, same reason, same gas, and on success the single script-result
/// receipt carrying that gas.
pub open spec fn result_conforms(r: ExecutionResult, o: RunOutcome) -> bool {
    match o {
        RunOutcome::Done { used } => r matches ExecutionResult::Success { receipts, used_gas }
            && used_gas == used && receipts@ == seq![Receipt::ScriptResult { gas_used: used }],
        RunOutcome::Aborted { reason, used } => r matches ExecutionResult::Failed {
            reason: r_reason,
            used_gas,
        } && r_reason == reason && used_gas == used,
    }
}

/// Checks that a whole script's metered cost stays within `limit`,
/// stopping as soon as the running total passes it.
fn script_within(s: &Vec<Instruction>, limit: u64) -> (r: bool)
    ensures
        r == (script_cost(s@) <= limit),
{
    let mut acc: u128 = 0;
    let mut i: usize = 0;
    while i < s.len()
        invariant
            0 <= i <= s@.len(),
            acc <= limit,
            acc + script_cost_from(s@, i as int) == script_cost(s@),
        decreases s@.len() - i,
    {
        proof {
            crate::gas::lemma_instr_cost_bound(s@[i as int]);
        }
        let c: u128 = crate::gas::cost(&s[i]);
        let next: u128 = acc + c;
        if next > limit as u128 {
            return false;
        }
        acc = next;
        i = i + 1;
    }
    true
}

/// Runs the metered interpretation of one transaction and reports its
/// result; never panics and never charges past the effective limit.
pub fn execute_tx(tx: &Transaction, params: &ConsensusParameters) -> (r: ExecutionResult)
    ensures
        result_conforms(r, spec_tx_outcome(*tx, *params)),
{
    if matches!(tx.kind, crate::tx::TxKind::Mint) {
        let mut receipts: Vec<Receipt> = Vec::new();
        receipts.push(Receipt::ScriptResult { gas_used: 0 });
        assert(receipts@ == seq![Receipt::ScriptResult { gas_used: 0u64 }]);
        return ExecutionResult::Success { receipts, used_gas: 0 };
    }
    if !balance_ok(tx) {
        return ExecutionResult::Failed { reason: FailureReason::InsufficientBalance, used_gas: 0 };
    }
    if !predicates_ok(tx, params) {
        return ExecutionResult::Failed { reason: FailureReason::PredicateFailure, used_gas: 0 };
    }
    let limit: u64 = crate::gas_min(tx.gas_limit, params.max_gas_per_tx);
    let mut meter = GasMeter::new(limit);
    let mut i: usize = 0;
    while i < tx.script.len()
        invariant
            0 <= i <= tx.script@.len(),
            meter.wf(),
            meter.limit == tx_limit(*tx, *params),
            spec_tx_outcome(*tx, *params) == run_script_from(
                tx.script@,
                meter.limit,
                meter.used,
                i as int,
            ),
        decreases tx.script@.len() - i,
    {
        let ins = tx.script[i];
        let ok = meter.charge(&ins);
        if !ok {
            return ExecutionResult::Failed { reason: FailureReason::OutOfGas, used_gas: meter.limit };
        }
        if matches!(ins.opcode, Opcode::Trap) {
            return ExecutionResult::Failed { reason: FailureReason::Trap, used_gas: meter.used };
        }
        i = i + 1;
    }
    let used: u64 = meter.used;
    let mut receipts: Vec<Receipt> = Vec::new();
    receipts.push(Receipt::ScriptResult { gas_used: used });
    assert(receipts@ == seq![Receipt::ScriptResult { gas_used: used }]);
    ExecutionResult::Success { receipts, used_gas: used }
}

/// Checks [`spec_balance_ok`] with saturating sums.
fn balance_ok(tx: &Transaction) -> (r: bool)
    ensures
        r == spec_balance_ok(*tx),
{
    let mut acc_in: u128 = 0;
    let mut i: usize = 0;
    while i < tx.inputs.len()
        invariant
            0 <= i <= tx.inputs@.len(),
            sum_input_amounts(tx.inputs@, i as int, acc_in as nat) == sum_input_amounts(
                tx.inputs@,
                0,
                0,
            ),
        decreases tx.inputs@.len() - i,
    {
        acc_in = sat_add_u128(acc_in, tx.inputs[i].amount as u128);
        i = i + 1;
    }
    let mut acc_out: u128 = 0;
    let mut j: usize = 0;
    while j < tx.outputs.len()
        invariant
            0 <= j <= tx.outputs@.len(),
            sum_output_amounts(tx.outputs@, j as int, acc_out as nat) == sum_output_amounts(
                tx.outputs@,
                0,
                0,
            ),
        decreases tx.outputs@.len() - j,
    {
        acc_out = sat_add_u128(acc_out, tx.outputs[j].amount as u128);
        j = j + 1;
    }
    assert((tx.gas_limit as u128) * (tx.gas_price as u128) <= u128::MAX) by (nonlinear_arith)
        requires
            tx.gas_limit <= u64::MAX,
            tx.gas_price <= u64::MAX,
    ;
    let fee: u128 = tx.gas_limit as u128 * tx.gas_price as u128;
    let needed: u128 = sat_add_u128(acc_out, fee);
    acc_in >= needed
}

/// Saturating `u128` addition.
fn sat_add_u128(a: u128, b: u128) -> (r: u128)
    ensures
        r as nat == sat_add(a as nat, b as nat),
{
    if a > u128::MAX - b {
        u128::MAX
    } else {
        a + b
    }
}

/// Checks [`spec_predicates_ok`]: every input predicate within the
/// per-predicate cap.
pub(crate) fn predicates_ok(tx: &Transaction, params: &ConsensusParameters) -> (r: bool)
    ensures
        r == spec_predicates_ok(*tx, *params),
{
    let mut i: usize = 0;
    while i < tx.inputs.len()
        invariant
            0 <= i <= tx.inputs@.len(),
            forall|k: int|
                0 <= k < i ==> script_cost((#[trigger] tx.inputs@[k]).predicate@)
                    <= params.max_gas_per_predicate,
        decreases tx.inputs@.len() - i,
    {
        if !script_within(&tx.inputs[i].predicate, params.max_gas_per_predicate) {
            return false;
        }
        i = i + 1;
    }
    true
}

} // verus!
