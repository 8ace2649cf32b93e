use fuel_core::executor::execute;
use fuel_core::gas::{Instruction, Opcode};
use fuel_core::interpreter::execute_tx;
use fuel_core::params::ConsensusParameters;
use fuel_core::producer::make_mint;
use fuel_core::status::{ExecutionResult, FailureReason, Receipt};
use fuel_core::tx::{Input, Transaction, TxKind, Witness};

fn params() -> ConsensusParameters {
    ConsensusParameters::new(7, 90_000, 10_000, 100_000, 0)
}

fn tx_with_script(gas_limit: u64, script: Vec<Instruction>) -> Transaction {
    Transaction {
        kind: TxKind::Script,
        inputs: vec![Input {
            utxo_id: 1,
            owner: 1,
            amount: 10_000_000,
            witness_index: 0,
            predicate: vec![],
        }],
        outputs: vec![],
        gas_limit,
        gas_price: 1,
        script,
        witnesses: vec![Witness { data: 0 }],
    }
}

#[test]
fn successful_run_reports_exact_gas_and_receipt() {
    let tx = tx_with_script(
        100,
        vec![
            Instruction { opcode: Opcode::Add, operand: 0 },
            Instruction { opcode: Opcode::Mul, operand: 0 },
        ],
    );
    match execute_tx(&tx, &params()) {
        ExecutionResult::Success { receipts, used_gas } => {
            assert_eq!(used_gas, 4);
            assert_eq!(receipts, vec![Receipt::ScriptResult { gas_used: 4 }]);
        }
        other => panic!("expected success, got {:?}", other),
    }
}

#[test]
fn out_of_gas_is_capped_at_the_limit() {
    // Cost 3 per Mul; eleven of them exceed a limit of 32.
    let script = vec![Instruction { opcode: Opcode::Mul, operand: 0 }; 11];
    let tx = tx_with_script(32, script);
    match execute_tx(&tx, &params()) {
        ExecutionResult::Failed { reason, used_gas } => {
            assert_eq!(reason, FailureReason::OutOfGas);
            assert_eq!(reason.label(), "OutOfGas");
            assert_eq!(used_gas, 32);
        }
        other => panic!("expected out-of-gas, got {:?}", other),
    }
}

#[test]
fn effective_limit_is_clipped_by_protocol_cap() {
    // Declared limit far above the 90_000 cap; a script costing more than
    // the cap runs out at the cap, not at the declared limit.
    let script = vec![Instruction { opcode: Opcode::StateWrite, operand: 10_000 }];
    let mut tx = tx_with_script(u64::MAX, script);
    tx.gas_price = 0;
    match execute_tx(&tx, &params()) {
        ExecutionResult::Failed { reason, used_gas } => {
            assert_eq!(reason, FailureReason::OutOfGas);
            assert_eq!(used_gas, 90_000);
        }
        other => panic!("expected out-of-gas, got {:?}", other),
    }
}

#[test]
fn trap_aborts_after_being_charged() {
    let tx = tx_with_script(
        100,
        vec![
            Instruction { opcode: Opcode::Add, operand: 0 },
            Instruction { opcode: Opcode::Trap, operand: 0 },
            Instruction { opcode: Opcode::Add, operand: 0 },
        ],
    );
    match execute_tx(&tx, &params()) {
        ExecutionResult::Failed { reason, used_gas } => {
            assert_eq!(reason, FailureReason::Trap);
            assert_eq!(reason.label(), "Trap");
            assert_eq!(used_gas, 2);
        }
        other => panic!("expected trap, got {:?}", other),
    }
}

#[test]
fn uncovered_fee_is_insufficient_balance() {
    let mut tx = tx_with_script(100, vec![]);
    tx.inputs[0].amount = 10;
    // Fee is gas_limit * gas_price = 100, not covered by 10.
    match execute_tx(&tx, &params()) {
        ExecutionResult::Failed { reason, used_gas } => {
            assert_eq!(reason, FailureReason::InsufficientBalance);
            assert_eq!(reason.label(), "InsufficientBalance");
            assert_eq!(used_gas, 0);
        }
        other => panic!("expected insufficient balance, got {:?}", other),
    }
}

#[test]
fn expensive_predicate_fails_at_execution_when_admission_skipped() {
    let mut tx = tx_with_script(100, vec![]);
    tx.inputs[0].predicate = vec![Instruction { opcode: Opcode::StateWrite, operand: 1000 }];
    match execute_tx(&tx, &params()) {
        ExecutionResult::Failed { reason, used_gas } => {
            assert_eq!(reason, FailureReason::PredicateFailure);
            assert_eq!(reason.label(), "PredicateFailure");
            assert_eq!(used_gas, 0);
        }
        other => panic!("expected predicate failure, got {:?}", other),
    }
}

#[test]
fn batch_prepends_mint_and_stays_within_block_gas() {
    let p = params();
    let mint = make_mint(42, p.base_asset_id);
    let candidates = vec![
        tx_with_script(100, vec![Instruction { opcode: Opcode::Add, operand: 0 }]),
        tx_with_script(100, vec![Instruction { opcode: Opcode::Mul, operand: 0 }]),
    ];
    let out = execute(mint, candidates, &p, 1);
    assert_eq!(out.committed.len(), 3);
    assert_eq!(out.committed[0].kind, TxKind::Mint);
    assert_eq!(out.statuses.len(), 3);
    assert_eq!(out.used_gas_total, 4);
    assert!(out.skipped.is_empty());
    assert!(out.deferred.is_empty());
    let total: u64 = out
        .statuses
        .iter()
        .map(|s| match &s.result {
            ExecutionResult::Success { used_gas, .. } => *used_gas,
            ExecutionResult::Failed { used_gas, .. } => *used_gas,
        })
        .sum();
    assert!(total <= p.block_gas_limit);
    assert_eq!(total, out.used_gas_total);
}

#[test]
fn failed_transaction_is_still_committed() {
    let p = params();
    let mint = make_mint(42, p.base_asset_id);
    let bad = tx_with_script(8, vec![Instruction { opcode: Opcode::Mul, operand: 0 }; 5]);
    let out = execute(mint, vec![bad], &p, 1);
    assert_eq!(out.committed.len(), 2);
    match &out.statuses[1].result {
        ExecutionResult::Failed { reason, used_gas } => {
            assert_eq!(*reason, FailureReason::OutOfGas);
            assert_eq!(*used_gas, 8);
        }
        other => panic!("expected failure, got {:?}", other),
    }
}

#[test]
fn malformed_candidate_is_skipped_not_failed() {
    let p = params();
    let mint = make_mint(42, p.base_asset_id);
    let mut bad = tx_with_script(100, vec![]);
    bad.inputs[0].witness_index = 9;
    let good = tx_with_script(100, vec![]);
    let out = execute(mint, vec![bad, good], &p, 1);
    assert_eq!(out.skipped.len(), 1);
    assert_eq!(out.committed.len(), 2);
    assert!(out.deferred.is_empty());
}

#[test]
fn over_budget_candidate_is_deferred_and_assembly_stops() {
    // Block gas limit 10: the first candidate burns 9, the second would
    // push past the limit and is deferred together with the third.
    let p = ConsensusParameters::new(7, 90_000, 10_000, 10, 0);
    let mint = make_mint(42, p.base_asset_id);
    let mut burn9 = tx_with_script(9, vec![Instruction { opcode: Opcode::Mul, operand: 0 }; 3]);
    burn9.gas_price = 0;
    let mut burn2 = tx_with_script(2, vec![Instruction { opcode: Opcode::Add, operand: 0 }; 2]);
    burn2.gas_price = 0;
    let mut burn1 = tx_with_script(1, vec![Instruction { opcode: Opcode::Add, operand: 0 }]);
    burn1.gas_price = 0;
    let out = execute(mint, vec![burn9, burn2, burn1], &p, 1);
    assert_eq!(out.committed.len(), 2);
    assert_eq!(out.used_gas_total, 9);
    assert_eq!(out.deferred.len(), 2);
    assert_eq!(out.deferred[0].gas_limit, 2);
    assert_eq!(out.deferred[1].gas_limit, 1);
}

#[test]
fn mint_is_gas_exempt() {
    let p = params();
    let mint = make_mint(42, p.base_asset_id);
    let out = execute(mint, vec![], &p, 1);
    assert_eq!(out.committed.len(), 1);
    assert_eq!(out.used_gas_total, 0);
    match &out.statuses[0].result {
        ExecutionResult::Success { used_gas, .. } => assert_eq!(*used_gas, 0),
        other => panic!("mint must succeed, got {:?}", other),
    }
}
