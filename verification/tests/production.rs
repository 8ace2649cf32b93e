use fuel_core::gas::{Instruction, Opcode};
use fuel_core::importer::BackpressurePolicy;
use fuel_core::params::ConsensusParameters;
use fuel_core::producer::{should_produce, ProducerState, Trigger};
use fuel_core::service::Service;
use fuel_core::status::{ExecutionResult, FailureReason};
use fuel_core::tx::{Input, Transaction, TxKind, Witness};

fn params(max_gas_per_tx: u64, block_gas_limit: u64) -> ConsensusParameters {
    ConsensusParameters::new(7, max_gas_per_tx, 10_000, block_gas_limit, 0)
}

fn service(p: ConsensusParameters, trigger: Trigger) -> Service {
    Service::new(p, trigger, false, vec![], 42, 0xabcd, 0)
}

fn tx_burning(gas_limit: u64, script: Vec<Instruction>, salt: u64) -> Transaction {
    Transaction {
        kind: TxKind::Script,
        inputs: vec![Input {
            utxo_id: salt,
            owner: 1,
            amount: u64::MAX,
            witness_index: 0,
            predicate: vec![],
        }],
        outputs: vec![],
        gas_limit,
        gas_price: 1,
        script,
        witnesses: vec![Witness { data: 0 }],
    }
}

#[test]
fn trigger_decisions() {
    // Instant: fires exactly when the pool is non-empty and the producer idle.
    assert!(should_produce(&Trigger::Instant, &ProducerState::Idle, 1, 0, 0, false));
    assert!(!should_produce(&Trigger::Instant, &ProducerState::Idle, 0, 0, 0, false));
    // Outside Idle every trigger is dropped.
    assert!(!should_produce(&Trigger::Instant, &ProducerState::Producing, 5, 0, 0, true));
    assert!(!should_produce(&Trigger::Instant, &ProducerState::Stopped, 5, 0, 0, true));
    // Interval: fires once the scheduled time is reached, pool or no pool.
    assert!(should_produce(&Trigger::Interval { period: 10 }, &ProducerState::Idle, 0, 10, 10, false));
    assert!(!should_produce(&Trigger::Interval { period: 10 }, &ProducerState::Idle, 9, 9, 10, false));
    // Manual: only the external request counts.
    assert!(should_produce(&Trigger::Manual, &ProducerState::Idle, 0, 0, 0, true));
    assert!(!should_produce(&Trigger::Manual, &ProducerState::Idle, 9, 99, 0, false));
}

#[test]
fn unbounded_loop_burns_its_whole_limit() {
    // An effectively unbounded amount of work under a 90_000 gas limit:
    // expect a 2-transaction block (mint + submitted), the submitted one
    // failed out-of-gas with used_gas capped at 90_000, block total within
    // 100_000.
    let p = params(90_000, 100_000);
    let mut svc = service(p, Trigger::Instant);
    let sub = svc.subscribe(BackpressurePolicy::Unbounded);
    let script = vec![Instruction { opcode: Opcode::StateWrite, operand: u64::MAX }];
    svc.submit(tx_burning(90_000, script, 0)).unwrap();
    assert!(svc.step(1, false));
    let n = svc.try_recv(sub).unwrap().expect("one block notified");
    assert_eq!(n.header.height, 1);
    assert_eq!(n.transactions.len(), 2);
    assert_eq!(n.transactions[0].kind, TxKind::Mint);
    match &n.statuses[1].result {
        ExecutionResult::Failed { reason, used_gas } => {
            assert_eq!(reason.label(), "OutOfGas");
            assert_eq!(*reason, FailureReason::OutOfGas);
            assert_eq!(*used_gas, 90_000);
        }
        other => panic!("expected out-of-gas, got {:?}", other),
    }
    let total: u64 = n
        .statuses
        .iter()
        .map(|s| match &s.result {
            ExecutionResult::Success { used_gas, .. } => *used_gas,
            ExecutionResult::Failed { used_gas, .. } => *used_gas,
        })
        .sum();
    assert!(total <= 100_000);
}

#[test]
fn interval_with_empty_pool_produces_mint_only_block() {
    let p = params(90_000, 100_000);
    let mut svc = service(p, Trigger::Interval { period: 10 });
    let sub = svc.subscribe(BackpressurePolicy::Unbounded);
    // Before the period elapses nothing is produced, pool or no pool.
    assert!(!svc.step(5, false));
    assert!(svc.step(10, false));
    let n = svc.try_recv(sub).unwrap().expect("one block notified");
    assert_eq!(n.header.height, 1);
    assert_eq!(n.transactions.len(), 1);
    assert_eq!(n.transactions[0].kind, TxKind::Mint);
    // The next cycle is due one period after this sealing.
    assert!(!svc.step(19, false));
    assert!(svc.step(20, false));
}

#[test]
fn combined_over_budget_pair_spans_two_blocks() {
    // Each transaction fits alone, together they exceed the block gas
    // limit: FIFO puts only the first into the first block; the second is
    // selected in the next cycle.
    let p = params(90_000, 100_000);
    let mut svc = service(p, Trigger::Instant);
    let sub = svc.subscribe(BackpressurePolicy::Unbounded);
    let first = tx_burning(60_000, vec![Instruction { opcode: Opcode::Add, operand: 0 }], 0);
    let second = tx_burning(60_000, vec![Instruction { opcode: Opcode::Mul, operand: 0 }], 1);
    let id_first = first.id();
    let id_second = second.id();
    svc.submit(first).unwrap();
    svc.submit(second).unwrap();
    assert!(svc.step(1, false));
    assert!(svc.step(2, false));
    let b1 = svc.try_recv(sub).unwrap().expect("first block");
    let b2 = svc.try_recv(sub).unwrap().expect("second block");
    assert_eq!(b1.header.height, 1);
    assert_eq!(b2.header.height, 2);
    assert_eq!(b1.transactions.len(), 2);
    assert_eq!(b2.transactions.len(), 2);
    assert_eq!(b1.statuses[1].id, id_first);
    assert_eq!(b2.statuses[1].id, id_second);
    // Chain links: block 2 points at block 1.
    assert_eq!(b2.header.previous_id, b1.seal);
}

#[test]
fn duplicate_submission_rejected_across_commitment() {
    let p = params(90_000, 100_000);
    let mut svc = service(p, Trigger::Instant);
    let tx = tx_burning(100, vec![], 0);
    let again = tx_burning(100, vec![], 0);
    svc.submit(tx).unwrap();
    assert!(svc.step(1, false));
    // The transaction is committed now, no longer pending; resubmitting
    // the same content is still a duplicate.
    assert_eq!(svc.submit(again), Err(fuel_core::pool::InsertError::Duplicate));
}

#[test]
fn stopped_service_produces_nothing() {
    let p = params(90_000, 100_000);
    let mut svc = service(p, Trigger::Instant);
    svc.submit(tx_burning(100, vec![], 0)).unwrap();
    svc.shutdown();
    assert!(!svc.step(1, false));
    assert_eq!(svc.importer.chain.len(), 0);
}

#[test]
fn manual_trigger_fires_only_on_request() {
    let p = params(90_000, 100_000);
    let mut svc = service(p, Trigger::Manual);
    svc.submit(tx_burning(100, vec![], 0)).unwrap();
    assert!(!svc.step(1, false));
    assert!(svc.step(2, true));
    assert_eq!(svc.importer.height, 1);
}
