use fuel_core::gas::{Instruction, Opcode};
use fuel_core::params::ConsensusParameters;
use fuel_core::pool::{InsertError, TransactionPool};
use fuel_core::tx::{Input, Transaction, TxKind, Witness};

fn params() -> ConsensusParameters {
    ConsensusParameters::new(7, 90_000, 10_000, 100_000, 0)
}

fn simple_tx(gas_limit: u64, salt: u64) -> Transaction {
    Transaction {
        kind: TxKind::Script,
        inputs: vec![Input {
            utxo_id: salt,
            owner: 1,
            amount: 1_000_000,
            witness_index: 0,
            predicate: vec![],
        }],
        outputs: vec![],
        gas_limit,
        gas_price: 1,
        script: vec![Instruction { opcode: Opcode::Add, operand: 0 }],
        witnesses: vec![Witness { data: 9 }],
    }
}

#[test]
fn accepted_transaction_is_pending_fifo() {
    let mut pool = TransactionPool::new(false, vec![]);
    let p = params();
    let id0 = pool.insert(simple_tx(100, 0), &p).unwrap();
    let id1 = pool.insert(simple_tx(100, 1), &p).unwrap();
    assert_ne!(id0, id1);
    assert_eq!(pool.len(), 2);
    assert_eq!(pool.pending_ids, vec![id0, id1]);
}

#[test]
fn duplicate_of_pending_is_rejected_pool_unchanged() {
    let mut pool = TransactionPool::new(false, vec![]);
    let p = params();
    pool.insert(simple_tx(100, 0), &p).unwrap();
    assert_eq!(pool.insert(simple_tx(100, 0), &p), Err(InsertError::Duplicate));
    assert_eq!(pool.len(), 1);
}

#[test]
fn duplicate_of_committed_is_rejected() {
    let mut pool = TransactionPool::new(false, vec![]);
    let p = params();
    let tx = simple_tx(100, 0);
    let id = tx.id();
    pool.mark_committed(&vec![id]);
    assert_eq!(pool.insert(tx, &p), Err(InsertError::Duplicate));
    assert_eq!(pool.len(), 0);
}

#[test]
fn over_cap_gas_limit_is_rejected() {
    let mut pool = TransactionPool::new(false, vec![]);
    assert_eq!(
        pool.insert(simple_tx(90_001, 0), &params()),
        Err(InsertError::GasLimitExceeded)
    );
}

#[test]
fn expensive_predicate_is_rejected() {
    let mut pool = TransactionPool::new(false, vec![]);
    let mut tx = simple_tx(100, 0);
    // 120 + 16 * 1000 gas, far over the 10_000 predicate cap.
    tx.inputs[0].predicate = vec![Instruction { opcode: Opcode::StateWrite, operand: 1000 }];
    assert_eq!(pool.insert(tx, &params()), Err(InsertError::PredicateTooExpensive));
}

#[test]
fn bad_witness_index_is_malformed() {
    let mut pool = TransactionPool::new(false, vec![]);
    let mut tx = simple_tx(100, 0);
    tx.inputs[0].witness_index = 5;
    assert_eq!(pool.insert(tx, &params()), Err(InsertError::MalformedInput));
}

#[test]
fn mint_kind_cannot_be_submitted() {
    let mut pool = TransactionPool::new(false, vec![]);
    let mut tx = simple_tx(100, 0);
    tx.kind = TxKind::Mint;
    assert_eq!(pool.insert(tx, &params()), Err(InsertError::MalformedInput));
}

#[test]
fn unknown_input_rejected_when_validation_on() {
    let mut pool = TransactionPool::new(true, vec![77]);
    let p = params();
    assert_eq!(pool.insert(simple_tx(100, 0), &p), Err(InsertError::MalformedInput));
    assert!(pool.insert(simple_tx(100, 77), &p).is_ok());
}

#[test]
fn unknown_input_accepted_when_validation_off() {
    let mut pool = TransactionPool::new(false, vec![]);
    assert!(pool.insert(simple_tx(100, 12345), &params()).is_ok());
}

#[test]
fn select_takes_longest_fifo_prefix_within_gas() {
    let mut pool = TransactionPool::new(false, vec![]);
    let p = params();
    pool.insert(simple_tx(40, 0), &p).unwrap();
    pool.insert(simple_tx(50, 1), &p).unwrap();
    pool.insert(simple_tx(30, 2), &p).unwrap();
    let batch = pool.select(100);
    assert_eq!(batch.len(), 2);
    assert_eq!(batch[0].gas_limit, 40);
    assert_eq!(batch[1].gas_limit, 50);
    assert_eq!(pool.len(), 1);
    assert_eq!(pool.pending[0].gas_limit, 30);
}

#[test]
fn select_on_empty_pool_is_empty() {
    let mut pool = TransactionPool::new(false, vec![]);
    assert!(pool.select(100_000).is_empty());
}

#[test]
fn requeue_puts_deferred_back_in_front() {
    let mut pool = TransactionPool::new(false, vec![]);
    let p = params();
    pool.insert(simple_tx(40, 0), &p).unwrap();
    let a = simple_tx(99, 50);
    let b = simple_tx(98, 51);
    pool.requeue(vec![a, b]);
    assert_eq!(pool.len(), 3);
    assert_eq!(pool.pending[0].gas_limit, 99);
    assert_eq!(pool.pending[1].gas_limit, 98);
    assert_eq!(pool.pending[2].gas_limit, 40);
}

#[test]
fn id_is_stable_and_content_addressed() {
    let a = simple_tx(100, 0);
    let b = simple_tx(100, 0);
    assert_eq!(a.id(), b.id());
    let c = simple_tx(101, 0);
    assert_ne!(a.id(), c.id());
}
