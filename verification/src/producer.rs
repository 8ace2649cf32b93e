//! Trigger-driven block production: the `Idle → Producing → Sealed →
//! Idle` cycle that pulls a batch from the pool, executes it, and seals a
//! block.
//!
//! At most one production cycle is in flight: a trigger observed outside
//! `Idle` is dropped. `Interval` reschedules from the previous sealing,
//! never from wall-clock drift.

use vstd::prelude::*;

use crate::block::BlockHeader;
use crate::block::SealedBlock;
use crate::executor::ExecutionOutcome;
use crate::executor::spec_batch;
use crate::executor::statuses_match;
use crate::executor::sum_used;
use crate::interpreter::RunOutcome;
use crate::interpreter::result_conforms;
use crate::params::ConsensusParameters;
use crate::pool::TransactionPool;
use crate::pool::spec_select_count;
use crate::status::TxStatus;
use crate::tx::Transaction;
use crate::tx::TxKind;

verus! {

/// Closed set of production trigger policies.
#[derive(Clone, Copy, Debug, PartialEq, Eq, Structural)]
pub enum Trigger {
    /// Produce as soon as the pool has at least one ready transaction.
    Instant,
    /// Produce on a fixed cadence, mint-only blocks when the pool is
    /// empty.
    Interval {
        /// Cadence in seconds.
        period: u64,
    },
    /// Produce only on an external call.
    Manual,
}

/// Production cycle state. `Stopped` is the terminal state an
/// infrastructure failure leaves the producer in; it requires an external
/// restart.
#[derive(Clone, Copy, Debug, PartialEq, Eq, Structural)]
pub enum ProducerState {
    /// Ready for the next trigger.
    Idle,
    /// A cycle is in flight; further triggers are dropped.
    Producing,
    /// A block was sealed and handed to the importer.
    Sealed,
    /// Terminal after an infrastructure failure.
    Stopped,
}

/// Whether a trigger observation starts a cycle: only from `Idle`, and
/// per policy — `Instant` on a non-empty pool, `Interval` once the
/// scheduled time is reached, `Manual` only on an external request.
pub open spec fn spec_should_produce(
    trigger: Trigger,
    state: ProducerState,
    pool_len: nat,
    now: u64,
    next_at: u64,
    manual_requested: bool,
) -> bool {
    state is Idle && match trigger {
        Trigger::Instant => pool_len >= 1,
        Trigger::Interval { period } => now >= next_at,
        Trigger::Manual => manual_requested,
    }
}

/// Decides [`spec_should_produce`].
pub fn should_produce(
    trigger: &Trigger,
    state: &ProducerState,
    pool_len: usize,
    now: u64,
    next_at: u64,
    manual_requested: bool,
) -> (r: bool)
    ensures
        r == spec_should_produce(*trigger, *state, pool_len as nat, now, next_at, manual_requested),
{
    if !matches!(state, ProducerState::Idle) {
        return false;
    }
    match trigger {
        Trigger::Instant => pool_len >= 1,
        Trigger::Interval { .. } => now >= next_at,
        Trigger::Manual => manual_requested,
    }
}

/// Saturating 64-bit addition.
pub open spec fn sat_add_u64(a: u64, b: u64) -> u64 {
    if a + b > u64::MAX {
        u64::MAX
    } else {
        (a + b) as u64
    }
}

/// Time the next `Interval` cycle is due: one period after the previous
/// `Sealed` transition, independent of wall-clock drift.
pub fn next_interval_at(sealed_time: u64, period: u64) -> (r: u64)
    ensures
        r == sat_add_u64(sealed_time, period),
{
    if sealed_time > u64::MAX - period {
        u64::MAX
    } else {
        sealed_time + period
    }
}

/// The implicit reward transaction: no inputs, no script, exempt from gas,
/// one reward output to the producer in the base asset.
pub fn make_mint(producer: u64, base_asset_id: u64) -> (m: Transaction)
    ensures
        m.kind is Mint,
        m.inputs@.len() == 0,
        m.outputs@.len() == 1,
        m.outputs@[0].to == producer,
        m.outputs@[0].amount == 0,
        m.outputs@[0].asset_id == base_asset_id,
        m.gas_limit == 0,
        m.gas_price == 0,
        m.script@.len() == 0,
        m.witnesses@.len() == 0,
{
    let mut outputs: Vec<crate::tx::Output> = Vec::new();
    outputs.push(crate::tx::Output { to: producer, amount: 0, asset_id: base_asset_id });
    Transaction {
        kind: TxKind::Mint,
        inputs: Vec::new(),
        outputs,
        gas_limit: 0,
        gas_price: 0,
        script: Vec::new(),
        witnesses: Vec::new(),
    }
}

/// Sum of the gas the status records charge, from index `i` onward.
pub open spec fn sum_status_gas(sts: Seq<TxStatus>, i: int) -> nat
    decreases sts.len() - i,
{
    if i < 0 || i >= sts.len() {
        0
    } else {
        sts[i].result.spec_used_gas() as nat + sum_status_gas(sts, i + 1)
    }
}

/// Status records that match their outcomes charge exactly the outcomes'
/// summed gas.
pub proof fn lemma_status_gas_matches(
    sts: Seq<TxStatus>,
    txs: Seq<Transaction>,
    outs: Seq<RunOutcome>,
    height: u32,
    i: int,
)
    requires
        statuses_match(sts, txs, outs, height),
        0 <= i <= sts.len(),
    ensures
        sum_status_gas(sts, i) == sum_used(outs, i),
    decreases sts.len() - i,
{
    if i >= sts.len() {
    } else {
        assert(result_conforms(sts[i].result, outs[i]));
        lemma_status_gas_matches(sts, txs, outs, height, i + 1);
    }
}

/// Summing statuses from index `i + 1` equals summing the first-dropped
/// tail from `i`.
proof fn lemma_sum_status_tail(sts: Seq<TxStatus>, i: int)
    requires
        1 <= i <= sts.len(),
    ensures
        sum_status_gas(sts, i) == sum_status_gas(sts.drop_first(), i - 1),
    decreases sts.len() - i,
{
    if i >= sts.len() {
    } else {
        lemma_sum_status_tail(sts, i + 1);
    }
}

/// One produced block: the sealed block, its parallel status records, and
/// the malformed candidates returned for re-validation.
pub struct ProductionResult {
    /// The sealed block.
    pub block: SealedBlock,
    /// One status per block transaction, in the block's order.
    pub statuses: Vec<TxStatus>,
    /// Structurally malformed candidates, excluded and handed back.
    pub skipped: Vec<Transaction>,
}

/// One full production cycle: selects a gas-bounded FIFO batch from the
/// pool, executes it behind the implicit mint, requeues what was deferred,
/// and seals the block. The summed `used_gas` of the sealed block's
/// transactions never exceeds the block gas limit.
pub fn produce_block(
    pool: &mut TransactionPool,
    params: &ConsensusParameters,
    height: u32,
    previous_id: u64,
    time: u64,
    producer_id: u64,
) -> (r: ProductionResult)
    requires
        old(pool).wf(),
    ensures
        final(pool).wf(),
        r.block.spec_sealed(),
        r.block.header == (BlockHeader { height, previous_id, time, producer: producer_id }),
        r.statuses@.len() == r.block.transactions@.len(),
        r.block.transactions@.len() >= 1,
        r.block.transactions@[0].kind is Mint,
        sum_status_gas(r.statuses@, 0) <= params.block_gas_limit,
        ({
            let k = spec_select_count(old(pool).pending@, 0, 0, params.block_gas_limit);
            let b = spec_batch(old(pool).pending@.take(k), *params, 0);
            &&& r.block.transactions@.drop_first() == b.committed
            &&& statuses_match(r.statuses@.drop_first(), b.committed, b.outcomes, height)
            &&& r.statuses@[0].block_height == height
            &&& result_conforms(r.statuses@[0].result, (RunOutcome::Done { used: 0 }))
            &&& r.skipped@ == b.skipped
            &&& final(pool).pending@ == b.deferred + old(pool).pending@.skip(k)
        }),
        final(pool).committed_ids@ == old(pool).committed_ids@,
        final(pool).known_utxos@ == old(pool).known_utxos@,
        final(pool).utxo_validation == old(pool).utxo_validation,
{
    let candidates = pool.select(params.block_gas_limit);
    let ghost k = spec_select_count(old(pool).pending@, 0, 0, params.block_gas_limit);
    let ghost sel = old(pool).pending@.take(k);
    let mint = make_mint(producer_id, params.base_asset_id);
    let outcome: ExecutionOutcome = crate::executor::execute(mint, candidates, params, height);
    let ghost b = spec_batch(sel, *params, 0);
    pool.requeue(outcome.deferred);
    let header = BlockHeader { height, previous_id, time, producer: producer_id };
    let block = SealedBlock::seal(header, outcome.committed);
    proof {
        assert(block.transactions@.drop_first() =~= b.committed);
        crate::executor::lemma_batch_gas(sel, *params, 0);
        lemma_status_gas_matches(
            outcome.statuses@.drop_first(),
            b.committed,
            b.outcomes,
            height,
            0,
        );
        lemma_sum_status_tail(outcome.statuses@, 1);
        assert(outcome.statuses@[0].result.spec_used_gas() == 0);
    }
    ProductionResult { block, statuses: outcome.statuses, skipped: outcome.skipped }
}

} // verus!
