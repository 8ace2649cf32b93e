//! Block assembly: applies a candidate batch in selection order under the
//! block-wide gas budget.
//!
//! A transaction's own execution failure still yields a committed `Failed`
//! entry; only structurally malformed transactions are excluded and
//! returned for re-validation. The moment including the next candidate
//! would exceed the block gas limit, it and everything after it are
//! deferred back to the pool and assembly stops, so realized block gas
//! never exceeds the limit.

use vstd::prelude::*;

use crate::interpreter::RunOutcome;
use crate::interpreter::execute_tx;
use crate::interpreter::result_conforms;
use crate::interpreter::spec_tx_outcome;
use crate::params::ConsensusParameters;
use crate::status::TxStatus;
use crate::tx::Transaction;
use crate::tx::spec_tx_id;

verus! {

/// Mathematical result of assembling a candidate batch: the outcome of
/// each committed transaction in order, which candidates were committed,
/// skipped as malformed, or deferred for lack of block gas, and the block
/// gas total.
pub ghost struct BatchSpec {
    /// Outcome of each committed transaction, in selection order.
    pub outcomes: Seq<RunOutcome>,
    /// Candidates committed, in selection order.
    pub committed: Seq<Transaction>,
    /// Candidates excluded as structurally malformed.
    pub skipped: Seq<Transaction>,
    /// Candidates deferred back to the pool when the budget ran out.
    pub deferred: Seq<Transaction>,
    /// Block gas total after the batch.
    pub gas: u64,
}

/// Assembly of the candidates of `c`, with `gas` already charged to the
/// block. Malformed candidates are skipped; the first candidate whose
/// outcome would push the block past its gas limit stops assembly and is
/// deferred together with everything after it.
pub open spec fn spec_batch(c: Seq<Transaction>, params: ConsensusParameters, gas: u64) -> BatchSpec
    decreases c.len(),
{
    if c.len() == 0 {
        BatchSpec {
            outcomes: Seq::empty(),
            committed: Seq::empty(),
            skipped: Seq::empty(),
            deferred: Seq::empty(),
            gas,
        }
    } else {
        let tx = c[0];
        if !tx.spec_witnesses_ok() {
            let rest = spec_batch(c.drop_first(), params, gas);
            BatchSpec {
                outcomes: rest.outcomes,
                committed: rest.committed,
                skipped: seq![tx] + rest.skipped,
                deferred: rest.deferred,
                gas: rest.gas,
            }
        } else {
            let o = spec_tx_outcome(tx, params);
            if gas + o.used() > params.block_gas_limit {
                BatchSpec {
                    outcomes: Seq::empty(),
                    committed: Seq::empty(),
                    skipped: Seq::empty(),
                    deferred: c,
                    gas,
                }
            } else {
                let rest = spec_batch(c.drop_first(), params, (gas + o.used()) as u64);
                BatchSpec {
                    outcomes: seq![o] + rest.outcomes,
                    committed: seq![tx] + rest.committed,
                    skipped: rest.skipped,
                    deferred: rest.deferred,
                    gas: rest.gas,
                }
            }
        }
    }
}

/// Sum of the gas charged by the outcomes of `s` from index `i` onward.
pub open spec fn sum_used(s: Seq<RunOutcome>, i: int) -> nat
    decreases s.len() - i,
{
    if i < 0 || i >= s.len() {
        0
    } else {
        s[i].used() as nat + sum_used(s, i + 1)
    }
}

/// Assembly keeps the block within its gas budget, and the final total is
/// the initial charge plus exactly the sum of the committed outcomes.
pub proof fn lemma_batch_gas(c: Seq<Transaction>, params: ConsensusParameters, gas: u64)
    requires
        gas <= params.block_gas_limit,
    ensures
        spec_batch(c, params, gas).gas <= params.block_gas_limit,
        spec_batch(c, params, gas).gas == gas + sum_used(spec_batch(c, params, gas).outcomes, 0),
    decreases c.len(),
{
    if c.len() == 0 {
    } else {
        let tx = c[0];
        if !tx.spec_witnesses_ok() {
            lemma_batch_gas(c.drop_first(), params, gas);
        } else {
            let o = spec_tx_outcome(tx, params);
            if gas + o.used() > params.block_gas_limit {
            } else {
                let gas2 = (gas + o.used()) as u64;
                lemma_batch_gas(c.drop_first(), params, gas2);
                let rest = spec_batch(c.drop_first(), params, gas2);
                let outs = spec_batch(c, params, gas).outcomes;
                assert(outs == seq![o] + rest.outcomes);
                assert(outs.drop_first() =~= rest.outcomes);
                assert(sum_used(outs, 0) == o.used() + sum_used(rest.outcomes, 0)) by {
                    lemma_sum_used_shift(outs);
                }
            }
        }
    }
}

/// Unfolds [`sum_used`] one step for a non-empty outcome sequence.
proof fn lemma_sum_used_shift(s: Seq<RunOutcome>)
    requires
        s.len() > 0,
    ensures
        sum_used(s, 0) == s[0].used() + sum_used(s.drop_first(), 0),
{
    lemma_sum_used_tail(s, 1);
}

/// Summing `s` from index `i + 1` equals summing its first-dropped tail
/// from `i`.
proof fn lemma_sum_used_tail(s: Seq<RunOutcome>, i: int)
    requires
        1 <= i <= s.len(),
    ensures
        sum_used(s, i) == sum_used(s.drop_first(), i - 1),
    decreases s.len() - i,
{
    if i >= s.len() {
    } else {
        lemma_sum_used_tail(s, i + 1);
    }
}

/// For every batch assembled from a fresh block budget, the summed
/// `used_gas` of its committed transactions stays within the block gas
/// limit.
pub proof fn lemma_block_gas_within_limit(c: Seq<Transaction>, params: ConsensusParameters)
    ensures
        sum_used(spec_batch(c, params, 0).outcomes, 0) <= params.block_gas_limit,
{
    lemma_batch_gas(c, params, 0);
}

/// Per-index correspondence between status records, the transactions they
/// describe, and the mathematical outcomes, all at one block height.
pub open spec fn statuses_match(
    sts: Seq<TxStatus>,
    txs: Seq<Transaction>,
    outs: Seq<RunOutcome>,
    height: u32,
) -> bool {
    &&& sts.len() == txs.len()
    &&& txs.len() == outs.len()
    &&& forall|i: int|
        0 <= i < sts.len() ==> {
            &&& (#[trigger] sts[i]).id == spec_tx_id(txs[i])
            &&& sts[i].block_height == height
            &&& result_conforms(sts[i].result, outs[i])
        }
}

/// What the executor hands back: the implicit mint plus the committed
/// candidates, their status records, the candidates excluded or deferred,
/// and the realized block gas.
pub struct ExecutionOutcome {
    /// One status per committed transaction, mint first, selection order.
    pub statuses: Vec<TxStatus>,
    /// The committed transactions, mint first, selection order.
    pub committed: Vec<Transaction>,
    /// Structurally malformed candidates, returned for re-validation.
    pub skipped: Vec<Transaction>,
    /// Candidates deferred back to the pool, in their original order.
    pub deferred: Vec<Transaction>,
    /// Realized block gas: the sum of `used_gas` over every committed
    /// transaction; the mint is exempt.
    pub used_gas_total: u64,
}

/// Applies the candidate batch in selection order, prepending the implicit
/// mint transaction at index 0, exempt from gas accounting. The realized
/// block gas never exceeds the block gas limit.
pub fn execute(
    mint: Transaction,
    candidates: Vec<Transaction>,
    params: &ConsensusParameters,
    height: u32,
) -> (r: ExecutionOutcome)
    requires
        mint.kind is Mint,
    ensures
        ({
            let b = spec_batch(candidates@, *params, 0);
            &&& r.used_gas_total == b.gas
            &&& r.used_gas_total <= params.block_gas_limit
            &&& r.committed@ == seq![mint] + b.committed
            &&& r.skipped@ == b.skipped
            &&& r.deferred@ == b.deferred
            &&& r.statuses@.len() == 1 + b.outcomes.len()
            &&& r.statuses@[0].id == spec_tx_id(mint)
            &&& r.statuses@[0].block_height == height
            &&& result_conforms(r.statuses@[0].result, (RunOutcome::Done { used: 0 }))
            &&& statuses_match(r.statuses@.drop_first(), b.committed, b.outcomes, height)
        }),
{
    let ghost cands = candidates@;
    let ghost full = spec_batch(cands, *params, 0);
    let mut c = candidates;
    let mut statuses: Vec<TxStatus> = Vec::new();
    let mut committed: Vec<Transaction> = Vec::new();
    let mut skipped: Vec<Transaction> = Vec::new();
    let mut total: u64 = 0;

    let mint_id = mint.id();
    let mint_res = execute_tx(&mint, params);
    statuses.push(TxStatus { id: mint_id, block_height: height, result: mint_res });
    committed.push(mint);

    let ghost mut done_outs: Seq<RunOutcome> = Seq::empty();

    loop
        invariant
            total <= params.block_gas_limit,
            statuses@.len() == committed@.len(),
            committed@.len() == 1 + done_outs.len(),
            committed@[0] == mint,
            statuses@[0].id == spec_tx_id(mint),
            statuses@[0].block_height == height,
            result_conforms(statuses@[0].result, (RunOutcome::Done { used: 0 })),
            statuses_match(statuses@.drop_first(), committed@.drop_first(), done_outs, height),
            full.outcomes == done_outs + spec_batch(c@, *params, total).outcomes,
            full.committed == committed@.drop_first() + spec_batch(c@, *params, total).committed,
            full.skipped == skipped@ + spec_batch(c@, *params, total).skipped,
            full.deferred == spec_batch(c@, *params, total).deferred,
            full.gas == spec_batch(c@, *params, total).gas,
        ensures
            c@.len() == 0 || ({
                let b = spec_batch(c@, *params, total);
                b.deferred == c@ && b.gas == total && b.outcomes == Seq::<RunOutcome>::empty()
                    && b.committed == Seq::<Transaction>::empty() && b.skipped
                    == Seq::<Transaction>::empty()
            }),
        decreases c@.len(),
    {
        if c.len() == 0 {
            break;
        }
        let ghost c_pre = c@;
        let tx = c.remove(0);
        assert(c@ =~= c_pre.drop_first());
        assert(tx == c_pre[0]);
        let well_formed = tx.witnesses_ok();
        if !well_formed {
            skipped.push(tx);
            proof {
                let rest = spec_batch(c@, *params, total);
                assert(skipped@ + rest.skipped =~= skipped@.drop_last() + (seq![tx] + rest.skipped));
            }
        } else {
            let res = execute_tx(&tx, params);
            let used = res.used_gas();
            proof {
                crate::interpreter::lemma_tx_outcome_within_limit(tx, *params);
            }
            if total as u128 + used as u128 > params.block_gas_limit as u128 {
                c.insert(0, tx);
                assert(c@ =~= c_pre);
                break;
            }
            let ghost o = spec_tx_outcome(tx, *params);
            let tx_id = tx.id();
            let ghost sts_pre = statuses@;
            let ghost com_pre = committed@;
            let ghost outs_pre = done_outs;
            let ghost new_st = (TxStatus { id: tx_id, block_height: height, result: res });
            statuses.push(TxStatus { id: tx_id, block_height: height, result: res });
            committed.push(tx);
            total = total + used;
            proof {
                done_outs = done_outs + seq![o];
                let rest = spec_batch(c@, *params, total);
                assert(done_outs + rest.outcomes =~= outs_pre + (seq![o] + rest.outcomes));
                assert(committed@.drop_first() + rest.committed =~= com_pre.drop_first() + (
                seq![tx] + rest.committed));
                assert(statuses@.drop_first() =~= sts_pre.drop_first().push(new_st));
                assert(committed@.drop_first() =~= com_pre.drop_first().push(tx));
                assert(done_outs =~= outs_pre.push(o));
                assert forall|i: int| 0 <= i < statuses@.drop_first().len() implies {
                    &&& (#[trigger] statuses@.drop_first()[i]).id == spec_tx_id(
                        committed@.drop_first()[i],
                    )
                    &&& statuses@.drop_first()[i].block_height == height
                    &&& result_conforms(statuses@.drop_first()[i].result, done_outs[i])
                } by {
                    if i < sts_pre.drop_first().len() {
                        assert(statuses@.drop_first()[i] == sts_pre.drop_first()[i]);
                        assert(committed@.drop_first()[i] == com_pre.drop_first()[i]);
                        assert(done_outs[i] == outs_pre[i]);
                    } else {
                        assert(statuses@.drop_first()[i] == new_st);
                        assert(committed@.drop_first()[i] == tx);
                        assert(done_outs[i] == o);
                    }
                }
            }
        }
    }
    let deferred = c;
    proof {
        let b = spec_batch(cands, *params, 0);
        assert(committed@ =~= seq![mint] + b.committed);
        assert(skipped@ =~= b.skipped);
        assert(done_outs =~= b.outcomes);
        assert(statuses@.drop_first() =~= statuses@.drop_first());
    }
    ExecutionOutcome { statuses, committed, skipped, deferred, used_gas_total: total }
}

} // verus!
