//! Transaction admission: validates submitted transactions, holds them
//! Pending in arrival order (FIFO), and selects a gas-bounded batch on
//! demand.
//!
//! Rejection is structural and synchronous: a malformed, over-cap,
//! predicate-too-expensive or duplicate transaction never enters the
//! pool, and a rejected submission leaves the pool exactly as it was.

use vstd::prelude::*;

use crate::interpreter::script_cost;
use crate::params::ConsensusParameters;
use crate::tx::Transaction;
use crate::tx::TxKind;
use crate::tx::spec_tx_id;

verus! {

/// Why a submission was rejected at admission. Surfaced synchronously to
/// the submitter; the transaction never enters the pool.
#[derive(Clone, Copy, Debug, PartialEq, Eq, Structural)]
pub enum InsertError {
    /// The id collides with a pending or already-committed transaction.
    Duplicate,
    /// The declared gas limit exceeds the per-transaction protocol cap.
    GasLimitExceeded,
    /// Ill-formed witnesses, a producer-only kind, or (when input
    /// validation is on) an input that references no known UTXO.
    MalformedInput,
    /// An input predicate's metered cost exceeds the per-predicate cap.
    PredicateTooExpensive,
}

/// The admission queue. Pending transactions sit in arrival order; ids of
/// pending and of already-committed transactions are kept for duplicate
/// detection.
pub struct TransactionPool {
    /// Pending transactions, oldest first.
    pub pending: Vec<Transaction>,
    /// Content-addressed id of each pending transaction, in the same
    /// order.
    pub pending_ids: Vec<u64>,
    /// Ids of transactions already committed in imported blocks.
    pub committed_ids: Vec<u64>,
    /// Spendable outputs the node knows of; what input existence is
    /// checked against.
    pub known_utxos: Vec<u64>,
    /// Whether input existence is validated at admission; off for
    /// constrained environments.
    pub utxo_validation: bool,
}

impl TransactionPool {
    /// The id cache is parallel to the pending queue.
    pub open spec fn wf(self) -> bool {
        &&& self.pending_ids@.len() == self.pending@.len()
        &&& forall|i: int|
            0 <= i < self.pending@.len() ==> self.pending_ids@[i] == spec_tx_id(
                #[trigger] self.pending@[i],
            )
    }

    /// Every input of `tx` references a UTXO this pool knows of.
    pub open spec fn spec_inputs_exist(self, tx: Transaction) -> bool {
        forall|i: int|
            0 <= i < tx.inputs@.len() ==> self.known_utxos@.contains(
                (#[trigger] tx.inputs@[i]).utxo_id,
            )
    }

    /// The exact admission decision, in validation order: structure,
    /// per-transaction gas cap, predicate cost cap, input existence
    /// (unless disabled), then duplicate detection against pending and
    /// committed ids.
    pub open spec fn spec_insert_decision(
        self,
        tx: Transaction,
        params: ConsensusParameters,
    ) -> Result<u64, InsertError> {
        if !tx.spec_witnesses_ok() || tx.kind is Mint {
            Err(InsertError::MalformedInput)
        } else if tx.gas_limit > params.max_gas_per_tx {
            Err(InsertError::GasLimitExceeded)
        } else if !(forall|i: int|
            0 <= i < tx.inputs@.len() ==> script_cost((#[trigger] tx.inputs@[i]).predicate@)
                <= params.max_gas_per_predicate) {
            Err(InsertError::PredicateTooExpensive)
        } else if self.utxo_validation && !self.spec_inputs_exist(tx) {
            Err(InsertError::MalformedInput)
        } else if self.pending_ids@.contains(spec_tx_id(tx)) || self.committed_ids@.contains(
            spec_tx_id(tx),
        ) {
            Err(InsertError::Duplicate)
        } else {
            Ok(spec_tx_id(tx))
        }
    }

    /// Empty pool.
    pub fn new(utxo_validation: bool, known_utxos: Vec<u64>) -> (p: TransactionPool)
        ensures
            p.wf(),
            p.pending@.len() == 0,
            p.pending_ids@.len() == 0,
            p.committed_ids@.len() == 0,
            p.known_utxos@ == known_utxos@,
            p.utxo_validation == utxo_validation,
    {
        TransactionPool {
            pending: Vec::new(),
            pending_ids: Vec::new(),
            committed_ids: Vec::new(),
            known_utxos,
            utxo_validation,
        }
    }

    /// Number of pending transactions.
    pub fn len(&self) -> (n: usize)
        ensures
            n == self.pending@.len(),
    {
        self.pending.len()
    }

    /// Makes one more UTXO known to the pool.
    pub fn register_utxo(&mut self, utxo_id: u64)
        requires
            old(self).wf(),
        ensures
            final(self).wf(),
            final(self).known_utxos@ == old(self).known_utxos@.push(utxo_id),
            final(self).pending@ == old(self).pending@,
            final(self).pending_ids@ == old(self).pending_ids@,
            final(self).committed_ids@ == old(self).committed_ids@,
            final(self).utxo_validation == old(self).utxo_validation,
    {
        self.known_utxos.push(utxo_id);
    }

    /// Validates and admits one transaction. Returns its id on acceptance
    /// — the transaction is then Pending, at the back of the queue — and
    /// the exact rejection otherwise, with the pool left unchanged.
    pub fn insert(&mut self, tx: Transaction, params: &ConsensusParameters) -> (r: Result<
        u64,
        InsertError,
    >)
        requires
            old(self).wf(),
        ensures
            final(self).wf(),
            r == old(self).spec_insert_decision(tx, *params),
            r is Ok ==> {
                &&& final(self).pending@ == old(self).pending@.push(tx)
                &&& final(self).pending_ids@ == old(self).pending_ids@.push(spec_tx_id(tx))
            },
            r is Err ==> *final(self) == *old(self),
            final(self).committed_ids@ == old(self).committed_ids@,
            final(self).known_utxos@ == old(self).known_utxos@,
            final(self).utxo_validation == old(self).utxo_validation,
    {
        if !tx.witnesses_ok() || matches!(tx.kind, TxKind::Mint) {
            return Err(InsertError::MalformedInput);
        }
        if tx.gas_limit > params.max_gas_per_tx {
            return Err(InsertError::GasLimitExceeded);
        }
        if !crate::interpreter::predicates_ok(&tx, params) {
            return Err(InsertError::PredicateTooExpensive);
        }
        if self.utxo_validation && !self.inputs_exist(&tx) {
            return Err(InsertError::MalformedInput);
        }
        let id = tx.id();
        if contains_u64(&self.pending_ids, id) || contains_u64(&self.committed_ids, id) {
            return Err(InsertError::Duplicate);
        }
        self.pending.push(tx);
        self.pending_ids.push(id);
        Ok(id)
    }

    /// Checks [`TransactionPool::spec_inputs_exist`].
    fn inputs_exist(&self, tx: &Transaction) -> (r: bool)
        ensures
            r == self.spec_inputs_exist(*tx),
    {
        let mut i: usize = 0;
        while i < tx.inputs.len()
            invariant
                0 <= i <= tx.inputs@.len(),
                forall|k: int|
                    0 <= k < i ==> self.known_utxos@.contains(
                        (#[trigger] tx.inputs@[k]).utxo_id,
                    ),
            decreases tx.inputs@.len() - i,
        {
            if !contains_u64(&self.known_utxos, tx.inputs[i].utxo_id) {
                return false;
            }
            i = i + 1;
        }
        true
    }

    /// Removes from Pending, FIFO, the longest prefix whose cumulative
    /// declared gas limit does not exceed `max_gas`, and returns it in
    /// order; the removed transactions are thereby marked InBlock.
    ///
    /// Selection itself does not re-validate: a pending transaction that
    /// became structurally inapplicable while waiting is excluded by the
    /// executor and handed back for re-validation, never failed.
    pub fn select(&mut self, max_gas: u64) -> (r: Vec<Transaction>)
        requires
            old(self).wf(),
        ensures
            final(self).wf(),
            ({
                let k = spec_select_count(old(self).pending@, 0, 0, max_gas);
                &&& r@ == old(self).pending@.take(k)
                &&& final(self).pending@ == old(self).pending@.skip(k)
                &&& final(self).pending_ids@ == old(self).pending_ids@.skip(k)
            }),
            final(self).committed_ids@ == old(self).committed_ids@,
            final(self).known_utxos@ == old(self).known_utxos@,
            final(self).utxo_validation == old(self).utxo_validation,
    {
        let ghost pending0 = self.pending@;
        let ghost ids0 = self.pending_ids@;
        let mut k: usize = 0;
        let mut acc: u128 = 0;
        while k < self.pending.len()
            invariant
                0 <= k <= self.pending@.len(),
                acc <= max_gas,
                *self == *old(self),
                spec_select_count(self.pending@, k as int, acc as nat, max_gas)
                    == spec_select_count(self.pending@, 0, 0, max_gas),
            ensures
                *self == *old(self),
                0 <= k <= self.pending@.len(),
                k as int == spec_select_count(self.pending@, 0, 0, max_gas),
            decreases self.pending@.len() - k,
        {
            let next: u128 = acc + self.pending[k].gas_limit as u128;
            if next > max_gas as u128 {
                break;
            }
            acc = next;
            k = k + 1;
        }
        let mut selected: Vec<Transaction> = Vec::new();
        let mut j: usize = 0;
        while j < k
            invariant
                0 <= j <= k <= pending0.len(),
                ids0.len() == pending0.len(),
                selected@ == pending0.take(j as int),
                self.pending@ == pending0.skip(j as int),
                self.pending_ids@ == ids0.skip(j as int),
                self.committed_ids@ == old(self).committed_ids@,
                self.known_utxos@ == old(self).known_utxos@,
                self.utxo_validation == old(self).utxo_validation,
            decreases k - j,
        {
            let tx = self.pending.remove(0);
            self.pending_ids.remove(0);
            selected.push(tx);
            proof {
                assert(selected@ =~= pending0.take(j as int + 1));
                assert(self.pending@ =~= pending0.skip(j as int + 1));
                assert(self.pending_ids@ =~= ids0.skip(j as int + 1));
            }
            j = j + 1;
        }
        selected
    }

    /// Puts deferred transactions back at the front of the queue, before
    /// everything that arrived later, preserving their order.
    pub fn requeue(&mut self, txs: Vec<Transaction>)
        requires
            old(self).wf(),
        ensures
            final(self).wf(),
            final(self).pending@ == txs@ + old(self).pending@,
            final(self).committed_ids@ == old(self).committed_ids@,
            final(self).known_utxos@ == old(self).known_utxos@,
            final(self).utxo_validation == old(self).utxo_validation,
    {
        let ghost pending0 = self.pending@;
        let ghost ids0 = self.pending_ids@;
        let mut newp: Vec<Transaction> = Vec::new();
        let mut newids: Vec<u64> = Vec::new();
        let mut i: usize = 0;
        let txs_len = txs.len();
        let mut rest = txs;
        while i < txs_len
            invariant
                0 <= i <= txs_len,
                self.pending@ == pending0,
                self.pending_ids@ == ids0,
                self.committed_ids@ == old(self).committed_ids@,
                self.known_utxos@ == old(self).known_utxos@,
                self.utxo_validation == old(self).utxo_validation,
                rest@.len() + i == txs_len,
                newp@ + rest@ == txs@,
                newids@.len() == newp@.len(),
                forall|q: int|
                    0 <= q < newp@.len() ==> newids@[q] == spec_tx_id(#[trigger] newp@[q]),
            decreases txs_len - i,
        {
            let tx = rest.remove(0);
            let id = tx.id();
            newp.push(tx);
            newids.push(id);
            proof {
                assert(newp@ + rest@ =~= newp@.drop_last() + (seq![tx] + rest@));
            }
            i = i + 1;
        }
        assert(newp@ =~= txs@);
        let mut m: usize = 0;
        let pend_len = self.pending.len();
        while m < pend_len
            invariant
                0 <= m <= pend_len,
                self.committed_ids@ == old(self).committed_ids@,
                self.known_utxos@ == old(self).known_utxos@,
                self.utxo_validation == old(self).utxo_validation,
                self.pending@.len() + m == pend_len,
                self.pending_ids@.len() == self.pending@.len(),
                newp@ + self.pending@ == txs@ + pending0,
                newids@.len() == newp@.len(),
                forall|q: int|
                    0 <= q < newp@.len() ==> newids@[q] == spec_tx_id(#[trigger] newp@[q]),
                forall|q: int|
                    0 <= q < self.pending@.len() ==> self.pending_ids@[q] == spec_tx_id(
                        #[trigger] self.pending@[q],
                    ),
            decreases pend_len - m,
        {
            let tx = self.pending.remove(0);
            let id = self.pending_ids.remove(0);
            newp.push(tx);
            newids.push(id);
            proof {
                assert(newp@ + self.pending@ =~= newp@.drop_last() + (seq![tx] + self.pending@));
            }
            m = m + 1;
        }
        assert(newp@ =~= txs@ + pending0);
        self.pending = newp;
        self.pending_ids = newids;
    }

    /// Records ids as finalized, so later submissions that duplicate them
    /// are rejected.
    pub fn mark_committed(&mut self, ids: &Vec<u64>)
        requires
            old(self).wf(),
        ensures
            final(self).wf(),
            final(self).committed_ids@ == old(self).committed_ids@ + ids@,
            final(self).pending@ == old(self).pending@,
            final(self).pending_ids@ == old(self).pending_ids@,
            final(self).known_utxos@ == old(self).known_utxos@,
            final(self).utxo_validation == old(self).utxo_validation,
    {
        let ghost com0 = self.committed_ids@;
        let mut i: usize = 0;
        while i < ids.len()
            invariant
                0 <= i <= ids@.len(),
                self.committed_ids@ == com0 + ids@.take(i as int),
                self.pending@ == old(self).pending@,
                self.pending_ids@ == old(self).pending_ids@,
                self.known_utxos@ == old(self).known_utxos@,
                self.utxo_validation == old(self).utxo_validation,
            decreases ids@.len() - i,
        {
            self.committed_ids.push(ids[i]);
            proof {
                assert(self.committed_ids@ =~= com0 + ids@.take(i as int + 1));
            }
            i = i + 1;
        }
        proof {
            assert(ids@.take(ids@.len() as int) =~= ids@);
        }
    }
}

/// Number of transactions the FIFO selection takes: walking from index
/// `i` with `acc` gas already counted, the first index whose declared
/// limit would push the running total past `max_gas`.
pub open spec fn spec_select_count(s: Seq<Transaction>, i: int, acc: nat, max_gas: u64) -> int
    decreases s.len() - i,
{
    if i < 0 || i >= s.len() {
        i
    } else if acc + s[i].gas_limit > max_gas as nat {
        i
    } else {
        spec_select_count(s, i + 1, acc + s[i].gas_limit as nat, max_gas)
    }
}

/// Linear membership test.
pub fn contains_u64(v: &Vec<u64>, x: u64) -> (r: bool)
    ensures
        r == v@.contains(x),
{
    let mut i: usize = 0;
    while i < v.len()
        invariant
            0 <= i <= v@.len(),
            forall|k: int| 0 <= k < i ==> v@[k] != x,
        decreases v@.len() - i,
    {
        if v[i] == x {
            assert(v@.contains(x));
            return true;
        }
        i = i + 1;
    }
    assert(!v@.contains(x));
    false
}

} // verus!
