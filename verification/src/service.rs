//! Composition root: wires parameters, pool, producer and importer, and
//! exposes submission, subscription and the trigger-driven production
//! cycle to external callers.

use vstd::prelude::*;

use crate::importer::BackpressurePolicy;
use crate::importer::BlockImporter;
use crate::importer::Notification;
use crate::importer::RecvError;
use crate::params::ConsensusParameters;
use crate::pool::InsertError;
use crate::pool::TransactionPool;
use crate::producer::ProducerState;
use crate::producer::Trigger;
use crate::producer::sat_add_u64;
use crate::producer::spec_should_produce;
use crate::status::TxStatus;
use crate::tx::Transaction;
use crate::tx::spec_tx_id;

verus! {

/// Ids of the transactions of `s`, in order.
pub open spec fn tx_ids(s: Seq<Transaction>) -> Seq<u64> {
    Seq::new(s.len(), |i: int| spec_tx_id(s[i]))
}

/// The running node core: admits transactions, produces blocks on its
/// trigger policy, imports them and fans them out.
pub struct Service {
    /// The network's consensus limits, fixed for the service's lifetime.
    pub params: ConsensusParameters,
    /// Admission queue.
    pub pool: TransactionPool,
    /// Chain tip, storage model and subscriptions.
    pub importer: BlockImporter,
    /// Production trigger policy.
    pub trigger: Trigger,
    /// Producer cycle state.
    pub state: ProducerState,
    /// When the next `Interval` cycle is due.
    pub next_interval_at: u64,
    /// Identity this node produces blocks under.
    pub producer_id: u64,
}

impl Service {
    /// The pool and the importer are internally consistent.
    pub open spec fn wf(self) -> bool {
        self.pool.wf() && self.importer.wf()
    }

    /// Builds the core from its configuration. The chain tip starts at
    /// the genesis block; production is `Idle`, and an `Interval` policy
    /// is first due one period after `now`.
    pub fn new(
        params: ConsensusParameters,
        trigger: Trigger,
        utxo_validation: bool,
        known_utxos: Vec<u64>,
        producer_id: u64,
        genesis_id: u64,
        now: u64,
    ) -> (svc: Service)
        ensures
            svc.wf(),
            svc.params == params,
            svc.trigger == trigger,
            svc.state is Idle,
            svc.producer_id == producer_id,
            svc.pool.pending@.len() == 0,
            svc.pool.committed_ids@.len() == 0,
            svc.pool.known_utxos@ == known_utxos@,
            svc.pool.utxo_validation == utxo_validation,
            svc.importer.height == 0,
            svc.importer.last_id == genesis_id,
            svc.importer.chain@.len() == 0,
            svc.importer.subscribers@.len() == 0,
            (trigger matches Trigger::Interval { period } ==> svc.next_interval_at == sat_add_u64(
                now,
                period,
            )),
    {
        let next_interval_at = match trigger {
            Trigger::Interval { period } => crate::producer::next_interval_at(now, period),
            _ => 0,
        };
        Service {
            params,
            pool: TransactionPool::new(utxo_validation, known_utxos),
            importer: BlockImporter::new(0, genesis_id),
            trigger,
            state: ProducerState::Idle,
            next_interval_at,
            producer_id,
        }
    }

    /// Submits one transaction; the exact admission result, synchronously.
    pub fn submit(&mut self, tx: Transaction) -> (r: Result<u64, InsertError>)
        requires
            old(self).wf(),
        ensures
            final(self).wf(),
            r == old(self).pool.spec_insert_decision(tx, old(self).params),
            r is Ok ==> final(self).pool.pending@ == old(self).pool.pending@.push(tx),
            r is Err ==> final(self).pool == old(self).pool,
            final(self).importer == old(self).importer,
            final(self).params == old(self).params,
            final(self).state == old(self).state,
    {
        let params = self.params;
        self.pool.insert(tx, &params)
    }

    /// Registers a block listener; it receives every block imported from
    /// this point onward.
    pub fn subscribe(&mut self, policy: BackpressurePolicy) -> (handle: usize)
        requires
            old(self).wf(),
        ensures
            final(self).wf(),
            handle == old(self).importer.subscribers@.len(),
            final(self).importer.subscribers@.len() == old(self).importer.subscribers@.len() + 1,
            final(self).importer.height == old(self).importer.height,
            final(self).importer.chain@ == old(self).importer.chain@,
            final(self).pool == old(self).pool,
    {
        self.importer.subscribe(policy)
    }

    /// Hands a subscriber its next notification, oldest first; an owed
    /// gap error comes before anything newer.
    pub fn try_recv(&mut self, handle: usize) -> (r: Result<Option<Notification>, RecvError>)
        requires
            old(self).wf(),
            handle < old(self).importer.subscribers@.len(),
        ensures
            final(self).wf(),
            final(self).pool == old(self).pool,
            final(self).importer.height == old(self).importer.height,
            final(self).importer.chain@ == old(self).importer.chain@,
            ({
                let s0 = old(self).importer.subscribers@[handle as int];
                &&& (s0.gapped ==> r == Result::<Option<Notification>, RecvError>::Err(
                    RecvError::Gap,
                ))
                &&& (!s0.gapped && s0.queue@.len() == 0 ==> (r matches Ok(o) && o is None))
                &&& (!s0.gapped && s0.queue@.len() > 0 ==> (r matches Ok(o) && (o matches Some(n)
                    && n == s0.queue@[0] && n.header.height == s0.next_height)))
            }),
    {
        self.importer.try_recv(handle)
    }

    /// Stops the producer; a stopped service produces no further blocks
    /// until externally restarted.
    pub fn shutdown(&mut self)
        requires
            old(self).wf(),
        ensures
            final(self).wf(),
            final(self).state is Stopped,
            final(self).pool == old(self).pool,
            final(self).importer == old(self).importer,
    {
        self.state = ProducerState::Stopped;
    }

    /// One scheduler observation at time `now`: decides per the trigger
    /// policy, and when due runs one full production cycle — select,
    /// execute behind the mint, seal, import, publish — returning whether
    /// a block was produced. Triggers observed outside `Idle` are
    /// dropped; `Interval` reschedules from this sealing.
    pub fn step(&mut self, now: u64, manual_requested: bool) -> (produced: bool)
        requires
            old(self).wf(),
        ensures
            final(self).wf(),
            final(self).params == old(self).params,
            final(self).trigger == old(self).trigger,
            produced == (spec_should_produce(
                old(self).trigger,
                old(self).state,
                old(self).pool.pending@.len(),
                now,
                old(self).next_interval_at,
                manual_requested,
            ) && old(self).importer.height < u32::MAX),
            !produced ==> {
                &&& final(self).pool == old(self).pool
                &&& final(self).importer == old(self).importer
            },
            produced ==> {
                &&& final(self).state is Idle
                &&& final(self).importer.height == old(self).importer.height + 1
                &&& final(self).importer.chain@.len() == old(self).importer.chain@.len() + 1
                &&& ({
                    let k = crate::pool::spec_select_count(
                        old(self).pool.pending@,
                        0,
                        0,
                        old(self).params.block_gas_limit,
                    );
                    let b = crate::executor::spec_batch(
                        old(self).pool.pending@.take(k),
                        old(self).params,
                        0,
                    );
                    let blk = final(self).importer.chain@.last();
                    &&& blk.header.height == old(self).importer.height + 1
                    &&& blk.header.previous_id == old(self).importer.last_id
                    &&& blk.header.time == now
                    &&& blk.header.producer == old(self).producer_id
                    &&& blk.spec_sealed()
                    &&& blk.transactions@.len() >= 1
                    &&& blk.transactions@[0].kind is Mint
                    &&& blk.transactions@.drop_first() == b.committed
                    &&& final(self).pool.pending@ == b.deferred + old(self).pool.pending@.skip(k)
                    &&& final(self).pool.committed_ids@ == old(self).pool.committed_ids@ + tx_ids(
                        b.committed,
                    )
                })
                &&& (old(self).trigger matches Trigger::Interval { period } ==> final(self).next_interval_at == sat_add_u64(now, period))
            },
    {
        if !crate::producer::should_produce(
            &self.trigger,
            &self.state,
            self.pool.len(),
            now,
            self.next_interval_at,
            manual_requested,
        ) {
            return false;
        }
        if self.importer.height == u32::MAX {
            return false;
        }
        self.state = ProducerState::Producing;
        let height: u32 = self.importer.height + 1;
        let previous_id: u64 = self.importer.last_id;
        let params = self.params;
        let outcome = crate::producer::produce_block(
            &mut self.pool,
            &params,
            height,
            previous_id,
            now,
            self.producer_id,
        );
        let ghost statuses_g = outcome.statuses@;
        let ghost block_g = outcome.block;
        let mut user_ids: Vec<u64> = Vec::new();
        let mut i: usize = 1;
        while i < outcome.statuses.len()
            invariant
                1 <= i <= statuses_g.len(),
                outcome.statuses@ == statuses_g,
                user_ids@.len() == i - 1,
                forall|q: int| 0 <= q < i - 1 ==> user_ids@[q] == statuses_g[q + 1].id,
            decreases statuses_g.len() - i,
        {
            user_ids.push(outcome.statuses[i].id);
            i = i + 1;
        }
        self.pool.mark_committed(&user_ids);
        self.state = ProducerState::Sealed;
        let ghost b = crate::executor::spec_batch(
            old(self).pool.pending@.take(
                crate::pool::spec_select_count(
                    old(self).pool.pending@,
                    0,
                    0,
                    old(self).params.block_gas_limit,
                ),
            ),
            old(self).params,
            0,
        );
        proof {
            assert(crate::executor::statuses_match(
                statuses_g.drop_first(),
                b.committed,
                b.outcomes,
                height,
            ));
            assert forall|q: int| 0 <= q < user_ids@.len() implies user_ids@[q] == tx_ids(
                b.committed,
            )[q] by {
                assert(statuses_g[q + 1] == statuses_g.drop_first()[q]);
                assert(statuses_g.drop_first()[q].id == spec_tx_id(b.committed[q]));
            }
            assert(user_ids@ =~= tx_ids(b.committed));
        }
        let import_result = self.importer.import(outcome.block, outcome.statuses);
        match import_result {
            Ok(()) => {},
            Err(_) => {
                // Provably unreachable: the block is built one height above
                // the tip and linked to it. A failing import would be an
                // infrastructure failure, and the producer stops for good.
                self.state = ProducerState::Stopped;
                return false;
            },
        }
        if let Trigger::Interval { period } = self.trigger {
            self.next_interval_at = crate::producer::next_interval_at(now, period);
        }
        self.state = ProducerState::Idle;
        true
    }
}

} // verus!
