//! Block import: commits a sealed block to the chain, then publishes it
//! with its status records to every active subscriber, in strict height
//! order.
//!
//! A subscriber receives every publish from the point of subscription
//! onward — no replay of earlier blocks, no duplicates, no silent skips.
//! A subscriber that cannot keep up under a bounded policy loses the
//! oldest buffered notification and is handed a gap error before anything
//! newer, never a silently thinned stream.

use vstd::prelude::*;

use crate::block::SealedBlock;
use crate::block::spec_header_id;
use crate::status::TxStatus;
use crate::status::eq_status_seq;
use crate::tx::eq_tx_seq;

verus! {

/// Back-pressure policy of one subscription, chosen at subscribe time.
#[derive(Clone, Copy, Debug, PartialEq, Eq, Structural)]
pub enum BackpressurePolicy {
    /// Buffer without bound; never drops, never gaps.
    Unbounded,
    /// Keep at most `bound` notifications, dropping the oldest and
    /// surfacing a gap error when the buffer overflows.
    DropOldest {
        /// Capacity of the buffer; at least 1.
        bound: usize,
    },
}

/// What the importer publishes for one block: the sealed block and the
/// status records parallel to its transactions.
#[derive(Debug)]
pub struct Notification {
    /// Header of the published block.
    pub header: crate::block::BlockHeader,
    /// Consensus seal of the published block.
    pub seal: u64,
    /// The block's transactions, mint first.
    pub transactions: Vec<crate::tx::Transaction>,
    /// Status sequence parallel to `transactions`.
    pub statuses: Vec<TxStatus>,
}

/// The notification carries exactly this block and these statuses.
pub open spec fn notif_matches(n: Notification, b: SealedBlock, sts: Seq<TxStatus>) -> bool {
    &&& n.header == b.header
    &&& n.seal == b.seal
    &&& eq_tx_seq(n.transactions@, b.transactions@)
    &&& eq_status_seq(n.statuses@, sts)
}

/// One registered listener: its policy, its buffered notifications
/// (oldest first), the height of the next notification its consumer will
/// receive, and whether an overflow gap still has to be surfaced.
#[derive(Debug)]
pub struct Subscriber {
    /// Back-pressure policy chosen at subscribe time.
    pub policy: BackpressurePolicy,
    /// Buffered notifications, oldest first.
    pub queue: Vec<Notification>,
    /// Height of the next notification the consumer will receive.
    pub next_height: u64,
    /// An overflow dropped buffered notifications; a gap error is owed.
    pub gapped: bool,
}

/// Persists sealed blocks in height order and fans each one out to all
/// active subscribers.
#[derive(Debug)]
pub struct BlockImporter {
    /// Height of the last imported block; the genesis height before any
    /// import.
    pub height: u32,
    /// Header id of the last imported block (of the genesis before any
    /// import); what the next block must link to.
    pub last_id: u64,
    /// The committed chain, in import order.
    pub chain: Vec<SealedBlock>,
    /// Active subscriptions, in subscribe order.
    pub subscribers: Vec<Subscriber>,
}

/// Why an import was refused. The chain and every subscriber are left
/// untouched by a refused import.
#[derive(Clone, Copy, Debug, PartialEq, Eq, Structural)]
pub enum ImportError {
    /// The block's height is not exactly one above the last imported
    /// height.
    NonConsecutiveHeight,
    /// The block does not link to the last imported block's id.
    BrokenChain,
}

/// Why a receive attempt did not hand back a notification.
#[derive(Clone, Copy, Debug, PartialEq, Eq, Structural)]
pub enum RecvError {
    /// Buffered notifications were dropped on overflow; the stream
    /// resumes after this error instead of skipping silently.
    Gap,
}

impl Subscriber {
    /// The buffer holds consecutive heights starting at `next_height`,
    /// and ends exactly at the importer's height: nothing published since
    /// subscription is missing beyond it.
    pub open spec fn wf(self, importer_height: u32) -> bool {
        &&& forall|j: int|
            0 <= j < self.queue@.len() ==> (#[trigger] self.queue@[j]).header.height
                == self.next_height + j
        &&& self.next_height + self.queue@.len() == importer_height + 1
        &&& (self.policy matches BackpressurePolicy::DropOldest { bound } ==> self.queue@.len()
            <= bound && bound >= 1)
    }
}

impl BlockImporter {
    /// Every subscriber's buffer is consistent with the chain height.
    pub open spec fn wf(self) -> bool {
        forall|s: int|
            0 <= s < self.subscribers@.len() ==> (#[trigger] self.subscribers@[s]).wf(self.height)
    }

    /// Importer over an empty chain whose tip is the genesis block.
    pub fn new(genesis_height: u32, genesis_id: u64) -> (imp: BlockImporter)
        ensures
            imp.wf(),
            imp.height == genesis_height,
            imp.last_id == genesis_id,
            imp.chain@.len() == 0,
            imp.subscribers@.len() == 0,
    {
        BlockImporter {
            height: genesis_height,
            last_id: genesis_id,
            chain: Vec::new(),
            subscribers: Vec::new(),
        }
    }

    /// Registers a listener. It will receive every block imported from
    /// this point onward — nothing earlier is replayed. A bound of 0 is
    /// raised to 1. Returns the subscription handle.
    pub fn subscribe(&mut self, policy: BackpressurePolicy) -> (handle: usize)
        requires
            old(self).wf(),
        ensures
            final(self).wf(),
            handle == old(self).subscribers@.len(),
            final(self).subscribers@.len() == old(self).subscribers@.len() + 1,
            forall|s: int|
                0 <= s < old(self).subscribers@.len() ==> final(self).subscribers@[s]
                    == old(self).subscribers@[s],
            final(self).subscribers@[handle as int].queue@.len() == 0,
            final(self).subscribers@[handle as int].next_height == old(self).height + 1,
            final(self).subscribers@[handle as int].gapped == false,
            final(self).height == old(self).height,
            final(self).last_id == old(self).last_id,
            final(self).chain@ == old(self).chain@,
    {
        let safe_policy = match policy {
            BackpressurePolicy::Unbounded => BackpressurePolicy::Unbounded,
            BackpressurePolicy::DropOldest { bound } => BackpressurePolicy::DropOldest {
                bound: if bound == 0 {
                    1
                } else {
                    bound
                },
            },
        };
        let handle = self.subscribers.len();
        self.subscribers.push(
            Subscriber {
                policy: safe_policy,
                queue: Vec::new(),
                next_height: self.height as u64 + 1,
                gapped: false,
            },
        );
        handle
    }

    /// Commits the block, then publishes it with its statuses to every
    /// subscriber, in strict height order: exactly one height above the
    /// last import, linked to it. A refused import changes nothing.
    pub fn import(&mut self, block: SealedBlock, statuses: Vec<TxStatus>) -> (r: Result<
        (),
        ImportError,
    >)
        requires
            old(self).wf(),
            block.spec_sealed(),
        ensures
            final(self).wf(),
            r is Ok <==> (block.header.height == old(self).height + 1 && block.header.previous_id
                == old(self).last_id),
            r matches Err(e) ==> *final(self) == *old(self) && (if block.header.height
                != old(self).height + 1 {
                e is NonConsecutiveHeight
            } else {
                e is BrokenChain
            }),
            r is Ok ==> {
                &&& final(self).height == block.header.height
                &&& final(self).last_id == spec_header_id(block.header)
                &&& final(self).chain@ == old(self).chain@.push(block)
                &&& final(self).subscribers@.len() == old(self).subscribers@.len()
                &&& forall|s: int|
                    0 <= s < old(self).subscribers@.len() ==> delivered(
                        #[trigger] old(self).subscribers@[s],
                        final(self).subscribers@[s],
                        block,
                        statuses@,
                    )
            },
    {
        if self.height == u32::MAX || block.header.height != self.height + 1 {
            return Err(ImportError::NonConsecutiveHeight);
        }
        if block.header.previous_id != self.last_id {
            return Err(ImportError::BrokenChain);
        }
        let new_id = crate::block::header_id(&block.header);
        let ghost subs0 = self.subscribers@;
        let mut s: usize = 0;
        let n_subs = self.subscribers.len();
        while s < n_subs
            invariant
                0 <= s <= n_subs,
                n_subs == subs0.len(),
                self.subscribers@.len() == subs0.len(),
                self.height == old(self).height,
                self.height < u32::MAX,
                block.header.height == self.height + 1,
                self.last_id == old(self).last_id,
                self.chain@ == old(self).chain@,
                old(self).wf(),
                subs0 == old(self).subscribers@,
                forall|q: int| s <= q < subs0.len() ==> self.subscribers@[q] == subs0[q],
                forall|q: int|
                    0 <= q < s ==> delivered(subs0[q], #[trigger] self.subscribers@[q], block, statuses@),
                forall|q: int|
                    0 <= q < s ==> (#[trigger] self.subscribers@[q]).wf(
                        (self.height + 1) as u32,
                    ),
            decreases n_subs - s,
        {
            let n = Notification {
                header: block.header,
                seal: block.seal,
                transactions: duplicate_txs(&block.transactions),
                statuses: duplicate_statuses(&statuses),
            };
            assert(subs0[s as int].wf(self.height));
            let ghost subs_pre = self.subscribers@;
            let ghost n_ghost = n;
            let mut sub = self.subscribers.remove(s);
            let ghost sub0 = sub;
            let must_drop = match sub.policy {
                BackpressurePolicy::Unbounded => false,
                BackpressurePolicy::DropOldest { bound } => sub.queue.len() >= bound,
            };
            if must_drop {
                sub.queue.remove(0);
                sub.next_height = sub.next_height + 1;
                sub.gapped = true;
            }
            let ghost q_mid = sub.queue@;
            sub.queue.push(n);
            self.subscribers.insert(s, sub);
            proof {
                assert(self.subscribers@ =~= subs_pre.update(s as int, sub));
                assert(sub.queue@ == q_mid.push(n_ghost));
                assert(sub.queue@.drop_last() =~= q_mid);
                if must_drop {
                    assert(q_mid =~= sub0.queue@.drop_first());
                }
                assert(notif_matches(n_ghost, block, statuses@));
                assert(delivered(subs0[s as int], self.subscribers@[s as int], block, statuses@));
                assert(sub.wf((self.height + 1) as u32)) by {
                    assert forall|j: int| 0 <= j < sub.queue@.len() implies (#[trigger] sub.queue@[j]).header.height
                        == sub.next_height + j by {
                        if j < sub.queue@.len() - 1 {
                            if must_drop {
                                assert(sub.queue@[j] == sub0.queue@[j + 1]);
                            } else {
                                assert(sub.queue@[j] == sub0.queue@[j]);
                            }
                        } else {
                            assert(sub.queue@[j] == n_ghost);
                        }
                    }
                }
                assert forall|q: int| 0 <= q < s + 1 implies delivered(
                    subs0[q],
                    #[trigger] self.subscribers@[q],
                    block,
                    statuses@,
                ) by {
                    if q < s {
                        assert(self.subscribers@[q] == subs_pre[q]);
                    }
                }
                assert forall|q: int| 0 <= q < s + 1 implies (#[trigger] self.subscribers@[q]).wf(
                    (self.height + 1) as u32,
                ) by {
                    if q < s {
                        assert(self.subscribers@[q] == subs_pre[q]);
                    }
                }
            }
            s = s + 1;
        }
        self.height = self.height + 1;
        self.last_id = new_id;
        self.chain.push(block);
        Ok(())
    }

    /// Hands the consumer of subscription `handle` its next notification:
    /// the oldest buffered one, or `None` when it is up to date. An owed
    /// gap error is surfaced first, exactly once, before anything newer.
    pub fn try_recv(&mut self, handle: usize) -> (r: Result<Option<Notification>, RecvError>)
        requires
            old(self).wf(),
            handle < old(self).subscribers@.len(),
        ensures
            final(self).wf(),
            final(self).height == old(self).height,
            final(self).last_id == old(self).last_id,
            final(self).chain@ == old(self).chain@,
            final(self).subscribers@.len() == old(self).subscribers@.len(),
            forall|q: int|
                0 <= q < old(self).subscribers@.len() && q != handle
                    ==> final(self).subscribers@[q] == old(self).subscribers@[q],
            ({
                let s0 = old(self).subscribers@[handle as int];
                let s1 = final(self).subscribers@[handle as int];
                &&& s1.policy == s0.policy
                &&& (s0.gapped ==> r == Result::<Option<Notification>, RecvError>::Err(
                    RecvError::Gap,
                ) && s1.queue@ == s0.queue@ && s1.next_height == s0.next_height && !s1.gapped)
                &&& (!s0.gapped && s0.queue@.len() == 0 ==> (r matches Ok(o) && o is None) && s1
                    == s0)
                &&& (!s0.gapped && s0.queue@.len() > 0 ==> (r matches Ok(o) && (o matches Some(n)
                    && n == s0.queue@[0] && n.header.height == s0.next_height)) && s1.queue@
                    == s0.queue@.drop_first() && s1.next_height == s0.next_height + 1
                    && !s1.gapped)
            }),
    {
        let ghost subs_pre = self.subscribers@;
        let mut sub = self.subscribers.remove(handle);
        if sub.gapped {
            sub.gapped = false;
            self.subscribers.insert(handle, sub);
            proof {
                assert(self.subscribers@ =~= subs_pre.update(handle as int, sub));
            }
            return Err(RecvError::Gap);
        }
        if sub.queue.len() == 0 {
            self.subscribers.insert(handle, sub);
            proof {
                assert(self.subscribers@ =~= subs_pre);
            }
            return Ok(None);
        }
        let n = sub.queue.remove(0);
        sub.next_height = sub.next_height + 1;
        self.subscribers.insert(handle, sub);
        proof {
            assert(self.subscribers@ =~= subs_pre.update(handle as int, sub));
        }
        Ok(Some(n))
    }
}

/// How one import changes one subscriber: the new notification is
/// appended; under a full `DropOldest` buffer the oldest is dropped first
/// and the gap recorded, otherwise nothing else moves.
pub open spec fn delivered(
    s0: Subscriber,
    s1: Subscriber,
    block: SealedBlock,
    statuses: Seq<TxStatus>,
) -> bool {
    &&& s1.policy == s0.policy
    &&& s1.queue@.len() >= 1
    &&& notif_matches(s1.queue@.last(), block, statuses)
    &&& match s0.policy {
        BackpressurePolicy::Unbounded => {
            &&& s1.queue@.drop_last() == s0.queue@
            &&& s1.gapped == s0.gapped
            &&& s1.next_height == s0.next_height
        },
        BackpressurePolicy::DropOldest { bound } => {
            if s0.queue@.len() < bound {
                &&& s1.queue@.drop_last() == s0.queue@
                &&& s1.gapped == s0.gapped
                &&& s1.next_height == s0.next_height
            } else {
                &&& s1.queue@.drop_last() == s0.queue@.drop_first()
                &&& s1.gapped == true
                &&& s1.next_height == s0.next_height + 1
            }
        },
    }
}

/// The buffered stream of any subscriber is strictly consecutive in
/// height: between any two buffer positions there is neither a duplicate
/// nor a gap, so the consumer receives heights `next_height`,
/// `next_height + 1`, … in order.
pub proof fn lemma_subscriber_stream_consecutive(imp: BlockImporter, s: int, j1: int, j2: int)
    requires
        imp.wf(),
        0 <= s < imp.subscribers@.len(),
        0 <= j1 <= j2 < imp.subscribers@[s].queue@.len(),
    ensures
        imp.subscribers@[s].queue@[j2].header.height == imp.subscribers@[s].queue@[j1].header.height
            + (j2 - j1),
        imp.subscribers@[s].queue@[j1].header.height == imp.subscribers@[s].next_height + j1,
{
    assert(imp.subscribers@[s].wf(imp.height));
}

/// Copies a transaction vector element-wise.
fn duplicate_txs(v: &Vec<crate::tx::Transaction>) -> (r: Vec<crate::tx::Transaction>)
    ensures
        eq_tx_seq(r@, v@),
{
    let mut r: Vec<crate::tx::Transaction> = Vec::new();
    let mut i: usize = 0;
    while i < v.len()
        invariant
            0 <= i <= v@.len(),
            r@.len() == i,
            forall|k: int| 0 <= k < i ==> crate::tx::eq_tx(#[trigger] r@[k], v@[k]),
        decreases v@.len() - i,
    {
        r.push(v[i].duplicate());
        i = i + 1;
    }
    r
}

/// Copies a status vector element-wise.
fn duplicate_statuses(v: &Vec<TxStatus>) -> (r: Vec<TxStatus>)
    ensures
        eq_status_seq(r@, v@),
{
    let mut r: Vec<TxStatus> = Vec::new();
    let mut i: usize = 0;
    while i < v.len()
        invariant
            0 <= i <= v@.len(),
            r@.len() == i,
            forall|k: int| 0 <= k < i ==> crate::status::eq_status(#[trigger] r@[k], v@[k]),
        decreases v@.len() - i,
    {
        r.push(v[i].duplicate());
        i = i + 1;
    }
    r
}

} // verus!
