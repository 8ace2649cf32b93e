//! Sealed blocks: header, ordered transactions (mint first), and the
//! consensus seal over the header.

use vstd::prelude::*;

use crate::tx::Transaction;
use crate::tx::mix;

verus! {

/// Header of a block: position in the chain, link to the previous block,
/// production time and producer identity.
#[derive(Clone, Copy, Debug, PartialEq, Eq, Structural)]
pub struct BlockHeader {
    /// Height of this block; genesis is 0.
    pub height: u32,
    /// Id of the block at the previous height.
    pub previous_id: u64,
    /// Production time, seconds since the epoch.
    pub time: u64,
    /// Identity of the producing node.
    pub producer: u64,
}

/// Id of a header: the same rotate-and-xor fold the transaction id uses,
/// over the header fields in order.
pub open spec fn spec_header_id(h: BlockHeader) -> u64 {
    mix(mix(mix(mix(crate::tx::id_seed(), h.height as u64), h.previous_id), h.time), h.producer)
}

/// Computes [`spec_header_id`].
pub fn header_id(h: &BlockHeader) -> (r: u64)
    ensures
        r == spec_header_id(*h),
{
    let mut acc: u64 = mix_word(0x5eed_0f1e_1d00_d1ce, h.height as u64);
    acc = mix_word(acc, h.previous_id);
    acc = mix_word(acc, h.time);
    mix_word(acc, h.producer)
}

/// Executable [`mix`].
fn mix_word(h: u64, w: u64) -> (r: u64)
    ensures
        r == mix(h, w),
{
    ((h << 1u64) | (h >> 63u64)) ^ w
}

/// A block with finalized contents and its consensus seal, ready for
/// import: the mint transaction first, then the user transactions in
/// selection order.
#[derive(Debug)]
pub struct SealedBlock {
    /// The block's header.
    pub header: BlockHeader,
    /// Mint first, then user transactions in selection order.
    pub transactions: Vec<Transaction>,
    /// Consensus seal over the header.
    pub seal: u64,
}

impl SealedBlock {
    /// The seal binds the header.
    pub open spec fn spec_sealed(self) -> bool {
        self.seal == spec_header_id(self.header)
    }

    /// Seals finalized contents under their header.
    pub fn seal(header: BlockHeader, transactions: Vec<Transaction>) -> (b: SealedBlock)
        ensures
            b.spec_sealed(),
            b.header == header,
            b.transactions@ == transactions@,
    {
        let seal = header_id(&header);
        SealedBlock { header, transactions, seal }
    }
}

} // verus!
