//! Bloom filters of logs, receipts and blocks.

use vstd::prelude::*;
use crate::primitives::{bloom_or, zero_bloom, Bloom, B256};
use crate::receipt::{receipt_views, Log, LogView, Receipt, ReceiptView};

verus! {

/// The Keccak-256 digest of `input`, as `alloy_primitives::keccak256` computes it.
pub uninterp spec fn keccak256_digest(input: Seq<u8>) -> Seq<u8>;

/// Hashes `input` with `alloy_primitives::keccak256`.
///
/// Trusted: the 32 bytes returned are the digest that `keccak256_digest`
/// names, a function of the input bytes alone.
#[verifier::external_body]
fn keccak256(input: &[u8]) -> (digest: B256)
    ensures
        digest@ == keccak256_digest(input@),
{
    B256(alloy_primitives::keccak256(input).0)
}

/// The index, among the 2048 bits of a filter, that the big-endian pair of
/// hash bytes `high`, `low` selects: its low 11 bits.
pub open spec fn selected_bit(high: u8, low: u8) -> int {
    (high as int * 256 + low as int) % 2048
}

/// `bloom` with bit `bit` set. Bits are numbered from the low bit of the last
/// byte upwards, so bit 0 is the low bit of byte 255.
pub open spec fn with_bit(bloom: Seq<u8>, bit: int) -> Seq<u8> {
    let index = 255 - bit / 8;
    bloom.update(index, bloom[index] | (1u8 << ((bit % 8) as u8)))
}

/// `bloom` with the three bits set that the first three byte pairs of `hash`
/// select.
pub open spec fn with_hash(bloom: Seq<u8>, hash: Seq<u8>) -> Seq<u8> {
    with_bit(
        with_bit(with_bit(bloom, selected_bit(hash[0], hash[1])), selected_bit(hash[2], hash[3])),
        selected_bit(hash[4], hash[5]),
    )
}

/// The filter obtained from `bloom` by adding `input` to it: the three bits
/// that the Keccak-256 digest of `input` selects are set, and every other bit
/// is kept.
pub open spec fn m3_2048(bloom: Seq<u8>, input: Seq<u8>) -> Seq<u8> {
    with_hash(bloom, keccak256_digest(input))
}

impl Bloom {
    /// Sets the bit that the pair of hash bytes `high`, `low` selects.
    pub fn set_selected_bit(&mut self, high: u8, low: u8)
        ensures
            final(self)@ == with_bit(old(self)@, selected_bit(high, low)),
    {
        let pair: usize = high as usize * 256 + low as usize;
        let bit: usize = pair % 2048;
        let index: usize = 255 - bit / 8;
        let shift: u8 = (bit % 8) as u8;
        let mask: u8 = 1u8 << shift;
        let byte: u8 = self.0[index];
        self.0[index] = byte | mask;
    }

    /// Adds an input whose Keccak-256 digest is `hash`.
    pub fn m3_2048_hashed(&mut self, hash: &B256)
        ensures
            final(self)@ == with_hash(old(self)@, hash@),
    {
        self.set_selected_bit(hash.0[0], hash.0[1]);
        self.set_selected_bit(hash.0[2], hash.0[3]);
        self.set_selected_bit(hash.0[4], hash.0[5]);
    }

    /// Adds `input` to the filter.
    pub fn m3_2048(&mut self, input: &[u8])
        ensures
            final(self)@ == m3_2048(old(self)@, input@),
    {
        let hash = keccak256(input);
        self.m3_2048_hashed(&hash);
    }
}

/// `bloom` with every topic added, first to last.
pub open spec fn with_topics(bloom: Seq<u8>, topics: Seq<Seq<u8>>) -> Seq<u8>
    decreases topics.len(),
{
    if topics.len() == 0 {
        bloom
    } else {
        m3_2048(with_topics(bloom, topics.drop_last()), topics.last())
    }
}

/// `bloom` with one log added: its address, then each of its topics.
pub open spec fn with_log(bloom: Seq<u8>, log: LogView) -> Seq<u8> {
    with_topics(m3_2048(bloom, log.address), log.topics)
}

/// `bloom` with every log added, first to last.
pub open spec fn with_logs(bloom: Seq<u8>, logs: Seq<LogView>) -> Seq<u8>
    decreases logs.len(),
{
    if logs.len() == 0 {
        bloom
    } else {
        with_log(with_logs(bloom, logs.drop_last()), logs.last())
    }
}

/// The bloom filter of one receipt: the zero filter with its logs added.
pub open spec fn receipt_bloom(receipt: ReceiptView) -> Seq<u8> {
    with_logs(zero_bloom(), receipt.logs)
}

/// The bloom filter of a block: the OR of the filters of its receipts, folded
/// in receipt order from the zero filter.
pub open spec fn aggregate_bloom(receipts: Seq<ReceiptView>) -> Seq<u8>
    decreases receipts.len(),
{
    if receipts.len() == 0 {
        zero_bloom()
    } else {
        bloom_or(aggregate_bloom(receipts.drop_last()), receipt_bloom(receipts.last()))
    }
}

/// Adds the address and the topics of `log` to `bloom`.
pub fn accrue_log(bloom: &mut Bloom, log: &Log)
    ensures
        final(bloom)@ == with_log(old(bloom)@, log@),
{
    bloom.m3_2048(log.address.0.as_slice());
    let ghost start = bloom@;
    let n: usize = log.topics.len();
    let mut i: usize = 0;
    while i < n
        invariant
            i <= n,
            n == log.topics@.len(),
            bloom@ == with_topics(start, log@.topics.take(i as int)),
        decreases n - i,
    {
        bloom.m3_2048(log.topics[i].0.as_slice());
        proof {
            let next = log@.topics.take(i + 1);
            assert(next.drop_last() =~= log@.topics.take(i as int));
            assert(next.last() == log.topics@[i as int]@);
        }
        i = i + 1;
    }
    assert(log@.topics.take(n as int) =~= log@.topics);
}

/// Builds the bloom filter of a sequence of logs.
pub fn logs_bloom(logs: &[Log]) -> (bloom: Bloom)
    ensures
        bloom@ == with_logs(zero_bloom(), Seq::new(logs@.len(), |i: int| logs@[i]@)),
{
    let ghost views = Seq::new(logs@.len(), |i: int| logs@[i]@);
    let mut bloom = Bloom::zero();
    let n: usize = logs.len();
    let mut i: usize = 0;
    while i < n
        invariant
            i <= n,
            n == logs@.len(),
            views == Seq::new(logs@.len(), |i: int| logs@[i]@),
            bloom@ == with_logs(zero_bloom(), views.take(i as int)),
        decreases n - i,
    {
        accrue_log(&mut bloom, &logs[i]);
        proof {
            let next = views.take(i + 1);
            assert(next.drop_last() =~= views.take(i as int));
            assert(next.last() == logs@[i as int]@);
        }
        i = i + 1;
    }
    assert(views.take(n as int) =~= views);
    bloom
}

/// Builds the bloom filter of one receipt from its logs.
pub fn bloom_of_receipt(receipt: &Receipt) -> (bloom: Bloom)
    ensures
        bloom@ == receipt_bloom(receipt@),
{
    logs_bloom(receipt.logs.as_slice())
}

/// Builds the bloom filter of a block from its receipts.
pub fn bloom_of_receipts(receipts: &[Receipt]) -> (bloom: Bloom)
    ensures
        bloom@ == aggregate_bloom(receipt_views(receipts@)),
{
    let ghost views = receipt_views(receipts@);
    let mut bloom = Bloom::zero();
    let n: usize = receipts.len();
    let mut i: usize = 0;
    while i < n
        invariant
            i <= n,
            n == receipts@.len(),
            views == receipt_views(receipts@),
            bloom@ == aggregate_bloom(views.take(i as int)),
        decreases n - i,
    {
        let one = bloom_of_receipt(&receipts[i]);
        bloom = bloom.bit_or(&one);
        proof {
            let next = views.take(i + 1);
            assert(next.drop_last() =~= views.take(i as int));
            assert(next.last() == receipts@[i as int]@);
        }
        i = i + 1;
    }
    assert(views.take(n as int) =~= views);
    bloom
}

} // verus!
