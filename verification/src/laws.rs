//! Laws that hold of validation as a whole: of the bloom fold, the fork gate,
//! the order of the checks and the gas accounting.

use vstd::prelude::*;
use crate::bloom::{
    aggregate_bloom, keccak256_digest, m3_2048, receipt_bloom, selected_bit, with_bit, with_log,
    with_logs, with_topics,
};
use crate::chain::{ChainSpec, Header};
use crate::error::ValidationErrorView;
use crate::primitives::{bloom_or, zero_bloom};
use crate::receipt::{gas_breakdown, total_gas_used, LogView, ReceiptView};
use crate::validation::{gas_outcome, post_execution_outcome, receipts_outcome};

verus! {

/// The OR of two bloom filters does not depend on their order.
pub proof fn lemma_bloom_or_commutative(a: Seq<u8>, b: Seq<u8>)
    ensures
        bloom_or(a, b) == bloom_or(b, a),
{
    assert forall|i: int| 0 <= i < 256 implies bloom_or(a, b)[i] == bloom_or(b, a)[i] by {
        let x = a[i];
        let y = b[i];
        assert(x | y == y | x) by (bit_vector);
    }
    assert(bloom_or(a, b) =~= bloom_or(b, a));
}

/// The OR of three bloom filters does not depend on how they are grouped.
pub proof fn lemma_bloom_or_associative(a: Seq<u8>, b: Seq<u8>, c: Seq<u8>)
    ensures
        bloom_or(bloom_or(a, b), c) == bloom_or(a, bloom_or(b, c)),
{
    assert forall|i: int| 0 <= i < 256 implies bloom_or(bloom_or(a, b), c)[i] == bloom_or(
        a,
        bloom_or(b, c),
    )[i] by {
        let x = a[i];
        let y = b[i];
        let z = c[i];
        assert((x | y) | z == x | (y | z)) by (bit_vector);
    }
    assert(bloom_or(bloom_or(a, b), c) =~= bloom_or(a, bloom_or(b, c)));
}

/// The aggregate bloom of a block is the aggregate of the block without one of
/// its receipts, OR the bloom of that receipt, wherever the receipt stands.
pub proof fn lemma_aggregate_bloom_remove(receipts: Seq<ReceiptView>, k: int)
    requires
        0 <= k < receipts.len(),
    ensures
        aggregate_bloom(receipts) == bloom_or(
            aggregate_bloom(receipts.remove(k)),
            receipt_bloom(receipts[k]),
        ),
    decreases receipts.len(),
{
    if k == receipts.len() - 1 {
        assert(receipts.remove(k) =~= receipts.drop_last());
    } else {
        let rest = receipts.drop_last();
        let removed = receipts.remove(k);
        lemma_aggregate_bloom_remove(rest, k);
        assert(removed.drop_last() =~= rest.remove(k));
        assert(removed.last() == receipts.last());
        let base = aggregate_bloom(rest.remove(k));
        let at_k = receipt_bloom(receipts[k]);
        let at_last = receipt_bloom(receipts.last());
        assert(aggregate_bloom(receipts) == bloom_or(bloom_or(base, at_k), at_last));
        assert(aggregate_bloom(removed) == bloom_or(base, at_last));
        lemma_bloom_or_associative(base, at_k, at_last);
        lemma_bloom_or_commutative(at_k, at_last);
        lemma_bloom_or_associative(base, at_last, at_k);
    }
}

/// Permuting the receipts of a block does not change its aggregate bloom: two
/// sequences that hold the same receipts the same number of times, in whatever
/// order, fold to the same filter.
pub proof fn lemma_aggregate_bloom_order_independent(a: Seq<ReceiptView>, b: Seq<ReceiptView>)
    requires
        a.to_multiset() == b.to_multiset(),
    ensures
        aggregate_bloom(a) == aggregate_bloom(b),
    decreases a.len(),
{
    a.to_multiset_ensures();
    b.to_multiset_ensures();
    assert(a.len() == b.len());
    if a.len() > 0 {
        let last = a.last();
        assert(a.contains(last));
        assert(b.to_multiset().count(last) > 0);
        assert(b.contains(last));
        let k = choose|k: int| 0 <= k < b.len() && b[k] == last;
        assert(a.drop_last() =~= a.remove(a.len() - 1));
        assert(a.remove(a.len() - 1).to_multiset() =~= b.remove(k).to_multiset());
        lemma_aggregate_bloom_order_independent(a.drop_last(), b.remove(k));
        lemma_aggregate_bloom_remove(b, k);
    }
}

/// Below the activation height the declared receipts root and logs bloom are
/// not read: whatever they are, and whatever root was calculated, the result
/// is that of the gas check alone.
pub proof fn lemma_pre_fork_checks_gas_only(
    header: Header,
    chain_spec: ChainSpec,
    receipts: Seq<ReceiptView>,
    calculated_root: Seq<u8>,
)
    requires
        !chain_spec.byzantium_active_at(header.number),
    ensures
        post_execution_outcome(header, chain_spec, receipts, calculated_root) == gas_outcome(
            receipts,
            header.gas_used,
        ),
{
}

/// From the activation height on, a calculated root that differs from the
/// declared one gives a receipts root mismatch, and, with equal roots, a
/// calculated bloom that differs from the declared one gives a logs bloom
/// mismatch; each carries the calculated and the declared value.
pub proof fn lemma_post_fork_mismatch_is_specific(
    header: Header,
    chain_spec: ChainSpec,
    receipts: Seq<ReceiptView>,
    calculated_root: Seq<u8>,
)
    requires
        chain_spec.byzantium_active_at(header.number),
    ensures
        calculated_root != header.receipts_root@ ==> post_execution_outcome(
            header,
            chain_spec,
            receipts,
            calculated_root,
        ) == Err::<(), ValidationErrorView>(
            ValidationErrorView::ReceiptsRootMismatch {
                got: calculated_root,
                expected: header.receipts_root@,
            },
        ),
        calculated_root == header.receipts_root@ && aggregate_bloom(receipts)
            != header.logs_bloom@ ==> post_execution_outcome(
            header,
            chain_spec,
            receipts,
            calculated_root,
        ) == Err::<(), ValidationErrorView>(
            ValidationErrorView::LogsBloomMismatch {
                got: aggregate_bloom(receipts),
                expected: header.logs_bloom@,
            },
        ),
        post_execution_outcome(header, chain_spec, receipts, calculated_root)
            is Ok ==> calculated_root == header.receipts_root@ && aggregate_bloom(receipts)
            == header.logs_bloom@,
{
}

/// A block without receipts used no gas: its gas check fails exactly when the
/// header declares a nonzero amount.
pub proof fn lemma_empty_block_gas(declared: u64)
    ensures
        total_gas_used(Seq::<ReceiptView>::empty()) == 0,
        gas_outcome(Seq::<ReceiptView>::empty(), declared) is Err <==> declared != 0,
        declared != 0 ==> gas_outcome(Seq::<ReceiptView>::empty(), declared) == Err::<
            (),
            ValidationErrorView,
        >(
            ValidationErrorView::GasUsedMismatch {
                got: 0,
                expected: declared,
                gas_spent_by_tx: Seq::empty(),
            },
        ),
{
    assert(gas_breakdown(Seq::<ReceiptView>::empty()) =~= Seq::<(u64, u64)>::empty());
}

/// Only the last receipt counts in the gas check: where its cumulative gas is
/// the declared amount the check passes, whatever the earlier receipts hold.
pub proof fn lemma_gas_check_reads_last_receipt(receipts: Seq<ReceiptView>, declared: u64)
    requires
        receipts.len() > 0,
    ensures
        gas_outcome(receipts, declared) is Ok <==> receipts.last().cumulative_gas_used
            == declared,
{
}

/// A header that declares what was calculated from the receipts is valid: with
/// the calculated root, the aggregate bloom and the total gas of the receipts
/// as its declared values, validation succeeds at every height and under every
/// configuration.
pub proof fn lemma_self_consistent_block_is_valid(
    header: Header,
    chain_spec: ChainSpec,
    receipts: Seq<ReceiptView>,
    calculated_root: Seq<u8>,
)
    requires
        header.receipts_root@ == calculated_root,
        header.logs_bloom@ == aggregate_bloom(receipts),
        header.gas_used == total_gas_used(receipts),
    ensures
        post_execution_outcome(header, chain_spec, receipts, calculated_root) is Ok,
{
}

/// Whether `bloom` is a filter of 256 bytes with at least one bit set.
pub open spec fn is_marked(bloom: Seq<u8>) -> bool {
    bloom.len() == 256 && exists|i: int| 0 <= i < 256 && bloom[i] != 0
}

/// Setting a bit of a filter leaves a filter with a bit set.
proof fn lemma_with_bit_is_marked(bloom: Seq<u8>, bit: int)
    requires
        bloom.len() == 256,
        0 <= bit < 2048,
    ensures
        is_marked(with_bit(bloom, bit)),
{
    let index = 255 - bit / 8;
    let byte = bloom[index];
    let shift = (bit % 8) as u8;
    assert(shift < 8 ==> (byte | (1u8 << shift)) != 0) by (bit_vector);
    assert(with_bit(bloom, bit)[index] != 0);
}

/// Adding an input to a filter leaves a filter with a bit set.
proof fn lemma_m3_2048_is_marked(bloom: Seq<u8>, input: Seq<u8>)
    requires
        bloom.len() == 256,
    ensures
        is_marked(m3_2048(bloom, input)),
{
    let hash = keccak256_digest(input);
    let first = with_bit(bloom, selected_bit(hash[0], hash[1]));
    lemma_with_bit_is_marked(bloom, selected_bit(hash[0], hash[1]));
    let second = with_bit(first, selected_bit(hash[2], hash[3]));
    lemma_with_bit_is_marked(first, selected_bit(hash[2], hash[3]));
    lemma_with_bit_is_marked(second, selected_bit(hash[4], hash[5]));
}

/// Adding topics to a filter with a bit set leaves a bit set.
proof fn lemma_with_topics_is_marked(bloom: Seq<u8>, topics: Seq<Seq<u8>>)
    requires
        is_marked(bloom),
    ensures
        is_marked(with_topics(bloom, topics)),
    decreases topics.len(),
{
    if topics.len() > 0 {
        lemma_with_topics_is_marked(bloom, topics.drop_last());
        lemma_m3_2048_is_marked(with_topics(bloom, topics.drop_last()), topics.last());
    }
}

/// Adding a log to a filter leaves a filter with a bit set.
proof fn lemma_with_log_is_marked(bloom: Seq<u8>, log: LogView)
    requires
        bloom.len() == 256,
    ensures
        is_marked(with_log(bloom, log)),
{
    lemma_m3_2048_is_marked(bloom, log.address);
    lemma_with_topics_is_marked(m3_2048(bloom, log.address), log.topics);
}

/// Adding logs to a filter keeps its 256 bytes.
proof fn lemma_with_logs_keeps_length(bloom: Seq<u8>, logs: Seq<LogView>)
    requires
        bloom.len() == 256,
    ensures
        with_logs(bloom, logs).len() == 256,
    decreases logs.len(),
{
    if logs.len() > 0 {
        lemma_with_logs_keeps_length(bloom, logs.drop_last());
        lemma_with_log_is_marked(with_logs(bloom, logs.drop_last()), logs.last());
    }
}

/// A receipt with at least one log has a bloom filter with a bit set.
pub proof fn lemma_receipt_with_log_is_marked(receipt: ReceiptView)
    requires
        receipt.logs.len() > 0,
    ensures
        is_marked(receipt_bloom(receipt)),
{
    lemma_with_logs_keeps_length(zero_bloom(), receipt.logs.drop_last());
    lemma_with_log_is_marked(
        with_logs(zero_bloom(), receipt.logs.drop_last()),
        receipt.logs.last(),
    );
}

/// A block in which some receipt holds a log has an aggregate bloom with a bit
/// set: it is never the zero filter.
pub proof fn lemma_block_with_log_is_marked(receipts: Seq<ReceiptView>, k: int)
    requires
        0 <= k < receipts.len(),
        receipts[k].logs.len() > 0,
    ensures
        is_marked(aggregate_bloom(receipts)),
        aggregate_bloom(receipts) != zero_bloom(),
{
    lemma_aggregate_bloom_remove(receipts, k);
    lemma_receipt_with_log_is_marked(receipts[k]);
    let rest = aggregate_bloom(receipts.remove(k));
    let one = receipt_bloom(receipts[k]);
    let i = choose|i: int| 0 <= i < 256 && one[i] != 0;
    let x = rest[i];
    let y = one[i];
    assert(y != 0 ==> (x | y) != 0) by (bit_vector);
    assert(bloom_or(rest, one)[i] != 0);
    assert(zero_bloom()[i] == 0);
}

/// From the activation height on, a block whose receipts hold a log is never
/// valid under a header that declares the zero bloom: where the roots agree,
/// the result is a logs bloom mismatch.
pub proof fn lemma_logs_contradict_zero_bloom(
    header: Header,
    chain_spec: ChainSpec,
    receipts: Seq<ReceiptView>,
    calculated_root: Seq<u8>,
    k: int,
)
    requires
        chain_spec.byzantium_active_at(header.number),
        calculated_root == header.receipts_root@,
        header.logs_bloom@ == zero_bloom(),
        0 <= k < receipts.len(),
        receipts[k].logs.len() > 0,
    ensures
        post_execution_outcome(header, chain_spec, receipts, calculated_root) == Err::<
            (),
            ValidationErrorView,
        >(
            ValidationErrorView::LogsBloomMismatch {
                got: aggregate_bloom(receipts),
                expected: zero_bloom(),
            },
        ),
{
    lemma_block_with_log_is_marked(receipts, k);
}

} // verus!
