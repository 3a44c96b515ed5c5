//! Receipts: the record of what each executed transaction did.

use vstd::prelude::*;
use crate::primitives::{Address, B256};

verus! {

/// A log emitted while a transaction ran.
#[derive(Clone, Debug, PartialEq, Eq)]
pub struct Log {
    /// The contract that emitted the log.
    pub address: Address,
    /// The indexed topics of the log.
    pub topics: Vec<B256>,
    /// The unindexed payload.
    pub data: Vec<u8>,
}

/// The outcome of one executed transaction.
#[derive(Clone, Debug, PartialEq, Eq)]
pub struct Receipt {
    /// Whether the transaction succeeded.
    pub success: bool,
    /// Gas used by the block up to and including this transaction.
    pub cumulative_gas_used: u64,
    /// The logs that the transaction emitted, in order.
    pub logs: Vec<Log>,
}

/// The mathematical content of a [`Log`].
pub struct LogView {
    pub address: Seq<u8>,
    pub topics: Seq<Seq<u8>>,
    pub data: Seq<u8>,
}

/// The mathematical content of a [`Receipt`].
pub struct ReceiptView {
    pub success: bool,
    pub cumulative_gas_used: u64,
    pub logs: Seq<LogView>,
}

impl View for Log {
    type V = LogView;

    open spec fn view(&self) -> LogView {
        LogView {
            address: self.address@,
            topics: Seq::new(self.topics@.len(), |i: int| self.topics@[i]@),
            data: self.data@,
        }
    }
}

impl View for Receipt {
    type V = ReceiptView;

    open spec fn view(&self) -> ReceiptView {
        ReceiptView {
            success: self.success,
            cumulative_gas_used: self.cumulative_gas_used,
            logs: Seq::new(self.logs@.len(), |i: int| self.logs@[i]@),
        }
    }
}

/// The contents of a sequence of receipts, in the same order.
pub open spec fn receipt_views(receipts: Seq<Receipt>) -> Seq<ReceiptView> {
    Seq::new(receipts.len(), |i: int| receipts[i]@)
}

/// The gas that a block with these receipts consumed: the cumulative counter
/// of the last receipt, and zero for a block without transactions.
pub open spec fn total_gas_used(receipts: Seq<ReceiptView>) -> u64 {
    if receipts.len() == 0 {
        0
    } else {
        receipts.last().cumulative_gas_used
    }
}

/// The breakdown of gas by transaction: each transaction's index in the block
/// paired with the cumulative gas used once it had run.
pub open spec fn gas_breakdown(receipts: Seq<ReceiptView>) -> Seq<(u64, u64)> {
    Seq::new(receipts.len(), |i: int| (i as u64, receipts[i].cumulative_gas_used))
}

/// Computes [`total_gas_used`].
pub fn cumulative_gas_used(receipts: &[Receipt]) -> (gas: u64)
    ensures
        gas == total_gas_used(receipt_views(receipts@)),
{
    let n: usize = receipts.len();
    if n == 0 {
        0
    } else {
        receipts[n - 1].cumulative_gas_used
    }
}

/// Lists, for each receipt, the index of its transaction and the cumulative
/// gas used after it.
pub fn gas_spent_by_transactions(receipts: &[Receipt]) -> (spent: Vec<(u64, u64)>)
    ensures
        spent@ == gas_breakdown(receipt_views(receipts@)),
{
    let n: usize = receipts.len();
    let mut spent: Vec<(u64, u64)> = Vec::new();
    let mut i: usize = 0;
    while i < n
        invariant
            i <= n,
            n == receipts@.len(),
            spent@.len() == i,
            forall|j: int|
                0 <= j < i ==> spent@[j] == (j as u64, receipts@[j].cumulative_gas_used),
        decreases n - i,
    {
        spent.push((i as u64, receipts[i].cumulative_gas_used));
        i = i + 1;
    }
    assert(spent@ =~= gas_breakdown(receipt_views(receipts@)));
    spent
}

} // verus!
