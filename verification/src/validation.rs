//! Validation of a block against the receipts of its execution.

use vstd::prelude::*;
use crate::bloom::{aggregate_bloom, bloom_of_receipts};
use crate::chain::{ChainSpec, Header};
use crate::error::{outcome_view, ValidationError, ValidationErrorView};
use crate::primitives::{Bloom, GotExpected, B256};
use crate::receipt::{
    cumulative_gas_used, gas_breakdown, gas_spent_by_transactions, receipt_views, total_gas_used,
    Receipt, ReceiptView,
};

verus! {

/// The result of comparing a computed receipts root and logs bloom with the
/// declared ones. The root is compared first.
pub open spec fn receipts_outcome(
    calculated_root: Seq<u8>,
    calculated_bloom: Seq<u8>,
    expected_root: Seq<u8>,
    expected_bloom: Seq<u8>,
) -> Result<(), ValidationErrorView> {
    if calculated_root != expected_root {
        Err(
            ValidationErrorView::ReceiptsRootMismatch {
                got: calculated_root,
                expected: expected_root,
            },
        )
    } else if calculated_bloom != expected_bloom {
        Err(
            ValidationErrorView::LogsBloomMismatch {
                got: calculated_bloom,
                expected: expected_bloom,
            },
        )
    } else {
        Ok(())
    }
}

/// The result of comparing the gas used by the receipts with the declared
/// amount.
pub open spec fn gas_outcome(receipts: Seq<ReceiptView>, declared: u64) -> Result<
    (),
    ValidationErrorView,
> {
    if declared != total_gas_used(receipts) {
        Err(
            ValidationErrorView::GasUsedMismatch {
                got: total_gas_used(receipts),
                expected: declared,
                gas_spent_by_tx: gas_breakdown(receipts),
            },
        )
    } else {
        Ok(())
    }
}

/// The result of validating a block after execution. From Byzantium on, the
/// receipts root and then the logs bloom are checked; the gas used is checked
/// last, and at every height. The first disagreement is the result.
pub open spec fn post_execution_outcome(
    header: Header,
    chain_spec: ChainSpec,
    receipts: Seq<ReceiptView>,
    calculated_root: Seq<u8>,
) -> Result<(), ValidationErrorView> {
    let checked = receipts_outcome(
        calculated_root,
        aggregate_bloom(receipts),
        header.receipts_root@,
        header.logs_bloom@,
    );
    if chain_spec.byzantium_active_at(header.number) && checked is Err {
        checked
    } else {
        gas_outcome(receipts, header.gas_used)
    }
}

/// Compares the calculated receipts root with the expected one, then the
/// calculated logs bloom with the expected one.
pub fn compare_receipts_root_and_logs_bloom(
    calculated_receipts_root: B256,
    calculated_logs_bloom: Bloom,
    expected_receipts_root: B256,
    expected_logs_bloom: Bloom,
) -> (result: Result<(), ValidationError>)
    ensures
        outcome_view(result) == receipts_outcome(
            calculated_receipts_root@,
            calculated_logs_bloom@,
            expected_receipts_root@,
            expected_logs_bloom@,
        ),
{
    if !calculated_receipts_root.same_as(&expected_receipts_root) {
        return Err(
            ValidationError::ReceiptsRootMismatch(
                GotExpected { got: calculated_receipts_root, expected: expected_receipts_root },
            ),
        );
    }
    if !calculated_logs_bloom.same_as(&expected_logs_bloom) {
        return Err(
            ValidationError::LogsBloomMismatch(
                GotExpected { got: calculated_logs_bloom, expected: expected_logs_bloom },
            ),
        );
    }
    Ok(())
}

/// Verifies the receipts root calculated for `receipts`, and the bloom filter
/// folded from them, against the expected values.
pub fn verify_receipts(
    expected_receipts_root: B256,
    expected_logs_bloom: Bloom,
    receipts: &[Receipt],
    calculated_receipts_root: B256,
) -> (result: Result<(), ValidationError>)
    ensures
        outcome_view(result) == receipts_outcome(
            calculated_receipts_root@,
            aggregate_bloom(receipt_views(receipts@)),
            expected_receipts_root@,
            expected_logs_bloom@,
        ),
{
    let logs_bloom = bloom_of_receipts(receipts);
    compare_receipts_root_and_logs_bloom(
        calculated_receipts_root,
        logs_bloom,
        expected_receipts_root,
        expected_logs_bloom,
    )
}

/// Verifies that the gas used by `receipts` is the amount that the header
/// declares.
pub fn verify_gas_used(receipts: &[Receipt], declared_gas_used: u64) -> (result: Result<
    (),
    ValidationError,
>)
    ensures
        outcome_view(result) == gas_outcome(receipt_views(receipts@), declared_gas_used),
{
    let used = cumulative_gas_used(receipts);
    if declared_gas_used != used {
        return Err(
            ValidationError::GasUsedMismatch {
                gas: GotExpected { got: used, expected: declared_gas_used },
                gas_spent_by_tx: gas_spent_by_transactions(receipts),
            },
        );
    }
    Ok(())
}

/// Validates a block with regard to its execution results.
///
/// `receipts` are the receipts of the block's transactions in execution order,
/// and `calculated_receipts_root` is the root of the receipts trie built from
/// them; it is read only where Byzantium is active at the block's height.
pub fn validate_block_post_execution(
    header: &Header,
    chain_spec: &ChainSpec,
    receipts: &[Receipt],
    calculated_receipts_root: B256,
) -> (result: Result<(), ValidationError>)
    ensures
        outcome_view(result) == post_execution_outcome(
            *header,
            *chain_spec,
            receipt_views(receipts@),
            calculated_receipts_root@,
        ),
{
    if chain_spec.is_byzantium_active_at_block(header.number) {
        let checked = verify_receipts(
            header.receipts_root,
            header.logs_bloom,
            receipts,
            calculated_receipts_root,
        );
        if checked.is_err() {
            return checked;
        }
    }
    verify_gas_used(receipts, header.gas_used)
}

} // verus!
