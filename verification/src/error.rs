//! The ways in which a block can disagree with its execution results.

use vstd::prelude::*;
use crate::primitives::{Bloom, GotExpected, B256};

verus! {

/// The first disagreement found between a header and the execution results.
#[derive(Clone, Debug, PartialEq, Eq)]
pub enum ValidationError {
    /// The root computed from the receipts is not the declared one.
    ReceiptsRootMismatch(GotExpected<B256>),
    /// The bloom filter computed from the receipts is not the declared one.
    LogsBloomMismatch(GotExpected<Bloom>),
    /// The gas used by the receipts is not the declared amount.
    GasUsedMismatch {
        /// The gas used by the receipts, and the declared amount.
        gas: GotExpected<u64>,
        /// For each transaction its index and the cumulative gas used after it.
        gas_spent_by_tx: Vec<(u64, u64)>,
    },
}

/// The mathematical content of a [`ValidationError`].
#[allow(inconsistent_fields)]
pub enum ValidationErrorView {
    ReceiptsRootMismatch { got: Seq<u8>, expected: Seq<u8> },
    LogsBloomMismatch { got: Seq<u8>, expected: Seq<u8> },
    GasUsedMismatch { got: u64, expected: u64, gas_spent_by_tx: Seq<(u64, u64)> },
}

impl View for ValidationError {
    type V = ValidationErrorView;

    open spec fn view(&self) -> ValidationErrorView {
        match *self {
            ValidationError::ReceiptsRootMismatch(root) => ValidationErrorView::ReceiptsRootMismatch {
                got: root.got@,
                expected: root.expected@,
            },
            ValidationError::LogsBloomMismatch(bloom) => ValidationErrorView::LogsBloomMismatch {
                got: bloom.got@,
                expected: bloom.expected@,
            },
            ValidationError::GasUsedMismatch { gas, gas_spent_by_tx } => {
                ValidationErrorView::GasUsedMismatch {
                    got: gas.got,
                    expected: gas.expected,
                    gas_spent_by_tx: gas_spent_by_tx@,
                }
            },
        }
    }
}

/// The content of a validation result: success, or the content of its error.
pub open spec fn outcome_view(result: Result<(), ValidationError>) -> Result<
    (),
    ValidationErrorView,
> {
    match result {
        Ok(_) => Ok(()),
        Err(e) => Err(e@),
    }
}

} // verus!
