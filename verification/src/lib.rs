//! Post-execution validation of blocks for an Ethereum-compatible rollup chain.
//!
//! Once a block's transactions have been executed, the receipts they produced
//! must agree with what the block header declares: the receipts root, the logs
//! bloom and the cumulative gas used.

pub mod primitives;
pub mod receipt;
pub mod bloom;
pub mod chain;
pub mod error;
pub mod validation;
pub mod laws;
