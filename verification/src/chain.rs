//! What the validator reads of a chain's configuration and of a block header.

use vstd::prelude::*;
use crate::primitives::{Bloom, B256};

verus! {

/// The part of a chain's configuration that post-execution validation reads.
#[derive(Clone, Copy, Debug, PartialEq, Eq)]
pub struct ChainSpec {
    /// The height from which Byzantium rules hold, or `None` where the chain
    /// never activates them.
    pub byzantium_block: Option<u64>,
}

/// The header fields that commit to the results of executing a block.
#[derive(Clone, Copy, Debug, PartialEq, Eq)]
pub struct Header {
    /// The height of the block.
    pub number: u64,
    /// The timestamp of the block.
    pub timestamp: u64,
    /// The declared root of the receipts trie.
    pub receipts_root: B256,
    /// The declared bloom filter of all logs of the block.
    pub logs_bloom: Bloom,
    /// The declared gas used by all transactions of the block.
    pub gas_used: u64,
}

impl ChainSpec {
    /// Whether Byzantium rules hold at height `number`: the fork is scheduled
    /// and `number` is not below its activation height.
    pub open spec fn byzantium_active_at(&self, number: u64) -> bool {
        match self.byzantium_block {
            Some(activation) => activation <= number,
            None => false,
        }
    }

    /// Decides whether the receipts root and the logs bloom of a block at
    /// height `number` are to be verified.
    pub fn is_byzantium_active_at_block(&self, number: u64) -> (active: bool)
        ensures
            active == self.byzantium_active_at(number),
    {
        match self.byzantium_block {
            Some(activation) => activation <= number,
            None => false,
        }
    }
}

} // verus!
