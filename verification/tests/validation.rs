use op_block_validation::bloom::{bloom_of_receipt, bloom_of_receipts, logs_bloom};
use op_block_validation::chain::{ChainSpec, Header};
use op_block_validation::error::ValidationError;
use op_block_validation::primitives::{Address, Bloom, GotExpected, B256};
use op_block_validation::receipt::{
    cumulative_gas_used, gas_spent_by_transactions, Log, Receipt,
};
use op_block_validation::validation::{
    compare_receipts_root_and_logs_bloom, validate_block_post_execution, verify_gas_used,
    verify_receipts,
};

fn receipt(gas: u64, logs: Vec<Log>) -> Receipt {
    Receipt { success: true, cumulative_gas_used: gas, logs }
}

fn log(address_byte: u8, topic_bytes: &[u8]) -> Log {
    Log {
        address: Address([address_byte; 20]),
        topics: topic_bytes.iter().map(|b| B256([*b; 32])).collect(),
        data: vec![1, 2, 3],
    }
}

fn header(number: u64, root: B256, bloom: Bloom, gas_used: u64) -> Header {
    Header { number, timestamp: 1_700_000_000, receipts_root: root, logs_bloom: bloom, gas_used }
}

fn active_from(block: u64) -> ChainSpec {
    ChainSpec { byzantium_block: Some(block) }
}

fn sample_receipts() -> Vec<Receipt> {
    vec![
        receipt(21_000, vec![log(0x11, &[0xa1, 0xa2])]),
        receipt(50_000, vec![]),
        receipt(90_000, vec![log(0x22, &[]), log(0x33, &[0xb1, 0xb2, 0xb3])]),
    ]
}

#[test]
fn fork_gate_is_closed_without_activation() {
    let spec = ChainSpec { byzantium_block: None };
    assert!(!spec.is_byzantium_active_at_block(0));
    assert!(!spec.is_byzantium_active_at_block(u64::MAX));
}

#[test]
fn fork_gate_opens_at_activation_height() {
    let spec = active_from(100);
    assert!(!spec.is_byzantium_active_at_block(0));
    assert!(!spec.is_byzantium_active_at_block(99));
    assert!(spec.is_byzantium_active_at_block(100));
    assert!(spec.is_byzantium_active_at_block(101));
    assert!(active_from(0).is_byzantium_active_at_block(0));
}

#[test]
fn two_receipts_matching_gas_pass() {
    let receipts = vec![receipt(21_000, vec![]), receipt(42_000, vec![])];
    let root = B256([7; 32]);
    let h = header(5, root, Bloom([0; 256]), 42_000);
    assert_eq!(validate_block_post_execution(&h, &active_from(0), &receipts, root), Ok(()));
}

#[test]
fn two_receipts_wrong_gas_report_mismatch() {
    let receipts = vec![receipt(21_000, vec![]), receipt(42_000, vec![])];
    let root = B256([7; 32]);
    let h = header(5, root, Bloom([0; 256]), 42_001);
    assert_eq!(
        validate_block_post_execution(&h, &active_from(0), &receipts, root),
        Err(ValidationError::GasUsedMismatch {
            gas: GotExpected { got: 42_000, expected: 42_001 },
            gas_spent_by_tx: vec![(0, 21_000), (1, 42_000)],
        })
    );
}

#[test]
fn log_bits_missing_from_zero_bloom_report_bloom_mismatch() {
    let receipts = vec![receipt(21_000, vec![log(0x11, &[0xa1])])];
    let root = B256([9; 32]);
    let h = header(5, root, Bloom([0; 256]), 21_000);
    let got = bloom_of_receipts(&receipts);
    assert_ne!(got, Bloom([0; 256]));
    assert_eq!(
        validate_block_post_execution(&h, &active_from(0), &receipts, root),
        Err(ValidationError::LogsBloomMismatch(GotExpected { got, expected: Bloom([0; 256]) }))
    );
}

#[test]
fn pre_fork_block_skips_root_and_bloom() {
    let receipts = sample_receipts();
    let h = header(99, B256([1; 32]), Bloom([0xff; 256]), 90_000);
    assert_eq!(
        validate_block_post_execution(&h, &active_from(100), &receipts, B256([2; 32])),
        Ok(())
    );
    let never = ChainSpec { byzantium_block: None };
    assert_eq!(validate_block_post_execution(&h, &never, &receipts, B256([2; 32])), Ok(()));
}

#[test]
fn pre_fork_block_still_checks_gas() {
    let receipts = sample_receipts();
    let h = header(99, B256([1; 32]), Bloom([0xff; 256]), 90_001);
    assert_eq!(
        validate_block_post_execution(&h, &active_from(100), &receipts, B256([2; 32])),
        Err(ValidationError::GasUsedMismatch {
            gas: GotExpected { got: 90_000, expected: 90_001 },
            gas_spent_by_tx: vec![(0, 21_000), (1, 50_000), (2, 90_000)],
        })
    );
}

#[test]
fn post_fork_root_mismatch_is_reported_first() {
    let receipts = sample_receipts();
    let declared = B256([1; 32]);
    let calculated = B256([2; 32]);
    // The bloom and the gas are wrong too: the root is what is reported.
    let h = header(100, declared, Bloom([0; 256]), 1);
    assert_eq!(
        validate_block_post_execution(&h, &active_from(100), &receipts, calculated),
        Err(ValidationError::ReceiptsRootMismatch(GotExpected {
            got: calculated,
            expected: declared
        }))
    );
}

#[test]
fn post_fork_bloom_mismatch_precedes_gas_mismatch() {
    let receipts = sample_receipts();
    let root = B256([3; 32]);
    let declared = Bloom([0xff; 256]);
    let h = header(100, root, declared, 1);
    assert_eq!(
        validate_block_post_execution(&h, &active_from(100), &receipts, root),
        Err(ValidationError::LogsBloomMismatch(GotExpected {
            got: bloom_of_receipts(&receipts),
            expected: declared
        }))
    );
}

#[test]
fn self_consistent_block_is_valid() {
    let receipts = sample_receipts();
    let root = B256([0x5a; 32]);
    let h = header(
        100,
        root,
        bloom_of_receipts(&receipts),
        cumulative_gas_used(&receipts),
    );
    assert_eq!(validate_block_post_execution(&h, &active_from(100), &receipts, root), Ok(()));
    assert_eq!(validate_block_post_execution(&h, &active_from(0), &receipts, root), Ok(()));
    assert_eq!(validate_block_post_execution(&h, &active_from(101), &receipts, root), Ok(()));
}

#[test]
fn empty_block_uses_no_gas() {
    let receipts: Vec<Receipt> = vec![];
    assert_eq!(cumulative_gas_used(&receipts), 0);
    assert_eq!(verify_gas_used(&receipts, 0), Ok(()));
    assert_eq!(
        verify_gas_used(&receipts, 1),
        Err(ValidationError::GasUsedMismatch {
            gas: GotExpected { got: 0, expected: 1 },
            gas_spent_by_tx: vec![],
        })
    );
    let root = B256([4; 32]);
    let h = header(7, root, Bloom([0; 256]), 0);
    assert_eq!(validate_block_post_execution(&h, &active_from(0), &receipts, root), Ok(()));
}

#[test]
fn gas_check_reads_only_the_last_receipt() {
    let receipts = vec![receipt(u64::MAX, vec![]), receipt(3, vec![]), receipt(42_000, vec![])];
    assert_eq!(cumulative_gas_used(&receipts), 42_000);
    assert_eq!(verify_gas_used(&receipts, 42_000), Ok(()));
    assert_eq!(
        verify_gas_used(&receipts, u64::MAX),
        Err(ValidationError::GasUsedMismatch {
            gas: GotExpected { got: 42_000, expected: u64::MAX },
            gas_spent_by_tx: vec![(0, u64::MAX), (1, 3), (2, 42_000)],
        })
    );
}

#[test]
fn gas_breakdown_lists_index_and_cumulative_gas() {
    assert_eq!(gas_spent_by_transactions(&[]), vec![]);
    assert_eq!(
        gas_spent_by_transactions(&sample_receipts()),
        vec![(0, 21_000), (1, 50_000), (2, 90_000)]
    );
}

#[test]
fn compare_reports_root_then_bloom() {
    let r1 = B256([1; 32]);
    let mut r2 = r1;
    r2.0[31] = 2;
    let b1 = Bloom([0; 256]);
    let mut b2 = b1;
    b2.0[255] = 1;
    assert_eq!(compare_receipts_root_and_logs_bloom(r1, b1, r1, b1), Ok(()));
    assert_eq!(
        compare_receipts_root_and_logs_bloom(r1, b1, r2, b2),
        Err(ValidationError::ReceiptsRootMismatch(GotExpected { got: r1, expected: r2 }))
    );
    assert_eq!(
        compare_receipts_root_and_logs_bloom(r1, b1, r1, b2),
        Err(ValidationError::LogsBloomMismatch(GotExpected { got: b1, expected: b2 }))
    );
}

#[test]
fn verify_receipts_folds_the_bloom_itself() {
    let receipts = sample_receipts();
    let root = B256([8; 32]);
    let bloom = bloom_of_receipts(&receipts);
    assert_eq!(verify_receipts(root, bloom, &receipts, root), Ok(()));
    assert_eq!(
        verify_receipts(root, Bloom([0; 256]), &receipts, root),
        Err(ValidationError::LogsBloomMismatch(GotExpected {
            got: bloom,
            expected: Bloom([0; 256])
        }))
    );
}

#[test]
fn permuting_receipts_keeps_the_aggregate_bloom() {
    let receipts = sample_receipts();
    let mut reversed = receipts.clone();
    reversed.reverse();
    let rotated = vec![receipts[1].clone(), receipts[2].clone(), receipts[0].clone()];
    let bloom = bloom_of_receipts(&receipts);
    assert_eq!(bloom_of_receipts(&reversed), bloom);
    assert_eq!(bloom_of_receipts(&rotated), bloom);
}

#[test]
fn aggregate_bloom_is_the_or_of_receipt_blooms() {
    let receipts = sample_receipts();
    let mut expected = Bloom::zero();
    for r in &receipts {
        expected = expected.bit_or(&bloom_of_receipt(r));
    }
    assert_eq!(bloom_of_receipts(&receipts), expected);
    assert_eq!(bloom_of_receipts(&[]), Bloom([0; 256]));
    assert_eq!(bloom_of_receipt(&receipts[1]), Bloom([0; 256]));
}

#[test]
fn bit_or_and_same_as_work_bytewise() {
    let mut a = Bloom([0; 256]);
    let mut b = Bloom([0; 256]);
    a.0[0] = 0b0101;
    b.0[0] = 0b0011;
    b.0[255] = 0x80;
    let c = a.bit_or(&b);
    assert_eq!(c.0[0], 0b0111);
    assert_eq!(c.0[255], 0x80);
    assert_eq!(c.0[1..255], [0u8; 254]);
    assert!(c.same_as(&b.bit_or(&a)));
    assert!(!a.same_as(&b));
    assert!(a.same_as(&a));
    assert!(B256([1; 32]).same_as(&B256([1; 32])));
    let mut d = B256([1; 32]);
    d.0[31] = 0;
    assert!(!d.same_as(&B256([1; 32])));
    assert_eq!(B256::zero(), B256([0; 32]));
}

#[test]
fn empty_input_sets_the_three_bits_of_its_digest() {
    // Keccak-256 of the empty input starts with c5 d2 46 01 86 f7: the bits
    // selected are 0x5d2, 0x601 and 0x6f7.
    let mut bloom = Bloom::zero();
    bloom.m3_2048(&[]);
    let mut expected = [0u8; 256];
    expected[255 - 0x5d2 / 8] |= 1 << (0x5d2 % 8);
    expected[255 - 0x601 / 8] |= 1 << (0x601 % 8);
    expected[255 - 0x6f7 / 8] |= 1 << (0x6f7 % 8);
    assert_eq!(bloom, Bloom(expected));
    assert_eq!(expected[69], 0x04);
    assert_eq!(expected[63], 0x02);
    assert_eq!(expected[33], 0x80);
}

#[test]
fn hashed_input_selects_low_eleven_bits_of_each_pair() {
    let mut hash = [0u8; 32];
    hash[0] = 0xff;
    hash[1] = 0xff;
    hash[2] = 0x08;
    hash[3] = 0x00;
    hash[4] = 0x00;
    hash[5] = 0x09;
    let mut bloom = Bloom::zero();
    bloom.m3_2048_hashed(&B256(hash));
    let mut expected = [0u8; 256];
    expected[0] = 0x80;
    expected[255] = 0x01;
    expected[254] = 0x02;
    assert_eq!(bloom, Bloom(expected));
    let mut one = Bloom::zero();
    one.set_selected_bit(0x08, 0x00);
    assert_eq!(one.0[255], 0x01);
}

#[test]
fn logs_bloom_agrees_with_alloy() {
    let logs = vec![log(0x22, &[]), log(0x33, &[0xb1, 0xb2, 0xb3])];
    let mut theirs = alloy_primitives::Bloom::ZERO;
    for l in &logs {
        theirs.m3_2048(&l.address.0);
        for t in &l.topics {
            theirs.m3_2048(&t.0);
        }
    }
    let ours = logs_bloom(&logs);
    assert_eq!(&ours.0, theirs.data());
    assert_ne!(ours, Bloom([0; 256]));
}
