use std::sync::Arc;

use alloy::consensus::BlobTransactionSidecar;
use montana::fees::{
    calc_blob_fee, fake_exponential, has_confirmations, FeeBumpPolicy, GasCaps, TxReceipt, Uint256,
};
use montana::txmgr::{caps_from_latest_block, from_rpc_error, receipt_from_rpc, AbortPolicy, SendState, TxBuilder, TxCandidate, TxError};
use montana::payload::create_blob_sidecar;

fn u256(x: u128) -> Uint256 {
    Uint256::from_u128(x)
}

fn default_policy() -> FeeBumpPolicy {
    FeeBumpPolicy { price_bump_percent: 10, blob_price_bump_percent: 100 }
}

fn default_abort() -> AbortPolicy {
    AbortPolicy { safe_abort_nonce_too_low_count: 3 }
}

fn receipt(
    gas_used: u64,
    effective_gas_price: u128,
    blob_gas_used: Option<u64>,
    blob_gas_price: Option<u128>,
) -> TxReceipt {
    TxReceipt {
        tx_hash: [0u8; 32],
        block_number: 1000,
        block_hash: [0u8; 32],
        gas_used,
        effective_gas_price,
        blob_gas_used,
        blob_gas_price,
    }
}

// ---------------------------------------------------------------------------
// Fee arithmetic
// ---------------------------------------------------------------------------

#[test]
fn fake_exponential_zero_numerator() {
    let result = fake_exponential(1, 0, 3338477);
    assert_eq!(result, 1, "e^0 should equal 1");
}

#[test]
fn fake_exponential_increases() {
    let result1 = fake_exponential(1, 1_000_000, 3338477);
    let result2 = fake_exponential(1, 5_000_000, 3338477);
    let result3 = fake_exponential(1, 10_000_000, 3338477);
    assert!(result1 < result2, "Result should increase: {} >= {}", result1, result2);
    assert!(result2 < result3, "Result should increase: {} >= {}", result2, result3);
}

#[test]
fn fake_exponential_with_factor() {
    let result1 = fake_exponential(1, 1000, 3338477);
    let result2 = fake_exponential(2, 1000, 3338477);
    assert!(result2 > result1);
    assert!(result2 >= result1 * 2 - 1);
}

#[test]
fn fake_exponential_no_overflow() {
    let result = fake_exponential(u128::MAX / 1000000, 1000, 3338477);
    assert!(result > 0);
}

#[test]
fn fake_exponential_termination() {
    let result = fake_exponential(1000, 100000, 1);
    assert!(result > 0);
}

#[test]
fn fake_exponential_specific_values() {
    assert_eq!(fake_exponential(1, 0, 1000), 1);
    assert_eq!(fake_exponential(10, 0, 1000), 10);
    // 1 * (1 + 1 + 1/2 + 1/6 + ...) in integer steps: 2
    assert_eq!(fake_exponential(1, 1000, 1000), 2);
    assert!(fake_exponential(100, 500, 1000) >= 164);
}

#[test]
fn calc_blob_fee_zero_excess() {
    assert_eq!(calc_blob_fee(0), 1, "Fee should be MIN_BLOB_GASPRICE for zero excess");
}

#[test]
fn calc_blob_fee_monotonic() {
    let fee1 = calc_blob_fee(1_000_000);
    let fee2 = calc_blob_fee(5_000_000);
    let fee3 = calc_blob_fee(10_000_000);
    assert!(fee1 < fee2, "Fee should increase with excess: {} >= {}", fee1, fee2);
    assert!(fee2 < fee3, "Fee should increase with excess: {} >= {}", fee2, fee3);
}

#[test]
fn calc_blob_fee_large_excess() {
    let fee = calc_blob_fee(100_000_000);
    assert!(fee > 1, "Fee should be greater than MIN_BLOB_GASPRICE");
}

#[test]
fn calc_blob_fee_consistency() {
    let excess = 12345;
    let fee1 = calc_blob_fee(excess);
    let fee2 = calc_blob_fee(excess);
    assert_eq!(fee1, fee2, "calc_blob_fee should be deterministic");
}

#[test]
fn calc_blob_fee_increasing_with_excess() {
    assert!(calc_blob_fee(3338477) >= 2);
    assert!(calc_blob_fee(6676954) >= 7);
    assert!(calc_blob_fee(10015431) >= 20);
}

// ---------------------------------------------------------------------------
// Gas caps
// ---------------------------------------------------------------------------

#[test]
fn gas_caps_default() {
    let caps = GasCaps::default();
    assert_eq!(caps.gas_tip_cap, Uint256::zero());
    assert_eq!(caps.gas_fee_cap, Uint256::zero());
    assert_eq!(caps.blob_fee_cap, None);
}

#[test]
fn gas_caps_clone() {
    let caps = GasCaps {
        gas_tip_cap: u256(1000000000),
        gas_fee_cap: u256(2000000000),
        blob_fee_cap: Some(u256(3000000000)),
    };
    let cloned = caps.clone();
    assert_eq!(cloned.gas_tip_cap, caps.gas_tip_cap);
    assert_eq!(cloned.gas_fee_cap, caps.gas_fee_cap);
    assert_eq!(cloned.blob_fee_cap, caps.blob_fee_cap);
}

#[test]
fn gas_caps_debug() {
    let caps = GasCaps {
        gas_tip_cap: u256(1000000000),
        gas_fee_cap: u256(2000000000),
        blob_fee_cap: Some(u256(3000000000)),
    };
    let debug_str = format!("{:?}", caps);
    assert!(debug_str.contains("GasCaps"));
    assert!(debug_str.contains("gas_tip_cap"));
    assert!(debug_str.contains("gas_fee_cap"));
    assert!(debug_str.contains("blob_fee_cap"));
}

#[test]
fn test_gas_caps_values() {
    let caps = GasCaps::new(2_000_000_000, 1_000_000, Some(50_000));
    assert_eq!(caps.max_fee_per_gas(), 2_000_000_000);
    assert_eq!(caps.max_priority_fee_per_gas(), 1_000_000);
    assert!(caps.blob_fee_cap.is_some());
}

#[test]
fn gas_caps_new_keeps_full_u128_values() {
    let caps = GasCaps::new((1u128 << 64) + 7, 5, None);
    assert_eq!(caps.max_fee_per_gas(), (1u128 << 64) + 7);
    assert_eq!(caps.max_priority_fee_per_gas(), 5);
}

#[test]
fn gas_caps_suggested_from_block() {
    let caps = GasCaps::suggested(30_000_000_000, 1_000_000_000, Some(0));
    assert_eq!(caps.max_priority_fee_per_gas(), 1_000_000_000);
    assert_eq!(caps.max_fee_per_gas(), 31_000_000_000);
    assert_eq!(caps.blob_fee_cap, Some(u256(1)));
    let caps = GasCaps::suggested(7, 3, None);
    assert_eq!(caps.max_fee_per_gas(), 10);
    assert_eq!(caps.blob_fee_cap, None);
}

#[test]
fn bump_gas_caps_with_blob_fee() {
    let policy = FeeBumpPolicy { price_bump_percent: 10, ..default_policy() };
    let caps = GasCaps {
        gas_tip_cap: u256(1_000_000_000),
        gas_fee_cap: u256(10_000_000_000),
        blob_fee_cap: Some(u256(5_000_000_000)),
    };
    let bumped = policy.bump_gas_caps(&caps, false);
    assert_eq!(bumped.gas_tip_cap, u256(1_100_000_000));
    assert_eq!(bumped.gas_fee_cap, u256(11_000_000_000));
    assert_eq!(bumped.blob_fee_cap, Some(u256(5_500_000_000)));
}

#[test]
fn bump_gas_caps_blob_transaction() {
    let policy = FeeBumpPolicy { price_bump_percent: 10, blob_price_bump_percent: 100 };
    let caps = GasCaps {
        gas_tip_cap: u256(1_000_000_000),
        gas_fee_cap: u256(10_000_000_000),
        blob_fee_cap: Some(u256(5_000_000_000)),
    };
    let bumped = policy.bump_gas_caps(&caps, true);
    assert_eq!(bumped.gas_tip_cap, u256(2_000_000_000));
    assert_eq!(bumped.gas_fee_cap, u256(20_000_000_000));
    assert_eq!(bumped.blob_fee_cap, Some(u256(10_000_000_000)));
}

#[test]
fn bump_gas_caps_preserves_none_blob_fee() {
    let policy = default_policy();
    let caps = GasCaps { gas_tip_cap: u256(1_000_000_000), gas_fee_cap: u256(10_000_000_000), blob_fee_cap: None };
    let bumped = policy.bump_gas_caps(&caps, false);
    assert_eq!(bumped.blob_fee_cap, None);
}

#[test]
fn bump_gas_caps_zero_bump_percent() {
    let policy = FeeBumpPolicy { price_bump_percent: 0, ..default_policy() };
    let caps = GasCaps {
        gas_tip_cap: u256(1_000_000_000),
        gas_fee_cap: u256(10_000_000_000),
        blob_fee_cap: Some(u256(5_000_000_000)),
    };
    let bumped = policy.bump_gas_caps(&caps, false);
    assert_eq!(bumped.gas_tip_cap, caps.gas_tip_cap);
    assert_eq!(bumped.gas_fee_cap, caps.gas_fee_cap);
    assert_eq!(bumped.blob_fee_cap, caps.blob_fee_cap);
}

#[test]
fn bump_gas_caps_large_values() {
    let policy = FeeBumpPolicy { price_bump_percent: 10, ..default_policy() };
    let large_value = u256(1_000_000_000_000_000);
    let caps = GasCaps { gas_tip_cap: large_value, gas_fee_cap: large_value, blob_fee_cap: Some(large_value) };
    let bumped = policy.bump_gas_caps(&caps, false);
    let expected = u256(1_000_000_000_000_000u128 * 110 / 100);
    assert_eq!(bumped.gas_tip_cap, expected);
    assert_eq!(bumped.gas_fee_cap, expected);
    assert_eq!(bumped.blob_fee_cap, Some(expected));
}

#[test]
fn bump_gas_caps_various_inputs() {
    let cases: [(u128, u64, u128); 4] = [(100, 10, 110), (1000, 50, 1500), (12345, 10, 13579), (0, 10, 0)];
    for (input, percent, expected) in cases {
        let policy = FeeBumpPolicy { price_bump_percent: percent, ..default_policy() };
        let caps = GasCaps { gas_tip_cap: u256(input), gas_fee_cap: u256(input), blob_fee_cap: None };
        let bumped = policy.bump_gas_caps(&caps, false);
        assert_eq!(bumped.gas_tip_cap, u256(expected));
    }
}

#[test]
fn bump_gas_caps_wraps_past_two_to_the_256() {
    // 2^255 * 110 wraps at 2^256 before the division, as alloy's U256 does.
    let half = Uint256 { limb0: 0, limb1: 0, limb2: 0, limb3: 1u64 << 63 };
    let policy = FeeBumpPolicy { price_bump_percent: 10, ..default_policy() };
    let caps = GasCaps { gas_tip_cap: half, gas_fee_cap: half, blob_fee_cap: None };
    let bumped = policy.bump_gas_caps(&caps, false);
    // (2^255 * 110) mod 2^256 = 0 since 110 is even.
    assert_eq!(bumped.gas_tip_cap, Uint256::zero());
}

// ---------------------------------------------------------------------------
// Receipts
// ---------------------------------------------------------------------------

#[test]
fn tx_receipt_total_cost_blob_gas_only() {
    assert_eq!(receipt(21000, 1_000_000_000, Some(131072), None).total_cost(), 21_000_000_000_000);
}

#[test]
fn tx_receipt_total_cost_blob_price_only() {
    assert_eq!(receipt(21000, 1_000_000_000, None, Some(1)).total_cost(), 21_000_000_000_000);
}

#[test]
fn tx_receipt_total_cost_zero_values() {
    assert_eq!(receipt(0, 0, Some(0), Some(0)).total_cost(), 0);
}

#[test]
fn tx_receipt_total_cost_large_values() {
    let r = receipt(10_000_000, 100_000_000_000, Some(393216), Some(1_000_000));
    let expected = 10_000_000u128 * 100_000_000_000u128 + 393216u128 * 1_000_000u128;
    assert_eq!(r.total_cost(), expected);
}

#[test]
fn tx_receipt_total_cost_cases() {
    assert_eq!(receipt(21000, 1_000_000_000, None, None).total_cost(), 21_000_000_000_000);
    assert_eq!(receipt(100000, 50_000_000_000, None, None).total_cost(), 5_000_000_000_000_000);
    assert_eq!(receipt(21000, 1_000_000_000, Some(131072), Some(1)).total_cost(), 21_000_000_000_000 + 131072);
    assert_eq!(
        receipt(50000, 2_000_000_000, Some(262144), Some(10)).total_cost(),
        50000 * 2_000_000_000 + 262144 * 10
    );
}

#[test]
fn tx_receipt_clone() {
    let r = receipt(21000, 1_000_000_000, Some(131072), Some(1));
    let cloned = r.clone();
    assert_eq!(cloned.tx_hash, r.tx_hash);
    assert_eq!(cloned.block_number, r.block_number);
    assert_eq!(cloned.block_hash, r.block_hash);
    assert_eq!(cloned.gas_used, r.gas_used);
    assert_eq!(cloned.effective_gas_price, r.effective_gas_price);
    assert_eq!(cloned.blob_gas_used, r.blob_gas_used);
    assert_eq!(cloned.blob_gas_price, r.blob_gas_price);
}

#[test]
fn tx_receipt_debug() {
    let debug_str = format!("{:?}", receipt(21000, 1_000_000_000, None, None));
    assert!(debug_str.contains("TxReceipt"));
    assert!(debug_str.contains("tx_hash"));
    assert!(debug_str.contains("block_number"));
}

#[test]
fn tx_receipt_calldata_transaction_cost() {
    let cost = receipt(50000, 20_000_000_000, None, None).total_cost();
    assert_eq!(cost, 50000u128 * 20_000_000_000u128);
}

#[test]
fn tx_receipt_blob_transaction_cost() {
    let r = receipt(21000, 10_000_000_000, Some(131072), Some(5));
    let base_cost = 21000u128 * 10_000_000_000u128;
    let blob_cost = 131072u128 * 5u128;
    assert_eq!(r.total_cost(), base_cost + blob_cost);
}

#[test]
fn tx_receipt_conversion_fields() {
    let tx_hash = [1u8; 32];
    let block_hash = [2u8; 32];
    let r = TxReceipt {
        tx_hash,
        block_number: 12345,
        block_hash,
        gas_used: 50000,
        effective_gas_price: 20_000_000_000,
        blob_gas_used: Some(131072),
        blob_gas_price: Some(5),
    };
    assert_eq!(r.tx_hash, tx_hash);
    assert_eq!(r.block_number, 12345);
    assert_eq!(r.block_hash, block_hash);
    assert_eq!(r.gas_used, 50000);
    assert_eq!(r.effective_gas_price, 20_000_000_000);
    assert_eq!(r.blob_gas_used, Some(131072));
    assert_eq!(r.blob_gas_price, Some(5));
}

#[test]
fn receipt_block_number_edge_cases() {
    let mut r = receipt(21000, 1_000_000_000, None, None);
    r.block_number = 0;
    assert_eq!(r.block_number, 0);
}

#[test]
fn receipt_with_blob_fields() {
    let r = receipt(21000, 1_000_000_000, Some(131072), Some(10));
    assert!(r.blob_gas_used.is_some());
    assert!(r.blob_gas_price.is_some());
    assert_eq!(r.blob_gas_used.unwrap(), 131072);
    assert_eq!(r.blob_gas_price.unwrap(), 10);
}

#[test]
fn receipt_without_blob_fields() {
    let r = receipt(21000, 1_000_000_000, None, None);
    assert!(r.blob_gas_used.is_none());
    assert!(r.blob_gas_price.is_none());
}

#[test]
fn receipt_from_rpc_outcomes() {
    let ok = receipt_from_rpc(true, [1u8; 32], Some(12), Some([2u8; 32]), 21000, 7, None, None).unwrap();
    assert_eq!(ok.tx_hash, [1u8; 32]);
    assert_eq!(ok.block_number, 12);
    assert_eq!(ok.block_hash, [2u8; 32]);
    assert_eq!(ok.gas_used, 21000);
    assert_eq!(ok.effective_gas_price, 7);
    assert!(matches!(
        receipt_from_rpc(false, [1u8; 32], Some(12), Some([2u8; 32]), 21000, 7, None, None),
        Err(TxError::Reverted)
    ));
    match receipt_from_rpc(true, [1u8; 32], None, Some([2u8; 32]), 21000, 7, None, None) {
        Err(TxError::Rpc(m)) => assert_eq!(m, "Receipt missing block number"),
        _ => panic!("expected an RPC error"),
    }
    match receipt_from_rpc(true, [1u8; 32], Some(12), None, 21000, 7, None, None) {
        Err(TxError::Rpc(m)) => assert_eq!(m, "Receipt missing block hash"),
        _ => panic!("expected an RPC error"),
    }
}

#[test]
fn test_confirmation_calculation() {
    assert!(has_confirmations(1010, 1000, 10));
    assert!(has_confirmations(1011, 1000, 10));
    assert!(!has_confirmations(1009, 1000, 10));
    assert!(!has_confirmations(1000, 1000, 10));
    assert!(!has_confirmations(999, 1000, 10));
}

// ---------------------------------------------------------------------------
// Candidates and the builder
// ---------------------------------------------------------------------------

#[test]
fn tx_candidate_calldata_creates_valid_candidate() {
    let to = [0u8; 20];
    let data = vec![1u8, 2, 3, 4];
    let candidate = TxCandidate::calldata(to, data.clone());
    assert_eq!(candidate.to, to);
    assert_eq!(candidate.value, Uint256::zero());
    assert_eq!(candidate.data, data);
    assert!(candidate.blob_sidecar.is_none());
    assert!(candidate.gas_limit.is_none());
}

#[test]
fn tx_candidate_calldata_from_vec() {
    let data = vec![5u8, 6, 7, 8];
    let candidate = TxCandidate::calldata([0u8; 20], data.clone());
    assert_eq!(candidate.data, data);
}

#[test]
fn tx_candidate_calldata_empty_data() {
    let candidate = TxCandidate::calldata([0u8; 20], Vec::new());
    assert_eq!(candidate.data.len(), 0);
    assert!(!candidate.is_blob());
}

#[test]
fn tx_candidate_blob_creates_valid_candidate() {
    let to = [0u8; 20];
    let candidate = TxCandidate::blob(to, BlobTransactionSidecar::default());
    assert_eq!(candidate.to, to);
    assert_eq!(candidate.value, Uint256::zero());
    assert_eq!(candidate.data.len(), 0);
    assert!(candidate.blob_sidecar.is_some());
    assert!(candidate.gas_limit.is_none());
}

#[test]
fn tx_candidate_with_value_chaining() {
    let value = u256(500);
    let candidate = TxCandidate::calldata([0u8; 20], vec![1, 2, 3]).with_value(value).with_gas_limit(21000);
    assert_eq!(candidate.value, value);
    assert_eq!(candidate.gas_limit, Some(21000));
}

#[test]
fn tx_candidate_with_gas_limit_chaining() {
    let value = u256(100);
    let candidate = TxCandidate::calldata([0u8; 20], vec![1, 2, 3]).with_gas_limit(50000).with_value(value);
    assert_eq!(candidate.gas_limit, Some(50000));
    assert_eq!(candidate.value, value);
}

#[test]
fn tx_candidate_clone() {
    let data = vec![1u8, 2, 3];
    let candidate = TxCandidate::calldata([0u8; 20], data).with_value(u256(100)).with_gas_limit(50000);
    let cloned = candidate.clone();
    assert_eq!(cloned.to, candidate.to);
    assert_eq!(cloned.value, candidate.value);
    assert_eq!(cloned.data, candidate.data);
    assert_eq!(cloned.gas_limit, candidate.gas_limit);
}

#[test]
fn tx_candidate_debug() {
    let candidate = TxCandidate::calldata([0u8; 20], vec![1, 2, 3]);
    let debug_str = format!("{:?}", candidate);
    assert!(debug_str.contains("TxCandidate"));
    assert!(debug_str.contains("to"));
    assert!(debug_str.contains("value"));
}

#[test]
fn tx_candidate_blob_mode_workflow() {
    let candidate =
        TxCandidate::blob([0u8; 20], BlobTransactionSidecar::default()).with_gas_limit(1_000_000).with_value(u256(0));
    assert!(candidate.is_blob());
    assert_eq!(candidate.gas_limit, Some(1_000_000));
    assert_eq!(candidate.value, Uint256::zero());
}

#[test]
fn tx_candidate_calldata_mode_workflow() {
    let data = vec![0x01u8, 0x02, 0x03];
    let candidate = TxCandidate::calldata([0u8; 20], data.clone()).with_gas_limit(100_000).with_value(u256(1000));
    assert!(!candidate.is_blob());
    assert_eq!(candidate.data, data);
    assert_eq!(candidate.gas_limit, Some(100_000));
    assert_eq!(candidate.value, u256(1000));
}

#[test]
fn test_build_request_sets_basic_fields() {
    let to = [1u8; 20];
    let from = [2u8; 20];
    let data = vec![0x01u8, 0x02, 0x03];
    let candidate = TxCandidate::calldata(to, data.clone()).with_value(u256(1000)).with_gas_limit(21000);
    let caps = GasCaps::new(1_000_000_000, 500_000, None);
    assert_eq!(candidate.to, to);
    assert_eq!(candidate.value, u256(1000));
    assert_eq!(candidate.data, data);
    assert_eq!(candidate.gas_limit, Some(21000));
    assert!(!candidate.is_blob());
    assert_eq!(caps.max_fee_per_gas(), 1_000_000_000);
    assert_eq!(caps.max_priority_fee_per_gas(), 500_000);
    assert!(caps.blob_fee_cap.is_none());
    assert_eq!(from, [2u8; 20]);
}

#[test]
fn test_build_request_blob_transaction() {
    let candidate = TxCandidate::blob([1u8; 20], BlobTransactionSidecar::default());
    let caps = GasCaps::new(1_000_000_000, 500_000, Some(100_000));
    assert!(candidate.is_blob());
    assert!(candidate.blob_sidecar.is_some());
    assert!(caps.blob_fee_cap.is_some());
}

#[test]
fn test_build_request_without_gas_limit() {
    let candidate = TxCandidate::calldata([1u8; 20], Vec::new());
    assert_eq!(candidate.gas_limit, None);
    let caps = GasCaps::new(1_000_000_000, 500_000, None);
    assert_eq!(caps.max_fee_per_gas(), 1_000_000_000);
}

#[test]
fn test_candidate_properties() {
    let data = vec![0xdeu8, 0xad, 0xbe, 0xef];
    let candidate = TxCandidate::calldata([0u8; 20], data.clone()).with_value(u256(5000)).with_gas_limit(100000);
    assert_eq!(candidate.to, [0u8; 20]);
    assert_eq!(candidate.value, u256(5000));
    assert_eq!(candidate.data, data);
    assert_eq!(candidate.gas_limit, Some(100000));
}

#[test]
fn test_blob_candidate_has_sidecar() {
    let candidate = TxCandidate::blob([0u8; 20], BlobTransactionSidecar::default());
    assert!(candidate.is_blob());
    assert!(candidate.blob_sidecar.is_some());
}

#[test]
fn test_calldata_candidate_no_sidecar() {
    let candidate = TxCandidate::calldata([0u8; 20], Vec::new());
    assert!(!candidate.is_blob());
    assert!(candidate.blob_sidecar.is_none());
}

#[test]
fn test_arc_clone() {
    let provider = Arc::new(42u64);
    let cloned = provider.clone();
    assert_eq!(*provider, *cloned);
}

#[test]
fn tx_builder_keeps_provider_and_chain() {
    let provider = Arc::new(42u64);
    let builder = TxBuilder::new(provider.clone(), 10);
    assert_eq!(builder.chain_id(), 10);
    assert_eq!(**builder.provider(), 42);
}

// ---------------------------------------------------------------------------
// Send state
// ---------------------------------------------------------------------------

#[test]
fn send_state_new() {
    let state = SendState::new();
    assert_eq!(state.successful_publish_count(), 0);
    assert_eq!(state.nonce_too_low_count(), 0);
    assert!(!state.already_reserved());
    assert!(!state.bump_fees());
    assert_eq!(state.bump_count(), 0);
    assert_eq!(state.mined_count(), 0);
}

#[test]
fn send_state_default() {
    let state = SendState::default();
    assert_eq!(state.successful_publish_count(), 0);
    assert_eq!(state.nonce_too_low_count(), 0);
    assert!(!state.already_reserved());
    assert!(!state.bump_fees());
    assert_eq!(state.bump_count(), 0);
    assert_eq!(state.mined_count(), 0);
}

#[test]
fn tx_published_increments_count() {
    let mut state = SendState::new();
    assert_eq!(state.successful_publish_count(), 0);
    assert!(!state.was_published());
    state.tx_published();
    assert_eq!(state.successful_publish_count(), 1);
    assert!(state.was_published());
    state.tx_published();
    assert_eq!(state.successful_publish_count(), 2);
    assert!(state.was_published());
}

#[test]
fn tx_mined_adds_to_set() {
    let mut state = SendState::new();
    let hash1 = [1u8; 32];
    let hash2 = [2u8; 32];
    assert_eq!(state.mined_count(), 0);
    state.tx_mined(hash1);
    assert_eq!(state.mined_count(), 1);
    state.tx_mined(hash2);
    assert_eq!(state.mined_count(), 2);
    state.tx_mined(hash1);
    assert_eq!(state.mined_count(), 2);
}

#[test]
fn tx_not_mined_removes_from_set() {
    let mut state = SendState::new();
    let hash1 = [1u8; 32];
    let hash2 = [2u8; 32];
    state.tx_mined(hash1);
    state.tx_mined(hash2);
    assert_eq!(state.mined_count(), 2);
    state.tx_not_mined(&hash1);
    assert_eq!(state.mined_count(), 1);
    state.tx_not_mined(&hash2);
    assert_eq!(state.mined_count(), 0);
    state.tx_not_mined(&hash1);
    assert_eq!(state.mined_count(), 0);
}

#[test]
fn tx_not_mined_resets_nonce_too_low_when_empty() {
    let mut state = SendState::new();
    let hash1 = [1u8; 32];
    let hash2 = [2u8; 32];
    state.tx_mined(hash1);
    state.tx_mined(hash2);
    state.nonce_too_low();
    state.nonce_too_low();
    assert_eq!(state.nonce_too_low_count(), 2);
    state.tx_not_mined(&hash1);
    assert_eq!(state.nonce_too_low_count(), 2);
    state.tx_not_mined(&hash2);
    assert_eq!(state.nonce_too_low_count(), 0);
}

#[test]
fn nonce_too_low_increments_count() {
    let mut state = SendState::new();
    assert_eq!(state.nonce_too_low_count(), 0);
    state.nonce_too_low();
    assert_eq!(state.nonce_too_low_count(), 1);
    state.nonce_too_low();
    assert_eq!(state.nonce_too_low_count(), 2);
}

#[test]
fn should_abort_nonce_with_threshold() {
    let cases: [(u32, u32, bool); 7] =
        [(0, 0, false), (0, 1, false), (1, 1, true), (2, 1, true), (5, 10, false), (10, 10, true), (11, 10, true)];
    for (count, threshold, expected) in cases {
        let mut state = SendState::new();
        for _ in 0..count {
            state.nonce_too_low();
        }
        assert_eq!(state.should_abort_nonce(threshold), expected);
    }
}

#[test]
fn set_bump_fees_sets_flag_and_increments_count() {
    let mut state = SendState::new();
    assert!(!state.bump_fees());
    assert_eq!(state.bump_count(), 0);
    state.set_bump_fees();
    assert!(state.bump_fees());
    assert_eq!(state.bump_count(), 1);
    state.set_bump_fees();
    assert!(state.bump_fees());
    assert_eq!(state.bump_count(), 2);
}

#[test]
fn take_bump_fees_returns_and_clears_flag() {
    let mut state = SendState::new();
    assert!(!state.bump_fees());
    assert!(!state.take_bump_fees());
    assert!(!state.bump_fees());
    state.set_bump_fees();
    assert!(state.bump_fees());
    assert!(state.take_bump_fees());
    assert!(!state.bump_fees());
    assert!(!state.take_bump_fees());
    assert!(!state.bump_fees());
}

#[test]
fn bump_count_persists_after_take_bump_fees() {
    let mut state = SendState::new();
    state.set_bump_fees();
    assert_eq!(state.bump_count(), 1);
    state.take_bump_fees();
    assert_eq!(state.bump_count(), 1);
    state.set_bump_fees();
    assert_eq!(state.bump_count(), 2);
    state.take_bump_fees();
    assert_eq!(state.bump_count(), 2);
}

#[test]
fn send_state_debug() {
    let state = SendState::new();
    let debug_str = format!("{:?}", state);
    assert!(debug_str.contains("SendState"));
}

#[test]
fn complex_state_transitions() {
    let mut state = SendState::new();
    let hash1 = [1u8; 32];
    let hash2 = [2u8; 32];
    state.tx_published();
    assert!(state.was_published());
    assert_eq!(state.successful_publish_count(), 1);
    state.tx_mined(hash1);
    assert_eq!(state.mined_count(), 1);
    state.nonce_too_low();
    state.nonce_too_low();
    assert!(!state.should_abort_nonce(3));
    assert!(state.should_abort_nonce(2));
    state.set_bump_fees();
    assert_eq!(state.bump_count(), 1);
    assert!(state.take_bump_fees());
    state.tx_published();
    assert_eq!(state.successful_publish_count(), 2);
    state.tx_mined(hash2);
    assert_eq!(state.mined_count(), 2);
    state.tx_not_mined(&hash1);
    assert_eq!(state.mined_count(), 1);
    assert_eq!(state.nonce_too_low_count(), 2);
    state.tx_not_mined(&hash2);
    assert_eq!(state.mined_count(), 0);
    assert_eq!(state.nonce_too_low_count(), 0);
}

#[test]
fn multiple_fee_bumps_tracked() {
    let mut state = SendState::new();
    for i in 1..=5 {
        state.set_bump_fees();
        assert_eq!(state.bump_count(), i);
        assert!(state.bump_fees());
        let taken = state.take_bump_fees();
        assert!(taken);
        assert!(!state.bump_fees());
        assert_eq!(state.bump_count(), i);
    }
}

#[test]
fn mined_count_with_duplicate_hashes() {
    let mut state = SendState::new();
    let hash = [42u8; 32];
    state.tx_mined(hash);
    assert_eq!(state.mined_count(), 1);
    state.tx_mined(hash);
    state.tx_mined(hash);
    assert_eq!(state.mined_count(), 1);
    state.tx_not_mined(&hash);
    assert_eq!(state.mined_count(), 0);
}

#[test]
fn mined_then_not_mined_restores_count() {
    let mut state = SendState::new();
    state.tx_mined([7u8; 32]);
    let before = state.mined_count();
    state.tx_mined([8u8; 32]);
    state.tx_not_mined(&[8u8; 32]);
    assert_eq!(state.mined_count(), before);
}

// ---------------------------------------------------------------------------
// Error classification and the abort rule
// ---------------------------------------------------------------------------

#[test]
fn test_classify_error_underpriced() {
    assert!(matches!(from_rpc_error("transaction underpriced"), TxError::Underpriced));
    assert!(matches!(from_rpc_error("replacement transaction underpriced"), TxError::Underpriced));
}

#[test]
fn test_classify_error_nonce_too_low() {
    assert!(matches!(from_rpc_error("nonce too low"), TxError::NonceTooLow));
    assert!(matches!(from_rpc_error("Nonce too low"), TxError::NonceTooLow));
}

#[test]
fn test_classify_error_insufficient_funds() {
    assert!(matches!(from_rpc_error("insufficient funds"), TxError::InsufficientFunds));
    assert!(matches!(from_rpc_error("insufficient balance"), TxError::InsufficientFunds));
}

#[test]
fn test_classify_error_reverted() {
    assert!(matches!(from_rpc_error("transaction reverted"), TxError::Reverted));
    assert!(matches!(from_rpc_error("execution reverted"), TxError::Reverted));
}

#[test]
fn test_classify_error_already_reserved() {
    assert!(matches!(from_rpc_error("already known"), TxError::AlreadyReserved));
    assert!(matches!(from_rpc_error("already reserved"), TxError::AlreadyReserved));
}

#[test]
fn test_classify_error_generic_rpc() {
    match from_rpc_error("connection timeout") {
        TxError::Rpc(msg) => assert_eq!(msg, "connection timeout"),
        _ => panic!("Expected TxError::Rpc variant"),
    }
}

#[test]
fn test_classify_error_case_insensitive() {
    assert!(matches!(from_rpc_error("nonce too low"), TxError::NonceTooLow));
    assert!(matches!(from_rpc_error("NONCE TOO LOW"), TxError::NonceTooLow));
    assert!(matches!(from_rpc_error("Nonce Too Low"), TxError::NonceTooLow));
}

#[test]
fn test_classify_error_with_context() {
    let err = from_rpc_error("failed to send transaction: replacement transaction underpriced");
    assert!(matches!(err, TxError::Underpriced));
}

#[test]
fn test_classify_empty_error() {
    match from_rpc_error("") {
        TxError::Rpc(msg) => assert_eq!(msg, ""),
        _ => panic!("Expected TxError::Rpc variant"),
    }
}

#[test]
fn classify_error_first_rule_wins() {
    // "already known" is checked before "nonce too low".
    assert!(matches!(from_rpc_error("nonce too low: already known"), TxError::AlreadyReserved));
    // The node's message is carried unchanged, case included.
    match from_rpc_error("Boom") {
        TxError::Rpc(msg) => assert_eq!(msg, "Boom"),
        _ => panic!("Expected TxError::Rpc variant"),
    }
}

#[test]
fn test_should_abort_always_abort_errors() {
    let policy = default_abort();
    let state = SendState::new();
    assert!(policy.should_abort(&TxError::AlreadyReserved, &state));
    assert!(policy.should_abort(&TxError::InsufficientFunds, &state));
    assert!(policy.should_abort(&TxError::NonceTooLowAbort, &state));
}

#[test]
fn test_should_abort_nonce_too_low_below_threshold() {
    let policy = default_abort();
    let mut state = SendState::new();
    state.nonce_too_low();
    assert!(!policy.should_abort(&TxError::NonceTooLow, &state));
    state.nonce_too_low();
    assert!(!policy.should_abort(&TxError::NonceTooLow, &state));
}

#[test]
fn test_should_abort_nonce_too_low_at_threshold() {
    let policy = default_abort();
    let mut state = SendState::new();
    state.nonce_too_low();
    state.nonce_too_low();
    state.nonce_too_low();
    assert!(policy.should_abort(&TxError::NonceTooLow, &state));
}

#[test]
fn test_should_abort_nonce_too_low_above_threshold() {
    let policy = default_abort();
    let mut state = SendState::new();
    for _ in 0..4 {
        state.nonce_too_low();
    }
    assert!(policy.should_abort(&TxError::NonceTooLow, &state));
}

#[test]
fn test_should_abort_retryable_errors() {
    let policy = default_abort();
    let state = SendState::new();
    let errors = vec![
        TxError::Rpc("test".to_string()),
        TxError::Underpriced,
        TxError::NotInMempool,
        TxError::BlobGasTooExpensive { current: 100, max: 50 },
        TxError::ConfirmationTimeout,
        TxError::Reverted,
        TxError::Signing("test".to_string()),
        TxError::GasEstimation("test".to_string()),
    ];
    for e in errors {
        assert!(!policy.should_abort(&e, &state));
    }
}

#[test]
fn test_should_abort_with_custom_threshold() {
    let policy = AbortPolicy { safe_abort_nonce_too_low_count: 5 };
    let mut state = SendState::new();
    for _ in 0..4 {
        state.nonce_too_low();
    }
    assert!(!policy.should_abort(&TxError::NonceTooLow, &state));
    state.nonce_too_low();
    assert!(policy.should_abort(&TxError::NonceTooLow, &state));
}

#[test]
fn test_should_abort_state_independence() {
    let policy = default_abort();
    let state = SendState::new();
    assert!(policy.should_abort(&TxError::AlreadyReserved, &state));
    assert!(policy.should_abort(&TxError::InsufficientFunds, &state));
    assert!(policy.should_abort(&TxError::NonceTooLowAbort, &state));
}

#[test]
fn test_should_abort_nonce_too_low_threshold_variants() {
    let cases: [(u32, bool); 5] = [(0, false), (1, false), (2, false), (3, true), (5, true)];
    for (count, expected) in cases {
        let policy = default_abort();
        let mut state = SendState::new();
        for _ in 0..count {
            state.nonce_too_low();
        }
        assert_eq!(policy.should_abort(&TxError::NonceTooLow, &state), expected);
    }
}

#[test]
fn test_multiple_error_types_with_same_state() {
    let policy = default_abort();
    let mut state = SendState::new();
    state.nonce_too_low();
    state.nonce_too_low();
    assert!(!policy.should_abort(&TxError::Underpriced, &state));
    assert!(!policy.should_abort(&TxError::Rpc("error".to_string()), &state));
    assert!(policy.should_abort(&TxError::InsufficientFunds, &state));
    assert!(policy.should_abort(&TxError::AlreadyReserved, &state));
}

#[test]
fn test_should_abort_with_published_state() {
    let policy = default_abort();
    let mut state = SendState::new();
    state.tx_published();
    state.nonce_too_low();
    assert!(!policy.should_abort(&TxError::NonceTooLow, &state));
    state.nonce_too_low();
    state.nonce_too_low();
    assert!(policy.should_abort(&TxError::NonceTooLow, &state));
}

#[test]
fn test_should_abort_with_mined_transaction() {
    let policy = default_abort();
    let mut state = SendState::new();
    state.tx_mined([1u8; 32]);
    assert!(policy.should_abort(&TxError::InsufficientFunds, &state));
    assert!(policy.should_abort(&TxError::AlreadyReserved, &state));
    assert!(!policy.should_abort(&TxError::Underpriced, &state));
}

#[test]
fn should_abort_zero_threshold_never_aborts_on_nonce() {
    let policy = AbortPolicy { safe_abort_nonce_too_low_count: 0 };
    let mut state = SendState::new();
    for _ in 0..10 {
        state.nonce_too_low();
    }
    assert!(!policy.should_abort(&TxError::NonceTooLow, &state));
}

#[test]
fn build_request_copies_calldata_candidate() {
    let builder = TxBuilder::new(Arc::new(()), 31337);
    let candidate = TxCandidate::calldata([5u8; 20], vec![1, 2, 3]).with_gas_limit(90_000).with_value(u256(12));
    let caps = GasCaps::new(3_000_000_000, 2_000_000, Some(77));
    let request = builder.build_request(&candidate, 9, &caps, [6u8; 20]);
    assert_eq!(request.to, [5u8; 20]);
    assert_eq!(request.value, u256(12));
    assert_eq!(request.input, vec![1, 2, 3]);
    assert_eq!(request.nonce, 9);
    assert_eq!(request.chain_id, 31337);
    assert_eq!(request.from, [6u8; 20]);
    assert_eq!(request.max_fee_per_gas, 3_000_000_000);
    assert_eq!(request.max_priority_fee_per_gas, 2_000_000);
    assert_eq!(request.gas_limit, Some(90_000));
    assert!(request.blob_sidecar.is_none());
    assert_eq!(request.max_fee_per_blob_gas, None);
}

#[test]
fn build_request_carries_blob_sidecar_and_blob_fee() {
    let builder = TxBuilder::new(Arc::new(()), 1);
    let sidecar = create_blob_sidecar(&[1u8; 100]).unwrap().unwrap();
    let candidate = TxCandidate::blob([5u8; 20], sidecar.clone());
    let with_cap = builder.build_request(&candidate, 0, &GasCaps::new(10, 1, Some(55)), [0u8; 20]);
    assert_eq!(with_cap.blob_sidecar, Some(sidecar.clone()));
    assert_eq!(with_cap.max_fee_per_blob_gas, Some(55));
    assert_eq!(with_cap.gas_limit, None);
    let without_cap = builder.build_request(&candidate, 0, &GasCaps::new(10, 1, None), [0u8; 20]);
    assert_eq!(without_cap.blob_sidecar, Some(sidecar));
    assert_eq!(without_cap.max_fee_per_blob_gas, None);
}

#[test]
fn caps_from_latest_block_decisions() {
    match caps_from_latest_block(None, 1) {
        Err(TxError::GasEstimation(m)) => assert_eq!(m, "Latest block not found"),
        _ => panic!("expected a missing block"),
    }
    match caps_from_latest_block(Some((None, Some(0))), 1) {
        Err(TxError::GasEstimation(m)) => assert_eq!(m, "Base fee not available"),
        _ => panic!("expected a missing base fee"),
    }
    let caps = caps_from_latest_block(Some((Some(30), Some(0))), 2).unwrap();
    assert_eq!(caps.max_priority_fee_per_gas(), 2);
    assert_eq!(caps.max_fee_per_gas(), 32);
    assert_eq!(caps.blob_fee_cap, Some(u256(1)));
    let no_blob = caps_from_latest_block(Some((Some(30), None)), 2).unwrap();
    assert_eq!(no_blob.blob_fee_cap, None);
}
