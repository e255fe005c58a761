use montana::anvil::AnvilError;
use montana::batch_context::{BatchQueue, BatchSubmissionMode, SinkError as ContextSinkError, SourceError as ContextSourceError};
use montana::payload::{
    create_blob_sidecar, decode_batch_payload, encode_batch_payload, is_inbox_tx, sink_request, plan_submission, submission_receipt, BatchScanState, SubmissionPlan,
    MAX_CALLDATA_SIZE, USABLE_BYTES_PER_BLOB,
};
use montana::pipeline::{CompressedBatch, SinkError, SourceError};

// ---------------------------------------------------------------------------
// Anvil errors
// ---------------------------------------------------------------------------

#[test]
fn anvil_error_spawn_display() {
    let err = AnvilError::Spawn("command not found".into());
    assert_eq!(err.to_string(), "Failed to spawn Anvil: command not found");
}

#[test]
fn anvil_error_connection_display() {
    let err = AnvilError::Connection("connection refused".into());
    assert_eq!(err.to_string(), "Failed to connect to Anvil: connection refused");
}

#[test]
fn anvil_error_transaction_display() {
    let err = AnvilError::Transaction("nonce too low".into());
    assert_eq!(err.to_string(), "Transaction failed: nonce too low");
}

#[test]
fn anvil_error_other_displays() {
    assert_eq!(AnvilError::Receipt("gone".into()).to_string(), "Failed to get receipt: gone");
    assert_eq!(AnvilError::BlockNotFound(9).to_string(), "Block not found: 9");
    assert_eq!(AnvilError::Provider("down".into()).to_string(), "Provider error: down");
}

#[test]
fn anvil_error_to_sink_error() {
    let err = AnvilError::Transaction("failed".into());
    let sink_err: SinkError = err.into();
    assert!(matches!(sink_err, SinkError::TxFailed(_)));
}

#[test]
fn anvil_error_to_source_error() {
    let err = AnvilError::BlockNotFound(100);
    let source_err: SourceError = err.into();
    assert!(matches!(source_err, SourceError::Empty));
}

#[test]
fn anvil_error_conversions_keep_messages() {
    match SinkError::from(AnvilError::Spawn("no anvil".into())) {
        SinkError::Connection(m) => assert_eq!(m, "no anvil"),
        other => panic!("unexpected {:?}", other),
    }
    match SinkError::from(AnvilError::BlockNotFound(42)) {
        SinkError::TxFailed(m) => assert_eq!(m, "Block not found: 42"),
        other => panic!("unexpected {:?}", other),
    }
    assert_eq!(SourceError::from(AnvilError::Receipt("r".into())), SourceError::Connection("r".to_string()));
}

// ---------------------------------------------------------------------------
// Posted batch payloads
// ---------------------------------------------------------------------------

fn batch(batch_number: u64, data: Vec<u8>, block_count: u64, first_block: u64, last_block: u64) -> CompressedBatch {
    CompressedBatch { batch_number, data, block_count, first_block, last_block }
}

#[test]
fn payload_header_is_little_endian() {
    let b = batch(3, vec![0xaa, 0xbb], 2, 0x0102, 0x0103);
    let bytes = encode_batch_payload(&b);
    assert_eq!(bytes.len(), 24 + 2);
    assert_eq!(&bytes[0..8], &2u64.to_le_bytes());
    assert_eq!(&bytes[8..16], &0x0102u64.to_le_bytes());
    assert_eq!(&bytes[16..24], &0x0103u64.to_le_bytes());
    assert_eq!(&bytes[24..], &[0xaa, 0xbb]);
}

#[test]
fn payload_roundtrip() {
    let b = batch(3, vec![1, 2, 3, 4], 5, 100, 104);
    let decoded = decode_batch_payload(77, &encode_batch_payload(&b));
    assert_eq!(decoded, CompressedBatch { batch_number: 77, ..b });
}

#[test]
fn payload_legacy_input() {
    let decoded = decode_batch_payload(4, &[1, 2, 3]);
    assert_eq!(decoded, batch(4, vec![1, 2, 3], 1, 0, 0));
}

#[test]
fn plan_submission_cases() {
    assert_eq!(plan_submission(10, false).ok(), Some(SubmissionPlan::Calldata));
    match plan_submission(0, true) {
        Err(SinkError::TxFailed(m)) => assert_eq!(m, "Empty data for blob"),
        other => panic!("unexpected {:?}", other),
    }
    assert_eq!(plan_submission(1, true).ok(), Some(SubmissionPlan::Blob));
    assert_eq!(plan_submission(6 * USABLE_BYTES_PER_BLOB, true).ok(), Some(SubmissionPlan::Blob));
    let n = 6 * USABLE_BYTES_PER_BLOB + 1;
    assert_eq!(plan_submission(n, true).ok(), Some(SubmissionPlan::CalldataFallback { gas_limit: 21_000 + 16 * n as u64 }));
    let n = MAX_CALLDATA_SIZE;
    assert_eq!(plan_submission(n, true).ok(), Some(SubmissionPlan::CalldataFallback { gas_limit: 19_221_000 }));
    match plan_submission(MAX_CALLDATA_SIZE + 1, true) {
        Err(SinkError::TxFailed(m)) => {
            assert_eq!(m, "Batch too large for both blobs and calldata: 1200001 bytes exceeds 1200000 limit")
        }
        other => panic!("unexpected {:?}", other),
    }
}

#[test]
fn submission_receipt_defaults_block_to_zero() {
    let r = submission_receipt(3, [7u8; 32], None);
    assert_eq!(r.batch_number, 3);
    assert_eq!(r.tx_hash, [7u8; 32]);
    assert_eq!(r.l1_block, 0);
    assert_eq!(r.blob_hash, None);
    assert_eq!(submission_receipt(3, [7u8; 32], Some(12)).l1_block, 12);
}

#[test]
fn batch_scan_numbers_batches_from_one() {
    let mut scan = BatchScanState::new();
    assert_eq!(scan.blocks_to_scan(0), None);
    assert_eq!(scan.blocks_to_scan(3), Some((1, 3)));
    let first = scan.on_batch_found(2, 0, &encode_batch_payload(&batch(0, vec![5], 1, 10, 10)));
    assert_eq!(first.batch_number, 1);
    assert_eq!(first.first_block, 10);
    let second = scan.on_batch_found(3, 0, &[9, 9]);
    assert_eq!(second.batch_number, 2);
    assert_eq!(second.data, vec![9, 9]);
    assert_eq!(scan.last_scanned_block, 2);
    scan.on_block_scanned(5);
    assert_eq!(scan.blocks_to_scan(5), None);
    assert_eq!(scan.blocks_to_scan(6), Some((6, 6)));
}

// ---------------------------------------------------------------------------
// Shared sink and source
// ---------------------------------------------------------------------------

#[test]
fn context_sink_error_from_pipeline() {
    let e: ContextSinkError = SinkError::Timeout.into();
    assert_eq!(e.to_string(), "Transaction failed: Timeout");
    let e: ContextSinkError = SinkError::InsufficientFunds.into();
    assert_eq!(e.to_string(), "Transaction failed: Insufficient funds");
    let e: ContextSinkError = SinkError::BlobGasTooExpensive { current: 5, max: 3 }.into();
    assert_eq!(e.to_string(), "Transaction failed: Blob gas too expensive: max=3, current=5");
    let e: ContextSinkError = SinkError::Connection("down".to_string()).into();
    assert_eq!(e.to_string(), "Connection error: down");
    assert_eq!(
        ContextSinkError::remote_unsupported().to_string(),
        "Mode not supported: Remote batch submission mode is currently unsupported."
    );
}

#[test]
fn context_source_error_from_pipeline() {
    let e: ContextSourceError = SourceError::Empty.into();
    assert_eq!(e.to_string(), "No batches available");
    let e: ContextSourceError = SourceError::Connection("lost".to_string()).into();
    assert_eq!(e.to_string(), "Connection error: lost");
}

#[test]
fn in_memory_queue_is_first_in_first_out() {
    let mut queue = BatchQueue::new();
    assert!(queue.next_batch().is_none());
    let r = queue.submit(batch(1, vec![1], 1, 1, 1));
    assert_eq!(r.batch_number, 1);
    assert_eq!(r.tx_hash, [0u8; 32]);
    assert_eq!(r.l1_block, 0);
    assert_eq!(r.blob_hash, None);
    queue.submit(batch(2, vec![2], 1, 2, 2));
    assert_eq!(queue.len(), 2);
    assert_eq!(queue.next_batch().unwrap().batch_number, 1);
    assert_eq!(queue.next_batch().unwrap().batch_number, 2);
    assert!(queue.next_batch().is_none());
    assert_ne!(BatchSubmissionMode::InMemory, BatchSubmissionMode::Anvil);
}

#[test]
fn batch_scan_resumes_within_a_block() {
    let mut scan = BatchScanState::new();
    assert_eq!(scan.start_index(4), 0);
    let first = scan.on_batch_found(4, 1, &[1, 2, 3]);
    assert_eq!(first.batch_number, 1);
    assert_eq!(scan.blocks_to_scan(4), Some((4, 4)));
    assert_eq!(scan.start_index(4), 2);
    assert_eq!(scan.start_index(5), 0);
    let second = scan.on_batch_found(4, 3, &[4]);
    assert_eq!(second.batch_number, 2);
    assert_eq!(scan.start_index(4), 4);
    scan.on_block_scanned(4);
    assert_eq!(scan.blocks_to_scan(4), None);
    assert_eq!(scan.start_index(5), 0);
}

#[test]
fn blob_sidecar_refuses_empty_data() {
    match create_blob_sidecar(&[]) {
        Err(SinkError::TxFailed(m)) => assert_eq!(m, "Empty data for blob"),
        other => panic!("unexpected {:?}", other.map(|s| s.is_some())),
    }
}

#[test]
fn blob_sidecar_falls_back_when_more_than_six_blobs() {
    let data = vec![1u8; USABLE_BYTES_PER_BLOB * 6 + 1];
    assert!(matches!(create_blob_sidecar(&data), Ok(None)));
}

#[test]
fn blob_sidecar_is_built_for_small_data() {
    let data = vec![7u8; 1000];
    let sidecar = create_blob_sidecar(&data).expect("KZG settings available").expect("fits in blobs");
    assert_eq!(sidecar.blobs.len(), 1);
    assert_eq!(sidecar.commitments.len(), 1);
    assert_eq!(sidecar.proofs.len(), 1);
}

#[test]
fn sink_request_in_calldata_mode() {
    let b = batch(4, vec![1, 2, 3], 2, 10, 11);
    let q = sink_request(&b, false).unwrap();
    assert_eq!(q.input, encode_batch_payload(&b));
    assert_eq!(q.gas_limit, None);
    assert!(q.blob_sidecar.is_none());
    assert_eq!(q.max_fee_per_blob_gas, None);
}

#[test]
fn sink_request_in_blob_mode_carries_sidecar_of_payload() {
    let b = batch(4, vec![9; 500], 1, 3, 3);
    let q = sink_request(&b, true).unwrap();
    let encoded = encode_batch_payload(&b);
    assert_eq!(q.input, encoded);
    assert_eq!(q.blob_sidecar, Some(create_blob_sidecar(&encoded).unwrap().unwrap()));
    assert_eq!(q.max_fee_per_blob_gas, Some(1_000_000_000));
    assert_eq!(q.gas_limit, None);
}

#[test]
fn sink_request_falls_back_to_calldata_with_gas_limit() {
    let b = batch(1, vec![0; USABLE_BYTES_PER_BLOB * 6], 1, 0, 0);
    let q = sink_request(&b, true).unwrap();
    let len = (24 + USABLE_BYTES_PER_BLOB * 6) as u64;
    assert_eq!(q.gas_limit, Some((21_000 + 16 * len).min(25_000_000)));
    assert!(q.blob_sidecar.is_none());
    assert_eq!(q.max_fee_per_blob_gas, None);
}

#[test]
fn sink_request_refuses_batch_too_large_for_calldata() {
    let b = batch(1, vec![0; MAX_CALLDATA_SIZE], 1, 0, 0);
    match sink_request(&b, true) {
        Err(SinkError::TxFailed(m)) => assert_eq!(
            m,
            format!("Batch too large for both blobs and calldata: {} bytes exceeds 1200000 limit", MAX_CALLDATA_SIZE + 24)
        ),
        _ => panic!("expected a refusal"),
    }
}

#[test]
fn inbox_filter_matches_only_the_inbox() {
    let inbox = [0xabu8; 20];
    assert!(is_inbox_tx(Some([0xab; 20]), &inbox));
    let mut other = [0xabu8; 20];
    other[19] = 0;
    assert!(!is_inbox_tx(Some(other), &inbox));
    assert!(!is_inbox_tx(None, &inbox));
}
