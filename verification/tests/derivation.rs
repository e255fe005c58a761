use std::time::{Duration, Instant};

use montana::derivation::{
    decompression_step, execution_step, DerivationConfig, DerivationError, DerivationMetrics, DerivationState,
};

fn avg_latency_ms(m: &DerivationMetrics) -> f64 {
    if m.latency_samples() == 0 {
        return 0.0;
    }
    m.latency_sum() as f64 / m.latency_samples() as f64
}

// ---------------------------------------------------------------------------
// Configuration
// ---------------------------------------------------------------------------

#[test]
fn derivation_config_default() {
    let config = DerivationConfig::default();
    assert_eq!(config.poll_interval_ms, 100);
}

#[test]
fn derivation_config_clone() {
    let config = DerivationConfig { poll_interval_ms: 150 };
    let cloned = config.clone();
    assert_eq!(cloned.poll_interval_ms, config.poll_interval_ms);
}

#[test]
fn derivation_config_debug() {
    let config = DerivationConfig::default();
    let debug_str = format!("{:?}", config);
    assert!(debug_str.contains("DerivationConfig"));
    assert!(debug_str.contains("poll_interval_ms"));
}

#[test]
fn derivation_builder_default() {
    let config = DerivationConfig::builder().build();
    let default_config = DerivationConfig::default();
    assert_eq!(config.poll_interval_ms, default_config.poll_interval_ms);
}

#[test]
fn config_builder_poll_interval_ms() {
    let config = DerivationConfig::builder().poll_interval_ms(200).build();
    assert_eq!(config.poll_interval_ms, 200);
}

#[test]
fn config_builder_clone() {
    let builder = DerivationConfig::builder().poll_interval_ms(150);
    let cloned = builder.clone();
    let config1 = builder.build();
    let config2 = cloned.build();
    assert_eq!(config1.poll_interval_ms, config2.poll_interval_ms);
}

#[test]
fn config_builder_debug() {
    let builder = DerivationConfig::builder();
    let debug_str = format!("{:?}", builder);
    assert!(debug_str.contains("DerivationConfigBuilder"));
}

// ---------------------------------------------------------------------------
// Errors
// ---------------------------------------------------------------------------

fn all_derivation_errors() -> Vec<(DerivationError, bool, bool)> {
    vec![
        (DerivationError::SourceError("test".to_string()), true, false),
        (DerivationError::EmptyBatch, true, false),
        (DerivationError::DecompressionFailed("test".to_string()), false, true),
        (DerivationError::Pipeline("test".to_string()), false, false),
        (DerivationError::InternalError("test".to_string()), false, false),
        (DerivationError::ExecutionFailed("test".to_string()), false, true),
    ]
}

#[test]
fn derivation_error_is_retryable_and_is_fatal() {
    for (error, retryable, fatal) in all_derivation_errors() {
        assert_eq!(error.is_retryable(), retryable);
        assert_eq!(error.is_fatal(), fatal);
        assert!(!(error.is_retryable() && error.is_fatal()));
        let _ = format!("{:?}", error);
    }
}

#[test]
fn test_source_error_display() {
    let err = DerivationError::SourceError("connection failed".to_string());
    assert_eq!(err.to_string(), "Batch source error: connection failed");
}

#[test]
fn test_decompression_failed_display() {
    let err = DerivationError::DecompressionFailed("invalid data".to_string());
    assert_eq!(err.to_string(), "Decompression failed: invalid data");
}

#[test]
fn test_empty_batch_display() {
    assert_eq!(DerivationError::EmptyBatch.to_string(), "No batch available");
}

#[test]
fn error_test_pipeline_error_display() {
    let err = DerivationError::Pipeline("pipeline failed".to_string());
    assert_eq!(err.to_string(), "Pipeline error: pipeline failed");
}

#[test]
fn derivation_error_other_displays() {
    assert_eq!(DerivationError::InternalError("boom".to_string()).to_string(), "Internal error: boom");
    assert_eq!(DerivationError::ExecutionFailed("bad".to_string()).to_string(), "Execution failed: bad");
}

#[test]
fn error_test_error_is_clone() {
    let err = DerivationError::SourceError("test".to_string());
    let cloned = err.clone();
    assert_eq!(err.to_string(), cloned.to_string());
}

#[test]
fn test_decompression_failed_clone() {
    let err = DerivationError::DecompressionFailed("corrupt data".to_string());
    let cloned = err.clone();
    assert_eq!(err.to_string(), cloned.to_string());
}

#[test]
fn test_source_error_fields() {
    let err = DerivationError::SourceError("network timeout".to_string());
    if let DerivationError::SourceError(msg) = err {
        assert_eq!(msg, "network timeout");
    } else {
        panic!("Expected SourceError variant");
    }
}

#[test]
fn test_decompression_failed_fields() {
    let err = DerivationError::DecompressionFailed("checksum mismatch".to_string());
    if let DerivationError::DecompressionFailed(msg) = err {
        assert_eq!(msg, "checksum mismatch");
    } else {
        panic!("Expected DecompressionFailed variant");
    }
}

#[test]
fn test_retryable_source_error() {
    assert!(DerivationError::SourceError("temporary failure".to_string()).is_retryable());
}

#[test]
fn test_retryable_empty_batch() {
    assert!(DerivationError::EmptyBatch.is_retryable());
}

#[test]
fn test_fatal_decompression_failed() {
    assert!(DerivationError::DecompressionFailed("corrupt data".to_string()).is_fatal());
}

#[test]
fn error_test_non_retryable_non_fatal_errors() {
    let err = DerivationError::Pipeline("error".to_string());
    assert!(!err.is_retryable(), "Expected {} to not be retryable", err.to_string());
    assert!(!err.is_fatal(), "Expected {} to not be fatal", err.to_string());
}

#[test]
fn derivation_error_messages_for_failed_steps() {
    match DerivationError::decompression(7, "bad header") {
        DerivationError::DecompressionFailed(m) => assert_eq!(m, "Failed to decompress batch #7: bad header"),
        _ => panic!("expected a decompression error"),
    }
    match DerivationError::execution(8, "bad block") {
        DerivationError::ExecutionFailed(m) => assert_eq!(m, "Failed to execute payload for batch #8: bad block"),
        _ => panic!("expected an execution error"),
    }
    match DerivationError::checkpoint("disk full") {
        DerivationError::ExecutionFailed(m) => assert_eq!(m, "Checkpoint error: disk full"),
        _ => panic!("expected an execution error"),
    }
}

// ---------------------------------------------------------------------------
// Metrics
// ---------------------------------------------------------------------------

#[test]
fn metrics_test_new_creates_default_metrics() {
    let metrics = DerivationMetrics::new();
    assert_eq!(metrics.batches_derived, 0);
    assert_eq!(metrics.blocks_derived, 0);
    assert_eq!(metrics.bytes_decompressed, 0);
    assert_eq!(avg_latency_ms(&metrics), 0.0);
}

#[test]
fn test_record_latency_single_sample() {
    let mut metrics = DerivationMetrics::new();
    metrics.record_latency(100);
    assert_eq!(metrics.latency_samples(), 1);
    assert_eq!(avg_latency_ms(&metrics), 100.0);
}

#[test]
fn test_record_latency_multiple_samples() {
    let mut metrics = DerivationMetrics::new();
    metrics.record_latency(100);
    metrics.record_latency(200);
    metrics.record_latency(300);
    assert_eq!(metrics.latency_samples(), 3);
    assert_eq!(avg_latency_ms(&metrics), 200.0);
}

#[test]
fn test_record_latency_max_samples() {
    let mut metrics = DerivationMetrics::new();
    for i in 0..150 {
        metrics.record_latency(i);
    }
    assert_eq!(metrics.latency_samples(), 100);
}

#[test]
fn record_latency_keeps_the_most_recent_hundred() {
    let mut metrics = DerivationMetrics::new();
    for i in 0..150u64 {
        metrics.record_latency(i);
    }
    // The samples 50..150 remain.
    assert_eq!(metrics.latency_sum(), (50..150u128).sum::<u128>());
}

#[test]
fn metrics_test_metrics_clone() {
    let mut metrics = DerivationMetrics::new();
    metrics.batches_derived = 5;
    metrics.blocks_derived = 10;
    metrics.bytes_decompressed = 1000;
    metrics.record_latency(100);
    let cloned = metrics.clone();
    assert_eq!(metrics.batches_derived, cloned.batches_derived);
    assert_eq!(metrics.blocks_derived, cloned.blocks_derived);
    assert_eq!(metrics.bytes_decompressed, cloned.bytes_decompressed);
    assert_eq!(avg_latency_ms(&metrics), avg_latency_ms(&cloned));
}

#[test]
fn test_metrics_debug() {
    let metrics = DerivationMetrics::new();
    let debug_str = format!("{:?}", metrics);
    assert!(debug_str.contains("DerivationMetrics"));
}

#[test]
fn test_incrementing_metrics() {
    let mut metrics = DerivationMetrics::new();
    metrics.batches_derived += 1;
    metrics.blocks_derived += 5;
    metrics.bytes_decompressed += 1024;
    assert_eq!(metrics.batches_derived, 1);
    assert_eq!(metrics.blocks_derived, 5);
    assert_eq!(metrics.bytes_decompressed, 1024);
}

#[test]
fn test_latency_with_varying_values() {
    let mut metrics = DerivationMetrics::new();
    metrics.record_latency(50);
    metrics.record_latency(100);
    metrics.record_latency(150);
    metrics.record_latency(200);
    let avg = avg_latency_ms(&metrics);
    assert!((avg - 125.0).abs() < 0.01);
}

// ---------------------------------------------------------------------------
// Derivation bookkeeping
// ---------------------------------------------------------------------------

#[test]
fn derivation_state_pause_resume_toggle() {
    let mut state = DerivationState::new();
    assert!(!state.is_paused());
    state.pause();
    assert!(state.is_paused());
    state.resume();
    assert!(!state.is_paused());
    state.toggle_pause();
    assert!(state.is_paused());
    state.toggle_pause();
    assert!(!state.is_paused());
}

#[test]
fn should_skip_batch_follows_last_derived() {
    let mut state = DerivationState::new();
    // Nothing derived yet: nothing is skipped, batch 0 included.
    assert!(!state.should_skip_batch(0));
    assert!(!state.should_skip_batch(5));
    state.record_batch_derived(3);
    assert!(state.should_skip_batch(1));
    assert!(state.should_skip_batch(3));
    assert!(!state.should_skip_batch(4));
}

#[test]
fn derived_batches_cover_consecutive_block_ranges() {
    let mut state = DerivationState::with_start_block(10);
    let mut metrics = DerivationMetrics::new();
    state.record_batch_block_count(1, 3);
    let now = Instant::now();
    state.apply_derived_batch(1, 500, &now, &mut metrics);
    assert_eq!(state.last_finalized_block(), 13);
    assert_eq!(metrics.first_block_in_batch, 11);
    assert_eq!(metrics.last_block_in_batch, 13);
    assert_eq!(metrics.blocks_in_current_batch, 3);
    assert_eq!(metrics.current_batch_number, 1);
    assert_eq!(metrics.batches_derived, 1);
    assert_eq!(metrics.blocks_derived, 3);
    assert_eq!(metrics.bytes_decompressed, 500);
    // No count recorded for batch 2: it stands for one block.
    state.apply_derived_batch(2, 100, &now, &mut metrics);
    assert_eq!(metrics.first_block_in_batch, 14);
    assert_eq!(metrics.last_block_in_batch, 14);
    assert_eq!(state.last_finalized_block(), 14);
    assert_eq!(metrics.blocks_derived, 4);
    assert_eq!(metrics.latency_samples(), 0);
}

#[test]
fn derived_batch_with_submission_time_records_latency() {
    let mut state = DerivationState::new();
    let mut metrics = DerivationMetrics::new();
    let submitted = Instant::now();
    state.record_submission(1, submitted);
    let derived = submitted + Duration::from_millis(250);
    state.apply_derived_batch(1, 10, &derived, &mut metrics);
    assert_eq!(metrics.latency_samples(), 1);
    assert_eq!(metrics.latency_sum(), 250);
    // The submission time is consumed.
    state.apply_derived_batch(1, 10, &derived, &mut metrics);
    assert_eq!(metrics.latency_samples(), 1);
}

#[test]
fn recorded_blocks_defaults_to_one() {
    let mut state = DerivationState::new();
    assert_eq!(state.recorded_blocks(4), 1);
    state.record_batch_block_count(4, 9);
    assert_eq!(state.recorded_blocks(4), 9);
    state.record_batch_block_count(4, 2);
    assert_eq!(state.recorded_blocks(4), 2);
    let mut metrics = DerivationMetrics::new();
    state.apply_derived_batch(4, 0, &Instant::now(), &mut metrics);
    assert_eq!(state.recorded_blocks(4), 1);
    assert_eq!(state.last_finalized_block(), 2);
}

#[test]
fn derivation_steps_map_outside_errors() {
    match decompression_step(7, Err(montana::pipeline::CompressionError::Corrupted)) {
        Err(DerivationError::DecompressionFailed(m)) => {
            assert_eq!(m, "Failed to decompress batch #7: Decompression failed: corrupted data")
        }
        _ => panic!("expected a decompression error"),
    }
    assert_eq!(decompression_step(7, Ok(vec![5])).unwrap(), vec![5]);
    match execution_step(8, Err("invalid payload".to_string())) {
        Err(DerivationError::ExecutionFailed(m)) => {
            assert_eq!(m, "Failed to execute payload for batch #8: invalid payload")
        }
        _ => panic!("expected an execution error"),
    }
    assert!(execution_step(8, Ok(())).is_ok());
}

#[test]
fn complete_derivation_refused_payload_changes_nothing() {
    let mut state = DerivationState::with_start_block(10);
    state.record_batch_block_count(3, 4);
    let mut metrics = DerivationMetrics::new();
    match state.complete_derivation(3, 100, Err("bad".to_string()), &Instant::now(), &mut metrics) {
        Err(DerivationError::ExecutionFailed(m)) => assert_eq!(m, "Failed to execute payload for batch #3: bad"),
        _ => panic!("expected an execution error"),
    }
    assert_eq!(state.last_finalized_block(), 10);
    assert_eq!(state.recorded_blocks(3), 4);
    assert!(!state.should_skip_batch(3));
    assert_eq!(metrics.batches_derived, 0);
}

#[test]
fn complete_derivation_accounts_for_executed_batch() {
    let mut state = DerivationState::with_start_block(10);
    state.record_batch_block_count(3, 4);
    let mut metrics = DerivationMetrics::new();
    assert!(state.complete_derivation(3, 100, Ok(()), &Instant::now(), &mut metrics).is_ok());
    assert_eq!(state.last_finalized_block(), 14);
    assert!(state.should_skip_batch(3));
    assert_eq!(metrics.batches_derived, 1);
    assert_eq!(metrics.blocks_derived, 4);
    assert_eq!(metrics.bytes_decompressed, 100);
    assert_eq!(metrics.first_block_in_batch, 11);
    assert_eq!(metrics.last_block_in_batch, 14);
}
