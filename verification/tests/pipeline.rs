use montana::compression::{NoopCompressor, ZlibCompressor};
use montana::pipeline::{CodecError, CompressionConfig, CompressionError, SinkError};

// ---------------------------------------------------------------------------
// Errors
// ---------------------------------------------------------------------------

#[test]
fn codec_error_invalid_version_display() {
    assert_eq!(CodecError::InvalidVersion(0x01).to_string(), "Invalid version: 1");
    assert_eq!(CodecError::InvalidVersion(0xFF).to_string(), "Invalid version: 255");
}

#[test]
fn codec_error_truncated_display() {
    assert_eq!(CodecError::Truncated(0).to_string(), "Truncated data at offset 0");
    assert_eq!(CodecError::Truncated(67).to_string(), "Truncated data at offset 67");
    assert_eq!(CodecError::Truncated(1000).to_string(), "Truncated data at offset 1000");
}

#[test]
fn codec_error_invalid_block_count_display() {
    let err = CodecError::InvalidBlockCount;
    assert_eq!(err.to_string(), "Invalid block count");
}

#[test]
fn codec_error_debug() {
    let err = CodecError::InvalidVersion(0x01);
    let debug_str = format!("{:?}", err);
    assert!(debug_str.contains("InvalidVersion"));
}

#[test]
fn compression_config_default() {
    let config = CompressionConfig::default();
    assert_eq!(config.level, 11);
    assert_eq!(config.window_size, 22);
}

#[test]
fn compression_config_clone() {
    let config = CompressionConfig { level: 9, window_size: 20 };
    let cloned = config.clone();
    assert_eq!(cloned.level, config.level);
    assert_eq!(cloned.window_size, config.window_size);
}

#[test]
fn compression_config_debug() {
    let config = CompressionConfig::default();
    let debug_str = format!("{:?}", config);
    assert!(debug_str.contains("CompressionConfig"));
    assert!(debug_str.contains("level"));
    assert!(debug_str.contains("window_size"));
}

#[test]
fn compression_error_failed_display() {
    assert_eq!(CompressionError::Failed("io error".to_string()).to_string(), "Compression failed: io error");
    assert_eq!(
        CompressionError::Failed("buffer overflow".to_string()).to_string(),
        "Compression failed: buffer overflow"
    );
    assert_eq!(CompressionError::Failed(String::new()).to_string(), "Compression failed: ");
}

#[test]
fn compression_error_corrupted_display() {
    let err = CompressionError::Corrupted;
    assert_eq!(err.to_string(), "Decompression failed: corrupted data");
}

#[test]
fn compression_error_too_large_display() {
    assert_eq!(CompressionError::TooLarge { size: 1000, max: 512 }.to_string(), "Input too large: 1000 > 512");
    assert_eq!(
        CompressionError::TooLarge { size: 128 * 1024 + 1, max: 128 * 1024 }.to_string(),
        "Input too large: 131073 > 131072"
    );
    assert_eq!(
        CompressionError::TooLarge { size: usize::MAX, max: 0 }.to_string(),
        format!("Input too large: {} > 0", usize::MAX)
    );
}

#[test]
fn compression_error_debug() {
    let err = CompressionError::Corrupted;
    let debug_str = format!("{:?}", err);
    assert!(debug_str.contains("Corrupted"));
}

#[test]
fn sink_error_connection_display() {
    assert_eq!(
        SinkError::Connection("connection refused".to_string()).to_string(),
        "L1 connection failed: connection refused"
    );
    assert_eq!(SinkError::Connection("timeout".to_string()).to_string(), "L1 connection failed: timeout");
}

#[test]
fn sink_error_tx_failed_display() {
    assert_eq!(SinkError::TxFailed("nonce too low".to_string()).to_string(), "Transaction failed: nonce too low");
}

#[test]
fn sink_error_insufficient_funds_display() {
    let err = SinkError::InsufficientFunds;
    assert_eq!(err.to_string(), "Insufficient funds");
}

#[test]
fn sink_error_blob_gas_display() {
    assert_eq!(SinkError::BlobGasTooExpensive { current: 100, max: 50 }.to_string(), "Blob gas too expensive: 100 > 50");
    assert_eq!(
        SinkError::BlobGasTooExpensive { current: 1000000, max: 500000 }.to_string(),
        "Blob gas too expensive: 1000000 > 500000"
    );
}

#[test]
fn sink_error_timeout_display() {
    let err = SinkError::Timeout;
    assert_eq!(err.to_string(), "Timeout waiting for confirmation");
}

#[test]
fn sink_error_debug() {
    let err = SinkError::Timeout;
    let debug_str = format!("{:?}", err);
    assert!(debug_str.contains("Timeout"));
}

// ---------------------------------------------------------------------------
// Pass-through compressor
// ---------------------------------------------------------------------------

#[test]
fn noop_compressor_compress() {
    let compressor = NoopCompressor::new();
    for data in [&[][..], &[1, 2, 3][..], &[0u8; 1000][..], &[0xde, 0xad, 0xbe, 0xef][..]] {
        assert_eq!(compressor.compress(data).unwrap(), data);
    }
}

#[test]
fn noop_compressor_decompress() {
    let compressor = NoopCompressor::new();
    for data in [&[][..], &[1, 2, 3][..], &[0u8; 1000][..]] {
        assert_eq!(compressor.decompress(data).unwrap(), data);
    }
}

#[test]
fn noop_compressor_roundtrip() {
    let compressor = NoopCompressor::default();
    for data in [&[1, 2, 3, 4, 5][..], &[0u8; 100][..], &[0xff; 50][..]] {
        let compressed = compressor.compress(data).unwrap();
        assert_eq!(compressor.decompress(&compressed).unwrap(), data);
    }
}

#[test]
fn noop_compressor_debug() {
    let compressor = NoopCompressor::new();
    let debug_str = format!("{:?}", compressor);
    assert!(debug_str.contains("NoopCompressor"));
}

// ---------------------------------------------------------------------------
// Zlib compressor
// ---------------------------------------------------------------------------

#[test]
fn zlib_compressor_default() {
    let compressor = ZlibCompressor::default();
    assert_eq!(compressor.config().level, 6);
    assert_eq!(compressor.config().window_size, 15);
}

#[test]
fn zlib_compressor_best() {
    assert_eq!(ZlibCompressor::best().config().level, 9);
}

#[test]
fn zlib_compressor_fast() {
    assert_eq!(ZlibCompressor::fast().config().level, 1);
}

#[test]
fn zlib_compressor_balanced() {
    assert_eq!(ZlibCompressor::balanced().config().level, 6);
}

#[test]
fn zlib_compressor_custom_config() {
    for (level, window_size) in [(1u32, 15u32), (6, 15), (9, 15)] {
        let compressor = ZlibCompressor::new(CompressionConfig { level, window_size });
        assert_eq!(compressor.config().level, level);
        assert_eq!(compressor.config().window_size, window_size);
    }
}

#[test]
fn zlib_compressor_compress_empty() {
    let compressor = ZlibCompressor::default();
    let compressed = compressor.compress(&[]).unwrap();
    assert!(!compressed.is_empty());
}

#[test]
fn zlib_compressor_roundtrip() {
    let compressor = ZlibCompressor::default();
    for data in [
        &[1, 2, 3, 4, 5][..],
        &[0u8; 100][..],
        &[0xde, 0xad, 0xbe, 0xef][..],
        &b"hello world hello world hello world"[..],
    ] {
        let compressed = compressor.compress(data).unwrap();
        assert_eq!(compressor.decompress(&compressed).unwrap(), data);
    }
}

#[test]
fn zlib_compressor_roundtrip_large() {
    let compressor = ZlibCompressor::default();
    let data: Vec<u8> = (0..10240).map(|i| (i * 17 + 31) as u8).collect();
    let compressed = compressor.compress(&data).unwrap();
    let decompressed = compressor.decompress(&compressed).unwrap();
    assert_eq!(decompressed, data);
}

#[test]
fn zlib_compressor_compression_reduces_size() {
    let compressor = ZlibCompressor::default();
    let data = vec![0u8; 10000];
    let compressed = compressor.compress(&data).unwrap();
    assert!(compressed.len() < data.len() / 10);
}

#[test]
fn zlib_compressor_decompress_invalid_data() {
    let compressor = ZlibCompressor::default();
    let invalid_data = vec![0xFF, 0xFE, 0xFD, 0xFC];
    let result = compressor.decompress(&invalid_data);
    assert!(matches!(result, Err(CompressionError::Corrupted)));
}

#[test]
fn zlib_compressor_debug() {
    let compressor = ZlibCompressor::default();
    let debug_str = format!("{:?}", compressor);
    assert!(debug_str.contains("ZlibCompressor"));
    assert!(debug_str.contains("config"));
}

#[test]
fn zlib_compressor_clone() {
    let compressor = ZlibCompressor::new(CompressionConfig { level: 5, window_size: 15 });
    let cloned = compressor.clone();
    assert_eq!(cloned.config().level, compressor.config().level);
    assert_eq!(cloned.config().window_size, compressor.config().window_size);
}

#[test]
fn zlib_compressor_deterministic() {
    let compressor = ZlibCompressor::default();
    let data = b"test data for deterministic compression";
    let compressed1 = compressor.compress(data).unwrap();
    let compressed2 = compressor.compress(data).unwrap();
    assert_eq!(compressed1, compressed2);
}

#[test]
fn zlib_compressor_all_presets_work() {
    for compressor in [ZlibCompressor::fast(), ZlibCompressor::balanced(), ZlibCompressor::best()] {
        let data = b"test data for all presets";
        let compressed = compressor.compress(data).unwrap();
        let decompressed = compressor.decompress(&compressed).unwrap();
        assert_eq!(decompressed.as_slice(), data);
    }
}

#[test]
fn zlib_higher_level_better_compression() {
    let data = b"hello world ".repeat(1000);
    let fast_compressed = ZlibCompressor::fast().compress(&data).unwrap();
    let best_compressed = ZlibCompressor::best().compress(&data).unwrap();
    assert!(best_compressed.len() <= fast_compressed.len());
}

#[test]
fn zlib_compressed_is_not_the_input() {
    // The compressor must actually transform its input.
    let data = b"abcabcabcabcabcabcabcabc".to_vec();
    let compressed = ZlibCompressor::default().compress(&data).unwrap();
    assert_ne!(compressed, data);
    // zlib streams start with the 0x78 header byte at these levels.
    assert_eq!(compressed[0], 0x78);
}
