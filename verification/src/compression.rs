//! Compressors of batch data: a pass-through compressor and zlib.

use vstd::prelude::*;
use vstd::slice::slice_to_vec;
use std::io::{Read, Write};
use flate2::Compression;
use flate2::read::ZlibDecoder;
use flate2::write::ZlibEncoder;
use crate::pipeline::{CompressionConfig, CompressionError};

verus! {

/// A compressor that passes data through unchanged.
#[derive(Clone, Copy, Debug, Default)]
pub struct NoopCompressor;

impl NoopCompressor {
    /// Creates a pass-through compressor.
    pub fn new() -> (c: NoopCompressor) {
        NoopCompressor
    }

    /// "Compresses" by copying the data.
    pub fn compress(&self, data: &[u8]) -> (r: Result<Vec<u8>, CompressionError>)
        ensures
            r matches Ok(v) && v@ == data@,
    {
        Ok(slice_to_vec(data))
    }

    /// "Decompresses" by copying the data.
    pub fn decompress(&self, data: &[u8]) -> (r: Result<Vec<u8>, CompressionError>)
        ensures
            r matches Ok(v) && v@ == data@,
    {
        Ok(slice_to_vec(data))
    }
}

/// The outcome of flate2's zlib encoder on `data` at the given level: the
/// stream it produces, or `None` when it reports an error.
pub uninterp spec fn zlib_compressed(level: u32, data: Seq<u8>) -> Option<Seq<u8>>;

/// The data flate2 reads back from a zlib stream, or `None` when it reports
/// the stream as corrupt.
pub uninterp spec fn zlib_decompressed(stream: Seq<u8>) -> Option<Seq<u8>>;

/// flate2's `ZlibEncoder` over a `Vec`: writes the data and finishes the
/// stream. Its outcome is a function of the level and the data alone: the
/// stream named by `zlib_compressed`, or an error where that name is
/// `None`. flate2's decoder reads the data back from such a stream (its
/// round-trip tests show this). A level above 10 trips a debug assertion in
/// flate2's miniz_oxide back end and is excluded.
#[verifier::external_body]
fn zlib_encode(level: u32, data: &[u8]) -> (r: Result<Vec<u8>, CompressionError>)
    requires
        level <= 10,
    ensures
        match zlib_compressed(level, data@) {
            Some(stream) => r matches Ok(v) && v@ == stream && zlib_decompressed(stream) == Some(data@),
            None => r is Err,
        },
{
    let mut encoder = ZlibEncoder::new(Vec::new(), Compression::new(level));
    match encoder.write_all(data) {
        Ok(()) => {},
        Err(e) => return Err(CompressionError::Failed(e.to_string())),
    }
    match encoder.finish() {
        Ok(v) => Ok(v),
        Err(e) => Err(CompressionError::Failed(e.to_string())),
    }
}

/// flate2's `ZlibDecoder` read to the end: the decompressed data, or
/// `Corrupted` when flate2 reports an error.
#[verifier::external_body]
fn zlib_decode(data: &[u8]) -> (r: Result<Vec<u8>, CompressionError>)
    ensures
        match zlib_decompressed(data@) {
            Some(v) => r matches Ok(o) && o@ == v,
            None => r matches Err(CompressionError::Corrupted),
        },
{
    let mut decoder = ZlibDecoder::new(data);
    let mut output = Vec::new();
    match decoder.read_to_end(&mut output) {
        Ok(_) => Ok(output),
        Err(_) => Err(CompressionError::Corrupted),
    }
}

/// A compressor using zlib (DEFLATE), levels 0 (store) to 9 (best).
#[derive(Clone, Debug)]
pub struct ZlibCompressor {
    config: CompressionConfig,
}

impl ZlibCompressor {
    /// The configuration the compressor runs with.
    pub closed spec fn config_spec(&self) -> CompressionConfig {
        self.config
    }

    /// Creates a zlib compressor with the given configuration.
    pub fn new(config: CompressionConfig) -> (c: ZlibCompressor)
        ensures
            c.config_spec() == config,
    {
        ZlibCompressor { config }
    }

    /// Best compression: level 9, window 2^15.
    pub fn best() -> (c: ZlibCompressor)
        ensures
            c.config_spec() == (CompressionConfig { level: 9, window_size: 15 }),
    {
        ZlibCompressor::new(CompressionConfig { level: 9, window_size: 15 })
    }

    /// Fastest compression: level 1, window 2^15.
    pub fn fast() -> (c: ZlibCompressor)
        ensures
            c.config_spec() == (CompressionConfig { level: 1, window_size: 15 }),
    {
        ZlibCompressor::new(CompressionConfig { level: 1, window_size: 15 })
    }

    /// Balanced compression: level 6, window 2^15.
    pub fn balanced() -> (c: ZlibCompressor)
        ensures
            c.config_spec() == (CompressionConfig { level: 6, window_size: 15 }),
    {
        ZlibCompressor::new(CompressionConfig { level: 6, window_size: 15 })
    }

    /// The compression configuration.
    pub fn config(&self) -> (c: &CompressionConfig)
        ensures
            *c == self.config_spec(),
    {
        &self.config
    }

    /// Compresses the data into a zlib stream at the configured level: the
    /// stream flate2 produces, which decompresses to the data, or an error
    /// where flate2 reports one. A level above 10 trips a debug assertion in
    /// flate2 and is excluded.
    pub fn compress(&self, data: &[u8]) -> (r: Result<Vec<u8>, CompressionError>)
        requires
            self.config_spec().level <= 10,
        ensures
            match zlib_compressed(self.config_spec().level, data@) {
                Some(stream) => r matches Ok(v) && v@ == stream && zlib_decompressed(stream) == Some(data@),
                None => r is Err,
            },
    {
        zlib_encode(self.config.level, data)
    }

    /// Decompresses a zlib stream; a stream flate2 cannot read is
    /// `Corrupted`.
    pub fn decompress(&self, data: &[u8]) -> (r: Result<Vec<u8>, CompressionError>)
        ensures
            match zlib_decompressed(data@) {
                Some(v) => r matches Ok(o) && o@ == v,
                None => r matches Err(CompressionError::Corrupted),
            },
    {
        zlib_decode(data)
    }
}

impl Default for ZlibCompressor {
    /// Balanced compression (level 6).
    fn default() -> (c: Self)
        ensures
            c.config_spec() == (CompressionConfig { level: 6, window_size: 15 }),
    {
        ZlibCompressor::balanced()
    }
}

} // verus!
