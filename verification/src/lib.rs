//! Verified core of the Montana L2 batching and derivation stack.
//!
//! The library holds the data model of batches and blocks, the wire format
//! of submitted batches, the batching and derivation decisions, the
//! transaction-manager bookkeeping and fee arithmetic, and the compressors.

pub mod text;
pub mod fees;
pub mod pipeline;
pub mod payload;
pub mod batcher;
pub mod driver;
pub mod txmgr;
pub mod compression;
pub mod local_source;
pub mod latency;
pub mod batch_runner;
pub mod derivation;
pub mod anvil;
pub mod batch_context;
pub mod feeder;
