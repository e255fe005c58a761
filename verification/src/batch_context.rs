//! The errors of the shared batch sink and source, and the in-memory queue
//! that hands batches from submission straight to derivation.

use vstd::prelude::*;
use crate::pipeline::{CompressedBatch, SubmissionReceipt};
use crate::text::{decimal, join2, join4, u64_decimal};

verus! {

/// How batches are submitted.
#[derive(Clone, Copy, Debug, PartialEq, Eq)]
pub enum BatchSubmissionMode {
    /// Batches pass through an in-memory queue.
    InMemory,
    /// Batches go to a local Anvil chain.
    Anvil,
    /// Batches go to a remote chain.
    Remote,
}

/// Error type for batch sink operations.
#[derive(Debug)]
pub enum SinkError {
    /// Connection error.
    Connection(String),
    /// Transaction failed.
    TxFailed(String),
    /// Mode not supported.
    Unsupported(String),
}

impl SinkError {
    /// The error's message.
    pub open spec fn message(&self) -> Seq<char> {
        match self {
            SinkError::Connection(m) => "Connection error: "@ + m@,
            SinkError::TxFailed(m) => "Transaction failed: "@ + m@,
            SinkError::Unsupported(m) => "Mode not supported: "@ + m@,
        }
    }

    /// Renders the error's message.
    pub fn to_string(&self) -> (s: String)
        ensures
            s@ == self.message(),
    {
        match self {
            SinkError::Connection(m) => join2("Connection error: ", m.as_str()),
            SinkError::TxFailed(m) => join2("Transaction failed: ", m.as_str()),
            SinkError::Unsupported(m) => join2("Mode not supported: ", m.as_str()),
        }
    }

    /// The error for a mode the context cannot serve.
    pub fn remote_unsupported() -> (e: Self)
        ensures
            e matches SinkError::Unsupported(m) && m@ == "Remote batch submission mode is currently unsupported."@,
    {
        SinkError::Unsupported(String::from_str("Remote batch submission mode is currently unsupported."))
    }
}

/// What a pipeline sink error becomes: connection errors and failed
/// transactions keep their message, every other error is a failed
/// transaction described in words.
pub open spec fn from_pipeline_sink(err: crate::pipeline::SinkError, r: SinkError) -> bool {
    match err {
        crate::pipeline::SinkError::Connection(m) => r == SinkError::Connection(m),
        crate::pipeline::SinkError::TxFailed(m) => r == SinkError::TxFailed(m),
        crate::pipeline::SinkError::Timeout => r matches SinkError::TxFailed(s) && s@ == "Timeout"@,
        crate::pipeline::SinkError::InsufficientFunds => r matches SinkError::TxFailed(s) && s@
            == "Insufficient funds"@,
        crate::pipeline::SinkError::BlobGasTooExpensive { current, max } => r matches SinkError::TxFailed(s)
            && s@ == "Blob gas too expensive: max="@ + decimal(max as nat) + ", current="@ + decimal(
            current as nat,
        ),
    }
}

impl From<crate::pipeline::SinkError> for SinkError {
    /// Carries a pipeline sink error over, see [`from_pipeline_sink`].
    fn from(err: crate::pipeline::SinkError) -> (r: SinkError)
        ensures
            from_pipeline_sink(err, r),
    {
        match err {
            crate::pipeline::SinkError::Connection(msg) => SinkError::Connection(msg),
            crate::pipeline::SinkError::TxFailed(msg) => SinkError::TxFailed(msg),
            crate::pipeline::SinkError::Timeout => SinkError::TxFailed(String::from_str("Timeout")),
            crate::pipeline::SinkError::InsufficientFunds => SinkError::TxFailed(
                String::from_str("Insufficient funds"),
            ),
            crate::pipeline::SinkError::BlobGasTooExpensive { current, max } => SinkError::TxFailed(
                join4(
                    "Blob gas too expensive: max=",
                    u64_decimal(max).as_str(),
                    ", current=",
                    u64_decimal(current).as_str(),
                ),
            ),
        }
    }
}

impl vstd::std_specs::convert::FromSpecImpl<crate::pipeline::SinkError> for SinkError {
    /// The conversion builds new messages, which no spec function can name;
    /// `from` states what it returns instead.
    open spec fn obeys_from_spec() -> bool {
        false
    }

    open spec fn from_spec(err: crate::pipeline::SinkError) -> SinkError {
        vstd::pervasive::arbitrary()
    }
}

/// Error type for batch source operations.
#[derive(Debug)]
pub enum SourceError {
    /// Connection error.
    Connection(String),
    /// No batches available.
    Empty,
}

impl SourceError {
    /// The error's message.
    pub open spec fn message(&self) -> Seq<char> {
        match self {
            SourceError::Connection(m) => "Connection error: "@ + m@,
            SourceError::Empty => "No batches available"@,
        }
    }

    /// Renders the error's message.
    pub fn to_string(&self) -> (s: String)
        ensures
            s@ == self.message(),
    {
        match self {
            SourceError::Connection(m) => join2("Connection error: ", m.as_str()),
            SourceError::Empty => String::from_str("No batches available"),
        }
    }
}

/// What a pipeline source error becomes: the same variant.
pub open spec fn from_pipeline_source(err: crate::pipeline::SourceError) -> SourceError {
    match err {
        crate::pipeline::SourceError::Connection(m) => SourceError::Connection(m),
        crate::pipeline::SourceError::Empty => SourceError::Empty,
    }
}

impl From<crate::pipeline::SourceError> for SourceError {
    /// Carries a pipeline source error over, variant for variant.
    fn from(err: crate::pipeline::SourceError) -> (r: SourceError)
        ensures
            r == from_pipeline_source(err),
    {
        match err {
            crate::pipeline::SourceError::Connection(msg) => SourceError::Connection(msg),
            crate::pipeline::SourceError::Empty => SourceError::Empty,
        }
    }
}

impl vstd::std_specs::convert::FromSpecImpl<crate::pipeline::SourceError> for SourceError {
    open spec fn obeys_from_spec() -> bool {
        true
    }

    open spec fn from_spec(err: crate::pipeline::SourceError) -> SourceError {
        from_pipeline_source(err)
    }
}

/// The receipt an in-memory sink gives for a batch: its number, a zero
/// transaction hash, L1 block 0 and no blob.
pub open spec fn is_in_memory_receipt(r: SubmissionReceipt, batch_number: u64) -> bool {
    &&& r.batch_number == batch_number
    &&& r.tx_hash@ == Seq::new(32, |i: int| 0u8)
    &&& r.l1_block == 0
    &&& r.blob_hash is None
}

/// The receipt an in-memory sink gives for a batch.
pub fn in_memory_receipt(batch: &CompressedBatch) -> (r: SubmissionReceipt)
    ensures
        is_in_memory_receipt(r, batch.batch_number),
{
    let r = SubmissionReceipt { batch_number: batch.batch_number, tx_hash: [0u8; 32], l1_block: 0, blob_hash: None };
    assert(r.tx_hash@ =~= Seq::new(32, |i: int| 0u8));
    r
}

/// In-memory batch queue for direct batch passing: batches leave in the
/// order they were submitted.
#[derive(Debug)]
pub struct BatchQueue {
    batches: Vec<CompressedBatch>,
}

impl View for BatchQueue {
    type V = Seq<CompressedBatch>;

    closed spec fn view(&self) -> Seq<CompressedBatch> {
        self.batches@
    }
}

impl BatchQueue {
    /// An empty queue.
    pub fn new() -> (q: Self)
        ensures
            q@ == Seq::<CompressedBatch>::empty(),
    {
        BatchQueue { batches: Vec::new() }
    }

    /// Appends a batch and gives its in-memory receipt.
    pub fn submit(&mut self, batch: CompressedBatch) -> (r: SubmissionReceipt)
        ensures
            final(self)@ == old(self)@.push(batch),
            is_in_memory_receipt(r, batch.batch_number),
    {
        let receipt = in_memory_receipt(&batch);
        self.batches.push(batch);
        receipt
    }

    /// Takes the oldest batch, if any.
    pub fn next_batch(&mut self) -> (r: Option<CompressedBatch>)
        ensures
            old(self)@.len() == 0 ==> r is None && final(self)@ == old(self)@,
            old(self)@.len() > 0 ==> r == Some(old(self)@[0]) && final(self)@ == old(self)@.skip(1),
    {
        if self.batches.len() == 0 {
            None
        } else {
            let b = self.batches.remove(0);
            proof {
                assert(self.batches@ =~= old(self)@.skip(1));
            }
            Some(b)
        }
    }

    /// Number of queued batches.
    pub fn len(&self) -> (n: usize)
        ensures
            n == self@.len(),
    {
        self.batches.len()
    }
}

} // verus!
